//! The audit payload: a stable, human-diffable JSON rendering of an event,
//! used verbatim as the `raw_json` field of an audit record.
//!
//! The encoder is total: every event serializes, so the pipeline's policy of
//! dropping an entry whose serialization fails never has to fire.

use vstd::prelude::*;
use vstd::string::*;
use crate::event::{Choice, ChoiceV, Event, EventV, Segments, SegmentsV};

verus! {

/// The hexadecimal digit for `v` (lower case), meaningful for `0 <= v < 16`.
pub open spec fn hex_digit(v: int) -> char {
    if v == 0 {
        '0'
    } else if v == 1 {
        '1'
    } else if v == 2 {
        '2'
    } else if v == 3 {
        '3'
    } else if v == 4 {
        '4'
    } else if v == 5 {
        '5'
    } else if v == 6 {
        '6'
    } else if v == 7 {
        '7'
    } else if v == 8 {
        '8'
    } else if v == 9 {
        '9'
    } else if v == 10 {
        'a'
    } else if v == 11 {
        'b'
    } else if v == 12 {
        'c'
    } else if v == 13 {
        'd'
    } else if v == 14 {
        'e'
    } else {
        'f'
    }
}

/// How one character appears inside a JSON string literal: quotes and
/// backslashes are escaped, control characters become `\u00XX`, and every
/// other character stands for itself.
pub open spec fn esc_char(c: char) -> Seq<char> {
    if c as u32 == 34 {  // the quote character
        seq!['\\', '"']
    } else if c as u32 == 92 {  // the backslash
        seq!['\\', '\\']
    } else if (c as u32) < 32 {  // a control character
        seq!['\\', 'u', '0', '0', hex_digit(c as u32 as int / 16), hex_digit(c as u32 as int % 16)]
    } else {
        seq![c]
    }
}

/// The JSON escaping of a whole string.
pub open spec fn json_escape(s: Seq<char>) -> Seq<char>
    decreases s.len(),
{
    if s.len() == 0 {
        Seq::empty()
    } else {
        json_escape(s.drop_last()) + esc_char(s.last())
    }
}

/// A JSON string literal: quoted and escaped.
pub open spec fn json_string(s: Seq<char>) -> Seq<char> {
    seq!['"'] + json_escape(s) + seq!['"']
}

/// A JSON optional string: `null` or a string literal.
pub open spec fn json_opt_string(o: Option<Seq<char>>) -> Seq<char> {
    match o {
        None => "null"@,
        Some(s) => json_string(s),
    }
}

/// The decimal rendering of a nonnegative number, most significant digit
/// first.
pub open spec fn dec_seq(n: int) -> Seq<char>
    decreases n,
{
    if n < 10 {
        seq![hex_digit(n)]
    } else {
        dec_seq(n / 10) + seq![hex_digit(n % 10)]
    }
}

/// A JSON optional number.
pub open spec fn json_opt_u32(o: Option<u32>) -> Seq<char> {
    match o {
        None => "null"@,
        Some(n) => dec_seq(n as int),
    }
}

/// One completion choice as a JSON object.
pub open spec fn json_choice(c: ChoiceV) -> Seq<char> {
    "{\"index\":"@ + dec_seq(c.index as int) + ",\"text\":"@ + json_string(c.text) + "}"@
}

/// Comma-separated JSON renderings of a list of choices.
pub open spec fn json_choices(cs: Seq<ChoiceV>) -> Seq<char>
    decreases cs.len(),
{
    if cs.len() == 0 {
        Seq::empty()
    } else if cs.len() == 1 {
        json_choice(cs[0])
    } else {
        json_choices(cs.drop_last()) + ","@ + json_choice(cs.last())
    }
}

/// View of an optional segments value.
pub open spec fn segments_opt_view(o: Option<Segments>) -> Option<SegmentsV> {
    match o {
        None => None,
        Some(s) => Some(s@),
    }
}

/// The segments object as JSON.
pub open spec fn json_segments(o: Option<SegmentsV>) -> Seq<char> {
    match o {
        None => "null"@,
        Some(s) => "{\"prefix\":"@ + json_string(s.prefix) + ",\"suffix\":"@ + json_opt_string(
            s.suffix,
        ) + "}"@,
    }
}

/// The JSON rendering of an event: an object tagged with the variant name,
/// every field spelled out.
pub open spec fn json_of_event(e: EventV) -> Seq<char> {
    match e {
        EventV::View { completion_id, choice_index, view_id } => "{\"View\":{\"completion_id\":"@
            + json_string(completion_id) + ",\"choice_index\":"@ + dec_seq(choice_index as int)
            + ",\"view_id\":"@ + json_opt_string(view_id) + "}}"@,
        EventV::Select { completion_id, choice_index, view_id, kind, elapsed } => "{\"Select\":{\"completion_id\":"@
            + json_string(completion_id) + ",\"choice_index\":"@ + dec_seq(choice_index as int)
            + ",\"view_id\":"@ + json_opt_string(view_id) + ",\"kind\":"@ + json_opt_string(kind)
            + ",\"elapsed\":"@ + json_opt_u32(elapsed) + "}}"@,
        EventV::Dismiss { completion_id, choice_index, view_id, elapsed } => "{\"Dismiss\":{\"completion_id\":"@
            + json_string(completion_id) + ",\"choice_index\":"@ + dec_seq(choice_index as int)
            + ",\"view_id\":"@ + json_opt_string(view_id) + ",\"elapsed\":"@ + json_opt_u32(
            elapsed,
        ) + "}}"@,
        EventV::Completion {
            completion_id,
            language,
            prompt,
            segments,
            choices,
            user_agent,
        } => "{\"Completion\":{\"completion_id\":"@ + json_string(completion_id)
            + ",\"language\":"@ + json_string(language) + ",\"prompt\":"@ + json_string(prompt)
            + ",\"segments\":"@ + json_segments(segments) + ",\"choices\":["@ + json_choices(
            choices,
        ) + "],\"user_agent\":"@ + json_opt_string(user_agent) + "}}"@,
        EventV::ChatCompletion {  } => "{\"ChatCompletion\":{}}"@,
    }
}

/// Appends the single hexadecimal digit for `v`.
fn push_hex_digit(out: &mut String, v: u32)
    requires
        v < 16,
    ensures
        final(out)@ == old(out)@ + seq![hex_digit(v as int)],
{
    let s: &str = if v == 0 {
        "0"
    } else if v == 1 {
        "1"
    } else if v == 2 {
        "2"
    } else if v == 3 {
        "3"
    } else if v == 4 {
        "4"
    } else if v == 5 {
        "5"
    } else if v == 6 {
        "6"
    } else if v == 7 {
        "7"
    } else if v == 8 {
        "8"
    } else if v == 9 {
        "9"
    } else if v == 10 {
        "a"
    } else if v == 11 {
        "b"
    } else if v == 12 {
        "c"
    } else if v == 13 {
        "d"
    } else if v == 14 {
        "e"
    } else {
        "f"
    };
    proof {
        reveal_strlit("0");
        reveal_strlit("1");
        reveal_strlit("2");
        reveal_strlit("3");
        reveal_strlit("4");
        reveal_strlit("5");
        reveal_strlit("6");
        reveal_strlit("7");
        reveal_strlit("8");
        reveal_strlit("9");
        reveal_strlit("a");
        reveal_strlit("b");
        reveal_strlit("c");
        reveal_strlit("d");
        reveal_strlit("e");
        reveal_strlit("f");
        assert(s@ =~= seq![hex_digit(v as int)]);
    }
    out.append(s);
}

/// Appends the decimal rendering of `n`.
fn push_dec_u32(out: &mut String, n: u32)
    ensures
        final(out)@ == old(out)@ + dec_seq(n as int),
    decreases n,
{
    if n >= 10 {
        push_dec_u32(out, n / 10);
    }
    push_hex_digit(out, n % 10);
    proof {
        assert(out@ =~= old(out)@ + dec_seq(n as int));
    }
}

/// Appends the JSON escaping of `s`.
fn push_json_escaped(out: &mut String, s: &str)
    ensures
        final(out)@ == old(out)@ + json_escape(s@),
{
    let n = s.unicode_len();
    let mut i: usize = 0;
    while i < n
        invariant
            0 <= i <= n,
            n == s@.len(),
            out@ == old(out)@ + json_escape(s@.take(i as int)),
        decreases n - i,
    {
        let c = s.get_char(i);
        let code = c as u32;
        if code == 34 {  // the quote character
            out.append("\\\"");
            proof {
                reveal_strlit("\\\"");
                assert("\\\""@ =~= esc_char(s@[i as int]));
            }
        } else if code == 92 {  // the backslash
            out.append("\\\\");
            proof {
                reveal_strlit("\\\\");
                assert("\\\\"@ =~= esc_char(s@[i as int]));
            }
        } else if code < 32 {  // a control character
            out.append("\\u00");
            push_hex_digit(out, code / 16);
            push_hex_digit(out, code % 16);
            proof {
                reveal_strlit("\\u00");
                assert("\\u00"@ + seq![hex_digit(code as int / 16)] + seq![
                    hex_digit(code as int % 16),
                ] =~= esc_char(s@[i as int]));
            }
        } else {
            let piece = s.substring_char(i, i + 1);
            out.append(piece);
            proof {
                assert(piece@ =~= esc_char(s@[i as int]));
            }
        }
        proof {
            assert(s@.take(i as int + 1).drop_last() =~= s@.take(i as int));
            assert(s@.take(i as int + 1).last() == s@[i as int]);
            assert(out@ =~= old(out)@ + json_escape(s@.take(i as int + 1)));
        }
        i = i + 1;
    }
    proof {
        assert(s@.take(n as int) =~= s@);
    }
}

/// Appends `s` as a JSON string literal.
fn push_json_string(out: &mut String, s: &str)
    ensures
        final(out)@ == old(out)@ + json_string(s@),
{
    out.append("\"");
    push_json_escaped(out, s);
    out.append("\"");
    proof {
        reveal_strlit("\"");
        assert(out@ =~= old(out)@ + json_string(s@));
    }
}

/// Appends an optional string as JSON.
fn push_json_opt_string(out: &mut String, o: &Option<String>)
    ensures
        final(out)@ == old(out)@ + json_opt_string(o.deep_view()),
{
    match o {
        None => out.append("null"),
        Some(s) => push_json_string(out, s.as_str()),
    }
}

/// Appends an optional number as JSON.
fn push_json_opt_u32(out: &mut String, o: &Option<u32>)
    ensures
        final(out)@ == old(out)@ + json_opt_u32(*o),
{
    match o {
        None => out.append("null"),
        Some(n) => push_dec_u32(out, *n),
    }
}

/// Appends the comma-separated JSON objects for a list of choices.
fn push_json_choices(out: &mut String, cs: &Vec<Choice>)
    ensures
        final(out)@ == old(out)@ + json_choices(cs@.map_values(|c: Choice| c@)),
{
    let ghost cv = cs@.map_values(|c: Choice| c@);
    let mut i: usize = 0;
    while i < cs.len()
        invariant
            0 <= i <= cs@.len(),
            cv == cs@.map_values(|c: Choice| c@),
            cv.len() == cs@.len(),
            out@ == old(out)@ + json_choices(cv.take(i as int)),
        decreases cs@.len() - i,
    {
        if i > 0 {
            out.append(",");
        }
        out.append("{\"index\":");
        push_dec_u32(out, cs[i].index);
        out.append(",\"text\":");
        push_json_string(out, cs[i].text.as_str());
        out.append("}");
        proof {
            assert(cv[i as int] == cs@[i as int]@);
            assert(cv.take(i as int + 1).drop_last() =~= cv.take(i as int));
            assert(cv.take(i as int + 1).last() == cv[i as int]);
            assert(out@ =~= old(out)@ + json_choices(cv.take(i as int + 1)));
        }
        i = i + 1;
    }
    proof {
        assert(cv.take(cs@.len() as int) =~= cv);
    }
}

/// Appends the optional segments object as JSON.
fn push_json_segments(out: &mut String, o: &Option<Segments>)
    ensures
        final(out)@ == old(out)@ + json_segments(segments_opt_view(*o)),
{
    match o {
        None => out.append("null"),
        Some(s) => {
            out.append("{\"prefix\":");
            push_json_string(out, s.prefix.as_str());
            out.append(",\"suffix\":");
            push_json_opt_string(out, &s.suffix);
            out.append("}");
            proof {
                assert(out@ =~= old(out)@ + json_segments(segments_opt_view(*o)));
            }
        },
    }
}

/// Serializes an event to its stable JSON form: the audit payload.
pub fn serialize_event(e: &Event) -> (r: String)
    ensures
        r@ == json_of_event(e@),
{
    let mut out = String::new();
    match e {
        Event::View { completion_id, choice_index, view_id } => {
            out.append("{\"View\":{\"completion_id\":");
            push_json_string(&mut out, completion_id.as_str());
            out.append(",\"choice_index\":");
            push_dec_u32(&mut out, *choice_index);
            out.append(",\"view_id\":");
            push_json_opt_string(&mut out, view_id);
            out.append("}}");
        },
        Event::Select { completion_id, choice_index, view_id, kind, elapsed } => {
            out.append("{\"Select\":{\"completion_id\":");
            push_json_string(&mut out, completion_id.as_str());
            out.append(",\"choice_index\":");
            push_dec_u32(&mut out, *choice_index);
            out.append(",\"view_id\":");
            push_json_opt_string(&mut out, view_id);
            out.append(",\"kind\":");
            push_json_opt_string(&mut out, kind);
            out.append(",\"elapsed\":");
            push_json_opt_u32(&mut out, elapsed);
            out.append("}}");
        },
        Event::Dismiss { completion_id, choice_index, view_id, elapsed } => {
            out.append("{\"Dismiss\":{\"completion_id\":");
            push_json_string(&mut out, completion_id.as_str());
            out.append(",\"choice_index\":");
            push_dec_u32(&mut out, *choice_index);
            out.append(",\"view_id\":");
            push_json_opt_string(&mut out, view_id);
            out.append(",\"elapsed\":");
            push_json_opt_u32(&mut out, elapsed);
            out.append("}}");
        },
        Event::Completion { completion_id, language, prompt, segments, choices, user_agent } => {
            out.append("{\"Completion\":{\"completion_id\":");
            push_json_string(&mut out, completion_id.as_str());
            out.append(",\"language\":");
            push_json_string(&mut out, language.as_str());
            out.append(",\"prompt\":");
            push_json_string(&mut out, prompt.as_str());
            out.append(",\"segments\":");
            push_json_segments(&mut out, segments);
            out.append(",\"choices\":[");
            push_json_choices(&mut out, choices);
            out.append("],\"user_agent\":");
            push_json_opt_string(&mut out, user_agent);
            out.append("}}");
        },
        Event::ChatCompletion {} => {
            out.append("{\"ChatCompletion\":{}}");
        },
    }
    proof {
        assert(out@ =~= json_of_event(e@));
    }
    out
}

} // verus!
