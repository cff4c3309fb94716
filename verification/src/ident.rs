//! Identity resolution: maps the opaque caller-supplied identifier to the
//! internal numeric identity, or reports it unresolved.
//!
//! An identifier resolves exactly when it is a nonempty string of decimal
//! digits whose value fits in `i64`; everything else (absent, malformed) is
//! unresolved. Resolution is a pure lookup with a binary outcome and never
//! raises to the caller.

use vstd::prelude::*;

verus! {

/// Whether `c` is a decimal digit.
pub open spec fn is_dec_digit(c: char) -> bool {
    ('0' as u32) <= (c as u32) && (c as u32) <= ('9' as u32)
}

/// The numeric value of a decimal digit.
pub open spec fn digit_val(c: char) -> int {
    c as u32 - '0' as u32
}

/// Whether every character of `s` is a decimal digit.
pub open spec fn all_dec_digits(s: Seq<char>) -> bool {
    forall|i: int| 0 <= i < s.len() ==> is_dec_digit(#[trigger] s[i])
}

/// The numeric value of a string of decimal digits, most significant first.
pub open spec fn dec_value(s: Seq<char>) -> int
    decreases s.len(),
{
    if s.len() == 0 {
        0
    } else {
        dec_value(s.drop_last()) * 10 + digit_val(s.last())
    }
}

/// An identifier resolves exactly when it is nonempty, all decimal digits,
/// and its value fits the internal identity type.
pub open spec fn is_user_handle(s: Seq<char>) -> bool {
    &&& s.len() >= 1
    &&& all_dec_digits(s)
    &&& dec_value(s) <= i64::MAX
}

/// The identity an optional caller identifier resolves to, if any.
pub open spec fn resolve_user(u: Option<Seq<char>>) -> Option<i64> {
    match u {
        None => None,
        Some(s) => if is_user_handle(s) {
            Some(dec_value(s) as i64)
        } else {
            None
        },
    }
}

proof fn lemma_dec_value_nonneg(s: Seq<char>)
    requires
        all_dec_digits(s),
    ensures
        dec_value(s) >= 0,
    decreases s.len(),
{
    if s.len() > 0 {
        assert(all_dec_digits(s.drop_last()));
        lemma_dec_value_nonneg(s.drop_last());
        assert(is_dec_digit(s.last()));
    }
}

/// A string of digits is worth at least any of its prefixes.
proof fn lemma_dec_value_prefix_le(s: Seq<char>, i: int)
    requires
        all_dec_digits(s),
        0 <= i <= s.len(),
    ensures
        dec_value(s.take(i)) <= dec_value(s),
    decreases s.len() - i,
{
    if i == s.len() {
        assert(s.take(i) =~= s);
    } else {
        assert(s.take(i + 1).drop_last() =~= s.take(i));
        assert(s.take(i + 1).last() == s[i]);
        assert(all_dec_digits(s.take(i)));
        lemma_dec_value_nonneg(s.take(i));
        assert(is_dec_digit(s[i]));
        assert(dec_value(s.take(i + 1)) == dec_value(s.take(i)) * 10 + digit_val(s[i]));
        lemma_dec_value_prefix_le(s, i + 1);
    }
}

/// Parses an opaque identifier. Returns the internal identity exactly when
/// the identifier is a decimal number that fits in `i64`.
pub fn parse_user_handle(s: &str) -> (r: Option<i64>)
    ensures
        r == resolve_user(Some(s@)),
{
    let n = s.unicode_len();
    if n == 0 {
        return None;
    }
    let mut acc: i64 = 0;
    let mut i: usize = 0;
    while i < n
        invariant
            0 <= i <= n,
            n == s@.len(),
            all_dec_digits(s@.take(i as int)),
            acc == dec_value(s@.take(i as int)),
            0 <= acc <= i64::MAX,
        decreases n - i,
    {
        let c = s.get_char(i);
        let code = c as u32;
        if code < 48 || code > 57 {
            proof {
                assert(!is_dec_digit(s@[i as int]));
            }
            return None;
        }
        let d = (code - 48) as i64;
        proof {
            assert(is_dec_digit(s@[i as int]));
            assert(d == digit_val(s@[i as int]));
            assert(s@.take(i as int + 1).drop_last() =~= s@.take(i as int));
            assert(s@.take(i as int + 1).last() == s@[i as int]);
        }
        if acc > (i64::MAX - d) / 10 {
            // The digits read so far already exceed the identity range, and
            // further digits can only make the value larger.
            proof {
                assert(acc * 10 + d > i64::MAX);
                assert(dec_value(s@.take(i as int + 1)) > i64::MAX);
                if all_dec_digits(s@) {
                    lemma_dec_value_prefix_le(s@, i as int + 1);
                }
            }
            return None;
        }
        proof {
            assert(acc * 10 + d <= i64::MAX);
            lemma_dec_value_nonneg(s@.take(i as int));
        }
        acc = acc * 10 + d;
        i = i + 1;
    }
    proof {
        assert(s@.take(n as int) =~= s@);
    }
    Some(acc)
}

/// Resolves the optional caller identifier to the internal numeric identity:
/// `None` when the identifier is absent or malformed.
pub fn get_user_id(user: Option<String>) -> (r: Option<i64>)
    ensures
        r == resolve_user(user.deep_view()),
{
    match user {
        None => None,
        Some(id) => parse_user_handle(id.as_str()),
    }
}

} // verus!
