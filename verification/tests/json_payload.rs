use event_logger::event::{Choice, Event, Segments};
use event_logger::json::serialize_event;

#[test]
fn view_serializes_exactly() {
    let e = Event::View { completion_id: "c1".into(), choice_index: 2, view_id: None };
    assert_eq!(
        serialize_event(&e),
        "{\"View\":{\"completion_id\":\"c1\",\"choice_index\":2,\"view_id\":null}}"
    );
}

#[test]
fn select_serializes_exactly() {
    let e = Event::Select {
        completion_id: "c".into(),
        choice_index: 10,
        view_id: Some("v1".into()),
        kind: Some("line".into()),
        elapsed: Some(250),
    };
    assert_eq!(
        serialize_event(&e),
        "{\"Select\":{\"completion_id\":\"c\",\"choice_index\":10,\"view_id\":\"v1\",\"kind\":\"line\",\"elapsed\":250}}"
    );
}

#[test]
fn dismiss_serializes_exactly() {
    let e = Event::Dismiss {
        completion_id: "c".into(),
        choice_index: 0,
        view_id: None,
        elapsed: Some(7),
    };
    assert_eq!(
        serialize_event(&e),
        "{\"Dismiss\":{\"completion_id\":\"c\",\"choice_index\":0,\"view_id\":null,\"elapsed\":7}}"
    );
}

#[test]
fn completion_serializes_exactly() {
    let e = Event::Completion {
        completion_id: "c2".into(),
        language: "rust".into(),
        prompt: "fn main".into(),
        segments: Some(Segments { prefix: "p".into(), suffix: None }),
        choices: vec![
            Choice { index: 0, text: "a".into() },
            Choice { index: 1, text: "b".into() },
        ],
        user_agent: None,
    };
    assert_eq!(
        serialize_event(&e),
        "{\"Completion\":{\"completion_id\":\"c2\",\"language\":\"rust\",\"prompt\":\"fn main\",\"segments\":{\"prefix\":\"p\",\"suffix\":null},\"choices\":[{\"index\":0,\"text\":\"a\"},{\"index\":1,\"text\":\"b\"}],\"user_agent\":null}}"
    );
}

#[test]
fn chat_completion_serializes_exactly() {
    assert_eq!(serialize_event(&Event::ChatCompletion {}), "{\"ChatCompletion\":{}}");
}

#[test]
fn strings_are_escaped() {
    let e = Event::View {
        completion_id: "a\"b\\c\nd\te".into(),
        choice_index: 0,
        view_id: None,
    };
    assert_eq!(
        serialize_event(&e),
        "{\"View\":{\"completion_id\":\"a\\\"b\\\\c\\u000ad\\u0009e\",\"choice_index\":0,\"view_id\":null}}"
    );
}

#[test]
fn large_numbers_render_in_decimal() {
    let e = Event::View {
        completion_id: "c".into(),
        choice_index: u32::MAX,
        view_id: None,
    };
    assert_eq!(
        serialize_event(&e),
        "{\"View\":{\"completion_id\":\"c\",\"choice_index\":4294967295,\"view_id\":null}}"
    );
}
