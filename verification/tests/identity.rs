use event_logger::ident::{get_user_id, parse_user_handle};

#[test]
fn absent_identifier_is_unresolved() {
    assert_eq!(get_user_id(None), None);
}

#[test]
fn decimal_identifiers_resolve() {
    assert_eq!(get_user_id(Some("1".into())), Some(1));
    assert_eq!(get_user_id(Some("42".into())), Some(42));
    assert_eq!(parse_user_handle("0"), Some(0));
    assert_eq!(parse_user_handle("007"), Some(7));
}

#[test]
fn malformed_identifiers_are_unresolved() {
    assert_eq!(get_user_id(Some("testuser".into())), None);
    assert_eq!(get_user_id(Some("".into())), None);
    assert_eq!(parse_user_handle("12a"), None);
    assert_eq!(parse_user_handle("-3"), None);
    assert_eq!(parse_user_handle(" 5"), None);
}

#[test]
fn range_limits_are_exact() {
    assert_eq!(parse_user_handle("9223372036854775807"), Some(i64::MAX));
    assert_eq!(parse_user_handle("9223372036854775808"), None);
    assert_eq!(parse_user_handle("99999999999999999999999"), None);
}
