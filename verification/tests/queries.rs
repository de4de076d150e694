use web_handlers::handlers::generic_query_reply;
use web_handlers::handlers::header_reply;
use web_handlers::handlers::parse_user_query;
use web_handlers::handlers::user_query_route;
use web_handlers::handlers::ExtractError;

#[test]
fn generic_query_with_keyid() {
    assert_eq!(generic_query_reply(Some("42")), "The key id of x 42");
}

#[test]
fn generic_query_without_keyid() {
    assert_eq!(
        generic_query_reply(None),
        "The key id of x No keyid provided"
    );
}

#[test]
fn predefined_query_formats_user() {
    assert_eq!(
        user_query_route(Some("Main St"), Some("30")),
        Ok("The 30 year old user with address Main St".to_string())
    );
}

#[test]
fn predefined_query_rejects_missing_age() {
    assert_eq!(
        user_query_route(Some("Main St"), None),
        Err(ExtractError::MissingField)
    );
}

#[test]
fn predefined_query_rejects_missing_address() {
    assert_eq!(
        user_query_route(None, Some("30")),
        Err(ExtractError::MissingField)
    );
}

#[test]
fn predefined_query_rejects_non_numeric_age() {
    assert_eq!(
        user_query_route(Some("Main St"), Some("abc")),
        Err(ExtractError::InvalidInteger)
    );
}

#[test]
fn parse_user_query_keeps_fields() {
    let q = parse_user_query(Some("Elm Rd"), Some("77")).unwrap();
    assert_eq!(q.address, "Elm Rd");
    assert_eq!(q.age, 77);
}

#[test]
fn header_with_sms_value() {
    assert_eq!(
        header_reply(Some("12345")),
        "The header value for key SMS is 12345"
    );
}

#[test]
fn header_without_sms_value() {
    assert_eq!(
        header_reply(None),
        "The header value for key SMS is No sms header provided"
    );
}
