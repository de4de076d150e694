use web_handlers::handlers::hello;
use web_handlers::handlers::transaction_route;
use web_handlers::handlers::ExtractError;

#[test]
fn hello_is_fixed() {
    assert_eq!(hello(), "Hello, World!");
}

#[test]
fn transaction_formats_small_id() {
    assert_eq!(transaction_route("7"), Ok("Id is 7".to_string()));
}

#[test]
fn transaction_formats_multi_digit_id() {
    assert_eq!(transaction_route("1024"), Ok("Id is 1024".to_string()));
}

#[test]
fn transaction_formats_zero() {
    assert_eq!(transaction_route("0"), Ok("Id is 0".to_string()));
}

#[test]
fn transaction_formats_largest_id() {
    assert_eq!(
        transaction_route("4294967295"),
        Ok("Id is 4294967295".to_string())
    );
}

#[test]
fn transaction_accepts_plus_sign() {
    assert_eq!(transaction_route("+42"), Ok("Id is 42".to_string()));
}

#[test]
fn transaction_rejects_non_numeric() {
    assert_eq!(transaction_route("abc"), Err(ExtractError::InvalidInteger));
}

#[test]
fn transaction_rejects_empty_segment() {
    assert_eq!(transaction_route(""), Err(ExtractError::InvalidInteger));
}

#[test]
fn transaction_rejects_lone_sign() {
    assert_eq!(transaction_route("+"), Err(ExtractError::InvalidInteger));
}

#[test]
fn transaction_rejects_overflow() {
    assert_eq!(
        transaction_route("4294967296"),
        Err(ExtractError::InvalidInteger)
    );
}

#[test]
fn transaction_rejects_trailing_garbage() {
    assert_eq!(transaction_route("12x"), Err(ExtractError::InvalidInteger));
}
