use rvk::error::{APIError, Error};

#[test]
fn api_error_message_has_code_and_text() {
    let e = APIError::new(5, "Bad token".to_string());
    assert_eq!(e.message(), "APIError #5: Bad token");
}

#[test]
fn api_error_getters() {
    let e = APIError::new(15, "Access denied".to_string());
    assert_eq!(e.code(), 15);
    assert_eq!(e.msg(), "Access denied");
}

#[test]
fn api_error_message_multi_digit_and_zero() {
    assert_eq!(APIError::new(0, "x".to_string()).message(), "APIError #0: x");
    assert_eq!(APIError::new(1234, "y".to_string()).message(), "APIError #1234: y");
    assert_eq!(
        APIError::new(u64::MAX, String::new()).message(),
        "APIError #18446744073709551615: "
    );
}

#[test]
fn error_message_delegates() {
    let api: Error = APIError::new(6, "Too many requests per second".to_string()).into();
    assert_eq!(api.message(), "APIError #6: Too many requests per second");
    let other: Error = "no token".into();
    assert_eq!(other.message(), "no token");
    let owned: Error = String::from("bad input").into();
    assert_eq!(owned.message(), "bad input");
    let serde_err = serde_json::from_str::<serde_json::Value>("{").unwrap_err();
    let text = serde_err.to_string();
    let wrapped: Error = serde_err.into();
    assert!(matches!(wrapped, Error::Serde(_)));
    assert_eq!(wrapped.message(), text);
}
