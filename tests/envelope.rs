use rvk::envelope::{decode_envelope, decode_response};
use rvk::error::Error;
use rvk::json::{parse, Json};

#[test]
fn response_payload_is_returned() {
    let r = decode_response(br#"{"response": 42}"#);
    assert!(matches!(r, Ok(Json::PosInt(42))));
}

#[test]
fn error_envelope_is_api_error() {
    let r = decode_response(br#"{"error":{"error_code":15,"error_msg":"Access denied"}}"#);
    match r {
        Err(Error::API(e)) => {
            assert_eq!(e.code(), 15);
            assert_eq!(e.msg(), "Access denied");
        }
        _ => panic!("expected an API error"),
    }
}

#[test]
fn error_wins_over_response() {
    let r = decode_response(
        br#"{"response": 1, "error":{"error_code":5,"error_msg":"Bad token"}}"#,
    );
    match r {
        Err(Error::API(e)) => {
            assert_eq!(e.code(), 5);
            assert_eq!(e.message(), "APIError #5: Bad token");
        }
        _ => panic!("expected an API error"),
    }
}

#[test]
fn truncated_json_is_decode_error() {
    assert!(matches!(decode_response(br#"{"response": [1, 2"#), Err(Error::Serde(_))));
    assert!(matches!(decode_response(b""), Err(Error::Serde(_))));
    assert!(matches!(decode_response(b"\xff\xfe"), Err(Error::Serde(_))));
}

#[test]
fn missing_response_is_decode_error() {
    assert!(matches!(decode_response(br#"{}"#), Err(Error::Serde(_))));
    assert!(matches!(decode_response(br#"{"other": 1}"#), Err(Error::Serde(_))));
    assert!(matches!(decode_response(br#"[1]"#), Err(Error::Serde(_))));
    assert!(matches!(decode_response(br#"null"#), Err(Error::Serde(_))));
}

#[test]
fn malformed_error_object_is_decode_error() {
    assert!(matches!(
        decode_response(br#"{"error":{"error_msg":"x"}}"#),
        Err(Error::Serde(_))
    ));
    assert!(matches!(
        decode_response(br#"{"error":{"error_code":-1,"error_msg":"x"}}"#),
        Err(Error::Serde(_))
    ));
    assert!(matches!(
        decode_response(br#"{"error":{"error_code":3,"error_msg":7}}"#),
        Err(Error::Serde(_))
    ));
}

#[test]
fn null_response_is_a_payload() {
    assert!(matches!(decode_response(br#"{"response": null}"#), Ok(Json::Null)));
}

#[test]
fn structured_payload_is_kept() {
    match decode_response(br#"{"response": {"items": [1, -2, 2.5, "a", true]}}"#) {
        Ok(p) => match p.get("items") {
            Some(Json::Array(items)) => {
                assert_eq!(items.len(), 5);
                assert!(matches!(items[0], Json::PosInt(1)));
                assert!(matches!(items[1], Json::NegInt(-2)));
                assert!(matches!(&items[2], Json::Decimal(t) if t == "2.5"));
                assert!(matches!(&items[3], Json::Str(t) if t == "a"));
                assert!(matches!(items[4], Json::Bool(true)));
            }
            _ => panic!("expected an array"),
        },
        Err(_) => panic!("expected a payload"),
    }
}

#[test]
fn decode_envelope_on_parsed_value() {
    let v = parse(br#"{"response": "ok"}"#).unwrap();
    assert!(matches!(decode_envelope(v), Ok(Json::Str(s)) if s == "ok"));
    let members = vec![("response".to_string(), Json::Bool(false))];
    assert!(matches!(decode_envelope(Json::Object(members)), Ok(Json::Bool(false))));
}
