use native_host::codec::{decode_request, encode_response, request_of_fields, DecodeError};
use native_host::protocol::{Request, Response};

#[test]
fn decode_ping_request() {
    let r = decode_request(b"{\"action\":\"ping\"}");
    assert_eq!(r, Ok(Request::Ping));
}

#[test]
fn decode_save_request() {
    let r = decode_request(b"{\"action\":\"save\",\"path\":\"/tmp/x/y.txt\",\"content\":\"hi\"}");
    assert_eq!(
        r,
        Ok(Request::Save { path: "/tmp/x/y.txt".to_string(), content: "hi".to_string() })
    );
}

#[test]
fn decode_rejects_malformed_json() {
    assert_eq!(decode_request(b"{\"action\":"), Err(DecodeError::MalformedJson));
    assert_eq!(decode_request(b""), Err(DecodeError::MalformedJson));
    assert_eq!(decode_request(b"{\"action\":\"ping\"} trailing"), Err(DecodeError::MalformedJson));
}

#[test]
fn decode_rejects_missing_action() {
    assert_eq!(decode_request(b"{}"), Err(DecodeError::MissingAction));
    assert_eq!(decode_request(b"17"), Err(DecodeError::MissingAction));
    assert_eq!(decode_request(b"{\"action\":5}"), Err(DecodeError::MissingAction));
}

#[test]
fn decode_rejects_unknown_action() {
    assert_eq!(decode_request(b"{\"action\":\"shout\"}"), Err(DecodeError::UnknownAction));
    assert_eq!(decode_request(b"{\"action\":\"Ping\"}"), Err(DecodeError::UnknownAction));
}

#[test]
fn decode_rejects_save_without_fields() {
    assert_eq!(
        decode_request(b"{\"action\":\"save\",\"path\":\"/a\"}"),
        Err(DecodeError::MissingField)
    );
    assert_eq!(
        decode_request(b"{\"action\":\"save\",\"content\":\"hi\"}"),
        Err(DecodeError::MissingField)
    );
    assert_eq!(
        decode_request(b"{\"action\":\"save\",\"path\":7,\"content\":\"hi\"}"),
        Err(DecodeError::MissingField)
    );
}

#[test]
fn decode_ignores_extra_fields() {
    let r = decode_request(b"{\"action\":\"ping\",\"extra\":42}");
    assert_eq!(r, Ok(Request::Ping));
}

#[test]
fn fields_select_the_variant() {
    assert_eq!(request_of_fields("ping".to_string(), None, None), Ok(Request::Ping));
    assert_eq!(
        request_of_fields("save".to_string(), Some("/a".to_string()), Some("x".to_string())),
        Ok(Request::Save { path: "/a".to_string(), content: "x".to_string() })
    );
    assert_eq!(
        request_of_fields("save".to_string(), None, Some("x".to_string())),
        Err(DecodeError::MissingField)
    );
    assert_eq!(
        request_of_fields("pong".to_string(), None, None),
        Err(DecodeError::UnknownAction)
    );
}

#[test]
fn encode_pong_is_exact() {
    let out = encode_response(&Response::Pong { success: true });
    assert_eq!(out, b"{\"success\":true}".to_vec());
}

#[test]
fn encode_save_success_is_exact() {
    let out = encode_response(&Response::SaveResult {
        success: true,
        full_path: Some("/tmp/x/y.txt".to_string()),
        error: None,
    });
    assert_eq!(out, b"{\"success\":true,\"full_path\":\"/tmp/x/y.txt\"}".to_vec());
}

#[test]
fn encode_save_failure_is_exact() {
    let out = encode_response(&Response::SaveResult {
        success: false,
        full_path: None,
        error: Some("Path must be absolute".to_string()),
    });
    assert_eq!(out, b"{\"success\":false,\"error\":\"Path must be absolute\"}".to_vec());
}

#[test]
fn encode_error_shape_is_exact() {
    let out = encode_response(&Response::Error {
        success: false,
        error: "bad frame".to_string(),
    });
    assert_eq!(out, b"{\"success\":false,\"error\":\"bad frame\"}".to_vec());
}

#[test]
fn encode_escapes_string_values() {
    let tricky = "he said \"hi\"\nback\\slash".to_string();
    let out = encode_response(&Response::SaveResult {
        success: false,
        full_path: None,
        error: Some(tricky.clone()),
    });
    let v: serde_json::Value = serde_json::from_slice(&out).unwrap();
    assert_eq!(v.get("success").unwrap().as_bool(), Some(false));
    assert_eq!(v.get("error").unwrap().as_str(), Some(tricky.as_str()));
    assert!(v.get("full_path").is_none());
}

#[test]
fn encoded_response_parses_back_as_json() {
    let out = encode_response(&Response::SaveResult {
        success: true,
        full_path: Some("/p/q".to_string()),
        error: None,
    });
    let v: serde_json::Value = serde_json::from_slice(&out).unwrap();
    assert_eq!(v.get("success").unwrap().as_bool(), Some(true));
    assert_eq!(v.get("full_path").unwrap().as_str(), Some("/p/q"));
    assert!(v.get("error").is_none());
}
