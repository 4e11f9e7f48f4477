use openai_proxy::errors::ExecutionError;
use openai_proxy::response::normalize_response;
use openai_proxy::MAX_RESPONSE_BYTES;

fn header_value<'a>(headers: &'a [(String, String)], name: &str) -> Option<&'a str> {
    headers.iter().find(|(n, _)| n == name).map(|(_, v)| v.as_str())
}

#[test]
fn body_at_ceiling_is_accepted() {
    let body = "a".repeat(MAX_RESPONSE_BYTES);
    let envelope = normalize_response("rid".to_string(), 200, vec![], body).unwrap();
    assert_eq!(envelope.status, 200);
    assert_eq!(envelope.body.len(), MAX_RESPONSE_BYTES);
}

#[test]
fn body_over_ceiling_is_rejected() {
    let body = "a".repeat(MAX_RESPONSE_BYTES + 1);
    let err = normalize_response("rid".to_string(), 200, vec![], body).unwrap_err();
    match &err {
        ExecutionError::ResponseTooLarge { request_id, size, limit } => {
            assert_eq!(request_id, "rid");
            assert_eq!(*size, MAX_RESPONSE_BYTES + 1);
            assert_eq!(*limit, MAX_RESPONSE_BYTES);
        },
        other => panic!("expected ResponseTooLarge, got {:?}", other),
    }
    assert_eq!(
        err.message(),
        "[Request rid] Response too large: 52428801 bytes (limit: 52428800 bytes)",
    );
}

#[test]
fn remote_error_status_is_not_a_failure() {
    let envelope = normalize_response(
        "rid".to_string(),
        500,
        vec![("x-error".to_string(), Some("yes".to_string()))],
        "{\"error\":\"boom\"}".to_string(),
    )
        .unwrap();
    assert_eq!(envelope.status, 500);
    assert_eq!(envelope.body, "{\"error\":\"boom\"}");
    assert_eq!(header_value(&envelope.headers, "x-error"), Some("yes"));
}

#[test]
fn undecodable_header_value_is_omitted() {
    let envelope = normalize_response(
        "rid".to_string(),
        200,
        vec![
            ("good".to_string(), Some("value".to_string())),
            ("bad".to_string(), None),
        ],
        "ok".to_string(),
    )
        .unwrap();
    assert_eq!(header_value(&envelope.headers, "good"), Some("value"));
    assert_eq!(header_value(&envelope.headers, "bad"), None);
    assert_eq!(envelope.headers.len(), 1);
}

#[test]
fn duplicate_header_names_keep_the_last_decodable_value() {
    let envelope = normalize_response(
        "rid".to_string(),
        200,
        vec![
            ("x-m".to_string(), Some("first".to_string())),
            ("x-m".to_string(), Some("second".to_string())),
            ("x-n".to_string(), Some("kept".to_string())),
            ("x-n".to_string(), None),
        ],
        "ok".to_string(),
    )
        .unwrap();
    assert_eq!(header_value(&envelope.headers, "x-m"), Some("second"));
    assert_eq!(header_value(&envelope.headers, "x-n"), Some("kept"));
    assert_eq!(envelope.headers.len(), 2);
}

#[test]
fn multibyte_body_is_sized_in_bytes() {
    let unit = "あ";
    assert_eq!(unit.len(), 3);
    let count = MAX_RESPONSE_BYTES / 3;
    let body = unit.repeat(count + 1);
    assert!(body.len() > MAX_RESPONSE_BYTES);
    let err = normalize_response("rid".to_string(), 200, vec![], body).unwrap_err();
    match &err {
        ExecutionError::ResponseTooLarge { size, .. } => assert_eq!(*size, (count + 1) * 3),
        other => panic!("expected ResponseTooLarge, got {:?}", other),
    }
}
