use openai_proxy::errors::ExecutionError;
use openai_proxy::proxy::ProxyConfig;
use openai_proxy::upload::{prepare_file_upload, FileUploadRequest};

fn plain_upload() -> FileUploadRequest {
    FileUploadRequest {
        base_url: "https://api.example.com/".to_string(),
        api_key: "sk-test-key".to_string(),
        file_data: "aGVsbG8=".to_string(),
        file_name: "hello.txt".to_string(),
        purpose: "assistants".to_string(),
        additional_headers: None,
        proxy_config: None,
    }
}

#[test]
fn upload_url_is_files_under_the_base() {
    let prepared = prepare_file_upload(plain_upload()).unwrap();
    assert_eq!(prepared.url, "https://api.example.com/files");
    assert_eq!(prepared.file_name, "hello.txt");
    assert_eq!(prepared.purpose, "assistants");
}

#[test]
fn payload_is_base64_decoded() {
    let prepared = prepare_file_upload(plain_upload()).unwrap();
    assert_eq!(prepared.file_bytes, b"hello");
}

#[test]
fn invalid_base64_fails_before_any_send() {
    let mut request = plain_upload();
    request.file_data = "!!!not base64!!!".to_string();
    let err = prepare_file_upload(request).unwrap_err();
    assert!(matches!(err, ExecutionError::PayloadDecode { .. }));
    assert!(err.message().contains("Base64 decode error"));
}

#[test]
fn upload_headers_carry_the_bearer_token_and_no_content_type() {
    let prepared = prepare_file_upload(plain_upload()).unwrap();
    let auth = prepared.headers.iter().rev().find(|(n, _)| n == "Authorization");
    assert_eq!(auth.map(|(_, v)| v.as_str()), Some("Bearer sk-test-key"));
    assert!(!prepared.headers.iter().any(|(n, _)| n == "Content-Type"));
}

#[test]
fn malformed_proxy_takes_precedence_over_bad_payload() {
    let mut request = plain_upload();
    request.file_data = "!!!".to_string();
    request.proxy_config = Some(ProxyConfig {
        http_proxy: None,
        https_proxy: Some("https://bad url".to_string()),
    });
    let err = prepare_file_upload(request).unwrap_err();
    match &err {
        ExecutionError::ProxyConfiguration { url, .. } => assert_eq!(url, "https://bad url"),
        other => panic!("expected ProxyConfiguration, got {:?}", other),
    }
    assert!(err.message().contains("HTTPS proxy configuration error"));
}
