use openai_proxy::errors::ExecutionError;
use openai_proxy::proxy::ProxyConfig;
use openai_proxy::request::{prepare_openai_request, HttpMethod, OpenAIRequest};
use openai_proxy::text::join_url;

fn plain_request() -> OpenAIRequest {
    OpenAIRequest {
        base_url: "https://api.example.com/".to_string(),
        api_key: "sk-test-key".to_string(),
        method: "GET".to_string(),
        path: "/v1/chat".to_string(),
        body: None,
        additional_headers: None,
        proxy_config: None,
    }
}

#[test]
fn url_join_scenario() {
    let prepared = prepare_openai_request(plain_request()).unwrap();
    assert_eq!(prepared.url, "https://api.example.com/v1/chat");
}

#[test]
fn url_join_many_slashes() {
    assert_eq!(join_url("https://host///", "///v1/x"), "https://host/v1/x");
    assert_eq!(join_url("https://host", "v1/x"), "https://host/v1/x");
    assert_eq!(join_url("", ""), "/");
}

#[test]
fn unsupported_method_rejected() {
    let mut request = plain_request();
    request.method = "TRACE".to_string();
    let err = prepare_openai_request(request).unwrap_err();
    match &err {
        ExecutionError::UnsupportedMethod { method, .. } => assert_eq!(method, "TRACE"),
        other => panic!("expected UnsupportedMethod, got {:?}", other),
    }
    assert!(err.message().contains("Unsupported HTTP method: TRACE"));
}

#[test]
fn method_is_case_insensitive() {
    for (name, expected) in [
        ("get", HttpMethod::Get),
        ("PoSt", HttpMethod::Post),
        ("put", HttpMethod::Put),
        ("DELETE", HttpMethod::Delete),
        ("patch", HttpMethod::Patch),
    ] {
        let mut request = plain_request();
        request.method = name.to_string();
        let prepared = prepare_openai_request(request).unwrap();
        assert_eq!(prepared.method, expected);
    }
}

fn last_header_value<'a>(headers: &'a [(String, String)], name: &str) -> Option<&'a str> {
    headers.iter().rev().find(|(n, _)| n == name).map(|(_, v)| v.as_str())
}

#[test]
fn json_body_sets_content_type() {
    let mut request = plain_request();
    request.method = "POST".to_string();
    request.body = Some("{\"k\":1}".to_string());
    let prepared = prepare_openai_request(request).unwrap();
    assert_eq!(last_header_value(&prepared.headers, "Content-Type"), Some("application/json"));
    assert_eq!(prepared.body.as_deref(), Some("{\"k\":1}"));
}

#[test]
fn no_body_sets_no_content_type() {
    let prepared = prepare_openai_request(plain_request()).unwrap();
    assert_eq!(last_header_value(&prepared.headers, "Content-Type"), None);
    assert!(prepared.body.is_none());
}

#[test]
fn bearer_token_is_always_set() {
    let prepared = prepare_openai_request(plain_request()).unwrap();
    assert_eq!(
        last_header_value(&prepared.headers, "Authorization"),
        Some("Bearer sk-test-key"),
    );
}

#[test]
fn additional_authorization_overrides_bearer() {
    let mut request = plain_request();
    request.additional_headers = Some(vec![
        ("Authorization".to_string(), "Bearer other".to_string()),
        ("X-Extra".to_string(), "1".to_string()),
    ]);
    let prepared = prepare_openai_request(request).unwrap();
    assert_eq!(last_header_value(&prepared.headers, "Authorization"), Some("Bearer other"));
    assert_eq!(last_header_value(&prepared.headers, "X-Extra"), Some("1"));
}

#[test]
fn malformed_http_proxy_fails_before_send() {
    let mut request = plain_request();
    request.proxy_config = Some(ProxyConfig {
        http_proxy: Some("http://bad url".to_string()),
        https_proxy: None,
    });
    let err = prepare_openai_request(request).unwrap_err();
    match &err {
        ExecutionError::ProxyConfiguration { url, .. } => assert_eq!(url, "http://bad url"),
        other => panic!("expected ProxyConfiguration, got {:?}", other),
    }
    assert!(err.message().contains("HTTP proxy configuration error"));
    assert!(err.message().contains("(Proxy: http://bad url)"));
}

#[test]
fn malformed_proxy_takes_precedence_over_bad_method() {
    let mut request = plain_request();
    request.method = "TRACE".to_string();
    request.proxy_config = Some(ProxyConfig {
        http_proxy: Some("http://bad url".to_string()),
        https_proxy: None,
    });
    let err = prepare_openai_request(request).unwrap_err();
    assert!(matches!(err, ExecutionError::ProxyConfiguration { .. }));
}

#[test]
fn empty_proxy_urls_mean_direct_connection() {
    let mut request = plain_request();
    request.proxy_config = Some(ProxyConfig {
        http_proxy: Some(String::new()),
        https_proxy: Some(String::new()),
    });
    let prepared = prepare_openai_request(request).unwrap();
    assert_eq!(prepared.proxy_description, "");
}

#[test]
fn proxy_description_names_active_proxies() {
    let mut request = plain_request();
    request.proxy_config = Some(ProxyConfig {
        http_proxy: Some("http://127.0.0.1:8080".to_string()),
        https_proxy: Some("http://127.0.0.1:8443".to_string()),
    });
    let prepared = prepare_openai_request(request).unwrap();
    assert_eq!(
        prepared.proxy_description,
        "HTTP Proxy: http://127.0.0.1:8080, HTTPS Proxy: http://127.0.0.1:8443",
    );
}

#[test]
fn request_id_is_fresh_per_call() {
    let a = prepare_openai_request(plain_request()).unwrap();
    let b = prepare_openai_request(plain_request()).unwrap();
    assert_eq!(a.request_id.len(), 36);
    assert_ne!(a.request_id, b.request_id);
}
