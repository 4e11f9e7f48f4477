use openai_proxy::errors::{
    classify_send_failure, send_failure_error, ExecutionError, SendFailureKind,
};

#[test]
fn connect_errors_split_by_message() {
    assert_eq!(
        classify_send_failure(true, false, false, false, "dns error: no such host"),
        SendFailureKind::Dns,
    );
    assert_eq!(
        classify_send_failure(true, false, false, false, "failed to resolve host"),
        SendFailureKind::Dns,
    );
    assert_eq!(
        classify_send_failure(true, false, false, false, "invalid certificate chain"),
        SendFailureKind::Tls,
    );
    assert_eq!(
        classify_send_failure(true, false, false, false, "ssl handshake failed"),
        SendFailureKind::Tls,
    );
    assert_eq!(
        classify_send_failure(true, false, false, false, "tls alert received"),
        SendFailureKind::Tls,
    );
    assert_eq!(
        classify_send_failure(true, false, false, false, "proxy returned 407"),
        SendFailureKind::ProxyAuth,
    );
    assert_eq!(
        classify_send_failure(true, false, false, false, "Proxy Authentication Required"),
        SendFailureKind::ProxyAuth,
    );
    assert_eq!(
        classify_send_failure(true, false, false, false, "connection refused"),
        SendFailureKind::Connect,
    );
}

#[test]
fn non_connect_errors_split_by_flags() {
    assert_eq!(classify_send_failure(false, true, false, false, "x"), SendFailureKind::Timeout);
    assert_eq!(
        classify_send_failure(false, false, true, false, "x"),
        SendFailureKind::MalformedRequest,
    );
    assert_eq!(
        classify_send_failure(false, false, false, true, "x"),
        SendFailureKind::ResponseDecode,
    );
    assert_eq!(classify_send_failure(false, false, false, false, "x"), SendFailureKind::Other);
}

#[test]
fn dns_precedes_tls_in_the_message_heuristic() {
    // "dns" wins over "tls" when both occur in the wording
    assert_eq!(
        classify_send_failure(true, false, false, false, "dns failure during tls setup"),
        SendFailureKind::Dns,
    );
}

#[test]
fn send_failure_message_carries_id_elapsed_and_proxy() {
    let err = send_failure_error(
        "rid".to_string(),
        true,
        false,
        false,
        false,
        1234,
        "connection refused".to_string(),
        "HTTP Proxy: http://p:1, ".to_string(),
    );
    let message = err.message();
    assert_eq!(
        message,
        "[Request rid] Connection failed: connection refused (Check network/proxy settings) \
         (after 1234 ms) (Active proxy: HTTP Proxy: http://p:1, )",
    );
}

#[test]
fn send_failure_message_without_proxy_has_no_proxy_part() {
    let err = send_failure_error(
        "rid".to_string(),
        false,
        true,
        false,
        false,
        0,
        "deadline elapsed".to_string(),
        // no proxy was active
        String::new(),
    );
    assert_eq!(err.message(), "[Request rid] Request timeout: deadline elapsed (after 0 ms)");
}

#[test]
fn body_read_message_names_the_cause() {
    let err = ExecutionError::BodyRead {
        request_id: "rid".to_string(),
        detail: "connection reset".to_string(),
    };
    assert_eq!(err.message(), "[Request rid] Failed to read response body: connection reset");
}

#[test]
fn upload_send_message_names_the_cause() {
    let err = ExecutionError::UploadSend {
        request_id: "rid".to_string(),
        detail: "broken pipe".to_string(),
    };
    assert_eq!(err.message(), "[Request rid] Failed to upload file: broken pipe");
}

#[test]
fn client_build_message_names_the_cause() {
    let err = ExecutionError::ClientBuild {
        request_id: "rid".to_string(),
        detail: "no resolver".to_string(),
    };
    assert_eq!(err.message(), "[Request rid] Failed to build HTTP client: no resolver");
}
