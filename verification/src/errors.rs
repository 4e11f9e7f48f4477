//! The error taxonomy of the executors: configuration errors found before any
//! network activity, classified transport failures, and post-transfer size
//! rejection. Every error renders to a diagnostic string that carries the
//! correlation identifier of its invocation.

use vstd::prelude::*;
use crate::text::{dec_str, seq_contains_sub, str_contains, u64_to_string};

verus! {

/// Which scheme a malformed forward-proxy URL was configured for.
#[derive(Debug, Clone, Copy, PartialEq, Eq, Structural)]
pub enum ProxySchemeKind {
    Http,
    Https,
}

/// The classification of a failure to send a request.
#[derive(Debug, Clone, Copy, PartialEq, Eq, Structural)]
pub enum SendFailureKind {
    Dns,
    Tls,
    ProxyAuth,
    Connect,
    Timeout,
    MalformedRequest,
    ResponseDecode,
    Other,
}

/// A terminal failure of one executor invocation. No variant is ever retried;
/// each carries the correlation identifier of the invocation it arose in.
#[derive(Debug)]
pub enum ExecutionError {
    /// A forward-proxy URL was rejected while the client was configured.
    ProxyConfiguration { request_id: String, scheme: ProxySchemeKind, url: String, detail: String },
    /// The HTTP client could not be built.
    ClientBuild { request_id: String, detail: String },
    /// The method was none of GET, POST, PUT, DELETE or PATCH.
    UnsupportedMethod { request_id: String, method: String },
    /// Sending the request failed at the transport.
    SendFailure {
        request_id: String,
        kind: SendFailureKind,
        elapsed_ms: u64,
        detail: String,
        proxy_description: String,
    },
    /// Sending the multipart upload failed at the transport.
    UploadSend { request_id: String, detail: String },
    /// The connection dropped while the response body was read.
    BodyRead { request_id: String, detail: String },
    /// The response body exceeded the size ceiling; the body is discarded.
    ResponseTooLarge { request_id: String, size: usize, limit: usize },
    /// The upload payload was not valid base64; nothing was sent.
    PayloadDecode { request_id: String, detail: String },
}

/// Generates a fresh correlation identifier for one executor invocation.
///
/// Relies on uuid::Uuid::new_v4 and its hyphenated rendering: a random
/// version-4 UUID, 36 characters long. The value differs from call to call,
/// so nothing more is promised of it.
#[verifier::external_body]
pub(crate) fn new_request_id() -> (r: String)
    ensures
        r@.len() == 36,
{
    uuid::Uuid::new_v4().to_string()
}

// ---------------------------------------------------------------------------
// Classification of send failures
// ---------------------------------------------------------------------------

/// The classification of a transport error from its flags and its message:
/// connection errors are split by message content into DNS, TLS/certificate,
/// proxy-authentication and generic connection failures; the rest are told
/// apart by the flags alone. The message match is a best-effort heuristic
/// over the transport's wording.
pub open spec fn classified_send_failure(
    is_connect: bool,
    is_timeout: bool,
    is_request: bool,
    is_decode: bool,
    detail: Seq<char>,
) -> SendFailureKind {
    if is_connect {
        if seq_contains_sub(detail, "dns"@) || seq_contains_sub(detail, "resolve"@) {
            SendFailureKind::Dns
        } else if seq_contains_sub(detail, "certificate"@) || seq_contains_sub(detail, "ssl"@)
            || seq_contains_sub(detail, "tls"@) {
            SendFailureKind::Tls
        } else if seq_contains_sub(detail, "407"@) || seq_contains_sub(
            detail,
            "Proxy Authentication"@,
        ) {
            SendFailureKind::ProxyAuth
        } else {
            SendFailureKind::Connect
        }
    } else if is_timeout {
        SendFailureKind::Timeout
    } else if is_request {
        SendFailureKind::MalformedRequest
    } else if is_decode {
        SendFailureKind::ResponseDecode
    } else {
        SendFailureKind::Other
    }
}

/// Classifies one failed send from the transport's error flags and message.
pub fn classify_send_failure(
    is_connect: bool,
    is_timeout: bool,
    is_request: bool,
    is_decode: bool,
    detail: &str,
) -> (k: SendFailureKind)
    ensures
        k == classified_send_failure(is_connect, is_timeout, is_request, is_decode, detail@),
{
    if is_connect {
        if str_contains(detail, "dns") || str_contains(detail, "resolve") {
            SendFailureKind::Dns
        } else if str_contains(detail, "certificate") || str_contains(detail, "ssl")
            || str_contains(detail, "tls") {
            SendFailureKind::Tls
        } else if str_contains(detail, "407") || str_contains(detail, "Proxy Authentication") {
            SendFailureKind::ProxyAuth
        } else {
            SendFailureKind::Connect
        }
    } else if is_timeout {
        SendFailureKind::Timeout
    } else if is_request {
        SendFailureKind::MalformedRequest
    } else if is_decode {
        SendFailureKind::ResponseDecode
    } else {
        SendFailureKind::Other
    }
}

/// Builds the classified error for one failed send of a request.
pub fn send_failure_error(
    request_id: String,
    is_connect: bool,
    is_timeout: bool,
    is_request: bool,
    is_decode: bool,
    elapsed_ms: u64,
    detail: String,
    proxy_description: String,
) -> (e: ExecutionError)
    ensures
        e matches ExecutionError::SendFailure {
            request_id: rid,
            kind,
            elapsed_ms: el,
            detail: d,
            proxy_description: pd,
        } && rid == request_id && kind == classified_send_failure(
            is_connect,
            is_timeout,
            is_request,
            is_decode,
            detail@,
        ) && el == elapsed_ms && d == detail && pd == proxy_description,
{
    let kind = classify_send_failure(is_connect, is_timeout, is_request, is_decode, detail.as_str());
    ExecutionError::SendFailure { request_id, kind, elapsed_ms, detail, proxy_description }
}

// ---------------------------------------------------------------------------
// Diagnostic messages
// ---------------------------------------------------------------------------

/// The tag every diagnostic line starts with.
pub open spec fn request_tag(request_id: Seq<char>) -> Seq<char> {
    "[Request "@ + request_id + "] "@
}

/// The display name of a proxy scheme.
pub open spec fn scheme_label(scheme: ProxySchemeKind) -> Seq<char> {
    match scheme {
        ProxySchemeKind::Http => "HTTP"@,
        ProxySchemeKind::Https => "HTTPS"@,
    }
}

/// The lead-in of a send-failure diagnostic, by classification.
pub open spec fn send_failure_prefix(kind: SendFailureKind) -> Seq<char> {
    match kind {
        SendFailureKind::Dns => "DNS resolution failed: "@,
        SendFailureKind::Tls => "SSL/TLS error: "@,
        SendFailureKind::ProxyAuth => "Proxy authentication required: "@,
        SendFailureKind::Connect => "Connection failed: "@,
        SendFailureKind::Timeout => "Request timeout: "@,
        SendFailureKind::MalformedRequest => "Request error: "@,
        SendFailureKind::ResponseDecode => "Response decode error: "@,
        SendFailureKind::Other => "Failed to send request: "@,
    }
}

/// The advice appended to a send-failure diagnostic, by classification.
pub open spec fn send_failure_hint(kind: SendFailureKind) -> Seq<char> {
    match kind {
        SendFailureKind::Dns => " (Check domain name or DNS settings)"@,
        SendFailureKind::Tls => " (Check certificate validity or security settings)"@,
        SendFailureKind::ProxyAuth => " (Check proxy credentials)"@,
        SendFailureKind::Connect => " (Check network/proxy settings)"@,
        SendFailureKind::Timeout => Seq::empty(),
        SendFailureKind::MalformedRequest => Seq::empty(),
        SendFailureKind::ResponseDecode => Seq::empty(),
        SendFailureKind::Other => Seq::empty(),
    }
}

impl ExecutionError {
    /// The diagnostic string of this error: the correlation tag, a
    /// human-readable cause and, for send failures, the elapsed time and the
    /// active proxy description when one was configured.
    pub open spec fn message_view(&self) -> Seq<char> {
        match self {
            ExecutionError::ProxyConfiguration { request_id, scheme, url, detail } => request_tag(
                request_id@,
            ) + scheme_label(*scheme) + " proxy configuration error: "@ + detail@ + " (Proxy: "@
                + url@ + ")"@,
            ExecutionError::ClientBuild { request_id, detail } => request_tag(request_id@)
                + "Failed to build HTTP client: "@ + detail@,
            ExecutionError::UnsupportedMethod { request_id, method } => request_tag(request_id@)
                + "Unsupported HTTP method: "@ + method@,
            ExecutionError::SendFailure { request_id, kind, elapsed_ms, detail, proxy_description } =>
                request_tag(request_id@) + send_failure_prefix(*kind) + detail@ + send_failure_hint(
                *kind,
            ) + " (after "@ + dec_str(*elapsed_ms as nat) + " ms)"@ + if proxy_description@.len()
                > 0 {
                " (Active proxy: "@ + proxy_description@ + ")"@
            } else {
                Seq::empty()
            },
            ExecutionError::UploadSend { request_id, detail } => request_tag(request_id@)
                + "Failed to upload file: "@ + detail@,
            ExecutionError::BodyRead { request_id, detail } => request_tag(request_id@)
                + "Failed to read response body: "@ + detail@,
            ExecutionError::ResponseTooLarge { request_id, size, limit } => request_tag(request_id@)
                + "Response too large: "@ + dec_str(*size as nat) + " bytes (limit: "@ + dec_str(
                *limit as nat,
            ) + " bytes)"@,
            ExecutionError::PayloadDecode { request_id, detail } => request_tag(request_id@)
                + "Base64 decode error: "@ + detail@,
        }
    }

    /// Renders the diagnostic string of this error.
    pub fn message(&self) -> (r: String)
        ensures
            r@ == self.message_view(),
    {
        let mut r: String = "[Request ".to_owned();
        proof {
            reveal_strlit("[Request ");
            reveal_strlit("] ");
        }
        match self {
            ExecutionError::ProxyConfiguration { request_id, scheme, url, detail } => {
                r.append(request_id.as_str());
                r.append("] ");
                match scheme {
                    ProxySchemeKind::Http => r.append("HTTP"),
                    ProxySchemeKind::Https => r.append("HTTPS"),
                }
                r.append(" proxy configuration error: ");
                r.append(detail.as_str());
                r.append(" (Proxy: ");
                r.append(url.as_str());
                r.append(")");
                proof {
                    assert(r@ =~= self.message_view());
                }
            },
            ExecutionError::ClientBuild { request_id, detail } => {
                r.append(request_id.as_str());
                r.append("] ");
                r.append("Failed to build HTTP client: ");
                r.append(detail.as_str());
                proof {
                    assert(r@ =~= self.message_view());
                }
            },
            ExecutionError::UnsupportedMethod { request_id, method } => {
                r.append(request_id.as_str());
                r.append("] ");
                r.append("Unsupported HTTP method: ");
                r.append(method.as_str());
                proof {
                    assert(r@ =~= self.message_view());
                }
            },
            ExecutionError::SendFailure {
                request_id,
                kind,
                elapsed_ms,
                detail,
                proxy_description,
            } => {
                r.append(request_id.as_str());
                r.append("] ");
                match kind {
                    SendFailureKind::Dns => r.append("DNS resolution failed: "),
                    SendFailureKind::Tls => r.append("SSL/TLS error: "),
                    SendFailureKind::ProxyAuth => r.append("Proxy authentication required: "),
                    SendFailureKind::Connect => r.append("Connection failed: "),
                    SendFailureKind::Timeout => r.append("Request timeout: "),
                    SendFailureKind::MalformedRequest => r.append("Request error: "),
                    SendFailureKind::ResponseDecode => r.append("Response decode error: "),
                    SendFailureKind::Other => r.append("Failed to send request: "),
                }
                r.append(detail.as_str());
                match kind {
                    SendFailureKind::Dns => r.append(" (Check domain name or DNS settings)"),
                    SendFailureKind::Tls => r.append(
                        " (Check certificate validity or security settings)",
                    ),
                    SendFailureKind::ProxyAuth => r.append(" (Check proxy credentials)"),
                    SendFailureKind::Connect => r.append(" (Check network/proxy settings)"),
                    SendFailureKind::Timeout => (),
                    SendFailureKind::MalformedRequest => (),
                    SendFailureKind::ResponseDecode => (),
                    SendFailureKind::Other => (),
                }
                r.append(" (after ");
                let ms = u64_to_string(*elapsed_ms);
                r.append(ms.as_str());
                r.append(" ms)");
                if !proxy_description.as_str().is_empty() {
                    r.append(" (Active proxy: ");
                    r.append(proxy_description.as_str());
                    r.append(")");
                }
                proof {
                    reveal_strlit("DNS resolution failed: ");
                    reveal_strlit("SSL/TLS error: ");
                    reveal_strlit("Proxy authentication required: ");
                    reveal_strlit("Connection failed: ");
                    reveal_strlit("Request timeout: ");
                    reveal_strlit("Request error: ");
                    reveal_strlit("Response decode error: ");
                    reveal_strlit("Failed to send request: ");
                    reveal_strlit(" (Check domain name or DNS settings)");
                    reveal_strlit(" (Check certificate validity or security settings)");
                    reveal_strlit(" (Check proxy credentials)");
                    reveal_strlit(" (Check network/proxy settings)");
                    reveal_strlit(" (after ");
                    reveal_strlit(" ms)");
                    reveal_strlit(" (Active proxy: ");
                    reveal_strlit(")");
                    assert(r@ =~= self.message_view());
                }
            },
            ExecutionError::UploadSend { request_id, detail } => {
                r.append(request_id.as_str());
                r.append("] ");
                r.append("Failed to upload file: ");
                r.append(detail.as_str());
                proof {
                    assert(r@ =~= self.message_view());
                }
            },
            ExecutionError::BodyRead { request_id, detail } => {
                r.append(request_id.as_str());
                r.append("] ");
                r.append("Failed to read response body: ");
                r.append(detail.as_str());
                proof {
                    assert(r@ =~= self.message_view());
                }
            },
            ExecutionError::ResponseTooLarge { request_id, size, limit } => {
                r.append(request_id.as_str());
                r.append("] ");
                r.append("Response too large: ");
                let s = u64_to_string(*size as u64);
                r.append(s.as_str());
                r.append(" bytes (limit: ");
                let l = u64_to_string(*limit as u64);
                r.append(l.as_str());
                r.append(" bytes)");
                proof {
                    reveal_strlit("Response too large: ");
                    reveal_strlit(" bytes (limit: ");
                    reveal_strlit(" bytes)");
                    assert(r@ =~= self.message_view());
                }
            },
            ExecutionError::PayloadDecode { request_id, detail } => {
                r.append(request_id.as_str());
                r.append("] ");
                r.append("Base64 decode error: ");
                r.append(detail.as_str());
                proof {
                    assert(r@ =~= self.message_view());
                }
            },
        }
        r
    }
}

} // verus!
