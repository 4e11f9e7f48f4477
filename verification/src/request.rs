//! The request executor's preparation stage: everything up to the network
//! send. It resolves the proxy configuration, validates the method, builds
//! the target URL and the header list, and constructs the client. The host
//! performs the send and hands the outcome back through
//! [`crate::errors::send_failure_error`] and
//! [`crate::response::normalize_response`].

use vstd::prelude::*;
use crate::errors::{new_request_id, ExecutionError};
use crate::headers::{additional_view, assemble_headers, assembled_headers, pairs_view};
use crate::proxy::{
    build_client_from, proxies_accepted, proxy_description_of, resolve_proxies, ProxyConfig,
};
use crate::text::{chars_eq_ignore_ascii_case, eq_ignore_ascii_case, join_url, joined_url};

verus! {

/// The HTTP methods the executor supports.
#[derive(Debug, Clone, Copy, PartialEq, Eq, Structural)]
pub enum HttpMethod {
    Get,
    Post,
    Put,
    Delete,
    Patch,
}

/// The method named by `m`, compared case-insensitively; anything outside
/// GET, POST, PUT, DELETE and PATCH is unsupported.
pub open spec fn parsed_method(m: Seq<char>) -> Option<HttpMethod> {
    if chars_eq_ignore_ascii_case(m, "GET"@) {
        Some(HttpMethod::Get)
    } else if chars_eq_ignore_ascii_case(m, "POST"@) {
        Some(HttpMethod::Post)
    } else if chars_eq_ignore_ascii_case(m, "PUT"@) {
        Some(HttpMethod::Put)
    } else if chars_eq_ignore_ascii_case(m, "DELETE"@) {
        Some(HttpMethod::Delete)
    } else if chars_eq_ignore_ascii_case(m, "PATCH"@) {
        Some(HttpMethod::Patch)
    } else {
        None
    }
}

/// Whether `m` names a supported method.
pub open spec fn method_supported(m: Seq<char>) -> bool {
    parsed_method(m) is Some
}

/// Parses an HTTP method name, case-insensitively.
pub fn parse_http_method(m: &str) -> (r: Option<HttpMethod>)
    ensures
        r == parsed_method(m@),
{
    if eq_ignore_ascii_case(m, "GET") {
        Some(HttpMethod::Get)
    } else if eq_ignore_ascii_case(m, "POST") {
        Some(HttpMethod::Post)
    } else if eq_ignore_ascii_case(m, "PUT") {
        Some(HttpMethod::Put)
    } else if eq_ignore_ascii_case(m, "DELETE") {
        Some(HttpMethod::Delete)
    } else if eq_ignore_ascii_case(m, "PATCH") {
        Some(HttpMethod::Patch)
    } else {
        None
    }
}

impl HttpMethod {
    /// The canonical spelling of this method.
    pub open spec fn name_view(&self) -> Seq<char> {
        match self {
            HttpMethod::Get => "GET"@,
            HttpMethod::Post => "POST"@,
            HttpMethod::Put => "PUT"@,
            HttpMethod::Delete => "DELETE"@,
            HttpMethod::Patch => "PATCH"@,
        }
    }

    /// The canonical spelling of this method.
    pub fn name(&self) -> (r: &'static str)
        ensures
            r@ == self.name_view(),
    {
        match self {
            HttpMethod::Get => "GET",
            HttpMethod::Post => "POST",
            HttpMethod::Put => "PUT",
            HttpMethod::Delete => "DELETE",
            HttpMethod::Patch => "PATCH",
        }
    }
}

/// A declarative description of one HTTP call to the remote API. The JSON
/// body, when present, is carried as its serialized text; the host turns a
/// structured value into it before calling in. Consumed by exactly one
/// preparation.
#[derive(Debug, Clone)]
pub struct OpenAIRequest {
    pub base_url: String,
    pub api_key: String,
    pub method: String,
    pub path: String,
    pub body: Option<String>,
    pub additional_headers: Option<Vec<(String, String)>>,
    pub proxy_config: Option<ProxyConfig>,
}

/// Everything the transport needs to send one prepared request.
#[derive(Debug)]
pub struct PreparedRequest {
    pub request_id: String,
    pub client: reqwest::Client,
    pub proxy_description: String,
    pub method: HttpMethod,
    pub url: String,
    pub headers: Vec<(String, String)>,
    pub body: Option<String>,
}

/// Prepares one request: resolves the proxies, validates the method, builds
/// the target URL and headers, and constructs the client. No network call
/// happens here; a rejected configuration or method fails before any could.
/// A malformed proxy URL takes precedence over an unsupported method.
pub fn prepare_openai_request(request: OpenAIRequest) -> (r: Result<
    PreparedRequest,
    ExecutionError,
>)
    ensures
        r is Ok ==> {
            let p = r->Ok_0;
            &&& proxies_accepted(request.proxy_config)
            &&& method_supported(request.method@)
            &&& Some(p.method) == parsed_method(request.method@)
            &&& p.url@ == joined_url(request.base_url@, request.path@)
            &&& pairs_view(p.headers@) == assembled_headers(
                request.api_key@,
                additional_view(request.additional_headers),
                request.body is Some,
            )
            &&& p.body == request.body
            &&& p.proxy_description@ == proxy_description_of(request.proxy_config)
            &&& p.request_id@.len() == 36
        },
        !proxies_accepted(request.proxy_config) <==> (r is Err
            && r->Err_0 matches ExecutionError::ProxyConfiguration { .. }),
        proxies_accepted(request.proxy_config) && !method_supported(request.method@) <==> (r is Err
            && (r->Err_0 matches ExecutionError::UnsupportedMethod { method, .. } && method@
            == request.method@)),
        r is Err ==> (r->Err_0 matches ExecutionError::ProxyConfiguration { .. }
            || r->Err_0 matches ExecutionError::UnsupportedMethod { .. }
            || r->Err_0 matches ExecutionError::ClientBuild { .. }),
{
    let request_id = new_request_id();
    let resolved = match resolve_proxies(request_id.as_str(), &request.proxy_config) {
        Ok(resolved) => resolved,
        Err(e) => {
            return Err(e);
        },
    };
    let method = match parse_http_method(request.method.as_str()) {
        Some(m) => m,
        None => {
            return Err(
                ExecutionError::UnsupportedMethod { request_id, method: request.method },
            );
        },
    };
    let url = join_url(request.base_url.as_str(), request.path.as_str());
    let headers = assemble_headers(
        request.api_key.as_str(),
        &request.additional_headers,
        request.body.is_some(),
    );
    let client = match build_client_from(resolved.proxies) {
        Ok(c) => c,
        Err(detail) => {
            return Err(ExecutionError::ClientBuild { request_id, detail });
        },
    };
    Ok(
        PreparedRequest {
            request_id,
            client,
            proxy_description: resolved.description,
            method,
            url,
            headers,
            body: request.body,
        },
    )
}

} // verus!
