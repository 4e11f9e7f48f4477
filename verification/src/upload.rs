//! The upload executor's preparation stage: everything up to the network
//! send of a multipart upload. It resolves the proxy configuration, decodes
//! the base64 payload, builds the fixed `/files` target URL and the header
//! list, and constructs the client. The host assembles the two-part form
//! (the file bytes under the given name, and the purpose text) and sends it.

use vstd::prelude::*;
use crate::errors::{new_request_id, ExecutionError};
use crate::headers::{additional_view, assemble_headers, assembled_headers, pairs_view};
use crate::proxy::{
    build_client_from, proxies_accepted, proxy_description_of, resolve_proxies, ProxyConfig,
};
use crate::text::{trim_end_slashes, trim_trailing_slashes};

verus! {

/// A declarative description of one multipart file upload to the remote API.
/// The payload arrives base64-encoded. Consumed by exactly one preparation.
#[derive(Debug, Clone)]
pub struct FileUploadRequest {
    pub base_url: String,
    pub api_key: String,
    pub file_data: String,
    pub file_name: String,
    pub purpose: String,
    pub additional_headers: Option<Vec<(String, String)>>,
    pub proxy_config: Option<ProxyConfig>,
}

/// What base64 decoding of a text yields: the decoded bytes, or nothing where
/// the text is not valid base64. A pure function of the text, named rather
/// than spelled out.
pub uninterp spec fn base64_decoded(s: Seq<char>) -> Option<Seq<u8>>;

/// Relies on base64's STANDARD engine decode: a pure function of the input
/// text, failing exactly on invalid base64; the error is returned as its
/// rendered text.
#[verifier::external_body]
fn decode_base64(s: &str) -> (r: Result<Vec<u8>, String>)
    ensures
        r is Ok <==> base64_decoded(s@) is Some,
        r is Ok ==> r->Ok_0@ == base64_decoded(s@)->Some_0,
{
    base64::Engine::decode(&base64::engine::general_purpose::STANDARD, s).map_err(
        |e| format!("{e}"),
    )
}

/// The upload target: the base URL without its trailing slashes, then
/// `/files`; no caller-supplied path takes part.
pub open spec fn upload_url(base: Seq<char>) -> Seq<char> {
    trim_trailing_slashes(base) + seq!['/', 'f', 'i', 'l', 'e', 's']
}

/// Builds the upload target URL.
pub fn build_upload_url(base: &str) -> (r: String)
    ensures
        r@ == upload_url(base@),
{
    let mut r = trim_end_slashes(base);
    r.append("/files");
    proof {
        reveal_strlit("/files");
        assert(r@ =~= upload_url(base@));
    }
    r
}

/// Everything the transport needs to send one prepared upload: the decoded
/// file bytes with their client-declared name, the purpose text for the
/// second form part, and the client, URL and headers.
#[derive(Debug)]
pub struct PreparedUpload {
    pub request_id: String,
    pub client: reqwest::Client,
    pub proxy_description: String,
    pub url: String,
    pub headers: Vec<(String, String)>,
    pub file_bytes: Vec<u8>,
    pub file_name: String,
    pub purpose: String,
}

/// Prepares one upload: resolves the proxies, decodes the base64 payload,
/// builds the `/files` URL and headers, and constructs the client. No network
/// call happens here; an invalid payload fails before any could. A malformed
/// proxy URL takes precedence over an invalid payload. No JSON body takes
/// part, so no `Content-Type` header is added here (the multipart form
/// declares its own).
pub fn prepare_file_upload(request: FileUploadRequest) -> (r: Result<
    PreparedUpload,
    ExecutionError,
>)
    ensures
        r is Ok ==> {
            let p = r->Ok_0;
            &&& proxies_accepted(request.proxy_config)
            &&& base64_decoded(request.file_data@) is Some
            &&& p.file_bytes@ == base64_decoded(request.file_data@)->Some_0
            &&& p.url@ == upload_url(request.base_url@)
            &&& pairs_view(p.headers@) == assembled_headers(
                request.api_key@,
                additional_view(request.additional_headers),
                false,
            )
            &&& p.file_name@ == request.file_name@
            &&& p.purpose@ == request.purpose@
            &&& p.proxy_description@ == proxy_description_of(request.proxy_config)
            &&& p.request_id@.len() == 36
        },
        !proxies_accepted(request.proxy_config) <==> (r is Err
            && r->Err_0 matches ExecutionError::ProxyConfiguration { .. }),
        proxies_accepted(request.proxy_config) && base64_decoded(request.file_data@) is None <==> (
        r is Err && r->Err_0 matches ExecutionError::PayloadDecode { .. }),
        r is Err ==> (r->Err_0 matches ExecutionError::ProxyConfiguration { .. }
            || r->Err_0 matches ExecutionError::PayloadDecode { .. }
            || r->Err_0 matches ExecutionError::ClientBuild { .. }),
{
    let request_id = new_request_id();
    let resolved = match resolve_proxies(request_id.as_str(), &request.proxy_config) {
        Ok(resolved) => resolved,
        Err(e) => {
            return Err(e);
        },
    };
    let file_bytes = match decode_base64(request.file_data.as_str()) {
        Ok(bytes) => bytes,
        Err(detail) => {
            return Err(ExecutionError::PayloadDecode { request_id, detail });
        },
    };
    let url = build_upload_url(request.base_url.as_str());
    let headers = assemble_headers(request.api_key.as_str(), &request.additional_headers, false);
    let client = match build_client_from(resolved.proxies) {
        Ok(c) => c,
        Err(detail) => {
            return Err(ExecutionError::ClientBuild { request_id, detail });
        },
    };
    Ok(
        PreparedUpload {
            request_id,
            client,
            proxy_description: resolved.description,
            url,
            headers,
            file_bytes,
            file_name: request.file_name,
            purpose: request.purpose,
        },
    )
}

} // verus!
