//! The response normalizer: status, headers and body of a fully-read response
//! are turned into the envelope handed back to the caller. The body is
//! subject to a byte-size ceiling; remote error statuses are not failures.

use vstd::prelude::*;
use vstd::utf8::encode_utf8;
use crate::errors::ExecutionError;
use crate::headers::{
    collect_response_headers, header_lookup, pairs_view, raw_header_lookup, raw_pairs_view,
    unique_names,
};
use crate::MAX_RESPONSE_BYTES;

verus! {

/// The normalized response returned to the caller: numeric status, body text,
/// and one value per header name (the last one that decoded as text).
#[derive(Debug, Clone)]
pub struct OpenAIResponse {
    pub status: u16,
    pub body: String,
    pub headers: Vec<(String, String)>,
}

/// The UTF-8 byte length of a text, as the machine sizes it.
pub open spec fn utf8_len(s: Seq<char>) -> usize {
    encode_utf8(s).len() as usize
}

/// Normalizes one fully-read response. The envelope is returned whatever the
/// status code — remote 4xx/5xx responses are not failures here. A body over
/// the ceiling is discarded and rejected with the actual size and the limit;
/// a header value that did not decode as text (handed in as absent) is
/// dropped from the header list without failing the call.
pub fn normalize_response(
    request_id: String,
    status: u16,
    raw_headers: Vec<(String, Option<String>)>,
    body: String,
) -> (r: Result<OpenAIResponse, ExecutionError>)
    ensures
        r is Ok <==> utf8_len(body@) <= MAX_RESPONSE_BYTES,
        r is Ok ==> {
            let envelope = r->Ok_0;
            &&& envelope.status == status
            &&& envelope.body@ == body@
            &&& unique_names(pairs_view(envelope.headers@))
            &&& forall|name: Seq<char>| #[trigger] header_lookup(
                pairs_view(envelope.headers@),
                name,
            ) == raw_header_lookup(raw_pairs_view(raw_headers@), name)
        },
        r is Err ==> (r->Err_0 matches ExecutionError::ResponseTooLarge { request_id: rid, size, limit }
            && rid@ == request_id@ && size == utf8_len(body@) && limit == MAX_RESPONSE_BYTES),
{
    let size = body.as_str().len();
    if size > MAX_RESPONSE_BYTES {
        return Err(
            ExecutionError::ResponseTooLarge { request_id, size, limit: MAX_RESPONSE_BYTES },
        );
    }
    let headers = collect_response_headers(raw_headers);
    Ok(OpenAIResponse { status, body, headers })
}

} // verus!
