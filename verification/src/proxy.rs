//! Proxy-aware HTTP client construction.
//!
//! A [`ProxyConfig`] names an optional forward proxy per scheme; an empty
//! string counts as absent. Resolution parses each configured URL, fails the
//! whole call on a malformed one, and otherwise builds the client with the
//! parsed proxies applied, together with a human-readable description of them
//! for later diagnostics.

use vstd::prelude::*;
use crate::errors::{ExecutionError, ProxySchemeKind};

verus! {

/// Optional forward-proxy URLs, one per scheme. An empty string counts as
/// absent, meaning a direct connection for that scheme.
#[derive(Debug, Clone)]
pub struct ProxyConfig {
    pub http_proxy: Option<String>,
    pub https_proxy: Option<String>,
}

#[verifier::external_type_specification]
#[verifier::external_body]
pub struct ExReqwestProxy(reqwest::Proxy);

#[verifier::external_type_specification]
#[verifier::external_body]
pub struct ExReqwestClient(reqwest::Client);

#[verifier::external_type_specification]
#[verifier::external_body]
pub struct ExReqwestClientBuilder(reqwest::ClientBuilder);

/// Whether reqwest accepts this string as an HTTP forward-proxy URL; a pure
/// function of the string (URL parsing), named rather than spelled out.
pub uninterp spec fn http_proxy_accepted(url: Seq<char>) -> bool;

/// Whether reqwest accepts this string as an HTTPS forward-proxy URL.
pub uninterp spec fn https_proxy_accepted(url: Seq<char>) -> bool;

/// Relies on reqwest::Proxy::http: parses the given URL, without I/O, and
/// fails exactly on the strings reqwest rejects as proxy URLs; the error is
/// returned as its rendered text.
#[verifier::external_body]
fn parse_http_proxy(url: &str) -> (r: Result<reqwest::Proxy, String>)
    ensures
        r is Ok <==> http_proxy_accepted(url@),
{
    reqwest::Proxy::http(url).map_err(|e| format!("{e}"))
}

/// Relies on reqwest::Proxy::https: as [`parse_http_proxy`], for the HTTPS
/// interceptor.
#[verifier::external_body]
fn parse_https_proxy(url: &str) -> (r: Result<reqwest::Proxy, String>)
    ensures
        r is Ok <==> https_proxy_accepted(url@),
{
    reqwest::Proxy::https(url).map_err(|e| format!("{e}"))
}

/// Relies on reqwest::Client::builder: a fresh client builder.
#[verifier::external_body]
fn new_client_builder() -> reqwest::ClientBuilder {
    reqwest::Client::builder()
}

/// Relies on reqwest::ClientBuilder::proxy: registers the proxy on the
/// builder.
#[verifier::external_body]
fn builder_with_proxy(builder: reqwest::ClientBuilder, proxy: reqwest::Proxy) -> (r:
    reqwest::ClientBuilder) {
    builder.proxy(proxy)
}

/// Relies on reqwest::ClientBuilder::build: finishes the client. Whether it
/// succeeds depends on the machine, so nothing is promised of the outcome;
/// the error is returned as its rendered text.
#[verifier::external_body]
fn build_client(builder: reqwest::ClientBuilder) -> (r: Result<reqwest::Client, String>) {
    builder.build().map_err(|e| format!("{e}"))
}

/// Whether an HTTP proxy URL is configured and non-empty.
pub open spec fn http_proxy_given(cfg: Option<ProxyConfig>) -> bool {
    cfg is Some && cfg->Some_0.http_proxy is Some && cfg->Some_0.http_proxy->Some_0@.len() > 0
}

/// Whether an HTTPS proxy URL is configured and non-empty.
pub open spec fn https_proxy_given(cfg: Option<ProxyConfig>) -> bool {
    cfg is Some && cfg->Some_0.https_proxy is Some && cfg->Some_0.https_proxy->Some_0@.len() > 0
}

/// Whether every configured proxy URL is one reqwest accepts.
pub open spec fn proxies_accepted(cfg: Option<ProxyConfig>) -> bool {
    (http_proxy_given(cfg) ==> http_proxy_accepted(cfg->Some_0.http_proxy->Some_0@))
        && (https_proxy_given(cfg) ==> https_proxy_accepted(cfg->Some_0.https_proxy->Some_0@))
}

/// The human-readable description of whichever proxies are active, used in
/// diagnostics when a later send fails.
pub open spec fn proxy_description_of(cfg: Option<ProxyConfig>) -> Seq<char> {
    (if http_proxy_given(cfg) {
        "HTTP Proxy: "@ + cfg->Some_0.http_proxy->Some_0@ + ", "@
    } else {
        Seq::empty()
    }) + (if https_proxy_given(cfg) {
        "HTTPS Proxy: "@ + cfg->Some_0.https_proxy->Some_0@
    } else {
        Seq::empty()
    })
}

/// The parsed proxies of one configuration, with their description.
pub struct ResolvedProxies {
    pub proxies: Vec<reqwest::Proxy>,
    pub description: String,
}

/// Resolves a proxy configuration into parsed proxies. A malformed URL fails
/// the call with a proxy-configuration error naming that URL and its scheme;
/// the HTTP URL is checked first. Nothing is sent over the network here.
pub fn resolve_proxies(request_id: &str, cfg: &Option<ProxyConfig>) -> (r: Result<
    ResolvedProxies,
    ExecutionError,
>)
    ensures
        r is Ok <==> proxies_accepted(*cfg),
        r is Ok ==> r->Ok_0.description@ == proxy_description_of(*cfg),
        r is Err ==> (r->Err_0 matches ExecutionError::ProxyConfiguration {
            request_id: rid,
            scheme,
            url,
            ..
        } && rid@ == request_id@ && ((scheme == ProxySchemeKind::Http && http_proxy_given(*cfg)
            && url@ == cfg->Some_0.http_proxy->Some_0@ && !http_proxy_accepted(url@)) || (scheme
            == ProxySchemeKind::Https && https_proxy_given(*cfg) && url@
            == cfg->Some_0.https_proxy->Some_0@ && !https_proxy_accepted(url@) && (
        http_proxy_given(*cfg) ==> http_proxy_accepted(cfg->Some_0.http_proxy->Some_0@))))),
{
    let mut proxies: Vec<reqwest::Proxy> = Vec::new();
    let mut description = String::new();
    if let Some(pc) = cfg {
        if let Some(http_url) = &pc.http_proxy {
            if !http_url.as_str().is_empty() {
                match parse_http_proxy(http_url.as_str()) {
                    Ok(p) => {
                        proxies.push(p);
                        description.append("HTTP Proxy: ");
                        description.append(http_url.as_str());
                        description.append(", ");
                    },
                    Err(detail) => {
                        return Err(
                            ExecutionError::ProxyConfiguration {
                                request_id: request_id.to_owned(),
                                scheme: ProxySchemeKind::Http,
                                url: http_url.clone(),
                                detail,
                            },
                        );
                    },
                }
            }
        }
        if let Some(https_url) = &pc.https_proxy {
            if !https_url.as_str().is_empty() {
                match parse_https_proxy(https_url.as_str()) {
                    Ok(p) => {
                        proxies.push(p);
                        description.append("HTTPS Proxy: ");
                        description.append(https_url.as_str());
                    },
                    Err(detail) => {
                        return Err(
                            ExecutionError::ProxyConfiguration {
                                request_id: request_id.to_owned(),
                                scheme: ProxySchemeKind::Https,
                                url: https_url.clone(),
                                detail,
                            },
                        );
                    },
                }
            }
        }
    }
    proof {
        assert(description@ =~= proxy_description_of(*cfg));
    }
    Ok(ResolvedProxies { proxies, description })
}

/// Builds the HTTP client with the given proxies applied, in order. Whether
/// the build succeeds is the transport's decision; on failure the rendered
/// error text is returned.
pub fn build_client_from(proxies: Vec<reqwest::Proxy>) -> Result<reqwest::Client, String> {
    let mut builder = new_client_builder();
    let mut rest = proxies;
    while rest.len() > 0
        decreases rest@.len(),
    {
        let p = rest.remove(0);
        builder = builder_with_proxy(builder, p);
    }
    build_client(builder)
}

} // verus!
