use vstd::prelude::*;
use vstd::string::*;

use crate::decimal::{decimal, decimal_of, parse_u16, spec_parse_u16};
use crate::text::{chars_of, contains_exec, find_first, find_last, first_index_of, last_index_of, seq_contains, seq_starts_with, slice_prefix, slice_suffix, starts_with, strip_all, strip_all_exec, string_of};

verus! {

/// The scheme family of a URL built from a [`ServiceAddress`].
#[derive(Debug, Clone, Copy, PartialEq, Eq, Structural)]
pub enum ServiceAddressProtocol {
    Http,
    Ws,
}

/// Where a server is reached: host, optional port, optional path prefix and
/// whether TLS is used.
#[derive(Debug, Clone)]
pub struct ServiceAddress {
    pub host: String,
    pub port: Option<u16>,
    pub endpoint: Option<String>,
    pub use_ssl: bool,
}

/// The scheme name of a protocol.
pub open spec fn protocol_name(p: ServiceAddressProtocol) -> Seq<char> {
    match p {
        ServiceAddressProtocol::Http => "http"@,
        ServiceAddressProtocol::Ws => "ws"@,
    }
}

/// `":<port>"` when a port is given.
pub open spec fn port_part(port: Option<u16>) -> Seq<char> {
    match port {
        Some(p) => ":"@ + decimal(p as nat),
        None => Seq::empty(),
    }
}

/// `"/<endpoint>"` when an endpoint is given.
pub open spec fn endpoint_part(endpoint: Option<String>) -> Seq<char> {
    match endpoint {
        Some(e) => "/"@ + e@,
        None => Seq::empty(),
    }
}

/// The base URL of an address: scheme (with an `s` when TLS is used),
/// host, port and endpoint.
pub open spec fn spec_base_url(a: ServiceAddress, p: ServiceAddressProtocol) -> Seq<char> {
    protocol_name(p) + (if a.use_ssl { "s"@ } else { Seq::empty() }) + "://"@ + a.host@
        + port_part(a.port) + endpoint_part(a.endpoint)
}

impl ServiceAddress {
    /// An address reached over TLS.
    pub fn new(host: String, port: Option<u16>, endpoint: Option<String>) -> (r: Self)
        ensures
            r.host == host,
            r.port == port,
            r.endpoint == endpoint,
            r.use_ssl,
    {
        Self { host, port, endpoint, use_ssl: true }
    }

    /// An address reached without TLS.
    pub fn new_without_ssl(host: String, port: Option<u16>, endpoint: Option<String>) -> (r: Self)
        ensures
            r.host == host,
            r.port == port,
            r.endpoint == endpoint,
            !r.use_ssl,
    {
        Self { host, port, endpoint, use_ssl: false }
    }

    /// The base URL for the given protocol.
    pub fn base_url(&self, protocol: ServiceAddressProtocol) -> (r: String)
        ensures
            r@ == spec_base_url(*self, protocol),
    {
        let mut r = match protocol {
            ServiceAddressProtocol::Http => String::from_str("http"),
            ServiceAddressProtocol::Ws => String::from_str("ws"),
        };
        if self.use_ssl {
            r.append("s");
        }
        r.append("://");
        r.append(self.host.as_str());
        let ghost before_port = r@;
        match self.port {
            Some(p) => {
                r.append(":");
                let digits = decimal_of(p as u64);
                let ds = string_of(digits.as_slice());
                r.append(ds.as_str());
            },
            None => {},
        }
        assert(r@ =~= before_port + port_part(self.port));
        let ghost before_endpoint = r@;
        match &self.endpoint {
            Some(e) => {
                r.append("/");
                r.append(e.as_str());
            },
            None => {},
        }
        assert(r@ =~= before_endpoint + endpoint_part(self.endpoint));
        r
    }
}

/// URL settings computed once from an overriding service URL.
#[derive(Debug, Clone, Default)]
pub struct ResolvedUrls {
    /// Host of the service, without scheme or path.
    pub service_host_override: Option<String>,
    /// Full URL of the token endpoint.
    pub token_url_override: Option<String>,
    /// Whether the service is reached without TLS.
    pub service_no_ssl: bool,
    /// Port of the service, if the URL names one.
    pub service_port_override: Option<u16>,
}

impl ResolvedUrls {
    /// No overrides: the service and token URLs follow from the region.
    pub fn none() -> (r: Self)
        ensures
            r.service_host_override is None,
            r.token_url_override is None,
            !r.service_no_ssl,
            r.service_port_override is None,
    {
        ResolvedUrls { service_host_override: None, token_url_override: None, service_no_ssl: false, service_port_override: None }
    }
}

/// The URL without any leading scheme (`https://`, `http://`, `wss://`,
/// `ws://`, each stripped as often as it repeats, in that order).
pub open spec fn without_scheme(raw: Seq<char>) -> Seq<char> {
    strip_all(strip_all(strip_all(strip_all(raw, "https://"@), "http://"@), "wss://"@), "ws://"@)
}

/// The part of a scheme-less URL before its first `/`.
pub open spec fn authority_of(w: Seq<char>) -> Seq<char> {
    match first_index_of(w, '/') {
        Some(i) => w.subrange(0, i),
        None => w,
    }
}

/// Host and port of an authority: split at the last `:` when what follows
/// it is a valid 16-bit port number, otherwise the whole authority is the host.
pub open spec fn host_and_port(a: Seq<char>) -> (Seq<char>, Option<u16>) {
    match last_index_of(a, ':') {
        Some(i) => match spec_parse_u16(a.subrange(i + 1, a.len() as int)) {
            Some(p) => (a.subrange(0, i), Some(p)),
            None => (a, None),
        },
        None => (a, None),
    }
}

/// The host of the identity service that issues tokens for a service host:
/// the test identity service for hosts under `test.cloud.ibm.com`, the
/// production one otherwise, behind `private.` on private endpoints.
pub open spec fn iam_host(service_host: Seq<char>, use_private_endpoint: bool) -> Seq<char> {
    (if use_private_endpoint { "private."@ } else { Seq::empty() }) + (if seq_contains(
        service_host,
        "test.cloud.ibm.com"@,
    ) {
        "iam.test.cloud.ibm.com"@
    } else {
        "iam.cloud.ibm.com"@
    })
}

/// The token URL of an identity host.
pub open spec fn token_url_for(iam: Seq<char>) -> Seq<char> {
    "https://"@ + iam + "/identity/token"@
}

/// Whether an overriding URL asks for TLS.
pub open spec fn override_uses_ssl(raw: Seq<char>) -> bool {
    seq_starts_with(raw, "https://"@) || seq_starts_with(raw, "wss://"@)
}

fn chars_lit(s: &str) -> (r: Vec<char>)
    ensures
        r@ == s@,
{
    chars_of(s)
}

fn scheme_less(raw: &[char]) -> (r: Vec<char>)
    ensures
        r@ == without_scheme(raw@),
{
    let https = chars_lit("https://");
    let http = chars_lit("http://");
    let wss = chars_lit("wss://");
    let ws = chars_lit("ws://");
    let w1 = strip_all_exec(raw, https.as_slice());
    let w2 = strip_all_exec(w1.as_slice(), http.as_slice());
    let w3 = strip_all_exec(w2.as_slice(), wss.as_slice());
    strip_all_exec(w3.as_slice(), ws.as_slice())
}

fn authority_exec(w: Vec<char>) -> (r: Vec<char>)
    ensures
        r@ == authority_of(w@),
{
    match find_first(w.as_slice(), '/') {
        Some(i) => slice_prefix(w.as_slice(), i),
        None => w,
    }
}

fn host_and_port_exec(authority: Vec<char>) -> (r: (Vec<char>, Option<u16>))
    ensures
        (r.0@, r.1) == host_and_port(authority@),
{
    let n = authority.len();
    match find_last(authority.as_slice(), ':') {
        Some(i) => {
            assert(i < n);
            let rest = slice_suffix(authority.as_slice(), i + 1);
            match parse_u16(rest.as_slice()) {
                Some(p) => (slice_prefix(authority.as_slice(), i), Some(p)),
                None => (authority, None),
            }
        },
        None => (authority, None),
    }
}

fn token_url_exec(host: &[char], use_private_endpoint: bool) -> (r: String)
    ensures
        r@ == token_url_for(iam_host(host@, use_private_endpoint)),
{
    let test_domain = chars_lit("test.cloud.ibm.com");
    let is_test = contains_exec(host, test_domain.as_slice());
    let mut token = String::from_str("https://");
    if use_private_endpoint {
        token.append("private.");
    }
    if is_test {
        token.append("iam.test.cloud.ibm.com");
    } else {
        token.append("iam.cloud.ibm.com");
    }
    token.append("/identity/token");
    assert(token@ =~= token_url_for(iam_host(host@, use_private_endpoint)));
    token
}

/// Parses an overriding service URL such as
/// `"https://dndev.apprapp.test.cloud.ibm.com"` or `"http://localhost:3000"`
/// into the settings the client uses: host, port, TLS, and the token URL
/// of the matching identity service.
pub fn resolve_urls_from_service_override(raw_url: &str, use_private_endpoint: bool) -> (r: ResolvedUrls)
    ensures
        ({
            let (host, port) = host_and_port(authority_of(without_scheme(raw_url@)));
            &&& r.service_host_override matches Some(h) && h@ == host
            &&& r.token_url_override matches Some(t) && t@ == token_url_for(iam_host(host, use_private_endpoint))
            &&& r.service_no_ssl == !override_uses_ssl(raw_url@)
            &&& r.service_port_override == port
        }),
{
    let raw = chars_of(raw_url);
    let https = chars_lit("https://");
    let wss = chars_lit("wss://");
    let use_ssl = starts_with(raw.as_slice(), https.as_slice()) || starts_with(raw.as_slice(), wss.as_slice());
    let w = scheme_less(raw.as_slice());
    let authority = authority_exec(w);
    let (host, port) = host_and_port_exec(authority);
    let token = token_url_exec(host.as_slice(), use_private_endpoint);
    let host_string = string_of(host.as_slice());
    ResolvedUrls {
        service_host_override: Some(host_string),
        token_url_override: Some(token),
        service_no_ssl: !use_ssl,
        service_port_override: port,
    }
}

/// The address of the App Configuration service: the overriding host when
/// there is one, otherwise the regional host (behind `private.` on private
/// endpoints); always under the `apprapp` endpoint.
pub open spec fn spec_service_address(
    region: Seq<char>,
    use_private_endpoint: bool,
    urls: ResolvedUrls,
) -> (Seq<char>, Option<u16>, bool) {
    match urls.service_host_override {
        Some(h) => (h@, urls.service_port_override, !urls.service_no_ssl),
        None => (
            (if use_private_endpoint { "private."@ } else { Seq::empty() }) + region
                + ".apprapp.cloud.ibm.com"@,
            None,
            true,
        ),
    }
}

/// Builds the address of the App Configuration service.
pub fn build_service_address(region: &str, use_private_endpoint: bool, urls: &ResolvedUrls) -> (r: ServiceAddress)
    ensures
        ({
            let (host, port, ssl) = spec_service_address(region@, use_private_endpoint, *urls);
            &&& r.host@ == host
            &&& r.port == port
            &&& r.use_ssl == ssl
            &&& r.endpoint matches Some(e) && e@ == "apprapp"@
        }),
{
    match &urls.service_host_override {
        Some(host) => {
            if urls.service_no_ssl {
                ServiceAddress::new_without_ssl(host.clone(), urls.service_port_override, Some(String::from_str("apprapp")))
            } else {
                ServiceAddress::new(host.clone(), urls.service_port_override, Some(String::from_str("apprapp")))
            }
        },
        None => {
            let mut host = if use_private_endpoint {
                String::from_str("private.")
            } else {
                String::new()
            };
            host.append(region);
            host.append(".apprapp.cloud.ibm.com");
            ServiceAddress::new(host, None, Some(String::from_str("apprapp")))
        },
    }
}

/// The token endpoint: the overriding one when there is one, otherwise the
/// production identity service (behind `private.` on private endpoints).
pub open spec fn spec_token_url(use_private_endpoint: bool, urls: ResolvedUrls) -> Seq<char> {
    match urls.token_url_override {
        Some(t) => t@,
        None => token_url_for(
            (if use_private_endpoint { "private."@ } else { Seq::empty() }) + "iam.cloud.ibm.com"@,
        ),
    }
}

/// Builds the URL of the token endpoint.
pub fn build_token_url(use_private_endpoint: bool, urls: &ResolvedUrls) -> (r: String)
    ensures
        r@ == spec_token_url(use_private_endpoint, *urls),
{
    match &urls.token_url_override {
        Some(t) => t.clone(),
        None => {
            let mut r = String::from_str("https://");
            if use_private_endpoint {
                r.append("private.");
            }
            r.append("iam.cloud.ibm.com");
            r.append("/identity/token");
            r
        },
    }
}

/// The websocket URL of the configuration monitor of a region.
pub fn get_ws_url(region: &str) -> (r: String)
    ensures
        r@ == "wss://"@ + region@ + ".apprapp.cloud.ibm.com/apprapp/wsfeature"@,
{
    let mut r = String::from_str("wss://");
    r.append(region);
    r.append(".apprapp.cloud.ibm.com/apprapp/wsfeature");
    r
}

} // verus!
