use vstd::prelude::*;
use vstd::string::*;

use crate::client::ConfigurationId;
use crate::errors::{Error, NetworkError};
use crate::metering::opt_view;
use crate::options::is_white_space;
use crate::service_address::{spec_base_url, ServiceAddress, ServiceAddressProtocol};

verus! {

/// The text of the URL parsed with `url::Url::parse` from `base` once the
/// three query pairs `(k1, v1)`, `(k2, v2)`, `(k3, v3)` are appended in that
/// order (form-urlencoded), or `None` when `base` does not parse as a URL.
pub uninterp spec fn url_with_query_pairs_of(
    base: Seq<char>,
    k1: Seq<char>,
    v1: Seq<char>,
    k2: Seq<char>,
    v2: Seq<char>,
    k3: Seq<char>,
    v3: Seq<char>,
) -> Option<Seq<char>>;

/// Parses `base` with `url::Url::parse` and appends three query pairs with
/// `Url::query_pairs_mut`; the contract names the result.
#[verifier::external_body]
fn url_with_query_pairs(base: &str, k1: &str, v1: &str, k2: &str, v2: &str, k3: &str, v3: &str) -> (r: Option<String>)
    ensures
        opt_view(r) == url_with_query_pairs_of(base@, k1@, v1@, k2@, v2@, k3@, v3@),
{
    match url::Url::parse(base) {
        Ok(mut u) => {
            u.query_pairs_mut().append_pair(k1, v1).append_pair(k2, v2).append_pair(k3, v3);
            Some(u.as_str().to_string())
        },
        Err(_) => None,
    }
}

/// The URL from which the configuration of an instance is fetched.
pub open spec fn spec_configuration_url(address: ServiceAddress, guid: Seq<char>) -> Seq<char> {
    spec_base_url(address, ServiceAddressProtocol::Http) + "/feature/v1/instances/"@ + guid + "/config"@
}

/// The URL from which the configuration of an instance is fetched.
pub fn configuration_url(address: &ServiceAddress, guid: &str) -> (r: String)
    ensures
        r@ == spec_configuration_url(*address, guid@),
{
    let mut r = address.base_url(ServiceAddressProtocol::Http);
    r.append("/feature/v1/instances/");
    r.append(guid);
    r.append("/config");
    r
}

/// The URL to which the usage of an instance is reported.
pub open spec fn spec_metering_url(address: ServiceAddress, guid: Seq<char>) -> Seq<char> {
    spec_base_url(address, ServiceAddressProtocol::Http) + "/apprapp/events/v1/instances/"@ + guid + "/usage"@
}

/// The URL to which the usage of an instance is reported.
pub fn metering_url(address: &ServiceAddress, guid: &str) -> (r: String)
    ensures
        r@ == spec_metering_url(*address, guid@),
{
    let mut r = address.base_url(ServiceAddressProtocol::Http);
    r.append("/apprapp/events/v1/instances/");
    r.append(guid);
    r.append("/usage");
    r
}

/// The URL from which the configuration of a collection and environment is
/// fetched, with its query; a base that does not parse is refused.
pub fn configuration_query_url(address: &ServiceAddress, id: &ConfigurationId) -> (r: Result<String, NetworkError>)
    ensures
        match url_with_query_pairs_of(
            spec_configuration_url(*address, id.guid@),
            "action"@,
            "sdkConfig"@,
            "environment_id"@,
            id.environment_id@,
            "collection_id"@,
            id.collection_id@,
        ) {
            Some(u) => r matches Ok(s) && s@ == u,
            None => r matches Err(NetworkError::UrlParseError(s)) && s@ == spec_configuration_url(*address, id.guid@),
        },
{
    let base = configuration_url(address, id.guid.as_str());
    match url_with_query_pairs(
        base.as_str(),
        "action",
        "sdkConfig",
        "environment_id",
        id.environment_id.as_str(),
        "collection_id",
        id.collection_id.as_str(),
    ) {
        Some(u) => Ok(u),
        None => Err(NetworkError::UrlParseError(base)),
    }
}

/// The base of the websocket URL that reports configuration changes.
pub open spec fn spec_websocket_base(address: ServiceAddress) -> Seq<char> {
    spec_base_url(address, ServiceAddressProtocol::Ws) + "/wsfeature"@
}

/// The websocket URL that reports the configuration changes of a
/// collection and environment; a base that does not parse is refused.
pub fn websocket_url(address: &ServiceAddress, id: &ConfigurationId) -> (r: Result<String, NetworkError>)
    ensures
        match url_with_query_pairs_of(
            spec_websocket_base(*address),
            "instance_id"@,
            id.guid@,
            "environment_id"@,
            id.environment_id@,
            "collection_id"@,
            id.collection_id@,
        ) {
            Some(u) => r matches Ok(s) && s@ == u,
            None => r matches Err(NetworkError::UrlParseError(s)) && s@ == spec_websocket_base(*address),
        },
{
    let mut base = address.base_url(ServiceAddressProtocol::Ws);
    base.append("/wsfeature");
    match url_with_query_pairs(
        base.as_str(),
        "instance_id",
        id.guid.as_str(),
        "environment_id",
        id.environment_id.as_str(),
        "collection_id",
        id.collection_id.as_str(),
    ) {
        Some(u) => Ok(u),
        None => Err(NetworkError::UrlParseError(base)),
    }
}

/// The value of the authorization header for an access token.
pub fn bearer(token: &str) -> (r: String)
    ensures
        r@ == "Bearer "@ + token@,
{
    let mut r = String::from_str("Bearer ");
    r.append(token);
    r
}

// ---------------------------------------------------------------------------
// Contents of configuration files

/// The text without leading and trailing white space (`str::trim`).
pub open spec fn trimmed(s: Seq<char>) -> Seq<char>
    decreases s.len(),
{
    if s.len() == 0 {
        s
    } else if is_white_space(s[0]) {
        trimmed(s.skip(1))
    } else if is_white_space(s.last()) {
        trimmed(s.drop_last())
    } else {
        s
    }
}

/// The text without leading and trailing white space.
pub fn trim_text(s: &str) -> (r: String)
    ensures
        r@ == trimmed(s@),
{
    let n = s.unicode_len();
    let mut start: usize = 0;
    let mut end: usize = n;
    assert(s@.subrange(0, n as int) =~= s@);
    while start < end && is_space_char(s.get_char(start))
        invariant
            n == s@.len(),
            start <= end <= n,
            trimmed(s@) == trimmed(s@.subrange(start as int, end as int)),
        decreases end - start,
    {
        assert(s@.subrange(start as int, end as int).skip(1) =~= s@.subrange(start as int + 1, end as int));
        start = start + 1;
    }
    while start < end && is_space_char(s.get_char(end - 1))
        invariant
            n == s@.len(),
            start <= end <= n,
            trimmed(s@) == trimmed(s@.subrange(start as int, end as int)),
            start < end ==> !is_white_space(s@[start as int]),
        decreases end - start,
    {
        assert(s@.subrange(start as int, end as int).drop_last() =~= s@.subrange(start as int, end as int - 1));
        end = end - 1;
    }
    let mut r = String::new();
    let mut k: usize = start;
    while k < end
        invariant
            n == s@.len(),
            start <= k <= end <= n,
            r@ == s@.subrange(start as int, k as int),
        decreases end - k,
    {
        crate::text::push_char(&mut r, s.get_char(k));
        k = k + 1;
        assert(r@ =~= s@.subrange(start as int, k as int));
    }
    r
}

fn is_space_char(c: char) -> (r: bool)
    ensures
        r == is_white_space(c),
{
    let n = c as u32;
    (0x9 <= n && n <= 0xD) || n == 0x20 || n == 0x85 || n == 0xA0 || n == 0x1680 || (0x2000 <= n && n <= 0x200A)
        || n == 0x2028 || n == 0x2029 || n == 0x202F || n == 0x205F || n == 0x3000
}

/// The configuration text read from a bootstrap file: trimmed, and refused
/// when nothing is left.
pub fn bootstrap_contents(path: &str, contents: &str) -> (r: Result<String, Error>)
    ensures
        trimmed(contents@).len() == 0 ==> (r matches Err(Error::Other(m)) && m@ == "given bootstrap file is empty: "@ + path@),
        trimmed(contents@).len() > 0 ==> (r matches Ok(s) && s@ == trimmed(contents@)),
{
    let t = trim_text(contents);
    if t.unicode_len() == 0 {
        let mut m = String::from_str("given bootstrap file is empty: ");
        m.append(path);
        return Err(Error::Other(m));
    }
    Ok(t)
}

} // verus!
