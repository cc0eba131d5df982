use vstd::prelude::*;
use vstd::string::*;

verus! {

/// The time in whole seconds since the Unix epoch (`SystemTime::elapsed`
/// from `UNIX_EPOCH`), or `None` when the clock reads before the epoch.
/// Nothing is promised of the value: it is the machine's clock.
#[verifier::external_body]
fn unix_time_seconds() -> (r: Option<u64>) {
    match std::time::UNIX_EPOCH.elapsed() {
        Ok(d) => Some(d.as_secs()),
        Err(_) => None,
    }
}

/// The current time in seconds since the Unix epoch; a clock set before the
/// epoch counts as the epoch itself.
fn now_seconds() -> (r: u64) {
    match unix_time_seconds() {
        Some(t) => t,
        None => 0,
    }
}

/// Whether a token expiring at `expiration` has expired at `now`.
pub open spec fn expired_by(now: u64, expiration: u64) -> bool {
    now >= expiration
}

/// When a token issued at `now` that lasts `expires_in` seconds expires.
pub open spec fn expiry_after(now: u64, expires_in: u64) -> u64 {
    if now + expires_in <= u64::MAX { (now + expires_in) as u64 } else { u64::MAX }
}

/// An access token and when it expires (seconds since the Unix epoch).
#[derive(Debug)]
pub struct AccessToken {
    pub token: String,
    pub expiration: u64,
}

impl Default for AccessToken {
    fn default() -> (r: Self)
        ensures
            r.token@.len() == 0,
            r.expiration == 0,
    {
        AccessToken { token: String::new(), expiration: 0 }
    }
}

impl AccessToken {
    /// Whether the token has expired at time `now`.
    pub fn expired_at(&self, now: u64) -> (r: bool)
        ensures
            r == (now >= self.expiration),
    {
        now >= self.expiration
    }

    /// Whether the token has expired now.
    pub fn expired(&self) -> (r: bool)
        ensures
            exists|now: u64| r == #[trigger] expired_by(now, self.expiration),
    {
        let now = now_seconds();
        let r = self.expired_at(now);
        assert(r == expired_by(now, self.expiration));
        r
    }

    /// Takes a new token that expires `expires_in` seconds after `now`.
    pub fn renew_at(&mut self, token: String, expires_in: u64, now: u64)
        ensures
            final(self).token == token,
            final(self).expiration == expiry_after(now, expires_in),
    {
        self.token = token;
        self.expiration = now.saturating_add(expires_in);
    }

    /// Takes a new token that expires `expires_in` seconds from now.
    pub fn renew(&mut self, token: String, expires_in: u64)
        ensures
            final(self).token == token,
            exists|now: u64| final(self).expiration == #[trigger] expiry_after(now, expires_in),
    {
        let now = now_seconds();
        self.renew_at(token, expires_in, now);
        assert(self.expiration == expiry_after(now, expires_in));
    }
}

/// The access token of an IBM Cloud API key.
#[derive(Debug)]
pub struct IBMCloudTokenProvider {
    pub apikey: String,
    /// The URL of the token endpoint.
    pub endpoint: String,
    pub access_token: AccessToken,
}

impl IBMCloudTokenProvider {
    /// A provider for the API key, with no token yet.
    pub fn new(apikey: &str, endpoint: &str) -> (r: Self)
        ensures
            r.apikey@ == apikey@,
            r.endpoint@ == endpoint@,
            r.access_token.token@.len() == 0,
            r.access_token.expiration == 0,
    {
        IBMCloudTokenProvider {
            apikey: String::from_str(apikey),
            endpoint: String::from_str(endpoint),
            access_token: AccessToken::default(),
        }
    }

    /// Whether the token held has expired (a new one must be requested).
    pub fn expired(&self) -> (r: bool)
        ensures
            exists|now: u64| r == #[trigger] expired_by(now, self.access_token.expiration),
    {
        self.access_token.expired()
    }

    /// The token held, when it has not expired at `now`.
    pub fn valid_token_at(&self, now: u64) -> (r: Option<String>)
        ensures
            now >= self.access_token.expiration ==> r is None,
            now < self.access_token.expiration ==> r == Some(self.access_token.token),
    {
        if self.access_token.expired_at(now) {
            None
        } else {
            Some(self.access_token.token.clone())
        }
    }
}

} // verus!
