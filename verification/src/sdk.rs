use vstd::prelude::*;
use vstd::string::*;

use crate::client::ConfigurationId;
use crate::errors::Error;
use crate::models::duplicate_opt_string;
use crate::options::{blank, is_required_error, join_file_name, join_path, options_problem, validate_required, AppConfigurationContextOptions};
use crate::service_address::{authority_of, host_and_port, iam_host, override_uses_ssl, resolve_urls_from_service_override, token_url_for, without_scheme, ResolvedUrls};

verus! {

/// The credentials and endpoint settings given at initialisation.
#[derive(Debug)]
pub struct InitState {
    pub apikey: String,
    pub region: String,
    pub guid: String,
    pub use_private_endpoint: bool,
    /// URL settings computed at initialisation from an overriding service URL.
    pub resolved_urls: ResolvedUrls,
}

/// The setup of the SDK before its client runs: credentials, endpoint
/// settings and whether a context was bound.
#[derive(Debug)]
pub struct AppConfigurationSetup {
    pub init_state: Option<InitState>,
    /// An overriding service URL, set before initialisation.
    pub service_url_override: Option<String>,
    pub context_set: bool,
}

/// How the client behaves while the server cannot be reached.
#[derive(Debug, Clone, PartialEq, Eq)]
pub enum OfflineModePlan {
    /// Fail until the server is back.
    Fail,
    /// Serve the last configuration received.
    Cache,
    /// Load the bootstrap file now and serve it; if it cannot be loaded,
    /// read it lazily as in `BootstrapFile`.
    FallbackFromBootstrap { path: String, environment_id: String, collection_id: String },
    /// Read the configuration lazily from a bootstrap file.
    BootstrapFile { path: String, environment_id: String, collection_id: String },
    /// Keep the configuration in a cache file.
    PersistentCacheFile { path: String, environment_id: String, collection_id: String },
}

/// Everything needed to build the client of a context.
#[derive(Debug)]
pub struct ContextPlan {
    pub apikey: String,
    pub region: String,
    pub configuration_id: ConfigurationId,
    pub offline_mode: OfflineModePlan,
    pub use_private_endpoint: bool,
    pub resolved_urls: ResolvedUrls,
}

/// Whether `m` is the offline mode planned for the options.
pub open spec fn offline_plan_of(o: AppConfigurationContextOptions, environment_id: Seq<char>, collection_id: Seq<char>, m: OfflineModePlan) -> bool {
    match o.bootstrap_file {
        Some(b) => if !o.live_config_update_enabled {
            m matches OfflineModePlan::FallbackFromBootstrap { path, environment_id: e, collection_id: c }
                && path == b && e@ == environment_id && c@ == collection_id
        } else {
            m matches OfflineModePlan::BootstrapFile { path, environment_id: e, collection_id: c }
                && path == b && e@ == environment_id && c@ == collection_id
        },
        None => match o.persistent_cache_directory {
            Some(d) => m matches OfflineModePlan::PersistentCacheFile { path, environment_id: e, collection_id: c }
                && path@ == join_path(d@, "appconfiguration.json"@) && e@ == environment_id && c@ == collection_id,
            None => if o.live_config_update_enabled { m == OfflineModePlan::Fail } else { m == OfflineModePlan::Cache },
        },
    }
}

/// Plans the offline mode of a context: a bootstrap file first (loaded at
/// once when live updates are off), then a cache file in the cache
/// directory; otherwise failing while live updates are on.
pub fn build_offline_mode(options: &AppConfigurationContextOptions, environment_id: &str, collection_id: &str) -> (r: OfflineModePlan)
    ensures
        offline_plan_of(*options, environment_id@, collection_id@, r),
{
    if let Some(bootstrap_file) = &options.bootstrap_file {
        if !options.live_config_update_enabled {
            return OfflineModePlan::FallbackFromBootstrap {
                path: bootstrap_file.clone(),
                environment_id: String::from_str(environment_id),
                collection_id: String::from_str(collection_id),
            };
        }
        return OfflineModePlan::BootstrapFile {
            path: bootstrap_file.clone(),
            environment_id: String::from_str(environment_id),
            collection_id: String::from_str(collection_id),
        };
    }
    if let Some(dir) = &options.persistent_cache_directory {
        return OfflineModePlan::PersistentCacheFile {
            path: join_file_name(dir.as_str(), "appconfiguration.json"),
            environment_id: String::from_str(environment_id),
            collection_id: String::from_str(collection_id),
        };
    }
    if options.live_config_update_enabled {
        OfflineModePlan::Fail
    } else {
        OfflineModePlan::Cache
    }
}

fn duplicate_urls(u: &ResolvedUrls) -> (r: ResolvedUrls)
    ensures
        r == *u,
{
    ResolvedUrls {
        service_host_override: duplicate_opt_string(&u.service_host_override),
        token_url_override: duplicate_opt_string(&u.token_url_override),
        service_no_ssl: u.service_no_ssl,
        service_port_override: u.service_port_override,
    }
}

/// Whether the setup holds complete credentials.
pub open spec fn initialized(s: AppConfigurationSetup) -> bool {
    s.init_state matches Some(st) && st.region@.len() > 0 && st.guid@.len() > 0 && st.apikey@.len() > 0
}

/// Whether `u` are the URL settings resolved from an overriding service URL
/// (none without one).
pub open spec fn resolved_from(url: Option<String>, use_private_endpoint: bool, u: ResolvedUrls) -> bool {
    match url {
        None => u.service_host_override is None && u.token_url_override is None && !u.service_no_ssl
            && u.service_port_override is None,
        Some(raw) => {
            let (host, port) = host_and_port(authority_of(without_scheme(raw@)));
            &&& u.service_host_override matches Some(h) && h@ == host
            &&& u.token_url_override matches Some(t) && t@ == token_url_for(iam_host(host, use_private_endpoint))
            &&& u.service_no_ssl == !override_uses_ssl(raw@)
            &&& u.service_port_override == port
        },
    }
}

/// The first blank credential, by name.
pub open spec fn missing_credential(region: Seq<char>, guid: Seq<char>, apikey: Seq<char>) -> Option<Seq<char>> {
    if blank(region) {
        Some("region"@)
    } else if blank(guid) {
        Some("guid"@)
    } else if blank(apikey) {
        Some("apikey"@)
    } else {
        None
    }
}

/// The first blank context id, by name.
pub open spec fn missing_context_id(collection_id: Seq<char>, environment_id: Seq<char>) -> Option<Seq<char>> {
    if blank(collection_id) {
        Some("collection_id"@)
    } else if blank(environment_id) {
        Some("environment_id"@)
    } else {
        None
    }
}

/// Whether `r` and `new` are what initialising `old` with the given
/// credentials gives: nothing changes once initialised; a blank credential
/// is refused; otherwise the credentials are taken, with the endpoint choice
/// made before and the URL settings resolved from the overriding service URL.
pub open spec fn init_outcome(
    old: AppConfigurationSetup,
    region: Seq<char>,
    guid: Seq<char>,
    apikey: Seq<char>,
    r: Result<(), Error>,
    new: AppConfigurationSetup,
) -> bool {
    &&& new.service_url_override == old.service_url_override
    &&& new.context_set == old.context_set
    &&& initialized(old) ==> r is Ok && new.init_state == old.init_state
    &&& !initialized(old) ==> match missing_credential(region, guid, apikey) {
        Some(name) => r matches Err(e) && is_required_error(name, e) && new.init_state == old.init_state,
        None => {
            let upe = match old.init_state {
                Some(st) => st.use_private_endpoint,
                None => false,
            };
            &&& r is Ok
            &&& new.init_state matches Some(st) && st.region@ == region && st.guid@ == guid && st.apikey@ == apikey
                && st.use_private_endpoint == upe && resolved_from(old.service_url_override, upe, st.resolved_urls)
        },
    }
}

impl AppConfigurationSetup {
    /// A setup without credentials, override or context.
    pub fn new() -> (r: Self)
        ensures
            r.init_state is None,
            r.service_url_override is None,
            !r.context_set,
    {
        AppConfigurationSetup { init_state: None, service_url_override: None, context_set: false }
    }

    /// Overrides the service URL; takes effect at initialisation.
    pub fn override_service_url(&mut self, url: &str)
        ensures
            final(self).service_url_override matches Some(u) && u@ == url@,
            final(self).init_state == old(self).init_state,
            final(self).context_set == old(self).context_set,
    {
        self.service_url_override = Some(String::from_str(url));
    }

    /// Chooses the private endpoint or not; it is kept by initialisation.
    pub fn use_private_endpoint(&mut self, use_private_endpoint: bool)
        ensures
            final(self).init_state matches Some(st) && st.use_private_endpoint == use_private_endpoint,
            match old(self).init_state {
                Some(o) => final(self).init_state matches Some(st) && st.apikey == o.apikey && st.region == o.region
                    && st.guid == o.guid && st.resolved_urls == o.resolved_urls,
                None => final(self).init_state matches Some(st) && st.apikey@.len() == 0 && st.region@.len() == 0
                    && st.guid@.len() == 0 && resolved_from(None, use_private_endpoint, st.resolved_urls),
            },
            final(self).service_url_override == old(self).service_url_override,
            final(self).context_set == old(self).context_set,
    {
        match self.init_state.take() {
            Some(st) => {
                self.init_state = Some(InitState { use_private_endpoint, ..st });
            },
            None => {
                self.init_state = Some(
                    InitState {
                        apikey: String::new(),
                        region: String::new(),
                        guid: String::new(),
                        use_private_endpoint,
                        resolved_urls: ResolvedUrls::none(),
                    },
                );
            },
        }
    }

    /// Whether complete credentials were given.
    pub fn is_initialized(&self) -> (r: bool)
        ensures
            r == initialized(*self),
    {
        match &self.init_state {
            Some(st) => st.region.unicode_len() > 0 && st.guid.unicode_len() > 0 && st.apikey.unicode_len() > 0,
            None => false,
        }
    }

    /// Whether a context was bound.
    pub fn is_context_set(&self) -> (r: bool)
        ensures
            r == self.context_set,
    {
        self.context_set
    }

    /// Takes the credentials, once: later calls change nothing. A blank
    /// credential is refused. The endpoint choice made before is kept, and
    /// an overriding service URL is resolved now.
    pub fn init(&mut self, region: &str, guid: &str, apikey: &str) -> (r: Result<(), Error>)
        ensures
            init_outcome(*old(self), region@, guid@, apikey@, r, *final(self)),
    {
        if self.is_initialized() {
            return Ok(());
        }
        validate_required("region", region)?;
        validate_required("guid", guid)?;
        validate_required("apikey", apikey)?;
        let use_private_endpoint = match &self.init_state {
            Some(st) => st.use_private_endpoint,
            None => false,
        };
        let resolved_urls = match &self.service_url_override {
            Some(url) => resolve_urls_from_service_override(url.as_str(), use_private_endpoint),
            None => ResolvedUrls::none(),
        };
        self.init_state = Some(
            InitState {
                apikey: String::from_str(apikey),
                region: String::from_str(region),
                guid: String::from_str(guid),
                use_private_endpoint,
                resolved_urls,
            },
        );
        Ok(())
    }

    /// Plans the client of a context: nothing once a context is bound;
    /// otherwise it needs initialisation, non-blank ids and consistent
    /// options.
    pub fn prepare_context(
        &self,
        collection_id: &str,
        environment_id: &str,
        options: &AppConfigurationContextOptions,
    ) -> (r: Result<Option<ContextPlan>, Error>)
        ensures
            self.context_set ==> r matches Ok(None),
            !self.context_set && self.init_state is None ==> (r matches Err(Error::Other(m))
                && m@ == "init must be called before set_context"@),
            !self.context_set && self.init_state is Some ==> match missing_context_id(collection_id@, environment_id@) {
                Some(name) => r matches Err(e) && is_required_error(name, e),
                None => match options_problem(*options) {
                    Some(m) => r matches Err(Error::Other(s)) && s@ == m,
                    None => {
                        let st = self.init_state->Some_0;
                        r matches Ok(Some(p)) && p.apikey == st.apikey && p.region == st.region
                            && p.configuration_id.guid == st.guid && p.configuration_id.environment_id@ == environment_id@
                            && p.configuration_id.collection_id@ == collection_id@
                            && offline_plan_of(*options, environment_id@, collection_id@, p.offline_mode)
                            && p.use_private_endpoint == st.use_private_endpoint && p.resolved_urls == st.resolved_urls
                    },
                },
            },
    {
        if self.context_set {
            return Ok(None);
        }
        let st = match &self.init_state {
            Some(st) => st,
            None => return Err(Error::Other(String::from_str("init must be called before set_context"))),
        };
        validate_required("collection_id", collection_id)?;
        validate_required("environment_id", environment_id)?;
        options.validate()?;
        let offline_mode = build_offline_mode(options, environment_id, collection_id);
        let configuration_id = ConfigurationId::new(
            st.guid.clone(),
            String::from_str(environment_id),
            String::from_str(collection_id),
        );
        Ok(
            Some(
                ContextPlan {
                    apikey: st.apikey.clone(),
                    region: st.region.clone(),
                    configuration_id,
                    offline_mode,
                    use_private_endpoint: st.use_private_endpoint,
                    resolved_urls: duplicate_urls(&st.resolved_urls),
                },
            ),
        )
    }

    /// Records that the client of a context was built.
    pub fn mark_context_set(&mut self)
        ensures
            final(self).context_set,
            final(self).init_state == old(self).init_state,
            final(self).service_url_override == old(self).service_url_override,
    {
        self.context_set = true;
    }

    /// Records that the client of the context was released: a context can
    /// be bound again.
    pub fn clear_context(&mut self)
        ensures
            !final(self).context_set,
            final(self).init_state == old(self).init_state,
            final(self).service_url_override == old(self).service_url_override,
    {
        self.context_set = false;
    }
}

} // verus!
