use vstd::prelude::*;

use crate::configuration::{Configuration, distinct_feature_ids, distinct_property_ids, feature_result, property_result, secret_property_result, string_views};
use crate::errors::{CurrentModeOfflineReason, Error};
use crate::feature_snapshot::FeatureSnapshot;
use crate::property_snapshot::PropertySnapshot;
use crate::secret_property::SecretPropertySnapshot;

verus! {

/// Identifies a configuration: the service instance, the environment and
/// the collection.
#[derive(Debug, Clone, PartialEq, Eq)]
pub struct ConfigurationId {
    /// Instance id of the App Configuration service.
    pub guid: String,
    /// Id of the environment in the service instance.
    pub environment_id: String,
    /// Id of the collection in the service instance.
    pub collection_id: String,
}

impl ConfigurationId {
    pub fn new(guid: String, environment_id: String, collection_id: String) -> (r: Self)
        ensures
            r.guid == guid,
            r.environment_id == environment_id,
            r.collection_id == collection_id,
    {
        ConfigurationId { guid, environment_id, collection_id }
    }
}

/// How a client is running.
#[derive(Debug, Clone, Copy, PartialEq, Eq, Structural)]
pub enum RuntimeMode {
    Online,
    Offline,
    Defunct,
}

/// What happened to the connection of a client.
#[derive(Debug, Clone, Copy, PartialEq, Eq, Structural)]
pub enum RuntimeEventKind {
    Connected,
    Disconnected,
    Closed,
    HeartbeatTimeout,
    RefreshSuccess,
    RefreshFailure,
}

/// The state of the connection of a client.
#[derive(Debug, Clone, Copy, PartialEq, Eq, Structural)]
pub struct RuntimeStatus {
    pub is_connected: bool,
    pub mode: Option<RuntimeMode>,
    pub offline_reason: Option<CurrentModeOfflineReason>,
}

/// An event of the connection of a client, with the status after it.
#[derive(Debug, Clone, Copy, PartialEq, Eq, Structural)]
pub struct RuntimeEvent {
    pub kind: RuntimeEventKind,
    pub status: RuntimeStatus,
}

/// Hands runtime events to every registered listener, in the order of
/// registration. A listener is a function that receives each event.
pub struct RuntimeEventEmitter<L: Fn(RuntimeEvent)> {
    pub listeners: Vec<L>,
}

impl<L: Fn(RuntimeEvent)> RuntimeEventEmitter<L> {
    /// An emitter without listeners.
    pub fn new() -> (r: Self)
        ensures
            r.listeners@.len() == 0,
    {
        RuntimeEventEmitter { listeners: Vec::new() }
    }

    /// Registers a listener after those already registered.
    pub fn on(&mut self, listener: L) -> (r: Result<(), Error>)
        ensures
            final(self).listeners@ == old(self).listeners@.push(listener),
            r is Ok,
    {
        self.listeners.push(listener);
        Ok(())
    }

    /// Hands the event to every listener, in order: each listener has been
    /// called with the event when this returns.
    pub fn emit(&self, event: RuntimeEvent) -> (r: Result<(), Error>)
        requires
            forall|i: int| 0 <= i < self.listeners@.len() ==> call_requires(#[trigger] self.listeners@[i], (event,)),
        ensures
            r is Ok,
            forall|i: int| 0 <= i < self.listeners@.len() ==> call_ensures(#[trigger] self.listeners@[i], (event,), ()),
    {
        let n = self.listeners.len();
        let mut i: usize = 0;
        while i < n
            invariant
                n == self.listeners@.len(),
                i <= n,
                forall|j: int| 0 <= j < n ==> call_requires(#[trigger] self.listeners@[j], (event,)),
                forall|j: int| 0 <= j < i ==> call_ensures(#[trigger] self.listeners@[j], (event,), ()),
            decreases n - i,
        {
            let listener = &self.listeners[i];
            listener(event);
            i = i + 1;
        }
        Ok(())
    }
}

/// A source of feature and property snapshots, implemented by the clients.
pub trait ConfigurationProvider: Sized {
    /// The ids of the features.
    fn get_feature_ids(&self) -> Result<Vec<String>, Error>;

    /// Whether `r` is an answer of the provider, as it stands, to a request
    /// for the feature with the given id. A provider that does not describe
    /// its answers (as the three functions below do) admits every answer.
    open spec fn answers_feature(&self, feature_id: Seq<char>, r: Result<FeatureSnapshot, Error>) -> bool {
        true
    }

    /// Whether `r` is an answer of the provider, as it stands, to a request
    /// for the property with the given id.
    open spec fn answers_property(&self, property_id: Seq<char>, r: Result<PropertySnapshot, Error>) -> bool {
        true
    }

    /// Whether `r` is an answer of the provider, as it stands, to the
    /// question whether it is online.
    open spec fn answers_online(&self, r: Result<bool, Error>) -> bool {
        true
    }

    /// A snapshot of a feature: it evaluates entities always the same way.
    fn get_feature(&self, feature_id: &str) -> (r: Result<FeatureSnapshot, Error>)
        ensures
            self.answers_feature(feature_id@, r),
    ;

    /// The ids of the properties.
    fn get_property_ids(&self) -> Result<Vec<String>, Error>;

    /// A snapshot of a property: it evaluates entities always the same way.
    fn get_property(&self, property_id: &str) -> (r: Result<PropertySnapshot, Error>)
        ensures
            self.answers_property(property_id@, r),
    ;

    /// Whether a remote configuration is connected to its server.
    fn is_online(&self) -> (r: Result<bool, Error>)
        ensures
            self.answers_online(r),
    ;

    /// Blocks until a remote configuration is connected; whether it came
    /// online in time.
    fn wait_until_online(&self) -> bool;

    /// A secret-reference view of a property.
    fn get_secret_property(&self, property_id: &str) -> Result<SecretPropertySnapshot, Error>;

    /// Whether the configuration is connected; by default, whether it is online.
    fn is_connected(&self) -> (r: Result<bool, Error>)
        default_ensures
            self.answers_online(r),
    {
        self.is_online()
    }

    /// The state of the connection, where there is one.
    fn get_runtime_status(&self) -> (r: Result<Option<RuntimeStatus>, Error>)
        default_ensures
            r matches Ok(None),
    {
        Ok(None)
    }

    /// Stops background work and releases the configuration.
    fn clean_up(&mut self) -> (r: Result<(), Error>)
        default_ensures
            r is Ok,
            *final(self) == *old(self),
    {
        Ok(())
    }

    /// Like `clean_up`, also clearing a cache kept on disk.
    fn clean_up_with_cache_clear(&mut self) -> (r: Result<(), Error>)
        default_ensures
            r is Ok,
            *final(self) == *old(self),
    {
        Ok(())
    }
}

/// Gives the latest snapshot of one feature of a provider each time it is asked.
pub struct FeatureProxy<'a, C: ConfigurationProvider> {
    pub client: &'a C,
    pub feature_id: String,
}

impl<'a, C: ConfigurationProvider> FeatureProxy<'a, C> {
    pub fn new(client: &'a C, feature_id: String) -> (r: Self)
        ensures
            r.client == client,
            r.feature_id == feature_id,
    {
        FeatureProxy { client, feature_id }
    }

    /// A snapshot of the feature, as the provider has it now.
    pub fn snapshot(&self) -> (r: Result<FeatureSnapshot, Error>)
        ensures
            self.client.answers_feature(self.feature_id@, r),
    {
        self.client.get_feature(self.feature_id.as_str())
    }
}

/// Gives the latest snapshot of one property of a provider each time it is asked.
pub struct PropertyProxy<'a, C: ConfigurationProvider> {
    pub client: &'a C,
    pub property_id: String,
}

impl<'a, C: ConfigurationProvider> PropertyProxy<'a, C> {
    pub fn new(client: &'a C, property_id: String) -> (r: Self)
        ensures
            r.client == client,
            r.property_id == property_id,
    {
        PropertyProxy { client, property_id }
    }

    /// A snapshot of the property, as the provider has it now.
    pub fn snapshot(&self) -> (r: Result<PropertySnapshot, Error>)
        ensures
            self.client.answers_property(self.property_id@, r),
    {
        self.client.get_property(self.property_id.as_str())
    }
}

/// A client that hands out proxies of its features and properties.
pub trait AppConfigurationClient: ConfigurationProvider + Sized {
    /// A proxy of a feature; nothing is looked up until it is used.
    fn get_feature_proxy<'a>(&'a self, feature_id: &str) -> Result<FeatureProxy<'a, Self>, Error>;

    /// A proxy of a property; nothing is looked up until it is used.
    fn get_property_proxy<'a>(&'a self, property_id: &str) -> Result<PropertyProxy<'a, Self>, Error>;

    /// Records a custom event for experiments; not implemented yet, so it
    /// accepts every event and does nothing.
    fn track(&self, event_key: &str, entity_id: &str) -> (r: Result<(), Error>)
        ensures
            r is Ok,
    {
        Ok(())
    }
}

impl<T: ConfigurationProvider> AppConfigurationClient for T {
    fn get_feature_proxy<'a>(&'a self, feature_id: &str) -> (r: Result<FeatureProxy<'a, Self>, Error>)
        ensures
            r matches Ok(p) && p.client == self && p.feature_id@ == feature_id@,
    {
        Ok(FeatureProxy::new(self, String::from_str(feature_id)))
    }

    fn get_property_proxy<'a>(&'a self, property_id: &str) -> (r: Result<PropertyProxy<'a, Self>, Error>)
        ensures
            r matches Ok(p) && p.client == self && p.property_id@ == property_id@,
    {
        Ok(PropertyProxy::new(self, String::from_str(property_id)))
    }
}

/// A client that serves a configuration held in memory, read once from a
/// file, and never connects to a server.
#[derive(Debug)]
pub struct AppConfigurationOffline {
    pub config_snapshot: Configuration,
}

impl AppConfigurationOffline {
    /// A client serving the given configuration.
    pub fn from_configuration(config_snapshot: Configuration) -> (r: Self)
        ensures
            r.config_snapshot == config_snapshot,
    {
        AppConfigurationOffline { config_snapshot }
    }
}

impl ConfigurationProvider for AppConfigurationOffline {
    open spec fn answers_feature(&self, feature_id: Seq<char>, r: Result<FeatureSnapshot, Error>) -> bool {
        feature_result(self.config_snapshot, feature_id, r)
    }

    open spec fn answers_property(&self, property_id: Seq<char>, r: Result<PropertySnapshot, Error>) -> bool {
        property_result(self.config_snapshot, property_id, r)
    }

    open spec fn answers_online(&self, r: Result<bool, Error>) -> bool {
        r == Ok::<bool, Error>(false)
    }

    fn get_feature_ids(&self) -> (r: Result<Vec<String>, Error>)
        ensures
            r matches Ok(ids) && string_views(ids@) == distinct_feature_ids(self.config_snapshot.features@),
    {
        Ok(self.config_snapshot.get_feature_ids())
    }

    fn get_feature(&self, feature_id: &str) -> (r: Result<FeatureSnapshot, Error>)
        ensures
            feature_result(self.config_snapshot, feature_id@, r),
    {
        self.config_snapshot.get_feature(feature_id)
    }

    fn get_property_ids(&self) -> (r: Result<Vec<String>, Error>)
        ensures
            r matches Ok(ids) && string_views(ids@) == distinct_property_ids(self.config_snapshot.properties@),
    {
        Ok(self.config_snapshot.get_property_ids())
    }

    fn get_property(&self, property_id: &str) -> (r: Result<PropertySnapshot, Error>)
        ensures
            property_result(self.config_snapshot, property_id@, r),
    {
        self.config_snapshot.get_property(property_id)
    }

    fn is_online(&self) -> (r: Result<bool, Error>)
        ensures
            r == Ok::<bool, Error>(false),
    {
        Ok(false)
    }

    fn wait_until_online(&self) -> (r: bool)
        ensures
            !r,
    {
        false
    }

    fn get_secret_property(&self, property_id: &str) -> (r: Result<SecretPropertySnapshot, Error>)
        ensures
            secret_property_result(self.config_snapshot, property_id@, r),
    {
        self.config_snapshot.get_secret_property(property_id)
    }
}

} // verus!
