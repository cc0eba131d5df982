use vstd::prelude::*;

use crate::errors::Error;

verus! {

/// Builds a client.
pub trait AppConfigClientBuilder {
    /// The client built.
    type Client;

    /// Creates the client.
    fn build(self) -> Result<Self::Client, Error>;
}

/// The data of a client that connects to IBM Cloud.
#[derive(Debug, Clone, Copy)]
pub struct AppConfigIBMCloudBuilder<'a> {
    /// Region of the App Configuration service instance.
    pub region: &'a str,
    /// The API key.
    pub apikey: &'a str,
    /// Instance id of the App Configuration service.
    pub guid: &'a str,
    /// Id of the environment in the service instance.
    pub environment_id: &'a str,
    /// Id of the collection in the service instance.
    pub collection_id: &'a str,
}

impl<'a> AppConfigIBMCloudBuilder<'a> {
    /// Collects the data of a client connecting to IBM Cloud.
    pub fn new(region: &'a str, apikey: &'a str, guid: &'a str, environment_id: &'a str, collection_id: &'a str) -> (r: Self)
        ensures
            r.region == region,
            r.apikey == apikey,
            r.guid == guid,
            r.environment_id == environment_id,
            r.collection_id == collection_id,
    {
        AppConfigIBMCloudBuilder { region, apikey, guid, environment_id, collection_id }
    }
}

} // verus!
