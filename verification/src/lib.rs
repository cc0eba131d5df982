//! Feature-flag and property evaluation for IBM Cloud App Configuration.
//!
//! The library holds the configuration model, the targeting and rollout
//! rules that decide what value an entity gets, the URL and option handling
//! of the client, and the decision logic of the background synchronisation
//! and metering workers.
mod text;
pub mod decimal;
pub mod service_address;
pub mod value;

pub use value::Value;
pub mod errors;
pub mod config_value;

pub use errors::{Error, Result};
pub use config_value::{ConfigValue, ValueType};
pub mod models;
pub mod segment_evaluation;
pub mod rollout;
pub mod feature_snapshot;
pub mod property_snapshot;
pub mod secret_property;
pub mod configuration;
pub mod options;
pub mod client;
pub mod live;
pub mod worker;
pub mod metering;
pub mod sdk;
pub mod token;
pub mod connectivity;
pub mod builders;
pub mod requests;
pub mod laws;
