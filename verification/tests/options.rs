use ibm_appconfiguration_rust_sdk::errors::Error;
use ibm_appconfiguration_rust_sdk::options::{
    path_extension, path_file_name, validate_non_empty_path, validate_required, AppConfigurationContextOptions,
};
use ibm_appconfiguration_rust_sdk::sdk::{build_offline_mode, AppConfigurationSetup, OfflineModePlan};

fn message(e: Error) -> String {
    e.message()
}

fn json_bootstrap_error() -> String {
    let err = AppConfigurationContextOptions { bootstrap_file: Some("config.txt".to_string()), ..Default::default() }
        .validate()
        .unwrap_err();
    message(err)
}

fn non_live_error() -> String {
    let err = AppConfigurationContextOptions { live_config_update_enabled: false, ..Default::default() }
        .validate()
        .unwrap_err();
    message(err)
}

#[test]
fn app_configuration_options_require_json_bootstrap() {
    assert_eq!(json_bootstrap_error(), "bootstrap_file must point to a .json file, got 'config.txt'");
}

#[test]
fn app_configuration_options_require_bootstrap_for_non_live_mode() {
    assert_eq!(non_live_error(), "live_config_update_enabled=false requires bootstrap_file");
}

#[test]
fn app_configuration_sdk_options_require_json_bootstrap() {
    assert_eq!(json_bootstrap_error(), "bootstrap_file must point to a .json file, got 'config.txt'");
}

#[test]
fn app_configuration_sdk_options_require_bootstrap_for_non_live_mode() {
    assert_eq!(non_live_error(), "live_config_update_enabled=false requires bootstrap_file");
}

#[test]
fn options_empty_paths_are_refused() {
    let e = AppConfigurationContextOptions { persistent_cache_directory: Some(String::new()), ..Default::default() }
        .validate()
        .unwrap_err();
    assert_eq!(e.message(), "persistent_cache_directory cannot be empty when provided");
    let e = AppConfigurationContextOptions { bootstrap_file: Some(String::new()), ..Default::default() }
        .validate()
        .unwrap_err();
    assert_eq!(e.message(), "bootstrap_file cannot be empty when provided");
}

#[test]
fn options_try_new_accepts_consistent_options() {
    let o = AppConfigurationContextOptions::try_new(Some("/tmp/cache".into()), Some("/tmp/b.json".into()), false).unwrap();
    assert_eq!(o.bootstrap_file.as_deref(), Some("/tmp/b.json"));
    assert!(AppConfigurationContextOptions::try_new(None, None, false).is_err());
    assert!(AppConfigurationContextOptions::default().validate().is_ok());
}

#[test]
fn path_names_and_extensions() {
    assert_eq!(path_file_name("/a/b.json").map(|v| v.into_iter().collect::<String>()), Some("b.json".to_string()));
    assert_eq!(path_file_name("/a/b.json/.").map(|v| v.into_iter().collect::<String>()), Some("b.json".to_string()));
    assert_eq!(path_file_name("a/.."), None);
    assert_eq!(path_file_name("/"), None);
    assert_eq!(path_extension("x.json").map(|v| v.into_iter().collect::<String>()), Some("json".to_string()));
    assert_eq!(path_extension(".json"), None);
    assert_eq!(path_extension("dir.json/"), Some(vec!['j', 's', 'o', 'n']));
    assert_eq!(path_extension("a.tar.gz").map(|v| v.into_iter().collect::<String>()), Some("gz".to_string()));
    assert_eq!(path_extension("noext"), None);
}

#[test]
fn required_values() {
    assert_eq!(validate_required("region", " \t").unwrap_err().message(), "region is required");
    assert!(validate_required("region", " x ").is_ok());
    assert_eq!(validate_non_empty_path("", "msg").unwrap_err().message(), "msg");
}

#[test]
fn init_is_required_before_set_context() {
    let sdk = AppConfigurationSetup::new();
    let err = sdk.prepare_context("collection", "environment", &AppConfigurationContextOptions::default()).unwrap_err();
    assert_eq!(err.message(), "init must be called before set_context");
}

#[test]
fn init_is_only_applied_once() {
    let mut sdk = AppConfigurationSetup::new();
    sdk.init("us-south", "guid-1", "apikey-1").unwrap();
    sdk.init("eu-de", "guid-2", "apikey-2").unwrap();
    let init_state = sdk.init_state.unwrap();
    assert_eq!(init_state.region, "us-south");
    assert_eq!(init_state.guid, "guid-1");
    assert_eq!(init_state.apikey, "apikey-1");
}

#[test]
fn private_endpoint_flag_survives_until_init() {
    let mut sdk = AppConfigurationSetup::new();
    sdk.use_private_endpoint(true);
    sdk.init("us-south", "guid-1", "apikey-1").unwrap();
    assert!(sdk.init_state.unwrap().use_private_endpoint);
}

#[test]
fn offline_mode_mapping_matches_options() {
    let options = AppConfigurationContextOptions {
        persistent_cache_directory: Some("/tmp/cache".to_string()),
        bootstrap_file: Some("/tmp/bootstrap.json".to_string()),
        live_config_update_enabled: true,
    };
    match build_offline_mode(&options, "environment", "collection") {
        OfflineModePlan::BootstrapFile { path, environment_id, collection_id } => {
            assert_eq!(path, "/tmp/bootstrap.json");
            assert_eq!(environment_id, "environment");
            assert_eq!(collection_id, "collection");
        },
        other => panic!("unexpected offline mode: {:?}", other),
    }
}

#[test]
fn offline_mode_for_cache_directory_and_defaults() {
    let options = AppConfigurationContextOptions { persistent_cache_directory: Some("/tmp/cache".to_string()), ..Default::default() };
    match build_offline_mode(&options, "e", "c") {
        OfflineModePlan::PersistentCacheFile { path, .. } => assert_eq!(path, "/tmp/cache/appconfiguration.json"),
        other => panic!("unexpected offline mode: {:?}", other),
    }
    assert_eq!(build_offline_mode(&AppConfigurationContextOptions::default(), "e", "c"), OfflineModePlan::Fail);
    let options = AppConfigurationContextOptions {
        bootstrap_file: Some("/b.json".to_string()),
        live_config_update_enabled: false,
        ..Default::default()
    };
    assert!(matches!(build_offline_mode(&options, "e", "c"), OfflineModePlan::FallbackFromBootstrap { .. }));
}

#[test]
fn no_override_produces_default_resolved_urls() {
    let mut sdk = AppConfigurationSetup::new();
    sdk.init("us-south", "guid-1", "apikey-1").unwrap();
    let state = sdk.init_state.unwrap();
    assert!(state.resolved_urls.service_host_override.is_none());
    assert!(state.resolved_urls.token_url_override.is_none());
}

#[test]
fn override_service_url_test_domain_selects_test_iam() {
    let mut sdk = AppConfigurationSetup::new();
    sdk.override_service_url("https://dndev.apprapp.test.cloud.ibm.com");
    sdk.init("us-south", "guid-1", "apikey-1").unwrap();
    let state = sdk.init_state.unwrap();
    assert_eq!(state.resolved_urls.service_host_override.as_deref(), Some("dndev.apprapp.test.cloud.ibm.com"));
    assert_eq!(
        state.resolved_urls.token_url_override.as_deref(),
        Some("https://iam.test.cloud.ibm.com/identity/token")
    );
}

#[test]
fn override_service_url_prod_domain_keeps_prod_iam() {
    let mut sdk = AppConfigurationSetup::new();
    sdk.override_service_url("https://custom.apprapp.cloud.ibm.com");
    sdk.init("us-south", "guid-1", "apikey-1").unwrap();
    let state = sdk.init_state.unwrap();
    assert_eq!(state.resolved_urls.token_url_override.as_deref(), Some("https://iam.cloud.ibm.com/identity/token"));
}

#[test]
fn override_service_url_must_be_before_init() {
    let mut sdk = AppConfigurationSetup::new();
    sdk.init("us-south", "guid-1", "apikey-1").unwrap();
    sdk.override_service_url("https://dndev.apprapp.test.cloud.ibm.com");
    sdk.init("eu-de", "guid-2", "apikey-2").unwrap();
    let state = sdk.init_state.unwrap();
    assert_eq!(state.region, "us-south");
    assert!(state.resolved_urls.service_host_override.is_none());
}

#[test]
fn override_service_url_localhost_no_ssl() {
    let mut sdk = AppConfigurationSetup::new();
    sdk.override_service_url("http://localhost:8080");
    sdk.init("us-south", "guid-1", "apikey-1").unwrap();
    let state = sdk.init_state.unwrap();
    assert!(state.resolved_urls.service_no_ssl);
    assert_eq!(state.resolved_urls.service_port_override, Some(8080));
}

#[test]
fn blank_credentials_are_refused() {
    let mut sdk = AppConfigurationSetup::new();
    assert_eq!(sdk.init(" ", "g", "k").unwrap_err().message(), "region is required");
    assert_eq!(sdk.init("r", "", "k").unwrap_err().message(), "guid is required");
    assert_eq!(sdk.init("r", "g", "\n").unwrap_err().message(), "apikey is required");
    assert!(!sdk.is_initialized());
}

#[test]
fn context_is_prepared_once() {
    let mut sdk = AppConfigurationSetup::new();
    sdk.init("us-south", "guid-1", "apikey-1").unwrap();
    assert_eq!(sdk.prepare_context(" ", "env", &AppConfigurationContextOptions::default()).unwrap_err().message(), "collection_id is required");
    let plan = sdk.prepare_context("coll", "env", &AppConfigurationContextOptions::default()).unwrap().unwrap();
    assert_eq!(plan.configuration_id.guid, "guid-1");
    assert_eq!(plan.configuration_id.environment_id, "env");
    assert_eq!(plan.configuration_id.collection_id, "coll");
    assert_eq!(plan.offline_mode, OfflineModePlan::Fail);
    sdk.mark_context_set();
    assert!(sdk.is_context_set());
    assert!(sdk.prepare_context("coll", "env", &AppConfigurationContextOptions::default()).unwrap().is_none());
}

#[test]
fn context_is_bound_once_until_released() {
    let mut sdk = AppConfigurationSetup::new();
    sdk.init("us-south", "guid-1", "apikey-1").unwrap();
    let options = AppConfigurationContextOptions::default();
    let plan = sdk.prepare_context("collection", "environment", &options).unwrap().unwrap();
    assert_eq!(plan.configuration_id.guid, "guid-1");
    assert_eq!(plan.configuration_id.collection_id, "collection");
    assert_eq!(plan.configuration_id.environment_id, "environment");
    assert_eq!(plan.offline_mode, OfflineModePlan::Fail);
    sdk.mark_context_set();
    assert!(sdk.is_context_set());
    assert!(sdk.prepare_context("other", "environment", &options).unwrap().is_none());
    sdk.clear_context();
    assert!(!sdk.is_context_set());
    assert!(sdk.prepare_context("other", "environment", &options).unwrap().is_some());
}
