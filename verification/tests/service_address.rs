use ibm_appconfiguration_rust_sdk::client::ConfigurationId;
use ibm_appconfiguration_rust_sdk::requests::{bearer, configuration_query_url, configuration_url, metering_url, websocket_url};
use ibm_appconfiguration_rust_sdk::service_address::{
    build_service_address, build_token_url, get_ws_url, resolve_urls_from_service_override, ResolvedUrls, ServiceAddress,
    ServiceAddressProtocol,
};

fn no_override() -> ResolvedUrls {
    ResolvedUrls::none()
}

#[test]
fn test_non_ssl_base_url() {
    let address = ServiceAddress::new_without_ssl("ibm.com".to_string(), None, Some("endpoint".to_string()));
    assert_eq!(address.base_url(ServiceAddressProtocol::Http), "http://ibm.com/endpoint");
    assert_eq!(address.base_url(ServiceAddressProtocol::Ws), "ws://ibm.com/endpoint");
}

#[test]
fn test_ssl_base_url() {
    let address = ServiceAddress::new("ibm.com".to_string(), None, Some("endpoint".to_string()));
    assert_eq!(address.base_url(ServiceAddressProtocol::Http), "https://ibm.com/endpoint");
    assert_eq!(address.base_url(ServiceAddressProtocol::Ws), "wss://ibm.com/endpoint");
}

#[test]
fn test_url_with_port() {
    let address = ServiceAddress::new_without_ssl("ibm.com".to_string(), Some(12345), None);
    assert_eq!(address.base_url(ServiceAddressProtocol::Http), "http://ibm.com:12345");
    assert_eq!(address.base_url(ServiceAddressProtocol::Ws), "ws://ibm.com:12345");
}

#[test]
fn test_default_service_address_public() {
    let sa = build_service_address("us-south", false, &no_override());
    assert_eq!(sa.base_url(ServiceAddressProtocol::Http), "https://us-south.apprapp.cloud.ibm.com/apprapp");
    assert_eq!(sa.base_url(ServiceAddressProtocol::Ws), "wss://us-south.apprapp.cloud.ibm.com/apprapp");
}

#[test]
fn test_default_service_address_private() {
    let sa = build_service_address("eu-de", true, &no_override());
    assert_eq!(sa.base_url(ServiceAddressProtocol::Http), "https://private.eu-de.apprapp.cloud.ibm.com/apprapp");
}

#[test]
fn test_default_token_url_public() {
    assert_eq!(build_token_url(false, &no_override()), "https://iam.cloud.ibm.com/identity/token");
}

#[test]
fn test_default_token_url_private() {
    assert_eq!(build_token_url(true, &no_override()), "https://private.iam.cloud.ibm.com/identity/token");
}

#[test]
fn test_override_dndev_service_url_and_auto_token() {
    let urls = resolve_urls_from_service_override("https://dndev.apprapp.test.cloud.ibm.com", false);
    let sa = build_service_address("us-south", false, &urls);
    assert_eq!(sa.base_url(ServiceAddressProtocol::Http), "https://dndev.apprapp.test.cloud.ibm.com/apprapp");
    assert_eq!(sa.base_url(ServiceAddressProtocol::Ws), "wss://dndev.apprapp.test.cloud.ibm.com/apprapp");
    assert_eq!(build_token_url(false, &urls), "https://iam.test.cloud.ibm.com/identity/token");
}

#[test]
fn test_override_test_domain_private_endpoint_token() {
    let urls = resolve_urls_from_service_override("https://dndev.apprapp.test.cloud.ibm.com", true);
    assert_eq!(build_token_url(true, &urls), "https://private.iam.test.cloud.ibm.com/identity/token");
}

#[test]
fn test_override_prod_domain_keeps_prod_token() {
    let urls = resolve_urls_from_service_override("https://custom.apprapp.cloud.ibm.com", false);
    assert_eq!(build_token_url(false, &urls), "https://iam.cloud.ibm.com/identity/token");
}

#[test]
fn test_override_localhost_with_port() {
    let urls = resolve_urls_from_service_override("http://localhost:3000", false);
    let sa = build_service_address("us-south", false, &urls);
    assert_eq!(sa.base_url(ServiceAddressProtocol::Http), "http://localhost:3000/apprapp");
    assert_eq!(build_token_url(false, &urls), "https://iam.cloud.ibm.com/identity/token");
}

#[test]
fn test_override_https_no_port() {
    let urls = resolve_urls_from_service_override("https://my-mock.example.com", false);
    let sa = build_service_address("us-south", false, &urls);
    assert_eq!(sa.base_url(ServiceAddressProtocol::Http), "https://my-mock.example.com/apprapp");
}

#[test]
fn test_region_used_when_no_override() {
    for region in &["us-south", "eu-de", "au-syd", "jp-tok"] {
        let sa = build_service_address(region, false, &no_override());
        assert!(sa.base_url(ServiceAddressProtocol::Http).contains(region), "host should contain region '{region}'");
    }
}

#[test]
fn override_with_path_and_port_keeps_only_host_and_port() {
    let urls = resolve_urls_from_service_override("http://localhost:8080/some/path", false);
    assert_eq!(urls.service_host_override.as_deref(), Some("localhost"));
    assert_eq!(urls.service_port_override, Some(8080));
    assert!(urls.service_no_ssl);
}

#[test]
fn ws_url_of_region() {
    assert_eq!(get_ws_url("us-south"), "wss://us-south.apprapp.cloud.ibm.com/apprapp/wsfeature");
}

#[test]
fn configuration_and_websocket_urls() {
    let sa = build_service_address("us-south", false, &no_override());
    assert_eq!(
        configuration_url(&sa, "guid"),
        "https://us-south.apprapp.cloud.ibm.com/apprapp/feature/v1/instances/guid/config"
    );
    let id = ConfigurationId::new("g 1".to_string(), "dev".to_string(), "c&1".to_string());
    assert_eq!(
        websocket_url(&sa, &id).unwrap(),
        "wss://us-south.apprapp.cloud.ibm.com/apprapp/wsfeature?instance_id=g+1&environment_id=dev&collection_id=c%261"
    );
    assert_eq!(
        configuration_query_url(&sa, &id).unwrap(),
        "https://us-south.apprapp.cloud.ibm.com/apprapp/feature/v1/instances/g%201/config?action=sdkConfig&environment_id=dev&collection_id=c%261"
    );
    assert_eq!(bearer("tok"), "Bearer tok");
    assert_eq!(
        metering_url(&sa, "guid"),
        "https://us-south.apprapp.cloud.ibm.com/apprapp/apprapp/events/v1/instances/guid/usage"
    );
}
