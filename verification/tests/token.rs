use ibm_appconfiguration_rust_sdk::token::{AccessToken, IBMCloudTokenProvider};

#[test]
fn test_access_token() {
    let mut access_token = AccessToken::default();
    assert!(access_token.expired());

    access_token.renew("something".to_string(), 10);
    assert!(!access_token.expired());
    assert_eq!(access_token.token, "something".to_string());
}

#[test]
fn token_expiry_at_given_times() {
    let mut t = AccessToken::default();
    t.renew_at("tok".to_string(), 10, 100);
    assert_eq!(t.expiration, 110);
    assert!(!t.expired_at(109));
    assert!(t.expired_at(110));
    t.renew_at("tok".to_string(), u64::MAX, 100);
    assert_eq!(t.expiration, u64::MAX);
}

#[test]
fn test_ibm_cloud_token_provider() {
    let mut provider = IBMCloudTokenProvider::new("apikey", "https://iam.cloud.ibm.com/identity/token");
    assert!(provider.expired());
    assert_eq!(provider.valid_token_at(5), None);
    provider.access_token.renew_at("the-token".to_string(), 10, 100);
    assert_eq!(provider.valid_token_at(105), Some("the-token".to_string()));
    assert_eq!(provider.valid_token_at(110), None);
}
