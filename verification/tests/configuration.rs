use std::sync::Arc;

use ibm_appconfiguration_rust_sdk::client::{AppConfigurationClient, AppConfigurationOffline, ConfigurationProvider};
use ibm_appconfiguration_rust_sdk::config_value::{ConfigValue, ValueType};
use ibm_appconfiguration_rust_sdk::configuration::{sort_by_order, Configuration};
use ibm_appconfiguration_rust_sdk::errors::{ConfigurationDataError, Error};
use ibm_appconfiguration_rust_sdk::models::{ConfigurationJson, Environment, Feature, Property, Rule, Segment, SegmentRule, Segments};
use ibm_appconfiguration_rust_sdk::property_snapshot::PropertySnapshot;
use ibm_appconfiguration_rust_sdk::secret_property::{SecretManager, SecretPropertySnapshot};
use ibm_appconfiguration_rust_sdk::segment_evaluation::{Entity, TargetingRules};
use ibm_appconfiguration_rust_sdk::value::Value;

struct GenericEntity {
    id: String,
    attributes: Vec<(String, Value)>,
}

impl Entity for GenericEntity {
    fn get_id(&self) -> String {
        self.id.clone()
    }

    fn get_attributes(&self) -> Vec<(String, Value)> {
        self.attributes.clone()
    }
}

fn heinz(id: &str) -> GenericEntity {
    GenericEntity { id: id.into(), attributes: vec![("name".into(), Value::String("heinz".to_string()))] }
}

fn feature(id: &str, enabled_value: i64, rules: Vec<SegmentRule>) -> Feature {
    Feature {
        name: id.to_uppercase(),
        feature_id: id.to_string(),
        kind: ValueType::Numeric,
        format: None,
        enabled_value: if enabled_value < 0 { ConfigValue::NegInt(enabled_value) } else { ConfigValue::PosInt(enabled_value as u64) },
        disabled_value: ConfigValue::PosInt(2),
        segment_rules: rules,
        enabled: true,
        rollout_percentage: 100,
        rollout_type: None,
        rollout_configuration: None,
    }
}

fn segment(id: &str) -> Segment {
    Segment {
        name: format!("name-{id}"),
        segment_id: id.to_string(),
        description: None,
        tags: None,
        rules: vec![Rule { attribute_name: "name".into(), operator: "is".into(), values: vec!["heinz".into()] }],
    }
}

fn rule(segment_id: &str, value: i64, order: u32) -> SegmentRule {
    SegmentRule {
        rules: vec![Segments { segments: vec![segment_id.to_string()] }],
        value: ConfigValue::NegInt(value),
        order,
        rollout_percentage: Some(ConfigValue::PosInt(100)),
    }
}

fn unordered_rules() -> Vec<SegmentRule> {
    vec![rule("some_segment_id_1", -48, 1), rule("some_segment_id_2", -49, 0)]
}

fn property(id: &str, rules: Vec<SegmentRule>) -> Property {
    Property {
        name: "P1".to_string(),
        property_id: id.to_string(),
        kind: ValueType::Numeric,
        tags: None,
        format: None,
        value: ConfigValue::NegInt(-42),
        segment_rules: rules,
    }
}

fn json(features: Vec<Feature>, properties: Vec<Property>, segments: Vec<Segment>) -> ConfigurationJson {
    ConfigurationJson {
        environments: vec![Environment { environment_id: "environment_id".to_string(), features, properties }],
        segments,
    }
}

#[test]
fn test_filter_configurations() {
    let result = Configuration::new("does_for_sure_not_exist", json(vec![], vec![], vec![]));
    assert!(matches!(
        result,
        Err(Error::ConfigurationDataError(ConfigurationDataError::EnvironmentNotFound(ref e))) if e == "does_for_sure_not_exist"
    ));
}

#[test]
fn rules_are_sorted_by_order() {
    let sorted = sort_by_order(vec![rule("a", -1, 3), rule("b", -2, 1), rule("c", -3, 3), rule("d", -4, 0)]);
    let orders: Vec<u32> = sorted.iter().map(|r| r.order).collect();
    assert_eq!(orders, vec![0, 1, 3, 3]);
    assert_eq!(sorted[2].rules[0].segments[0], "a");
    assert_eq!(sorted[3].rules[0].segments[0], "c");
}

#[test]
fn unordered_segment_rules_use_smallest_order_first() {
    let c = Configuration::new(
        "environment_id",
        json(vec![feature("f1", -42, unordered_rules())], vec![property("f1", unordered_rules())], vec![
            segment("some_segment_id_1"),
            segment("some_segment_id_2"),
        ]),
    )
    .unwrap();
    let f = c.get_feature("f1").unwrap();
    let v = f.get_current_value(&heinz("a1")).unwrap();
    assert_eq!(v.value, Value::Int64(-49));
    let p = c.get_property("f1").unwrap();
    let v = p.get_current_value(&heinz("a1")).unwrap();
    assert_eq!(v.value, Value::Int64(-49));
    assert_eq!(v.details.segment_name.as_deref(), Some("name-some_segment_id_2"));
    assert_eq!(v.details.reason, "Matched targeting rule order 0 for property evaluation.");
}

#[test]
fn missing_segments_are_refused() {
    let r = Configuration::new("environment_id", json(vec![feature("f1", 1, unordered_rules())], vec![], vec![segment("some_segment_id_1")]));
    assert!(matches!(
        r,
        Err(Error::ConfigurationDataError(ConfigurationDataError::MissingSegments(ref id))) if id == "f1"
    ));
}

#[test]
fn a_rule_may_target_several_known_segments() {
    let two = SegmentRule {
        rules: vec![Segments { segments: vec!["s1".to_string(), "s2".to_string()] }],
        value: ConfigValue::NegInt(-7),
        order: 0,
        rollout_percentage: Some(ConfigValue::PosInt(100)),
    };
    let c = Configuration::new("environment_id", json(vec![feature("f1", 1, vec![two.clone()])], vec![], vec![segment("s1"), segment("s2")]))
        .unwrap();
    let v = c.get_feature("f1").unwrap().get_current_value(&heinz("a")).unwrap();
    assert_eq!(v.value, Value::Int64(-7));
    let r = Configuration::new("environment_id", json(vec![feature("f1", 1, vec![two])], vec![], vec![segment("s1")]));
    assert!(matches!(
        r,
        Err(Error::ConfigurationDataError(ConfigurationDataError::MissingSegments(ref id))) if id == "f1"
    ));
}

#[test]
fn lookups_and_ids() {
    let c = Configuration::new(
        "environment_id",
        json(vec![feature("f1", 1, vec![]), feature("f2", 5, vec![]), feature("f1", 7, vec![])], vec![property("p1", vec![])], vec![]),
    )
    .unwrap();
    assert_eq!(c.get_feature_ids(), vec!["f2".to_string(), "f1".to_string()]);
    assert_eq!(c.get_property_ids(), vec!["p1".to_string()]);
    let f1 = c.get_feature("f1").unwrap();
    assert_eq!(f1.enabled_value, Value::Int64(7));
    assert_eq!(f1.type_label, "NUMERIC");
    assert!(matches!(
        c.get_feature("nope"),
        Err(Error::ConfigurationDataError(ConfigurationDataError::FeatureNotFound(ref id))) if id == "nope"
    ));
    assert!(matches!(
        c.get_property("nope"),
        Err(Error::ConfigurationDataError(ConfigurationDataError::PropertyNotFound(ref id))) if id == "nope"
    ));
}

#[test]
fn offline_client_serves_its_configuration() {
    let c = Configuration::new("environment_id", json(vec![feature("f1", 1, vec![])], vec![property("p1", vec![])], vec![])).unwrap();
    let client = AppConfigurationOffline::from_configuration(c);
    assert_eq!(client.is_online().unwrap(), false);
    assert!(!client.wait_until_online());
    assert_eq!(client.get_feature_ids().unwrap(), vec!["f1".to_string()]);
    let proxy = client.get_feature_proxy("f1").unwrap();
    assert_eq!(proxy.snapshot().unwrap().enabled_value, Value::Int64(1));
    let proxy = client.get_property_proxy("p1").unwrap();
    assert_eq!(proxy.snapshot().unwrap().value, Value::Int64(-42));
    assert_eq!(client.is_connected().unwrap(), false);
    assert_eq!(client.get_runtime_status().unwrap(), None);
    assert!(client.track("event_key", "entity_id").is_ok());
}

#[test]
fn property_snapshot_test_get_value_segment_with_default_value() {
    let segments = vec![(
        "some_segment_id_1".to_string(),
        Arc::new(Segment {
            name: "".into(),
            segment_id: "".into(),
            description: None,
            tags: None,
            rules: vec![Rule { attribute_name: "name".into(), operator: "is".into(), values: vec!["heinz".into()] }],
        }),
    )];
    let rules = vec![SegmentRule {
        rules: vec![Segments { segments: vec!["some_segment_id_1".into()] }],
        value: ConfigValue::Str("$default".into()),
        order: 0,
        rollout_percentage: Some(ConfigValue::PosInt(100)),
    }];
    let property = PropertySnapshot::new(
        Value::Int64(-42),
        Arc::new(TargetingRules::new(segments, rules, ValueType::Numeric)),
        ValueType::Numeric,
        "NUMERIC".to_string(),
        None,
        "F1",
        "f1",
    );
    let entity = heinz("a2");
    let value = property.get_current_value(&entity).unwrap();
    assert!(matches!(value.value, Value::Int64(ref v) if v == &(-42)));
}

#[test]
fn property_default_value_reason() {
    let p = PropertySnapshot::new(
        Value::Boolean(true),
        Arc::new(TargetingRules::new(vec![], vec![], ValueType::Boolean)),
        ValueType::Boolean,
        "BOOLEAN".to_string(),
        None,
        "P",
        "p",
    );
    let v = p.get_current_value(&heinz("x")).unwrap();
    assert_eq!(v.details.value_type, "DEFAULT_VALUE");
    assert_eq!(v.details.reason, "Default value of the property.");
    assert!(!p.is_secret_ref());
    assert_eq!(p.get_property_data_format(), None);
    assert_eq!(p.get_property_data_type(), "BOOLEAN");
    assert_eq!(p.get_property_name(), "P");
    assert_eq!(p.get_property_id(), "p");
}

struct Vault;

impl SecretManager for Vault {
    fn get_secret(&self, secret_id: &str) -> Result<String, Error> {
        if secret_id == "known" {
            Ok("s3cr3t".to_string())
        } else {
            Err(Error::Other("no such secret".to_string()))
        }
    }
}

fn secret(value: Value) -> SecretPropertySnapshot {
    SecretPropertySnapshot::new(
        PropertySnapshot::new(
            value,
            Arc::new(TargetingRules::new(vec![], vec![], ValueType::SecretRef)),
            ValueType::SecretRef,
            "SECRETREF".to_string(),
            None,
            "S",
            "s",
        ),
        "s".to_string(),
    )
}

#[test]
fn secret_references_are_resolved() {
    assert_eq!(secret(Value::String("known".into())).get_current_value(&heinz("a"), &Vault).unwrap(), "s3cr3t");
    assert!(matches!(
        secret(Value::String("".into())).get_current_value(&heinz("a"), &Vault),
        Err(Error::SecretReferenceIdMissing { ref property_id }) if property_id == "s"
    ));
    assert!(matches!(
        secret(Value::Boolean(true)).get_current_value(&heinz("a"), &Vault),
        Err(Error::SecretReferenceIdMissing { .. })
    ));
    assert!(matches!(
        secret(Value::String("other".into())).get_current_value(&heinz("a"), &Vault),
        Err(Error::SecretProviderError { ref property_id, ref message }) if property_id == "s" && message == "no such secret"
    ));
    assert_eq!(secret(Value::String("x".into())).get_property_id(), "s");
    assert!(secret(Value::String("x".into())).property.is_secret_ref());
}
