use std::sync::Arc;

use ibm_appconfiguration_rust_sdk::config_value::{ConfigValue, ValueType};
use ibm_appconfiguration_rust_sdk::feature_snapshot::{normalized_hash, should_rollout_with_id, FeatureSnapshot};
use ibm_appconfiguration_rust_sdk::models::{RolloutConfiguration, RolloutPhase, Rule, Segment, SegmentRule, Segments};
use ibm_appconfiguration_rust_sdk::segment_evaluation::{Entity, TargetingRules};
use ibm_appconfiguration_rust_sdk::value::Value;

struct GenericEntity {
    id: String,
    attributes: Vec<(String, Value)>,
}

impl Entity for GenericEntity {
    fn get_id(&self) -> String {
        self.id.clone()
    }

    fn get_attributes(&self) -> Vec<(String, Value)> {
        self.attributes.clone()
    }
}

struct TrivialEntity;

impl Entity for TrivialEntity {
    fn get_id(&self) -> String {
        "TrivialId".to_string()
    }

    fn get_attributes(&self) -> Vec<(String, Value)> {
        Vec::new()
    }
}

fn heinz_segments(id: &str) -> Vec<(String, Arc<Segment>)> {
    vec![(
        id.to_string(),
        Arc::new(Segment {
            name: "".into(),
            segment_id: "".into(),
            description: None,
            tags: None,
            rules: vec![Rule { attribute_name: "name".into(), operator: "is".into(), values: vec!["heinz".into()] }],
        }),
    )]
}

fn one_segment_rule() -> Vec<SegmentRule> {
    vec![SegmentRule {
        rules: vec![Segments { segments: vec!["some_segment_id".into()] }],
        value: ConfigValue::NegInt(-48),
        order: 0,
        rollout_percentage: Some(ConfigValue::PosInt(50)),
    }]
}

fn create_one_segment_rule(segment_id: &str, value: ConfigValue, rollout_percentage: ConfigValue) -> Vec<SegmentRule> {
    vec![SegmentRule {
        rules: vec![Segments { segments: vec![segment_id.to_string()] }],
        value,
        order: 0,
        rollout_percentage: Some(rollout_percentage),
    }]
}

fn numeric_feature(enabled: bool, rollout: u32, segments: Vec<(String, Arc<Segment>)>, rules: Vec<SegmentRule>) -> FeatureSnapshot {
    FeatureSnapshot::new(
        enabled,
        Value::Int64(-42),
        Value::Int64(2),
        rollout,
        None,
        None,
        "F1",
        "f1",
        "NUMERIC".to_string(),
        None,
        Arc::new(TargetingRules::new(segments, rules, ValueType::Numeric)),
    )
}

fn heinz(id: &str, name: &str) -> GenericEntity {
    GenericEntity { id: id.into(), attributes: vec![("name".into(), Value::String(name.to_string()))] }
}

#[test]
fn feature_snapshot_test_get_value_disabled_feature() {
    let feature = numeric_feature(false, 100, Vec::new(), Vec::new());
    let entity = TrivialEntity;
    let value = feature.get_current_value(&entity).unwrap();
    assert!(matches!(value.value, Value::Int64(ref v) if v == &2));
}

#[test]
fn test_should_rollout() {
    for (entity_id, partial_rollout_expectation) in [("a1", false), ("a2", true)] {
        assert_eq!(should_rollout_with_id(100, entity_id, "f1"), Some(true));
        assert_eq!(should_rollout_with_id(0, entity_id, "f1"), Some(false));
        assert_eq!(should_rollout_with_id(50, entity_id, "f1"), Some(partial_rollout_expectation));
        assert_eq!(should_rollout_with_id(50, entity_id, "f4"), Some(!partial_rollout_expectation));
    }
}

#[test]
fn test_get_value_no_match_50_50_rollout() {
    let cases: Vec<(Vec<SegmentRule>, Vec<(String, Value)>)> = vec![
        (vec![], vec![]),
        (vec![], vec![("key".into(), Value::String("value".to_string()))]),
        (one_segment_rule(), vec![]),
    ];
    for (segment_rules, attributes) in cases {
        let feature = numeric_feature(true, 50, Vec::new(), segment_rules);
        let entity = GenericEntity { id: "a1".into(), attributes: attributes.clone() };
        assert_eq!(normalized_hash(format!("{}:{}", entity.id, feature.feature_id).as_str()), Some(68));
        let value = feature.get_current_value(&entity).unwrap();
        assert!(matches!(value.value, Value::Int64(ref v) if v == &2));

        let entity = GenericEntity { id: "a2".into(), attributes };
        assert_eq!(normalized_hash(format!("{}:{}", entity.id, feature.feature_id).as_str()), Some(29));
        let value = feature.get_current_value(&entity).unwrap();
        assert!(matches!(value.value, Value::Int64(ref v) if v == &(-42)));
    }
}

#[test]
fn test_get_value_matching_a_rule() {
    let feature = numeric_feature(true, 50, heinz_segments("some_segment_id"), one_segment_rule());

    let value = feature.get_current_value(&heinz("a2", "heinz")).unwrap();
    assert!(matches!(value.value, Value::Int64(ref v) if v == &(-48)));

    let value = feature.get_current_value(&heinz("a1", "heinz")).unwrap();
    assert!(matches!(value.value, Value::Int64(ref v) if v == &2));

    let value = feature.get_current_value(&heinz("a2", "heinzz")).unwrap();
    assert!(matches!(value.value, Value::Int64(ref v) if v == &(-42)));
}

#[test]
fn feature_snapshot_test_get_value_matching_yielding_default_value() {
    let rules = create_one_segment_rule("some_segment_id", ConfigValue::Str("$default".into()), ConfigValue::PosInt(50));
    let feature = numeric_feature(true, 50, heinz_segments("some_segment_id"), rules);
    let value = feature.get_current_value(&heinz("a2", "heinz")).unwrap();
    assert!(matches!(value.value, Value::Int64(ref v) if v == &(-42)));
}

#[test]
fn feature_snapshot_test_get_value_matching_segment_rollout_default_value() {
    let rules = create_one_segment_rule("some_segment_id", ConfigValue::PosInt(48), ConfigValue::Str("$default".into()));
    let feature = numeric_feature(true, 0, heinz_segments("some_segment_id"), rules);
    let value = feature.get_current_value(&heinz("a2", "heinz")).unwrap();
    assert!(matches!(value.value, Value::Int64(ref v) if v == &2));
}

#[test]
fn test_normalized_hash() {
    assert_eq!(normalized_hash("entityId:featureId"), Some(41));
}

fn boolean_feature(rollout_type: &str, config: RolloutConfiguration, name: &str, id: &str) -> FeatureSnapshot {
    FeatureSnapshot::new(
        true,
        Value::Boolean(true),
        Value::Boolean(false),
        100,
        Some(rollout_type.to_string()),
        Some(Arc::new(config)),
        name,
        id,
        "BOOLEAN".to_string(),
        None,
        Arc::new(TargetingRules::new(Vec::new(), vec![], ValueType::Boolean)),
    )
}

#[test]
fn test_progressive_rollout_uses_btree_percentage_not_static() {
    let rollout_config = RolloutConfiguration {
        start_at: "2000-01-01T00:00:00Z".to_string(),
        phases: vec![
            RolloutPhase { percentage: 10, duration: Some(1), duration_type: Some("days".to_string()) },
            RolloutPhase { percentage: 100, duration: None, duration_type: None },
        ],
    };
    let feature = boolean_feature("PROGRESSIVE", rollout_config, "Test Feature", "test_feat");
    let entity = GenericEntity { id: "any_user".into(), attributes: Vec::new() };
    let result = feature.get_current_value(&entity).unwrap();
    assert!(result.is_enabled, "Expected isEnabled=true for 100% progressive rollout");
    assert!(matches!(result.value, Value::Boolean(true)));
}

#[test]
fn test_progressive_rollout_zero_percent_before_start() {
    let rollout_config = RolloutConfiguration {
        start_at: "2099-01-01T00:00:00Z".to_string(),
        phases: vec![RolloutPhase { percentage: 100, duration: None, duration_type: None }],
    };
    let feature = boolean_feature("PROGRESSIVE", rollout_config, "Future Feature", "future_feat");
    let entity = GenericEntity { id: "early_user".into(), attributes: Vec::new() };
    let result = feature.get_current_value(&entity).unwrap();
    assert!(!result.is_enabled, "Expected is_enabled=false before progressive rollout start: got {:?}", result);
    assert!(matches!(result.value, Value::Boolean(false)));
}

#[test]
fn test_manual_rollout_ignores_rollout_configuration_metadata() {
    let future_rollout_config = RolloutConfiguration {
        start_at: "2099-01-01T00:00:00Z".to_string(),
        phases: vec![RolloutPhase { percentage: 0, duration: None, duration_type: None }],
    };
    let feature = boolean_feature("MANUAL", future_rollout_config, "Manual Feature", "manual_feat");
    let entity = GenericEntity { id: "manual_user".into(), attributes: Vec::new() };
    let result = feature.get_current_value(&entity).unwrap();
    assert!(result.is_enabled, "Expected manual rollout to use static rollout_percentage instead of rollout_configuration");
    assert!(matches!(result.value, Value::Boolean(true)));
}

#[test]
fn disabled_feature_reason_and_type() {
    let feature = numeric_feature(false, 100, Vec::new(), Vec::new());
    let r = feature.evaluate_feature_for_entity(&"x".to_string(), &[], 0).unwrap().0;
    assert_eq!(r.details.value_type, "DISABLED_VALUE");
    assert_eq!(r.details.reason, "Disabled value of the feature flag since the feature flag is disabled.");
    assert!(!r.is_enabled);
}

#[test]
fn matched_rule_reason_mentions_order_and_rollout() {
    let feature = numeric_feature(true, 50, heinz_segments("some_segment_id"), one_segment_rule());
    let attrs = vec![("name".to_string(), Value::String("heinz".to_string()))];
    let (r, seg) = feature.evaluate_feature_for_entity(&"a2".to_string(), &attrs, 0).unwrap();
    assert_eq!(r.details.reason, "Matched targeting rule order 0 and rollout 50% allowed entity.");
    assert_eq!(r.details.value_type, "SEGMENT_VALUE");
    assert_eq!(seg, Some(0));
    let (r, _) = feature.evaluate_feature_for_entity(&"a1".to_string(), &attrs, 0).unwrap();
    assert_eq!(r.details.reason, "Matched targeting rule order 0 but rollout 50% excluded entity.");
    assert_eq!(r.details.rollout_percentage_applied, Some(false));
}

#[test]
fn feature_level_reason_mentions_rollout() {
    let feature = numeric_feature(true, 50, Vec::new(), Vec::new());
    let (r, _) = feature.evaluate_feature_for_entity(&"a2".to_string(), &[], 0).unwrap();
    assert_eq!(r.details.reason, "No targeting rule matched. Feature-level rollout 50% enabled entity.");
    assert_eq!(r.details.value_type, "ENABLED_VALUE");
}

#[test]
fn unknown_segment_is_an_evaluation_error() {
    let rules = create_one_segment_rule("missing", ConfigValue::PosInt(1), ConfigValue::PosInt(100));
    let feature = numeric_feature(true, 100, heinz_segments("some_segment_id"), rules);
    let attrs = vec![("name".to_string(), Value::String("heinz".to_string()))];
    let r = feature.evaluate_feature_for_entity(&"a2".to_string(), &attrs, 0);
    assert!(r.is_err());
}

#[test]
fn string_feature_format_defaults_to_text() {
    let f = FeatureSnapshot::new(
        true,
        Value::String("a".into()),
        Value::String("b".into()),
        100,
        None,
        None,
        "S",
        "s",
        "STRING".to_string(),
        None,
        Arc::new(TargetingRules::new(Vec::new(), vec![], ValueType::String)),
    );
    assert_eq!(f.get_feature_data_format(), Some("TEXT".to_string()));
    assert_eq!(f.get_feature_data_type(), "STRING");
    assert_eq!(f.get_feature_id(), "s");
    assert_eq!(f.get_feature_name(), "S");
    assert!(f.is_enabled());
}

#[test]
fn progressive_rollout_percentage_follows_the_phases() {
    let config = RolloutConfiguration {
        start_at: "2000-01-01T00:00:00Z".to_string(),
        phases: vec![
            RolloutPhase { percentage: 10, duration: Some(1), duration_type: Some("days".to_string()) },
            RolloutPhase { percentage: 100, duration: None, duration_type: None },
        ],
    };
    let feature = boolean_feature("PROGRESSIVE", config, "P", "p");
    let start: i64 = 946684800000;
    let (pct, id) = feature.get_feature_rollout_percentage_and_entity_id(&"u".to_string(), start - 1);
    assert_eq!(pct, 0);
    assert_eq!(id, "u2000-01-01T00:00:00Z");
    let (pct, _) = feature.get_feature_rollout_percentage_and_entity_id(&"u".to_string(), start + 1000);
    assert_eq!(pct, 10);
    let (pct, _) = feature.get_feature_rollout_percentage_and_entity_id(&"u".to_string(), start + 86_400_000);
    assert_eq!(pct, 100);
}

#[test]
fn rollout_above_one_hundred_percent_takes_everyone() {
    for entity_id in ["a1", "a2", "a3"] {
        assert_eq!(should_rollout_with_id(150, entity_id, "f1"), Some(true));
        assert_eq!(should_rollout_with_id(101, entity_id, "f4"), Some(true));
    }
}
