use vstd::prelude::*;

use crate::config_value::{ConfigValue, ValueType};
use crate::value::Value;

verus! {

/// A condition of a segment: the entity's attribute `attribute_name`,
/// compared by `operator` with each of `values`.
#[derive(Debug, Clone, PartialEq, Eq)]
pub struct Rule {
    pub attribute_name: String,
    pub operator: String,
    pub values: Vec<String>,
}

/// A named group of entities, defined by rules that all must hold.
#[derive(Debug, Clone, PartialEq, Eq)]
pub struct Segment {
    pub name: String,
    pub segment_id: String,
    pub description: Option<String>,
    pub tags: Option<String>,
    pub rules: Vec<Rule>,
}

/// A list of segment ids.
#[derive(Debug, Clone, PartialEq, Eq)]
pub struct Segments {
    pub segments: Vec<String>,
}

/// A targeting rule of a feature or property: the segments it targets, the
/// value it gives, its position among the rules and its rollout percentage.
#[derive(Debug, Clone, PartialEq, Eq)]
pub struct SegmentRule {
    pub rules: Vec<Segments>,
    pub value: ConfigValue,
    pub order: u32,
    pub rollout_percentage: Option<ConfigValue>,
}

/// One phase of a progressive rollout.
#[derive(Debug, Clone, PartialEq, Eq)]
pub struct RolloutPhase {
    /// The rollout percentage for this phase (0-100).
    pub percentage: u32,
    /// How long the phase lasts, in units of `duration_type`.
    pub duration: Option<u32>,
    /// `"minutes"`, `"hours"` or `"days"`.
    pub duration_type: Option<String>,
}

/// A progressive rollout: a start time (RFC 3339) and its phases.
#[derive(Debug, Clone, PartialEq, Eq)]
pub struct RolloutConfiguration {
    pub start_at: String,
    pub phases: Vec<RolloutPhase>,
}

/// A feature flag as the server describes it.
#[derive(Debug, Clone, PartialEq, Eq)]
pub struct Feature {
    pub name: String,
    pub feature_id: String,
    pub kind: ValueType,
    pub format: Option<String>,
    pub enabled_value: ConfigValue,
    pub disabled_value: ConfigValue,
    pub segment_rules: Vec<SegmentRule>,
    pub enabled: bool,
    pub rollout_percentage: u32,
    pub rollout_type: Option<String>,
    pub rollout_configuration: Option<RolloutConfiguration>,
}

/// A property as the server describes it.
#[derive(Debug, Clone, PartialEq, Eq)]
pub struct Property {
    pub name: String,
    pub property_id: String,
    pub kind: ValueType,
    pub tags: Option<String>,
    pub format: Option<String>,
    pub value: ConfigValue,
    pub segment_rules: Vec<SegmentRule>,
}

/// The features and properties of one environment.
#[derive(Debug, Clone, PartialEq, Eq)]
pub struct Environment {
    pub environment_id: String,
    pub features: Vec<Feature>,
    pub properties: Vec<Property>,
}

/// All configuration data of an instance: its environments and segments.
#[derive(Debug, Clone, PartialEq, Eq)]
pub struct ConfigurationJson {
    pub environments: Vec<Environment>,
    pub segments: Vec<Segment>,
}

/// Details of a feature evaluation.
#[derive(Debug, Clone, PartialEq, Eq)]
pub struct FeatureEvaluationDetails {
    pub value_type: String,
    pub reason: String,
    pub segment_name: Option<String>,
    pub rollout_percentage_applied: Option<bool>,
}

/// Details of a property evaluation.
#[derive(Debug, Clone, PartialEq, Eq)]
pub struct PropertyEvaluationDetails {
    pub value_type: String,
    pub reason: String,
    pub segment_name: Option<String>,
}

/// The result of evaluating a feature for an entity.
#[derive(Debug, Clone, PartialEq, Eq)]
pub struct FeatureEvaluationResult {
    pub value: crate::value::Value,
    pub is_enabled: bool,
    pub details: FeatureEvaluationDetails,
}

/// The result of evaluating a property for an entity.
#[derive(Debug, Clone, PartialEq, Eq)]
pub struct PropertyEvaluationResult {
    pub value: crate::value::Value,
    pub details: PropertyEvaluationDetails,
}

/// The rule of a targeting rule as it was matched, for reporting.
#[derive(Debug, Clone, PartialEq, Eq)]
pub struct EvaluationRuleContext {
    pub order: u32,
    pub rollout_percentage: Option<u32>,
    pub uses_default_value: bool,
    pub targeted_segment_ids: Vec<Vec<String>>,
}

/// A condition of a matched segment, for reporting.
#[derive(Debug, Clone, PartialEq, Eq)]
pub struct EvaluationRuleCondition {
    pub attribute_name: String,
    pub operator: String,
    pub values: Vec<String>,
}

/// A matched segment, for reporting.
#[derive(Debug, Clone, PartialEq, Eq)]
pub struct EvaluationSegmentContext {
    pub segment_id: String,
    pub name: String,
    pub description: Option<String>,
    pub tags: Option<String>,
    pub rules: Vec<EvaluationRuleCondition>,
}

/// What matched in an evaluation, for reporting.
#[derive(Debug, Clone, PartialEq, Eq)]
pub struct EvaluationContext {
    pub matched_segment: Option<EvaluationSegmentContext>,
    pub matched_rule: Option<EvaluationRuleContext>,
}

/// Values that can be copied exactly.
pub trait Duplicate: Sized {
    /// An exact copy.
    fn duplicate(&self) -> (r: Self)
        ensures
            r == *self,
    ;
}

/// An exact copy of an optional string.
pub fn duplicate_opt_string(o: &Option<String>) -> (r: Option<String>)
    ensures
        r == *o,
{
    match o {
        Some(s) => Some(s.clone()),
        None => None,
    }
}

impl Duplicate for String {
    fn duplicate(&self) -> (r: Self) {
        self.clone()
    }
}

impl Duplicate for Value {
    fn duplicate(&self) -> (r: Self) {
        Value::duplicate(self)
    }
}

impl Duplicate for ConfigValue {
    fn duplicate(&self) -> (r: Self) {
        ConfigValue::duplicate(self)
    }
}

impl Duplicate for RolloutPhase {
    fn duplicate(&self) -> (r: Self) {
        RolloutPhase {
            percentage: self.percentage,
            duration: self.duration,
            duration_type: duplicate_opt_string(&self.duration_type),
        }
    }
}

} // verus!
