use vstd::prelude::*;
use vstd::string::*;

use crate::config_value::{is_conversion_error, ValueType};
use crate::decimal::decimal;
use crate::errors::{EntityEvaluationError, Error};
use crate::feature_snapshot::append_decimal;
use crate::models::{PropertyEvaluationDetails, PropertyEvaluationResult};
use crate::segment_evaluation::{chars_equal, spec_find_applicable, spec_rule_value, Entity, TargetingRules};
use crate::text::chars_of;
use crate::value::Value;
use std::sync::Arc;

verus! {

/// A snapshot of a property: its default value and targeting rules, fixed
/// at the time it was taken.
#[derive(Debug, Clone)]
pub struct PropertySnapshot {
    pub value: Value,
    pub segment_rules: Arc<TargetingRules>,
    pub value_type: ValueType,
    pub type_label: String,
    pub format: Option<String>,
    pub name: String,
    pub property_id: String,
}

/// Reason of a property value given by a targeting rule.
pub open spec fn reason_property_rule(order: u32) -> Seq<char> {
    "Matched targeting rule order "@ + decimal(order as nat) + " for property evaluation."@
}

/// Reason of a property's default value.
pub open spec fn reason_property_default() -> Seq<char> {
    "Default value of the property."@
}

/// Whether a property evaluation came out with the given value, details and
/// matched segment (by position).
pub open spec fn property_outcome_is(
    r: Result<(PropertyEvaluationResult, Option<usize>), Error>,
    value: Value,
    value_type: Seq<char>,
    reason: Seq<char>,
    segment_name: Option<String>,
    segment: Option<usize>,
) -> bool {
    r matches Ok((res, m)) && res.value == value && res.details.value_type@ == value_type
        && res.details.reason@ == reason && res.details.segment_name == segment_name && m == segment
}

/// The targeting outcome of a property: no rule is considered when there are
/// no rules or the entity has no attributes.
pub open spec fn property_targeting(p: PropertySnapshot, attrs: Seq<(String, Value)>) -> Result<Option<(usize, usize)>, crate::errors::SegmentEvaluationError> {
    if p.segment_rules.segment_rules@.len() == 0 || attrs.len() == 0 {
        Ok(None)
    } else {
        spec_find_applicable(*p.segment_rules, attrs)
    }
}

/// The complete evaluation of a property for an entity with the given attributes.
pub open spec fn property_evaluation(
    p: PropertySnapshot,
    attrs: Seq<(String, Value)>,
    r: Result<(PropertyEvaluationResult, Option<usize>), Error>,
) -> bool {
    match property_targeting(p, attrs) {
        Err(e) => r == Err::<(PropertyEvaluationResult, Option<usize>), Error>(
            Error::EntityEvaluationError(EntityEvaluationError(e)),
        ),
        Ok(Some((ri, si))) => {
            let rule = p.segment_rules.segment_rules@[ri as int];
            match spec_rule_value(p.segment_rules.kind, rule.value, p.value) {
                None => r matches Err(e) && is_conversion_error(p.segment_rules.kind, e),
                Some(v) => property_outcome_is(
                    r,
                    v,
                    "SEGMENT_VALUE"@,
                    reason_property_rule(rule.order),
                    Some(p.segment_rules.segments@[si as int].1.name),
                    Some(si),
                ),
            }
        },
        Ok(None) => property_outcome_is(r, p.value, "DEFAULT_VALUE"@, reason_property_default(), None, None),
    }
}

/// A property evaluation result without the position of the matched segment.
pub open spec fn property_result_of(full: Result<(PropertyEvaluationResult, Option<usize>), Error>) -> Result<PropertyEvaluationResult, Error> {
    match full {
        Ok((res, _)) => Ok(res),
        Err(e) => Err(e),
    }
}

/// Whether `r` is what evaluating the property gives for attributes that the
/// entity gives.
pub open spec fn current_property_value<E: Entity>(p: PropertySnapshot, entity: E, r: Result<PropertyEvaluationResult, Error>) -> bool {
    exists|attrs: Seq<(String, Value)>, full: Result<(PropertyEvaluationResult, Option<usize>), Error>|
        entity.gives_attributes(attrs) && #[trigger] property_evaluation(p, attrs, full) && r == property_result_of(full)
}

impl PropertySnapshot {
    /// Takes a snapshot of a property.
    pub fn new(
        value: Value,
        segment_rules: Arc<TargetingRules>,
        value_type: ValueType,
        type_label: String,
        format: Option<String>,
        name: &str,
        property_id: &str,
    ) -> (r: Self)
        ensures
            r.value == value,
            r.segment_rules == segment_rules,
            r.value_type == value_type,
            r.type_label == type_label,
            r.format == format,
            r.name@ == name@,
            r.property_id@ == property_id@,
    {
        PropertySnapshot {
            value,
            segment_rules,
            value_type,
            type_label,
            format,
            name: String::from_str(name),
            property_id: String::from_str(property_id),
        }
    }

    /// Evaluates the property for an entity with the given attributes; also
    /// gives the position of the matched segment.
    pub fn evaluate_property_for_entity(&self, attrs: &[(String, Value)]) -> (r: Result<(PropertyEvaluationResult, Option<usize>), Error>)
        ensures
            property_evaluation(*self, attrs@, r),
    {
        let matched = if self.segment_rules.is_empty() || attrs.len() == 0 {
            None
        } else {
            self.segment_rules.find_applicable_targeting_rule_and_segment_for_entity(attrs)?
        };
        match matched {
            Some((ri, si)) => {
                let value = self.segment_rules.rule_value(ri, &self.value)?;
                let mut reason = String::from_str("Matched targeting rule order ");
                append_decimal(&mut reason, self.segment_rules.segment_rules[ri].order);
                reason.append(" for property evaluation.");
                let details = PropertyEvaluationDetails {
                    value_type: String::from_str("SEGMENT_VALUE"),
                    reason,
                    segment_name: Some(self.segment_rules.segments[si].1.name.clone()),
                };
                Ok((PropertyEvaluationResult { value, details }, Some(si)))
            },
            None => {
                let details = PropertyEvaluationDetails {
                    value_type: String::from_str("DEFAULT_VALUE"),
                    reason: String::from_str("Default value of the property."),
                    segment_name: None,
                };
                Ok((PropertyEvaluationResult { value: self.value.duplicate(), details }, None))
            },
        }
    }

    /// Evaluates the property for an entity.
    pub fn get_current_value<E: Entity>(&self, entity: &E) -> (r: Result<PropertyEvaluationResult, Error>)
        ensures
            current_property_value(*self, *entity, r),
    {
        let attrs = entity.get_attributes();
        let full = self.evaluate_property_for_entity(attrs.as_slice());
        let r = match full {
            Ok((res, _)) => Ok(res),
            Err(e) => Err(e),
        };
        assert(entity.gives_attributes(attrs@) && property_evaluation(*self, attrs@, full) && r == property_result_of(full));
        r
    }

    /// Whether the property holds a reference to a secret.
    pub fn is_secret_ref(&self) -> (r: bool)
        ensures
            r == (self.value_type == ValueType::SecretRef),
    {
        match self.value_type {
            ValueType::SecretRef => true,
            _ => false,
        }
    }

    /// The name of the property.
    pub fn get_property_name(&self) -> (r: String)
        ensures
            r == self.name,
    {
        self.name.clone()
    }

    /// The id of the property.
    pub fn get_property_id(&self) -> (r: String)
        ensures
            r == self.property_id,
    {
        self.property_id.clone()
    }

    /// The declared data type of the property.
    pub fn get_property_data_type(&self) -> (r: String)
        ensures
            r == self.type_label,
    {
        self.type_label.clone()
    }

    /// The data format; a string property without one is `"TEXT"`.
    pub fn get_property_data_format(&self) -> (r: Option<String>)
        ensures
            if self.format is None && self.type_label@ == "STRING"@ {
                r matches Some(s) && s@ == "TEXT"@
            } else {
                r == self.format
            },
    {
        let is_string = chars_equal(chars_of(self.type_label.as_str()).as_slice(), chars_of("STRING").as_slice());
        match &self.format {
            None => if is_string { Some(String::from_str("TEXT")) } else { None },
            Some(f) => Some(f.clone()),
        }
    }
}

} // verus!
