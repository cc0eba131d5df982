use vstd::prelude::*;
use vstd::string::*;
use vstd::utf8::encode_utf8;

use crate::config_value::is_conversion_error;
use crate::decimal::{decimal, decimal_of};
use crate::errors::{EntityEvaluationError, Error};
use crate::models::{FeatureEvaluationDetails, FeatureEvaluationResult, RolloutConfiguration};
use crate::rollout::{current_time_millis, get_current_rollout_percentage, parse_rollout_configuration_phases, percentage_at, spec_rollout_table};
use crate::segment_evaluation::{chars_equal, spec_find_applicable, spec_rule_rollout, spec_rule_value, Entity, TargetingRules};
use crate::text::{chars_of, string_of};
use crate::value::Value;
use std::sync::Arc;

verus! {

/// The 32-bit MurmurHash3 (x86) of the UTF-8 bytes of a string with the given
/// seed.
pub uninterp spec fn murmur3_32_hash(data: Seq<char>, seed: u32) -> u32;

/// Whether a string can be hashed: `murmur3::murmur3_32` counts the bytes it
/// reads in a `u32`, so the UTF-8 form must have at most `u32::MAX` bytes.
pub open spec fn hashable(data: Seq<char>) -> bool {
    encode_utf8(data).len() <= u32::MAX
}

/// Hashes the bytes of `data` with `murmur3::murmur3_32`, reading them from
/// an in-memory cursor, which never fails to read; the contract names the
/// result.
#[verifier::external_body]
fn murmur3_32_of_str(data: &str, seed: u32) -> (r: Option<u32>)
    requires
        data.spec_bytes().len() <= u32::MAX,
    ensures
        r == Some(murmur3_32_hash(data@, seed)),
{
    murmur3::murmur3_32(&mut std::io::Cursor::new(data.as_bytes()), seed).ok()
}

/// A hash scaled to a percentage bucket: `hash * 100 / u32::MAX`, rounded down.
pub open spec fn normalized(h: u32) -> u32 {
    (h as int * 100 / 4294967295) as u32
}

/// The text hashed to place an entity in a rollout bucket of a feature.
pub open spec fn rollout_tag(entity_id: Seq<char>, feature_id: Seq<char>) -> Seq<char> {
    entity_id + ":"@ + feature_id
}

/// Whether an entity is in the rollout of a feature: always at 100%,
/// otherwise when its bucket is below the percentage (`None` when the text to
/// hash is too long to be hashed).
pub open spec fn spec_should_rollout(pct: u32, entity_id: Seq<char>, feature_id: Seq<char>) -> Option<bool> {
    if pct == 100 {
        Some(true)
    } else if hashable(rollout_tag(entity_id, feature_id)) {
        Some(normalized(murmur3_32_hash(rollout_tag(entity_id, feature_id), 0)) < pct)
    } else {
        None
    }
}

/// The percentage bucket (0 to 100) of a string; `None` when the string is
/// too long to be hashed.
pub fn normalized_hash(data: &str) -> (r: Option<u32>)
    ensures
        r == (if hashable(data@) {
            Some(normalized(murmur3_32_hash(data@, 0)))
        } else {
            None
        }),
{
    let bytes = data.as_bytes();
    let n: usize = bytes.len();
    if n as u64 > 4294967295u64 {
        return None;
    }
    match murmur3_32_of_str(data, 0) {
        Some(h) => {
            let n: u64 = (h as u64) * 100 / 4294967295u64;
            Some(n as u32)
        },
        None => None,
    }
}

/// Decides whether an entity falls within the rollout percentage of a feature.
pub fn should_rollout_with_id(rollout_percentage: u32, entity_id: &str, feature_id: &str) -> (r: Option<bool>)
    ensures
        r == spec_should_rollout(rollout_percentage, entity_id@, feature_id@),
{
    if rollout_percentage == 100 {
        return Some(true);
    }
    let mut tag = String::from_str(entity_id);
    tag.append(":");
    tag.append(feature_id);
    assert(tag@ == rollout_tag(entity_id@, feature_id@));
    match normalized_hash(tag.as_str()) {
        Some(b) => Some(b < rollout_percentage),
        None => None,
    }
}

/// A snapshot of a feature flag: everything needed to evaluate it for
/// entities, fixed at the time it was taken.
#[derive(Debug, Clone)]
pub struct FeatureSnapshot {
    pub enabled: bool,
    pub enabled_value: Value,
    pub disabled_value: Value,
    pub rollout_percentage: u32,
    pub rollout_type: Option<String>,
    pub rollout_configuration: Option<Arc<RolloutConfiguration>>,
    /// The percentage table of a progressive rollout.
    pub rollout_table: Option<Vec<(i64, u32)>>,
    pub name: String,
    pub feature_id: String,
    pub type_label: String,
    pub format: Option<String>,
    pub segment_rules: Arc<TargetingRules>,
}

/// Whether a rollout type names a progressive rollout.
pub open spec fn is_progressive(t: Option<String>) -> bool {
    t matches Some(s) && s@ == "PROGRESSIVE"@
}

/// The rollout percentage and the id hashed for an entity when no targeting
/// rule applies: for a progressive rollout with a valid table, the
/// percentage in force at `now` and the entity id followed by the start
/// time; otherwise the feature's percentage and the plain entity id.
pub open spec fn feature_level_rollout(f: FeatureSnapshot, entity_id: Seq<char>, now: i64) -> (u32, Seq<char>) {
    if is_progressive(f.rollout_type) && f.rollout_configuration is Some && f.rollout_table is Some {
        (
            percentage_at(f.rollout_table->Some_0@, now),
            entity_id + f.rollout_configuration->Some_0.start_at@,
        )
    } else {
        (f.rollout_percentage, entity_id)
    }
}

/// Whether `table` is the percentage table a snapshot keeps: the table of
/// a progressive rollout with a valid configuration, otherwise none.
pub open spec fn table_for(
    rollout_type: Option<String>,
    rollout_configuration: Option<Arc<RolloutConfiguration>>,
    table: Option<Vec<(i64, u32)>>,
) -> bool {
    if is_progressive(rollout_type) && rollout_configuration is Some {
        match spec_rollout_table(*rollout_configuration->Some_0) {
            Some(t) => table matches Some(v) && v@ == t,
            None => table is None,
        }
    } else {
        table is None
    }
}

/// Reason of a disabled feature.
pub open spec fn reason_disabled() -> Seq<char> {
    "Disabled value of the feature flag since the feature flag is disabled."@
}

/// Reason of a matched targeting rule whose rollout admits the entity.
pub open spec fn reason_rule_allowed(order: u32, pct: u32) -> Seq<char> {
    "Matched targeting rule order "@ + decimal(order as nat) + " and rollout "@ + decimal(pct as nat)
        + "% allowed entity."@
}

/// Reason of a matched targeting rule whose rollout excludes the entity.
pub open spec fn reason_rule_excluded(order: u32, pct: u32) -> Seq<char> {
    "Matched targeting rule order "@ + decimal(order as nat) + " but rollout "@ + decimal(pct as nat)
        + "% excluded entity."@
}

/// Reason of a feature-level rollout decision.
pub open spec fn reason_feature_level(enabled: bool, pct: u32) -> Seq<char> {
    "No targeting rule matched. Feature-level rollout "@ + decimal(pct as nat) + (if enabled {
        "% enabled entity."@
    } else {
        "% excluded entity."@
    })
}

/// Whether evaluation details carry the given texts and flags.
pub open spec fn details_are(
    d: FeatureEvaluationDetails,
    value_type: Seq<char>,
    reason: Seq<char>,
    segment_name: Option<String>,
    applied: Option<bool>,
) -> bool {
    &&& d.value_type@ == value_type
    &&& d.reason@ == reason
    &&& d.segment_name == segment_name
    &&& d.rollout_percentage_applied == applied
}

/// Whether an evaluation came out with the given value, state and details,
/// and with the given matched segment (by position).
pub open spec fn outcome_is(
    r: Result<(FeatureEvaluationResult, Option<usize>), Error>,
    value: Value,
    is_enabled: bool,
    value_type: Seq<char>,
    reason: Seq<char>,
    segment_name: Option<String>,
    applied: Option<bool>,
    segment: Option<usize>,
) -> bool {
    r matches Ok((res, m)) && res.value == value && res.is_enabled == is_enabled && details_are(
        res.details,
        value_type,
        reason,
        segment_name,
        applied,
    ) && m == segment
}

/// Whether the evaluation reports that the text to hash was too long to be
/// hashed.
pub open spec fn is_hash_error(r: Result<(FeatureEvaluationResult, Option<usize>), Error>) -> bool {
    r matches Err(Error::Other(m)) && m@ == "Cannot hash the value."@
}

/// The targeting outcome: no rule is considered when there are no rules or
/// the entity has no attributes.
pub open spec fn spec_targeting(f: FeatureSnapshot, attrs: Seq<(String, Value)>) -> Result<Option<(usize, usize)>, crate::errors::SegmentEvaluationError> {
    if f.segment_rules.segment_rules@.len() == 0 || attrs.len() == 0 {
        Ok(None)
    } else {
        spec_find_applicable(*f.segment_rules, attrs)
    }
}

/// The complete evaluation of a feature for an entity with the given id and
/// attributes at time `now` (milliseconds since the epoch).
pub open spec fn feature_evaluation(
    f: FeatureSnapshot,
    entity_id: Seq<char>,
    attrs: Seq<(String, Value)>,
    now: i64,
    r: Result<(FeatureEvaluationResult, Option<usize>), Error>,
) -> bool {
    if !f.enabled {
        outcome_is(r, f.disabled_value, false, "DISABLED_VALUE"@, reason_disabled(), None, None, None)
    } else {
        match spec_targeting(f, attrs) {
            Err(e) => r == Err::<(FeatureEvaluationResult, Option<usize>), Error>(
                Error::EntityEvaluationError(EntityEvaluationError(e)),
            ),
            Ok(Some((ri, si))) => {
                let rule = f.segment_rules.segment_rules@[ri as int];
                let seg_name = Some(f.segment_rules.segments@[si as int].1.name);
                match spec_rule_rollout(rule.rollout_percentage, f.rollout_percentage) {
                    None => r matches Err(Error::ProtocolError(m)) && m@ == "Invalid rollout percentage"@,
                    Some(pct) => match spec_should_rollout(pct, entity_id, f.feature_id@) {
                        None => is_hash_error(r),
                        Some(true) => match spec_rule_value(f.segment_rules.kind, rule.value, f.enabled_value) {
                            None => r matches Err(e) && is_conversion_error(f.segment_rules.kind, e),
                            Some(v) => outcome_is(
                                r,
                                v,
                                true,
                                "SEGMENT_VALUE"@,
                                reason_rule_allowed(rule.order, pct),
                                seg_name,
                                Some(true),
                                Some(si),
                            ),
                        },
                        Some(false) => outcome_is(
                            r,
                            f.disabled_value,
                            false,
                            "DISABLED_VALUE"@,
                            reason_rule_excluded(rule.order, pct),
                            seg_name,
                            Some(false),
                            Some(si),
                        ),
                    },
                }
            },
            Ok(None) => {
                let (pct, hashed_id) = feature_level_rollout(f, entity_id, now);
                match spec_should_rollout(pct, hashed_id, f.feature_id@) {
                    None => is_hash_error(r),
                    Some(b) => outcome_is(
                        r,
                        if b { f.enabled_value } else { f.disabled_value },
                        b,
                        if b { "ENABLED_VALUE"@ } else { "DISABLED_VALUE"@ },
                        reason_feature_level(b, pct),
                        None,
                        Some(b),
                        None,
                    ),
                }
            },
        }
    }
}

/// An evaluation result without the position of the matched segment.
pub open spec fn without_segment_of(full: Result<(FeatureEvaluationResult, Option<usize>), Error>) -> Result<FeatureEvaluationResult, Error> {
    match full {
        Ok((res, _)) => Ok(res),
        Err(e) => Err(e),
    }
}

/// Whether `r` is what evaluating the feature at time `now` gives for an id
/// and attributes that the entity gives.
pub open spec fn current_value_at<E: Entity>(f: FeatureSnapshot, entity: E, now: i64, r: Result<FeatureEvaluationResult, Error>) -> bool {
    exists|id: Seq<char>, attrs: Seq<(String, Value)>, full: Result<(FeatureEvaluationResult, Option<usize>), Error>|
        entity.gives_id(id) && entity.gives_attributes(attrs) && #[trigger] feature_evaluation(f, id, attrs, now, full)
            && r == without_segment_of(full)
}

pub(crate) fn append_decimal(s: &mut String, n: u32)
    ensures
        final(s)@ == old(s)@ + decimal(n as nat),
{
    let ds = decimal_of(n as u64);
    let d = string_of(ds.as_slice());
    s.append(d.as_str());
}

fn hash_error() -> (e: Error)
    ensures
        e matches Error::Other(m) && m@ == "Cannot hash the value."@,
{
    Error::Other(String::from_str("Cannot hash the value."))
}

fn details(value_type: &str, reason: String, segment_name: Option<String>, applied: Option<bool>) -> (d: FeatureEvaluationDetails)
    ensures
        details_are(d, value_type@, reason@, segment_name, applied),
{
    FeatureEvaluationDetails { value_type: String::from_str(value_type), reason, segment_name, rollout_percentage_applied: applied }
}

impl FeatureSnapshot {
    /// Takes a snapshot; a progressive rollout gets its percentage table.
    pub fn new(
        enabled: bool,
        enabled_value: Value,
        disabled_value: Value,
        rollout_percentage: u32,
        rollout_type: Option<String>,
        rollout_configuration: Option<Arc<RolloutConfiguration>>,
        name: &str,
        feature_id: &str,
        type_label: String,
        format: Option<String>,
        segment_rules: Arc<TargetingRules>,
    ) -> (r: Self)
        ensures
            r.enabled == enabled,
            r.enabled_value == enabled_value,
            r.disabled_value == disabled_value,
            r.rollout_percentage == rollout_percentage,
            r.rollout_type == rollout_type,
            r.rollout_configuration == rollout_configuration,
            r.name@ == name@,
            r.feature_id@ == feature_id@,
            r.type_label == type_label,
            r.format == format,
            r.segment_rules == segment_rules,
            table_for(rollout_type, rollout_configuration, r.rollout_table),
    {
        let progressive = match &rollout_type {
            Some(t) => chars_equal(chars_of(t.as_str()).as_slice(), chars_of("PROGRESSIVE").as_slice()),
            None => false,
        };
        let rollout_table = if progressive {
            match &rollout_configuration {
                Some(c) => parse_rollout_configuration_phases(&**c),
                None => None,
            }
        } else {
            None
        };
        FeatureSnapshot {
            enabled,
            enabled_value,
            disabled_value,
            rollout_percentage,
            rollout_type,
            rollout_configuration,
            rollout_table,
            name: String::from_str(name),
            feature_id: String::from_str(feature_id),
            type_label,
            format,
            segment_rules,
        }
    }

    /// The rollout percentage and hashed id when no targeting rule applies.
    pub fn get_feature_rollout_percentage_and_entity_id(&self, entity_id: &String, now: i64) -> (r: (u32, String))
        ensures
            r.0 == feature_level_rollout(*self, entity_id@, now).0,
            r.1@ == feature_level_rollout(*self, entity_id@, now).1,
    {
        let progressive = match &self.rollout_type {
            Some(t) => chars_equal(chars_of(t.as_str()).as_slice(), chars_of("PROGRESSIVE").as_slice()),
            None => false,
        };
        if progressive {
            match (&self.rollout_configuration, &self.rollout_table) {
                (Some(config), Some(table)) => {
                    let pct = get_current_rollout_percentage(table.as_slice(), now);
                    let mut id = entity_id.clone();
                    id.append(config.start_at.as_str());
                    return (pct, id);
                },
                _ => {},
            }
        }
        (self.rollout_percentage, entity_id.clone())
    }

    fn evaluate_matched_rule(&self, ri: usize, si: usize, entity_id: &String) -> (r: Result<(FeatureEvaluationResult, Option<usize>), Error>)
        requires
            self.enabled,
            ri < self.segment_rules.segment_rules@.len(),
            si < self.segment_rules.segments@.len(),
        ensures
            ({
                let rule = self.segment_rules.segment_rules@[ri as int];
                let seg_name = Some(self.segment_rules.segments@[si as int].1.name);
                match spec_rule_rollout(rule.rollout_percentage, self.rollout_percentage) {
                    None => r matches Err(Error::ProtocolError(m)) && m@ == "Invalid rollout percentage"@,
                    Some(pct) => match spec_should_rollout(pct, entity_id@, self.feature_id@) {
                        None => is_hash_error(r),
                        Some(true) => match spec_rule_value(self.segment_rules.kind, rule.value, self.enabled_value) {
                            None => r matches Err(e) && is_conversion_error(self.segment_rules.kind, e),
                            Some(v) => outcome_is(r, v, true, "SEGMENT_VALUE"@, reason_rule_allowed(rule.order, pct), seg_name, Some(true), Some(si)),
                        },
                        Some(false) => outcome_is(r, self.disabled_value, false, "DISABLED_VALUE"@, reason_rule_excluded(rule.order, pct), seg_name, Some(false), Some(si)),
                    },
                }
            }),
    {
        let pct = self.segment_rules.rule_rollout_percentage(ri, self.rollout_percentage)?;
        let order = self.segment_rules.segment_rules[ri].order;
        let segment_name = Some(self.segment_rules.segments[si].1.name.clone());
        let allowed = match should_rollout_with_id(pct, entity_id.as_str(), self.feature_id.as_str()) {
            Some(b) => b,
            None => return Err(hash_error()),
        };
        let mut reason = String::from_str("Matched targeting rule order ");
        append_decimal(&mut reason, order);
        if allowed {
            let value = self.segment_rules.rule_value(ri, &self.enabled_value)?;
            reason.append(" and rollout ");
            append_decimal(&mut reason, pct);
            reason.append("% allowed entity.");
            Ok((FeatureEvaluationResult { value, is_enabled: true, details: details("SEGMENT_VALUE", reason, segment_name, Some(true)) }, Some(si)))
        } else {
            reason.append(" but rollout ");
            append_decimal(&mut reason, pct);
            reason.append("% excluded entity.");
            Ok((FeatureEvaluationResult { value: self.disabled_value.duplicate(), is_enabled: false, details: details("DISABLED_VALUE", reason, segment_name, Some(false)) }, Some(si)))
        }
    }

    fn evaluate_feature_level(&self, entity_id: &String, now: i64) -> (r: Result<(FeatureEvaluationResult, Option<usize>), Error>)
        ensures
            ({
                let (pct, hashed_id) = feature_level_rollout(*self, entity_id@, now);
                match spec_should_rollout(pct, hashed_id, self.feature_id@) {
                    None => is_hash_error(r),
                    Some(b) => outcome_is(
                        r,
                        if b { self.enabled_value } else { self.disabled_value },
                        b,
                        if b { "ENABLED_VALUE"@ } else { "DISABLED_VALUE"@ },
                        reason_feature_level(b, pct),
                        None,
                        Some(b),
                        None,
                    ),
                }
            }),
    {
        let (pct, hashed_id) = self.get_feature_rollout_percentage_and_entity_id(entity_id, now);
        let b = match should_rollout_with_id(pct, hashed_id.as_str(), self.feature_id.as_str()) {
            Some(b) => b,
            None => return Err(hash_error()),
        };
        let mut reason = String::from_str("No targeting rule matched. Feature-level rollout ");
        append_decimal(&mut reason, pct);
        if b {
            reason.append("% enabled entity.");
            Ok((FeatureEvaluationResult { value: self.enabled_value.duplicate(), is_enabled: true, details: details("ENABLED_VALUE", reason, None, Some(true)) }, None))
        } else {
            reason.append("% excluded entity.");
            Ok((FeatureEvaluationResult { value: self.disabled_value.duplicate(), is_enabled: false, details: details("DISABLED_VALUE", reason, None, Some(false)) }, None))
        }
    }

    /// Evaluates the feature for an entity with the given id and attributes
    /// at time `now`; also gives the position of the matched segment.
    pub fn evaluate_feature_for_entity(
        &self,
        entity_id: &String,
        attrs: &[(String, Value)],
        now: i64,
    ) -> (r: Result<(FeatureEvaluationResult, Option<usize>), Error>)
        ensures
            feature_evaluation(*self, entity_id@, attrs@, now, r),
    {
        if !self.enabled {
            let reason = String::from_str("Disabled value of the feature flag since the feature flag is disabled.");
            return Ok((FeatureEvaluationResult { value: self.disabled_value.duplicate(), is_enabled: false, details: details("DISABLED_VALUE", reason, None, None) }, None));
        }
        let matched = if self.segment_rules.is_empty() || attrs.len() == 0 {
            None
        } else {
            self.segment_rules.find_applicable_targeting_rule_and_segment_for_entity(attrs)?
        };
        match matched {
            Some((ri, si)) => self.evaluate_matched_rule(ri, si, entity_id),
            None => self.evaluate_feature_level(entity_id, now),
        }
    }

    /// Evaluates the feature for an entity at the current time.
    pub fn get_current_value<E: Entity>(&self, entity: &E) -> (r: Result<FeatureEvaluationResult, Error>)
        ensures
            exists|now: i64| #[trigger] current_value_at(*self, *entity, now, r),
    {
        let id = entity.get_id();
        let attrs = entity.get_attributes();
        let now = current_time_millis();
        let full = self.evaluate_feature_for_entity(&id, attrs.as_slice(), now);
        let r = match full {
            Ok((res, _)) => Ok(res),
            Err(e) => Err(e),
        };
        assert(entity.gives_id(id@) && entity.gives_attributes(attrs@) && feature_evaluation(*self, id@, attrs@, now, full)
            && r == without_segment_of(full));
        assert(current_value_at(*self, *entity, now, r));
        r
    }

    /// The name of the feature.
    pub fn get_feature_name(&self) -> (r: String)
        ensures
            r == self.name,
    {
        self.name.clone()
    }

    /// The id of the feature.
    pub fn get_feature_id(&self) -> (r: String)
        ensures
            r == self.feature_id,
    {
        self.feature_id.clone()
    }

    /// Whether the feature is enabled.
    pub fn is_enabled(&self) -> (r: bool)
        ensures
            r == self.enabled,
    {
        self.enabled
    }

    /// The declared data type of the feature.
    pub fn get_feature_data_type(&self) -> (r: String)
        ensures
            r == self.type_label,
    {
        self.type_label.clone()
    }

    /// The data format; a string feature without one is `"TEXT"`.
    pub fn get_feature_data_format(&self) -> (r: Option<String>)
        ensures
            if self.format is None && self.type_label@ == "STRING"@ {
                r matches Some(s) && s@ == "TEXT"@
            } else {
                r == self.format
            },
    {
        let is_string = chars_equal(chars_of(self.type_label.as_str()).as_slice(), chars_of("STRING").as_slice());
        match &self.format {
            None => if is_string { Some(String::from_str("TEXT")) } else { None },
            Some(f) => Some(f.clone()),
        }
    }
}

} // verus!
