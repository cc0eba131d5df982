use vstd::prelude::*;

use crate::configuration::{configuration_of, environment_index, feature_index, feature_result, Configuration, FeatureEntry};
use crate::config_value::{spec_value_of, ConfigValue, ValueType};
use crate::models::Feature;
use crate::sdk::{init_outcome, AppConfigurationSetup};
use crate::errors::Error;
use crate::feature_snapshot::{current_value_at, feature_evaluation, hashable, murmur3_32_hash, without_segment_of, reason_disabled, rollout_tag, spec_should_rollout, FeatureSnapshot};
use crate::live::{spec_runtime_status, CurrentMode};
use crate::metering::{counted, distinct_keys, key_view, EvaluationData, MeteringKey};
use crate::models::{FeatureEvaluationResult, PropertyEvaluationResult, RolloutConfiguration, RolloutPhase};
use crate::property_snapshot::{current_property_value, property_evaluation, property_result_of, reason_property_default, PropertySnapshot};
use crate::segment_evaluation::{find_target, flat_targets, int_digits, integer_of, op_holds, signed_decimal, spec_parse_int, rule_eval, segment_eval, segment_lookup, Entity};
use crate::errors::SegmentEvaluationError;
use crate::models::{Rule, Segment};
use std::sync::Arc;
use crate::rollout::{entry_in_force, percentage_at, rfc3339_millis, schedule_from, spec_rollout_table, unit_millis};
use crate::value::Value;
use crate::decimal::{all_digits, decimal, digits_value, is_digit, spec_digit};
use crate::worker::{pow2, retry_base_ms, spec_worker_step, WorkerAction, WorkerEvent, WorkerState};
use crate::live::spec_recoverable;
use crate::errors::{LiveError, NetworkError};

verus! {

/// Evaluating a feature snapshot is deterministic: for the same entity,
/// attributes and time, two evaluations either both fail or give the same
/// value, state, details and matched segment.
pub proof fn law_feature_evaluation_deterministic(
    f: FeatureSnapshot,
    entity_id: Seq<char>,
    attrs: Seq<(String, Value)>,
    now: i64,
    r1: Result<(FeatureEvaluationResult, Option<usize>), Error>,
    r2: Result<(FeatureEvaluationResult, Option<usize>), Error>,
)
    requires
        feature_evaluation(f, entity_id, attrs, now, r1),
        feature_evaluation(f, entity_id, attrs, now, r2),
    ensures
        r1 is Ok <==> r2 is Ok,
        r1 matches Ok((a, sa)) ==> r2 matches Ok((b, sb)) && a.value == b.value && a.is_enabled == b.is_enabled
            && a.details.value_type@ == b.details.value_type@ && a.details.reason@ == b.details.reason@
            && a.details.segment_name == b.details.segment_name
            && a.details.rollout_percentage_applied == b.details.rollout_percentage_applied && sa == sb,
{
}

/// A snapshot evaluates an entity always the same way: two entities that
/// each give one and the same id and one and the same list of attributes,
/// evaluated with the same clock reading, both fail or get the same value,
/// state and details, whatever happened in between.
pub proof fn law_snapshot_evaluates_entities_alike<E1: Entity, E2: Entity>(
    f: FeatureSnapshot,
    e1: E1,
    e2: E2,
    id: Seq<char>,
    attrs: Seq<(String, Value)>,
    now: i64,
    r1: Result<FeatureEvaluationResult, Error>,
    r2: Result<FeatureEvaluationResult, Error>,
)
    requires
        forall|x: Seq<char>| #[trigger] e1.gives_id(x) ==> x == id,
        forall|x: Seq<char>| #[trigger] e2.gives_id(x) ==> x == id,
        forall|a: Seq<(String, Value)>| #[trigger] e1.gives_attributes(a) ==> a == attrs,
        forall|a: Seq<(String, Value)>| #[trigger] e2.gives_attributes(a) ==> a == attrs,
        current_value_at(f, e1, now, r1),
        current_value_at(f, e2, now, r2),
    ensures
        r1 is Ok <==> r2 is Ok,
        r1 matches Ok(a) ==> r2 matches Ok(b) && a.value == b.value && a.is_enabled == b.is_enabled
            && a.details.value_type@ == b.details.value_type@ && a.details.reason@ == b.details.reason@
            && a.details.segment_name == b.details.segment_name
            && a.details.rollout_percentage_applied == b.details.rollout_percentage_applied,
{
    let (id1, attrs1, full1) = choose|id1: Seq<char>, attrs1: Seq<(String, Value)>, full1: Result<(FeatureEvaluationResult, Option<usize>), Error>|
        e1.gives_id(id1) && e1.gives_attributes(attrs1) && #[trigger] feature_evaluation(f, id1, attrs1, now, full1)
            && r1 == without_segment_of(full1);
    let (id2, attrs2, full2) = choose|id2: Seq<char>, attrs2: Seq<(String, Value)>, full2: Result<(FeatureEvaluationResult, Option<usize>), Error>|
        e2.gives_id(id2) && e2.gives_attributes(attrs2) && #[trigger] feature_evaluation(f, id2, attrs2, now, full2)
            && r2 == without_segment_of(full2);
    law_feature_evaluation_deterministic(f, id, attrs, now, full1, full2);
}

/// A property snapshot evaluates an entity always the same way: two
/// entities that each give one and the same list of attributes both fail
/// or get the same value and details.
pub proof fn law_property_snapshot_evaluates_entities_alike<E1: Entity, E2: Entity>(
    p: PropertySnapshot,
    e1: E1,
    e2: E2,
    attrs: Seq<(String, Value)>,
    r1: Result<PropertyEvaluationResult, Error>,
    r2: Result<PropertyEvaluationResult, Error>,
)
    requires
        forall|a: Seq<(String, Value)>| #[trigger] e1.gives_attributes(a) ==> a == attrs,
        forall|a: Seq<(String, Value)>| #[trigger] e2.gives_attributes(a) ==> a == attrs,
        current_property_value(p, e1, r1),
        current_property_value(p, e2, r2),
    ensures
        r1 is Ok <==> r2 is Ok,
        r1 matches Ok(a) ==> r2 matches Ok(b) && a.value == b.value && a.details.value_type@ == b.details.value_type@
            && a.details.reason@ == b.details.reason@ && a.details.segment_name == b.details.segment_name,
{
    let (attrs1, full1) = choose|attrs1: Seq<(String, Value)>, full1: Result<(PropertyEvaluationResult, Option<usize>), Error>|
        e1.gives_attributes(attrs1) && #[trigger] property_evaluation(p, attrs1, full1) && r1 == property_result_of(full1);
    let (attrs2, full2) = choose|attrs2: Seq<(String, Value)>, full2: Result<(PropertyEvaluationResult, Option<usize>), Error>|
        e2.gives_attributes(attrs2) && #[trigger] property_evaluation(p, attrs2, full2) && r2 == property_result_of(full2);
}

/// A disabled feature gives its disabled value to every entity, whatever
/// its attributes and the time, and says so.
pub proof fn law_disabled_feature_gives_disabled_value(
    f: FeatureSnapshot,
    entity_id: Seq<char>,
    attrs: Seq<(String, Value)>,
    now: i64,
    r: Result<(FeatureEvaluationResult, Option<usize>), Error>,
)
    requires
        !f.enabled,
        feature_evaluation(f, entity_id, attrs, now, r),
    ensures
        r matches Ok((res, seg)) && res.value == f.disabled_value && !res.is_enabled && res.details.reason@
            == reason_disabled() && seg is None,
{
}

/// A rollout of 100% takes in every entity.
pub proof fn law_full_rollout_takes_everyone(entity_id: Seq<char>, feature_id: Seq<char>)
    ensures
        spec_should_rollout(100, entity_id, feature_id) == Some(true),
{
}

/// A rollout of 0% takes in no entity (whose text to hash can be hashed).
pub proof fn law_zero_rollout_takes_no_one(entity_id: Seq<char>, feature_id: Seq<char>)
    requires
        hashable(rollout_tag(entity_id, feature_id)),
    ensures
        spec_should_rollout(0, entity_id, feature_id) == Some(false),
{
}

/// Every entity whose text to hash can be hashed gets a decision, and
/// raising the rollout percentage never drops an entity that was in.
pub proof fn law_rollout_monotone(p: u32, q: u32, entity_id: Seq<char>, feature_id: Seq<char>)
    requires
        p <= q,
        hashable(rollout_tag(entity_id, feature_id)),
    ensures
        spec_should_rollout(p, entity_id, feature_id) is Some,
        spec_should_rollout(q, entity_id, feature_id) is Some,
        spec_should_rollout(p, entity_id, feature_id) == Some(true) ==> spec_should_rollout(q, entity_id, feature_id) == Some(true),
{
    let h = murmur3_32_hash(rollout_tag(entity_id, feature_id), 0);
    assert(h as int * 100 / 4294967295 <= 100) by (nonlinear_arith)
        requires
            0 <= h <= 4294967295int,
    {
    }
}

/// A property without targeting rules gives its default value to every
/// entity.
pub proof fn law_property_without_rules_gives_default(
    p: PropertySnapshot,
    attrs: Seq<(String, Value)>,
    r: Result<(PropertyEvaluationResult, Option<usize>), Error>,
)
    requires
        p.segment_rules.segment_rules@.len() == 0,
        property_evaluation(p, attrs, r),
    ensures
        r matches Ok((res, seg)) && res.value == p.value && res.details.value_type@ == "DEFAULT_VALUE"@
            && res.details.reason@ == reason_property_default() && seg is None,
{
}

proof fn lemma_schedule_starts_at(t: int, phases: Seq<RolloutPhase>)
    requires
        0 <= t <= i64::MAX,
    ensures
        schedule_from(t, phases) matches Some(s) ==> forall|k: int| 0 <= k < s.len() ==> (#[trigger] s[k]).0 >= t,
    decreases phases.len(),
{
    if phases.len() > 0 {
        if let Some(d) = phases[0].duration {
            if let Some(ms) = crate::rollout::phase_millis(d, phases[0].duration_type) {
                if t + ms <= i64::MAX {
                    assert(ms >= 0) by {
                        assert(d >= 0);
                    }
                    lemma_schedule_starts_at(t + ms, phases.skip(1));
                }
            }
        }
    }
}

proof fn lemma_entry_in_force_early(table: Seq<(i64, u32)>, now: i64, start: int)
    requires
        table.len() >= 1,
        table[0] == (0i64, 0u32),
        forall|k: int| 1 <= k < table.len() ==> (#[trigger] table[k]).0 >= start,
        now < start,
    ensures
        now >= 0 ==> entry_in_force(table, now) == Some((0i64, 0u32)),
        now < 0 ==> entry_in_force(table, now) is None,
    decreases table.len(),
{
    if table.len() > 1 {
        let prev = table.drop_last();
        assert(prev[0] == table[0]);
        assert forall|k: int| 1 <= k < prev.len() implies (#[trigger] prev[k]).0 >= start by {
            assert(prev[k] == table[k]);
        }
        lemma_entry_in_force_early(prev, now, start);
        assert(table[table.len() - 1].0 >= start);
    } else {
        assert(entry_in_force(table.drop_last(), now) is None);
        assert(table.last() == (0i64, 0u32));
    }
}

/// Before a progressive rollout starts, its percentage is 0: the table
/// holds 0% from the epoch and every phase starts at or after the start.
pub proof fn law_progressive_rollout_zero_before_start(start: int, phases: Seq<RolloutPhase>, now: i64)
    requires
        0 <= start <= i64::MAX,
        schedule_from(start, phases) is Some,
        now < start,
    ensures
        percentage_at(seq![(0i64, 0u32)] + schedule_from(start, phases)->Some_0, now) == 0,
{
    let s = schedule_from(start, phases)->Some_0;
    lemma_schedule_starts_at(start, phases);
    let table = seq![(0i64, 0u32)] + s;
    assert forall|k: int| 1 <= k < table.len() implies (#[trigger] table[k]).0 >= start by {
        assert(table[k] == s[k - 1]);
    }
    lemma_entry_in_force_early(table, now, start);
}

proof fn lemma_pow2_grows(a: nat, b: nat)
    requires
        a <= b,
    ensures
        pow2(a) <= pow2(b),
    decreases b,
{
    if a < b {
        lemma_pow2_grows(a, (b - 1) as nat);
    }
}

/// The delay before reconnecting never shrinks with more failed attempts,
/// starts at 15 s and never exceeds one hour.
pub proof fn law_retry_delay_grows_and_is_capped(a: u32, b: u32)
    requires
        a <= b,
    ensures
        retry_base_ms(a) <= retry_base_ms(b),
        retry_base_ms(b) <= 3600000,
        retry_base_ms(0) == 15000,
{
    lemma_pow2_grows(a as nat, b as nat);
    assert(15000 * pow2(a as nat) <= 15000 * pow2(b as nat)) by (nonlinear_arith)
        requires
            pow2(a as nat) <= pow2(b as nat),
    ;
    assert(pow2(0) == 1);
}

/// A live configuration reports itself connected exactly when it is online.
pub proof fn law_connected_iff_online(mode: CurrentMode)
    ensures
        spec_runtime_status(mode).is_connected <==> mode == CurrentMode::Online,
        spec_runtime_status(mode).mode is Some,
        (spec_runtime_status(mode).offline_reason is Some) <==> (mode is Offline),
{
}

/// The total of the counted evaluations.
pub open spec fn total_count(evals: Seq<(MeteringKey, EvaluationData)>) -> int
    decreases evals.len(),
{
    if evals.len() == 0 {
        0
    } else {
        total_count(evals.drop_last()) + evals.last().1.count
    }
}

proof fn lemma_total_update(evals: Seq<(MeteringKey, EvaluationData)>, i: int, e: (MeteringKey, EvaluationData))
    requires
        0 <= i < evals.len(),
    ensures
        total_count(evals.update(i, e)) == total_count(evals) - evals[i].1.count + e.1.count,
    decreases evals.len(),
{
    if i < evals.len() - 1 {
        lemma_total_update(evals.drop_last(), i, e);
        assert(evals.update(i, e).drop_last() =~= evals.drop_last().update(i, e));
    } else {
        assert(evals.update(i, e).drop_last() =~= evals.drop_last());
    }
}

/// Counting an evaluation adds one to the total (unless that key's count is
/// already at its maximum) and keeps every key counted once.
pub proof fn law_counting_adds_one(evals: Seq<(MeteringKey, EvaluationData)>, k: MeteringKey, now: i64)
    requires
        distinct_keys(evals),
    ensures
        total_count(counted(evals, k, now)) == total_count(evals) + 1 || exists|i: int|
            0 <= i < evals.len() && key_view(evals[i].0) == key_view(k) && (#[trigger] evals[i]).1.count == u32::MAX,
{
    match crate::metering::key_position(evals, k) {
        Some(i) => {
            let e = (k, EvaluationData {
                count: if evals[i].1.count == u32::MAX { u32::MAX } else { (evals[i].1.count + 1) as u32 },
                last_evaluation_millis: now,
            });
            lemma_total_update(evals, i, e);
        },
        None => {
            assert(evals.push((k, EvaluationData { count: 1, last_evaluation_millis: now })).drop_last() =~= evals);
        },
    }
}

/// The position of the last feature with the given id.
pub open spec fn last_feature_position(fs: Seq<Feature>, id: Seq<char>) -> Option<int>
    decreases fs.len(),
{
    if fs.len() == 0 {
        None
    } else if fs.last().feature_id@ == id {
        Some(fs.len() - 1)
    } else {
        last_feature_position(fs.drop_last(), id)
    }
}

proof fn lemma_feature_index_follows_ids(entries: Seq<FeatureEntry>, fs: Seq<Feature>, id: Seq<char>)
    requires
        entries.len() == fs.len(),
        forall|k: int| 0 <= k < fs.len() ==> (#[trigger] entries[k]).feature_id == fs[k].feature_id,
    ensures
        feature_index(entries, id) == last_feature_position(fs, id),
    decreases fs.len(),
{
    if fs.len() > 0 {
        assert(entries.last().feature_id == fs.last().feature_id) by {
            assert(entries[entries.len() - 1].feature_id == fs[fs.len() - 1].feature_id);
        }
        assert forall|k: int| 0 <= k < fs.drop_last().len() implies (#[trigger] entries.drop_last()[k]).feature_id
            == fs.drop_last()[k].feature_id by {
            assert(entries.drop_last()[k] == entries[k]);
        }
        lemma_feature_index_follows_ids(entries.drop_last(), fs.drop_last(), id);
    }
}

/// A configuration indexed from configuration data serves, for each feature
/// id, the last feature with that id in the chosen environment (a later
/// feature replaces an earlier one with the same id), and no feature that
/// the environment does not have.
pub proof fn law_configuration_serves_last_feature(
    environment_id: Seq<char>,
    json: crate::models::ConfigurationJson,
    c: crate::configuration::Configuration,
    feature_id: Seq<char>,
)
    requires
        configuration_of(environment_id, json, Ok(c)),
    ensures
        environment_index(json.environments@, environment_id) matches Some(i) && feature_index(c.features@, feature_id)
            == last_feature_position(json.environments@[i].features@, feature_id),
{
    let i = environment_index(json.environments@, environment_id)->Some_0;
    let env = json.environments@[i];
    assert forall|k: int| 0 <= k < env.features@.len() implies (#[trigger] c.features@[k]).feature_id
        == env.features@[k].feature_id by {
        assert(crate::configuration::feature_entry_of(env.features@[k], json.segments@, c.features@[k]));
    }
    lemma_feature_index_follows_ids(c.features@, env.features@, feature_id);
}

/// Initialisation is applied once: after a successful initialisation,
/// initialising again succeeds and changes nothing.
pub proof fn law_init_applied_once(
    s0: AppConfigurationSetup,
    s1: AppConfigurationSetup,
    s2: AppConfigurationSetup,
    region: Seq<char>,
    guid: Seq<char>,
    apikey: Seq<char>,
    region2: Seq<char>,
    guid2: Seq<char>,
    apikey2: Seq<char>,
    r1: Result<(), Error>,
    r2: Result<(), Error>,
)
    requires
        init_outcome(s0, region, guid, apikey, r1, s1),
        r1 is Ok,
        init_outcome(s1, region2, guid2, apikey2, r2, s2),
    ensures
        r2 is Ok,
        s2.init_state == s1.init_state,
{
    if !crate::sdk::initialized(s0) {
        assert(crate::sdk::missing_credential(region, guid, apikey) is None);
        assert(!crate::options::blank(region));
        assert(region.len() > 0);
        assert(guid.len() > 0);
        assert(apikey.len() > 0);
    }
}

} // verus!

verus! {

// ---------------------------------------------------------------------------
// Progressive rollouts: how long a phase lasts

/// Whether `unit_ms` is the length in milliseconds of one unit of the
/// duration type: a minute is 60,000 ms, an hour 3,600,000 ms and a day
/// 86,400,000 ms.
pub open spec fn unit_length(duration_type: Seq<char>, unit_ms: int) -> bool {
    ||| duration_type == "minutes"@ && unit_ms == 60_000
    ||| duration_type == "hours"@ && unit_ms == 3_600_000
    ||| duration_type == "days"@ && unit_ms == 86_400_000
}

/// A phase of `d` minutes, hours or days that starts at `t` lasts `d`
/// minutes, hours or days: the next phase starts `d` times 60,000,
/// 3,600,000 or 86,400,000 ms later, and the schedule goes on from there.
pub proof fn law_phase_lasts_its_duration(t: int, phases: Seq<RolloutPhase>, d: u32, unit_ms: int)
    requires
        0 <= t,
        phases.len() >= 1,
        phases[0].duration == Some(d),
        phases[0].duration_type matches Some(ty) && unit_length(ty@, unit_ms),
        t + d * unit_ms <= i64::MAX,
    ensures
        schedule_from(t, phases) == match schedule_from(t + d * unit_ms, phases.skip(1)) {
            None => None,
            Some(rest) => Some(seq![(t as i64, phases[0].percentage)] + rest),
        },
{
    reveal_strlit("minutes");
    reveal_strlit("hours");
    reveal_strlit("days");
    assert("minutes"@.len() == 7 && "hours"@.len() == 5 && "days"@.len() == 4);
    let ty = phases[0].duration_type->Some_0;
    assert(unit_millis(ty@) == Some(unit_ms)) by {
        if ty@ == "hours"@ {
            assert(ty@ != "minutes"@);
        } else if ty@ == "days"@ {
            assert(ty@ != "minutes"@ && ty@ != "hours"@);
        }
    }
}

/// A phase without a duration lasts for ever: it is the last entry of the
/// schedule, whatever phases follow it.
pub proof fn law_open_phase_ends_the_schedule(t: int, phases: Seq<RolloutPhase>)
    requires
        phases.len() >= 1,
        phases[0].duration is None,
    ensures
        schedule_from(t, phases) == Some(seq![(t as i64, phases[0].percentage)]),
{
}

/// A phase with a duration whose type is none of minutes, hours and days
/// makes the schedule invalid.
pub proof fn law_unknown_unit_invalidates_the_schedule(t: int, phases: Seq<RolloutPhase>)
    requires
        phases.len() >= 1,
        phases[0].duration is Some,
        match phases[0].duration_type {
            Some(ty) => ty@ != "minutes"@ && ty@ != "hours"@ && ty@ != "days"@,
            None => true,
        },
    ensures
        schedule_from(t, phases) is None,
{
}

/// A progressive rollout of a first phase of `d` minutes, hours or days and
/// a last phase without end, starting at `start`: before the start no
/// entity is in; from the start the first phase's percentage is in force
/// for exactly `d` units, and from then on the last phase's percentage.
pub proof fn law_two_phase_rollout(config: RolloutConfiguration, start: i64, d: u32, unit_ms: int, now: i64)
    requires
        rfc3339_millis(config.start_at@) == Some(start),
        start >= 0,
        config.phases@.len() == 2,
        config.phases@[0].duration == Some(d),
        config.phases@[0].duration_type matches Some(ty) && unit_length(ty@, unit_ms),
        config.phases@[1].duration is None,
        start + d * unit_ms <= i64::MAX,
    ensures
        spec_rollout_table(config) matches Some(table) && percentage_at(table, now) == (if now < start {
            0
        } else if now < start + d * unit_ms {
            config.phases@[0].percentage
        } else {
            config.phases@[1].percentage
        }),
{
    let phases = config.phases@;
    let end = start + d * unit_ms;
    assert(d * unit_ms >= 0) by (nonlinear_arith)
        requires
            unit_ms > 0,
    {
    }
    let tail = phases.skip(1);
    assert(tail[0] == phases[1]);
    assert(schedule_from(end, tail) == Some(seq![(end as i64, phases[1].percentage)]));
    law_phase_lasts_its_duration(start as int, phases, d, unit_ms);
    let table = seq![(0i64, 0u32), (start, phases[0].percentage), (end as i64, phases[1].percentage)];
    assert(spec_rollout_table(config) == Some(table)) by {
        assert(seq![(0i64, 0u32)] + (seq![(start, phases[0].percentage)] + seq![(end as i64, phases[1].percentage)]) =~= table);
    }
    let t2 = table.drop_last();
    let t1 = t2.drop_last();
    let t0 = t1.drop_last();
    assert(t2 =~= seq![(0i64, 0u32), (start, phases[0].percentage)]);
    assert(t1 =~= seq![(0i64, 0u32)]);
    assert(t0 =~= Seq::<(i64, u32)>::empty());
    assert(entry_in_force(t0, now) is None);
    assert(entry_in_force(t1, now) == if 0 <= now { Some((0i64, 0u32)) } else { None::<(i64, u32)> });
    assert(t2.last() == (start, phases[0].percentage));
    let e2 = if start <= now { Some((start, phases[0].percentage)) } else { entry_in_force(t1, now) };
    assert(entry_in_force(t2, now) == e2);
    assert(table.last() == (end as i64, phases[1].percentage));
    assert((end as i64) as int == end);
    assert(entry_in_force(table, now) == if end <= now { Some((end as i64, phases[1].percentage)) } else { e2 });
}

} // verus!

verus! {

// ---------------------------------------------------------------------------
// Segments: an entity belongs to a segment when all its rules hold

/// An entity belongs to a segment exactly when every rule of the segment
/// holds for it; a rule that does not hold, after rules that all evaluate
/// without error, keeps the entity out.
pub proof fn law_segment_needs_every_rule(rules: Seq<Rule>, attrs: Seq<(String, Value)>)
    ensures
        segment_eval(rules, attrs) == Ok::<bool, SegmentEvaluationError>(true) <==> forall|k: int|
            0 <= k < rules.len() ==> #[trigger] rule_eval(rules[k], attrs) == Ok::<bool, SegmentEvaluationError>(true),
        forall|k: int|
            0 <= k < rules.len() && #[trigger] rule_eval(rules[k], attrs) == Ok::<bool, SegmentEvaluationError>(false)
                && (forall|j: int| 0 <= j < k ==> (#[trigger] rule_eval(rules[j], attrs)) is Ok)
                ==> segment_eval(rules, attrs) == Ok::<bool, SegmentEvaluationError>(false),
    decreases rules.len(),
{
    if rules.len() > 0 {
        let rest = rules.skip(1);
        law_segment_needs_every_rule(rest, attrs);
        assert forall|k: int| 0 < k < rules.len() implies rules[k] == #[trigger] rest[k - 1] by {}
        assert forall|k: int|
            0 <= k < rules.len() && #[trigger] rule_eval(rules[k], attrs) == Ok::<bool, SegmentEvaluationError>(false)
                && (forall|j: int| 0 <= j < k ==> (#[trigger] rule_eval(rules[j], attrs)) is Ok)
            implies segment_eval(rules, attrs) == Ok::<bool, SegmentEvaluationError>(false) by {
            if k > 0 {
                assert(rule_eval(rules[0], attrs) is Ok);
                if rule_eval(rules[0], attrs) == Ok::<bool, SegmentEvaluationError>(true) {
                    assert(rule_eval(rest[k - 1], attrs) == Ok::<bool, SegmentEvaluationError>(false));
                    assert forall|j: int| 0 <= j < k - 1 implies (#[trigger] rule_eval(rest[j], attrs)) is Ok by {
                        assert(rest[j] == rules[j + 1]);
                        assert(rule_eval(rules[j + 1], attrs) is Ok);
                    }
                }
            }
        }
        if segment_eval(rules, attrs) == Ok::<bool, SegmentEvaluationError>(true) {
            assert forall|k: int| 0 <= k < rules.len() implies #[trigger] rule_eval(rules[k], attrs)
                == Ok::<bool, SegmentEvaluationError>(true) by {
                if k > 0 {
                    assert(rule_eval(rest[k - 1], attrs) == Ok::<bool, SegmentEvaluationError>(true));
                }
            }
        }
        if forall|k: int| 0 <= k < rules.len() ==> #[trigger] rule_eval(rules[k], attrs) == Ok::<bool, SegmentEvaluationError>(true) {
            assert(rule_eval(rules[0], attrs) == Ok::<bool, SegmentEvaluationError>(true));
            assert forall|k: int| 0 <= k < rest.len() implies #[trigger] rule_eval(rest[k], attrs)
                == Ok::<bool, SegmentEvaluationError>(true) by {
                assert(rest[k] == rules[k + 1]);
                assert(rule_eval(rules[k + 1], attrs) == Ok::<bool, SegmentEvaluationError>(true));
            }
        }
    }
}

proof fn lemma_segment_lookup_in_range(segments: Seq<(String, Arc<Segment>)>, id: Seq<char>)
    ensures
        segment_lookup(segments, id) matches Some(i) ==> 0 <= i < segments.len(),
    decreases segments.len(),
{
    if segments.len() > 0 && segments[0].0@ != id {
        lemma_segment_lookup_in_range(segments.skip(1), id);
    }
}

/// A targeting rule applies to an entity only through a segment whose
/// rules all hold for the entity: when targeting finds a rule and a segment,
/// every rule of that segment holds.
pub proof fn law_targeted_segment_holds_for_entity(
    targets: Seq<(usize, String)>,
    segments: Seq<(String, Arc<Segment>)>,
    attrs: Seq<(String, Value)>,
)
    requires
        segments.len() <= usize::MAX,
    ensures
        find_target(targets, segments, attrs) matches Ok(Some((ri, si))) ==> si < segments.len() && forall|k: int|
            0 <= k < segments[si as int].1.rules@.len() ==> #[trigger] rule_eval(segments[si as int].1.rules@[k], attrs)
                == Ok::<bool, SegmentEvaluationError>(true),
    decreases targets.len(),
{
    if targets.len() > 0 {
        let (ri, id) = targets[0];
        lemma_segment_lookup_in_range(segments, id@);
        match segment_lookup(segments, id@) {
            None => {},
            Some(si) => {
                law_segment_needs_every_rule(segments[si].1.rules@, attrs);
                law_targeted_segment_holds_for_entity(targets.skip(1), segments, attrs);
            },
        }
    }
}

/// A feature evaluation reports a matched segment only for a segment whose
/// rules all hold for the entity: the segment's value (or its rollout's
/// refusal) is never given on the strength of some of its rules alone.
pub proof fn law_feature_segment_match_needs_every_rule(
    f: FeatureSnapshot,
    entity_id: Seq<char>,
    attrs: Seq<(String, Value)>,
    now: i64,
    r: Result<(FeatureEvaluationResult, Option<usize>), Error>,
)
    requires
        f.segment_rules.segments@.len() <= usize::MAX,
        feature_evaluation(f, entity_id, attrs, now, r),
    ensures
        r matches Ok((res, Some(si))) ==> si < f.segment_rules.segments@.len() && forall|k: int|
            0 <= k < f.segment_rules.segments@[si as int].1.rules@.len() ==> #[trigger] rule_eval(
                f.segment_rules.segments@[si as int].1.rules@[k],
                attrs,
            ) == Ok::<bool, SegmentEvaluationError>(true),
{
    law_targeted_segment_holds_for_entity(flat_targets(f.segment_rules.segment_rules@), f.segment_rules.segments@, attrs);
}

// ---------------------------------------------------------------------------
// Values: a number converts to the same number

/// The integer a configuration value is, if it is one.
pub open spec fn config_integer(c: ConfigValue) -> Option<int> {
    match c {
        ConfigValue::PosInt(n) => Some(n as int),
        ConfigValue::NegInt(n) => Some(n as int),
        _ => None,
    }
}

/// The integer a value handed to users is, if it is one.
pub open spec fn value_integer(v: Value) -> Option<int> {
    match v {
        Value::Int64(n) => Some(n as int),
        Value::UInt64(n) => Some(n as int),
        _ => None,
    }
}

/// Converting a configuration value to its declared type keeps what it
/// denotes: a numeric value becomes the same integer or the same float (the
/// same 64 bits), a boolean the same boolean, a string the same string; any
/// other value of the wrong kind is refused.
pub proof fn law_conversion_keeps_the_value(c: ConfigValue)
    ensures
        config_integer(c) matches Some(n) ==> spec_value_of(ValueType::Numeric, c) matches Some(v) && value_integer(v) == Some(n),
        c matches ConfigValue::Float(b) ==> spec_value_of(ValueType::Numeric, c) == Some(Value::Float64Bits(b)),
        spec_value_of(ValueType::Numeric, c) is Some ==> config_integer(c) is Some || c is Float,
        c matches ConfigValue::Bool(b) ==> spec_value_of(ValueType::Boolean, c) == Some(Value::Boolean(b)),
        spec_value_of(ValueType::Boolean, c) is Some ==> c is Bool,
        c matches ConfigValue::Str(s) ==> spec_value_of(ValueType::String, c) == Some(Value::String(s))
            && spec_value_of(ValueType::SecretRef, c) == Some(Value::String(s)),
        spec_value_of(ValueType::String, c) is Some ==> c is Str,
{
}

/// A feature looked up in a configuration carries its enabled and disabled
/// values converted to its type: a numeric feature whose value is a float
/// hands out that float.
pub proof fn law_feature_lookup_keeps_float_values(c: Configuration, feature_id: Seq<char>, r: Result<FeatureSnapshot, Error>, i: int)
    requires
        feature_result(c, feature_id, r),
        feature_index(c.features@, feature_id) == Some(i),
        c.features@[i].kind == ValueType::Numeric,
        c.features@[i].enabled_value is Float,
        c.features@[i].disabled_value is Float,
    ensures
        r matches Ok(s) && s.enabled_value == Value::Float64Bits(c.features@[i].enabled_value->Float_0)
            && s.disabled_value == Value::Float64Bits(c.features@[i].disabled_value->Float_0),
{
}

// ---------------------------------------------------------------------------
// The synchronisation loop: waiting before reconnecting

/// After a wait before reconnecting that was not ended by termination, the
/// loop opens the websocket again. If the internet was found restored
/// during the wait, the count of failed reconnections starts again from
/// zero, so a further failure waits the first delay again (15 s before
/// jitter); otherwise the count grows by one (up to its maximum), so a
/// further failure waits longer. The count of failed fetches is kept.
pub proof fn law_restored_internet_resets_reconnect_backoff(s: WorkerState, internet_restored: bool, err: NetworkError)
    requires
        spec_recoverable(err) is Ok,
    ensures
        ({
            let first = spec_worker_step(s, WorkerEvent::RetryWaitEnded { terminated: false, internet_restored });
            let next = first->Ok_0.0;
            let again = spec_worker_step(next, WorkerEvent::WebsocketFailed(err));
            &&& first is Ok
            &&& first->Ok_0.1 == WorkerAction::OpenWebsocket
            &&& next.config_refresh_retry_attempt == s.config_refresh_retry_attempt
            &&& internet_restored ==> next.websocket_retry_attempt == 0
            &&& !internet_restored && s.websocket_retry_attempt < u32::MAX ==> next.websocket_retry_attempt
                == s.websocket_retry_attempt + 1
            &&& !internet_restored && s.websocket_retry_attempt == u32::MAX ==> next.websocket_retry_attempt == u32::MAX
            &&& again is Ok
            &&& again->Ok_0.1 is GoOfflineAndWait
            &&& internet_restored ==> retry_base_ms(again->Ok_0.1->GoOfflineAndWait_attempt) == 15_000
            &&& !internet_restored ==> retry_base_ms(again->Ok_0.1->GoOfflineAndWait_attempt) >= retry_base_ms(
                s.websocket_retry_attempt,
            )
        }),
{
    if !internet_restored && s.websocket_retry_attempt < u32::MAX {
        law_retry_delay_grows_and_is_capped(s.websocket_retry_attempt, (s.websocket_retry_attempt + 1) as u32);
    }
}

/// The other steps of the synchronisation loop: an opened websocket clears
/// both failure counts and announces the connection; a fetched
/// configuration clears the count of failed fetches and reads messages; a
/// failed fetch waits after as many failed fetches as counted; a wait
/// before fetching again that is not ended by termination counts one more
/// failed fetch and reconnects; a requested termination, or a wait ended by
/// it, stops the loop with the counts unchanged.
pub proof fn law_worker_counts_failures(s: WorkerState)
    ensures
        spec_worker_step(s, WorkerEvent::WebsocketOpened) == Ok::<(WorkerState, WorkerAction), LiveError>(
            (WorkerState { websocket_retry_attempt: 0, config_refresh_retry_attempt: 0 }, WorkerAction::AnnounceConnected),
        ),
        spec_worker_step(s, WorkerEvent::ConfigurationFetched(Ok(true))) == Ok::<(WorkerState, WorkerAction), LiveError>(
            (WorkerState { websocket_retry_attempt: s.websocket_retry_attempt, config_refresh_retry_attempt: 0 }, WorkerAction::ReadMessage),
        ),
        spec_worker_step(s, WorkerEvent::ConfigurationFetched(Ok(false))) == Ok::<(WorkerState, WorkerAction), LiveError>(
            (s, WorkerAction::WaitBeforeRefresh { attempt: s.config_refresh_retry_attempt }),
        ),
        s.config_refresh_retry_attempt < u32::MAX ==> spec_worker_step(s, WorkerEvent::RefreshWaitEnded { terminated: false })
            == Ok::<(WorkerState, WorkerAction), LiveError>(
            (
                WorkerState {
                    websocket_retry_attempt: s.websocket_retry_attempt,
                    config_refresh_retry_attempt: (s.config_refresh_retry_attempt + 1) as u32,
                },
                WorkerAction::OpenWebsocket,
            ),
        ),
        spec_worker_step(s, WorkerEvent::TerminationRequested) == Ok::<(WorkerState, WorkerAction), LiveError>((s, WorkerAction::Stop)),
        spec_worker_step(s, WorkerEvent::RefreshWaitEnded { terminated: true }) == Ok::<(WorkerState, WorkerAction), LiveError>(
            (s, WorkerAction::Stop),
        ),
        forall|restored: bool| spec_worker_step(s, WorkerEvent::RetryWaitEnded { terminated: true, internet_restored: restored })
            == Ok::<(WorkerState, WorkerAction), LiveError>((s, WorkerAction::Stop)),
        spec_worker_step(s, WorkerEvent::MessageHandled(Ok(false))) == Ok::<(WorkerState, WorkerAction), LiveError>(
            (s, WorkerAction::WaitBeforeReconnect { attempt: s.websocket_retry_attempt }),
        ),
{
}

proof fn lemma_digit_value(k: nat)
    requires
        k < 10,
    ensures
        is_digit(spec_digit(k)),
        spec_digit(k) as int - '0' as int == k,
        spec_digit(k) != '-' && spec_digit(k) != '+',
{
}

proof fn lemma_decimal_reads_back(n: nat)
    ensures
        decimal(n).len() > 0,
        all_digits(decimal(n)),
        digits_value(decimal(n)) == n,
    decreases n,
{
    if n < 10 {
        lemma_digit_value(n);
        assert(decimal(n).drop_last() =~= Seq::<char>::empty());
        assert(digits_value(decimal(n)) == digits_value(decimal(n).drop_last()) * 10 + ((decimal(n).last() as int - '0' as int) as nat));
    } else {
        lemma_decimal_reads_back(n / 10);
        lemma_digit_value(n % 10);
        let d = decimal(n);
        assert(d.drop_last() == decimal(n / 10));
        assert(d.last() == spec_digit(n % 10));
        assert forall|i: int| 0 <= i < d.len() implies is_digit(#[trigger] d[i]) by {
            if i < d.len() - 1 {
                assert(d[i] == decimal(n / 10)[i]);
            }
        }
        assert(n == (n / 10) * 10 + n % 10) by (nonlinear_arith);
        assert(digits_value(d) == digits_value(d.drop_last()) * 10 + ((d.last() as int - '0' as int) as nat));
    }
}

/// A rule value written as a decimal integer reads back as that integer.
proof fn lemma_signed_decimal_reads_back(y: int)
    ensures
        spec_parse_int(signed_decimal(y)) == Some(y),
{
    if y < 0 {
        let m = (-y) as nat;
        lemma_decimal_reads_back(m);
        let v = signed_decimal(y);
        assert(v == "-"@ + decimal(m));
        reveal_strlit("-");
        assert(v[0] == '-');
        assert(int_digits(v) =~= decimal(m));
    } else {
        let m = y as nat;
        lemma_decimal_reads_back(m);
        let v = decimal(m);
        assert(is_digit(v[0]));
        assert(int_digits(v) == v);
    }
}

/// What the operators of a segment rule mean for an attribute value `a` and
/// a rule value `v`: for strings, `is` is equality, `startsWith`,
/// `endsWith` and `contains` test for a prefix, a suffix and a substring;
/// for booleans, `is` compares with `"true"` or `"false"`; for integers,
/// `is` holds for the integer's decimal notation, and the four comparisons
/// against a rule value that is the decimal notation of `y` compare the
/// attribute with `y`.
pub proof fn law_rule_operators_mean_what_they_say(a: Value, v: Seq<char>, y: int)
    ensures
        a matches Value::String(s) ==> (op_holds("is"@, a, v) <==> s@ == v),
        a matches Value::String(s) ==> (op_holds("startsWith"@, a, v) <==> v.len() <= s@.len() && s@.subrange(0, v.len() as int) == v),
        a matches Value::String(s) ==> (op_holds("endsWith"@, a, v) <==> v.len() <= s@.len() && s@.subrange(
            s@.len() - v.len(),
            s@.len() as int,
        ) == v),
        a matches Value::String(s) ==> (op_holds("contains"@, a, v) <==> exists|i: int|
            0 <= i && i + v.len() <= s@.len() && #[trigger] s@.subrange(i, i + v.len()) == v),
        a matches Value::Boolean(b) ==> (op_holds("is"@, a, v) <==> v == (if b { "true"@ } else { "false"@ })),
        integer_of(a) matches Some(x) ==> op_holds("is"@, a, signed_decimal(x)),
        integer_of(a) matches Some(x) ==> op_holds("greaterThan"@, a, signed_decimal(y)) == (x > y),
        integer_of(a) matches Some(x) ==> op_holds("lesserThan"@, a, signed_decimal(y)) == (x < y),
        integer_of(a) matches Some(x) ==> op_holds("greaterThanEquals"@, a, signed_decimal(y)) == (x >= y),
        integer_of(a) matches Some(x) ==> op_holds("lesserThanEquals"@, a, signed_decimal(y)) == (x <= y),
{
    reveal_strlit("is");
    reveal_strlit("contains");
    reveal_strlit("startsWith");
    reveal_strlit("endsWith");
    reveal_strlit("greaterThan");
    reveal_strlit("lesserThan");
    reveal_strlit("greaterThanEquals");
    reveal_strlit("lesserThanEquals");
    lemma_signed_decimal_reads_back(y);
    assert("is"@.len() == 2 && "contains"@.len() == 8 && "startsWith"@.len() == 10 && "endsWith"@.len() == 8);
    assert("greaterThan"@.len() == 11 && "lesserThan"@.len() == 10 && "greaterThanEquals"@.len() == 17
        && "lesserThanEquals"@.len() == 16);
    assert("contains"@ != "endsWith"@) by {
        assert("contains"@[0] != "endsWith"@[0]);
    }
    assert("startsWith"@ != "lesserThan"@) by {
        assert("startsWith"@[0] != "lesserThan"@[0]);
    }
    if let Value::UInt64(n) = a {
        assert(signed_decimal(n as int) == decimal(n as nat));
    }
}

} // verus!
