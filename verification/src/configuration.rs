use vstd::prelude::*;
use vstd::string::*;
use std::sync::Arc;

use crate::config_value::{spec_type_label, spec_value_of, is_conversion_error, value_of, ConfigValue, ValueType};
use crate::errors::{ConfigurationDataError, Error};
use crate::feature_snapshot::{table_for, FeatureSnapshot};
use crate::models::{ConfigurationJson, Environment, Feature, Property, RolloutConfiguration, Segment, SegmentRule, Segments};
use crate::property_snapshot::PropertySnapshot;
use crate::secret_property::SecretPropertySnapshot;
use crate::value::Value;
use crate::segment_evaluation::{chars_equal, flat_targets, flat_targets_exec, group_ids, TargetingRules};
use crate::text::chars_of;

verus! {

/// Shares a reference-counted value (`Arc::clone`): the copy points to the
/// same value.
#[verifier::external_body]
pub(crate) fn share<T>(a: &Arc<T>) -> (r: Arc<T>)
    ensures
        r == *a,
{
    Arc::clone(a)
}

// ---------------------------------------------------------------------------
// Ordering of targeting rules

/// The position at which a rule of the given order is inserted into a list
/// of rules: after every rule whose order is not greater.
pub open spec fn insert_pos(s: Seq<SegmentRule>, order: u32) -> int
    decreases s.len(),
{
    if s.len() == 0 {
        0
    } else if s[0].order > order {
        0
    } else {
        1 + insert_pos(s.skip(1), order)
    }
}

/// The targeting rules in ascending order of their `order`; rules of equal
/// order keep their relative position.
pub open spec fn sort_rules(s: Seq<SegmentRule>) -> Seq<SegmentRule>
    decreases s.len(),
{
    if s.len() == 0 {
        s
    } else {
        let prev = sort_rules(s.drop_last());
        prev.insert(insert_pos(prev, s.last().order), s.last())
    }
}

/// Whether the rules are in ascending order of their `order`.
pub open spec fn sorted_by_order(s: Seq<SegmentRule>) -> bool {
    forall|i: int, j: int| 0 <= i <= j < s.len() ==> s[i].order <= s[j].order
}

proof fn lemma_insert_pos_bounds(s: Seq<SegmentRule>, order: u32)
    ensures
        0 <= insert_pos(s, order) <= s.len(),
        forall|k: int| 0 <= k < insert_pos(s, order) ==> s[k].order <= order,
        insert_pos(s, order) < s.len() ==> s[insert_pos(s, order)].order > order,
    decreases s.len(),
{
    if s.len() > 0 && s[0].order <= order {
        lemma_insert_pos_bounds(s.skip(1), order);
        assert forall|k: int| 0 <= k < insert_pos(s, order) implies s[k].order <= order by {
            if k > 0 {
                assert(s[k] == s.skip(1)[k - 1]);
            }
        }
    }
}

proof fn lemma_insert_pos_step(s: Seq<SegmentRule>, j: int, order: u32)
    requires
        0 <= j < s.len(),
        s[j].order <= order,
    ensures
        insert_pos(s.skip(j), order) == 1 + insert_pos(s.skip(j + 1), order),
{
    assert(s.skip(j).skip(1) =~= s.skip(j + 1));
}

/// Sorting leaves the rules in ascending order and keeps their number.
pub proof fn law_sorted_rules_ascend(s: Seq<SegmentRule>)
    ensures
        sorted_by_order(sort_rules(s)),
        sort_rules(s).len() == s.len(),
    decreases s.len(),
{
    if s.len() > 0 {
        let prev = sort_rules(s.drop_last());
        law_sorted_rules_ascend(s.drop_last());
        let x = s.last();
        let p = insert_pos(prev, x.order);
        lemma_insert_pos_bounds(prev, x.order);
        let r = prev.insert(p, x);
        assert forall|i: int, j: int| 0 <= i <= j < r.len() implies r[i].order <= r[j].order by {
            if j < p {
            } else if j == p {
                if i < p {
                }
            } else {
                if i < p {
                    assert(r[j] == prev[j - 1]);
                } else if i == p {
                    assert(prev[p].order > x.order);
                    assert(r[j] == prev[j - 1]);
                } else {
                    assert(r[i] == prev[i - 1]);
                    assert(r[j] == prev[j - 1]);
                }
            }
        }
    }
}

/// Sorting keeps every rule: the result holds the same rules, each as often.
pub proof fn law_sorting_keeps_every_rule(s: Seq<SegmentRule>)
    ensures
        sort_rules(s).to_multiset() == s.to_multiset(),
    decreases s.len(),
{
    broadcast use vstd::seq_lib::group_to_multiset_ensures;
    if s.len() > 0 {
        let prev = sort_rules(s.drop_last());
        law_sorting_keeps_every_rule(s.drop_last());
        law_sorted_rules_ascend(s.drop_last());
        let x = s.last();
        let p = insert_pos(prev, x.order);
        lemma_insert_pos_bounds(prev, x.order);
        vstd::seq_lib::lemma_seq_union_to_multiset_commutative(prev.take(p), prev.skip(p));
        assert(prev.insert(p, x) =~= prev.take(p) + seq![x] + prev.skip(p));
        assert(prev =~= prev.take(p) + prev.skip(p));
        vstd::seq_lib::lemma_multiset_commutative(prev.take(p), seq![x] + prev.skip(p));
        vstd::seq_lib::lemma_multiset_commutative(seq![x], prev.skip(p));
        vstd::seq_lib::lemma_multiset_commutative(prev.take(p), prev.skip(p));
        vstd::seq_lib::lemma_multiset_commutative(prev.take(p) + seq![x], prev.skip(p));
        vstd::seq_lib::lemma_multiset_commutative(prev.take(p), seq![x]);
        assert(s =~= s.drop_last().push(x));
    }
}

fn insert_position(sorted: &Vec<SegmentRule>, order: u32) -> (p: usize)
    ensures
        p == insert_pos(sorted@, order),
{
    let n = sorted.len();
    let mut j: usize = 0;
    assert(sorted@.skip(0) =~= sorted@);
    while j < n && sorted[j].order <= order
        invariant
            n == sorted@.len(),
            j <= n,
            insert_pos(sorted@, order) == j + insert_pos(sorted@.skip(j as int), order),
        decreases n - j,
    {
        proof {
            lemma_insert_pos_step(sorted@, j as int, order);
        }
        j = j + 1;
    }
    j
}

/// Sorts targeting rules by their `order`, keeping rules of equal order in
/// their relative position.
pub fn sort_by_order(rules: Vec<SegmentRule>) -> (r: Vec<SegmentRule>)
    ensures
        r@ == sort_rules(rules@),
{
    let ghost orig = rules@;
    let mut rest = rules;
    let mut sorted: Vec<SegmentRule> = Vec::new();
    let n = rest.len();
    let mut i: usize = 0;
    assert(orig.subrange(0, 0) =~= Seq::<SegmentRule>::empty());
    while i < n
        invariant
            n == orig.len(),
            i <= n,
            rest@ == orig.subrange(i as int, n as int),
            sorted@ == sort_rules(orig.subrange(0, i as int)),
        decreases n - i,
    {
        let x = rest.remove(0);
        let p = insert_position(&sorted, x.order);
        proof {
            lemma_insert_pos_bounds(sorted@, x.order);
            assert(orig.subrange(0, i as int + 1).drop_last() =~= orig.subrange(0, i as int));
            assert(orig.subrange(0, i as int + 1).last() == x);
        }
        sorted.insert(p, x);
        i = i + 1;
        assert(rest@ =~= orig.subrange(i as int, n as int));
    }
    assert(orig.subrange(0, n as int) =~= orig);
    sorted
}

// ---------------------------------------------------------------------------
// Segments referenced by targeting rules

/// Whether some targeting rule targets the segment with the given id.
pub open spec fn referenced(rules: Seq<SegmentRule>, id: Seq<char>) -> bool {
    exists|k: int| 0 <= k < flat_targets(rules).len() && (#[trigger] flat_targets(rules)[k]).1@ == id
}

/// The position of the first entry keyed by `id`.
pub open spec fn key_index(entries: Seq<(String, Segment)>, id: Seq<char>) -> Option<int>
    decreases entries.len(),
{
    if entries.len() == 0 {
        None
    } else {
        match key_index(entries.drop_last(), id) {
            Some(i) => Some(i),
            None => if entries.last().0@ == id { Some(entries.len() - 1) } else { None },
        }
    }
}

/// Adds a segment under its id, replacing an entry with the same id.
pub open spec fn upsert_segment(entries: Seq<(String, Segment)>, s: Segment) -> Seq<(String, Segment)> {
    match key_index(entries, s.segment_id@) {
        Some(i) => entries.update(i, (s.segment_id, s)),
        None => entries.push((s.segment_id, s)),
    }
}

/// The segments targeted by the rules, keyed by id; of several segments with
/// one id the last one counts.
pub open spec fn referenced_segments(all: Seq<Segment>, rules: Seq<SegmentRule>) -> Seq<(String, Segment)>
    decreases all.len(),
{
    if all.len() == 0 {
        Seq::empty()
    } else {
        let prev = referenced_segments(all.drop_last(), rules);
        if referenced(rules, all.last().segment_id@) {
            upsert_segment(prev, all.last())
        } else {
            prev
        }
    }
}

/// Entries of shared segments seen as entries of segments.
pub open spec fn unshared(entries: Seq<(String, Arc<Segment>)>) -> Seq<(String, Segment)> {
    entries.map_values(|p: (String, Arc<Segment>)| (p.0, *p.1))
}

fn is_referenced(targets: &Vec<(usize, String)>, id: &String) -> (r: bool)
    ensures
        r == exists|k: int| 0 <= k < targets@.len() && (#[trigger] targets@[k]).1@ == id@,
{
    let n = targets.len();
    let mut k: usize = 0;
    while k < n
        invariant
            n == targets@.len(),
            k <= n,
            forall|m: int| 0 <= m < k ==> (#[trigger] targets@[m]).1@ != id@,
        decreases n - k,
    {
        if targets[k].1 == *id {
            assert(targets@[k as int].1@ == id@);
            return true;
        }
        k = k + 1;
    }
    false
}

proof fn lemma_key_index_found(entries: Seq<(String, Segment)>, id: Seq<char>, i: int)
    requires
        0 <= i < entries.len(),
        entries[i].0@ == id,
        forall|m: int| 0 <= m < i ==> (#[trigger] entries[m]).0@ != id,
    ensures
        key_index(entries, id) == Some(i),
    decreases entries.len(),
{
    if i < entries.len() - 1 {
        lemma_key_index_found(entries.drop_last(), id, i);
    } else {
        lemma_key_index_absent(entries.drop_last(), id);
    }
}

proof fn lemma_key_index_absent(entries: Seq<(String, Segment)>, id: Seq<char>)
    requires
        forall|m: int| 0 <= m < entries.len() ==> (#[trigger] entries[m]).0@ != id,
    ensures
        key_index(entries, id) is None,
    decreases entries.len(),
{
    if entries.len() > 0 {
        lemma_key_index_absent(entries.drop_last(), id);
    }
}

fn upsert_shared(entries: &mut Vec<(String, Arc<Segment>)>, seg: &Arc<Segment>)
    ensures
        unshared(final(entries)@) == upsert_segment(unshared(old(entries)@), **seg),
{
    let n = entries.len();
    let mut i: usize = 0;
    while i < n
        invariant
            n == entries@.len(),
            entries@ == old(entries)@,
            i <= n,
            forall|m: int| 0 <= m < i ==> (#[trigger] unshared(entries@)[m]).0@ != seg.segment_id@,
        decreases n - i,
    {
        if entries[i].0 == seg.segment_id {
            proof {
                lemma_key_index_found(unshared(entries@), seg.segment_id@, i as int);
            }
            let ghost before = entries@;
            entries.set(i, (seg.segment_id.clone(), share(seg)));
            assert(unshared(entries@) =~= unshared(before).update(i as int, (seg.segment_id, **seg)));
            return;
        }
        i = i + 1;
    }
    proof {
        lemma_key_index_absent(unshared(entries@), seg.segment_id@);
    }
    let ghost before = entries@;
    entries.push((seg.segment_id.clone(), share(seg)));
    assert(unshared(entries@) =~= unshared(before).push((seg.segment_id, **seg)));
}

/// The segments (shared) of the configuration that the rules target,
/// keyed by id; of several segments with one id the last one counts.
pub fn get_segments_for_segment_rules(all: &Vec<Arc<Segment>>, rules: &Vec<SegmentRule>) -> (r: Vec<(String, Arc<Segment>)>)
    ensures
        unshared(r@) == referenced_segments(all@.map_values(|a: Arc<Segment>| *a), rules@),
{
    let ghost plain = all@.map_values(|a: Arc<Segment>| *a);
    let targets = flat_targets_exec(rules.as_slice());
    let mut r: Vec<(String, Arc<Segment>)> = Vec::new();
    let n = all.len();
    let mut i: usize = 0;
    assert(unshared(r@) =~= Seq::<(String, Segment)>::empty());
    assert(plain.subrange(0, 0) =~= Seq::<Segment>::empty());
    while i < n
        invariant
            n == all@.len(),
            i <= n,
            plain == all@.map_values(|a: Arc<Segment>| *a),
            targets@ == flat_targets(rules@),
            unshared(r@) == referenced_segments(plain.subrange(0, i as int), rules@),
        decreases n - i,
    {
        let seg = &all[i];
        proof {
            assert(plain.subrange(0, i as int + 1).drop_last() =~= plain.subrange(0, i as int));
            assert(plain.subrange(0, i as int + 1).last() == **seg);
        }
        if is_referenced(&targets, &seg.segment_id) {
            upsert_shared(&mut r, seg);
        }
        i = i + 1;
    }
    assert(plain.subrange(0, n as int) =~= plain);
    r
}

} // verus!

verus! {

// ---------------------------------------------------------------------------
// The configuration of one environment

/// A feature of the configuration, with its targeting rules in order and the
/// segments they target.
#[derive(Debug)]
pub struct FeatureEntry {
    pub name: String,
    pub feature_id: String,
    pub kind: ValueType,
    pub format: Option<String>,
    pub enabled_value: ConfigValue,
    pub disabled_value: ConfigValue,
    pub enabled: bool,
    pub rollout_percentage: u32,
    pub rollout_type: Option<String>,
    pub rollout_configuration: Option<Arc<RolloutConfiguration>>,
    pub targeting: Arc<TargetingRules>,
}

/// A property of the configuration, with its targeting rules in order and
/// the segments they target.
#[derive(Debug)]
pub struct PropertyEntry {
    pub name: String,
    pub property_id: String,
    pub kind: ValueType,
    pub tags: Option<String>,
    pub format: Option<String>,
    pub value: ConfigValue,
    pub targeting: Arc<TargetingRules>,
}

/// The data needed to evaluate the features and properties of one
/// environment.
#[derive(Debug)]
pub struct Configuration {
    pub features: Vec<FeatureEntry>,
    pub properties: Vec<PropertyEntry>,
}

/// The segments of a configuration, unshared.
pub open spec fn plain_segments(all: Seq<Arc<Segment>>) -> Seq<Segment> {
    all.map_values(|a: Arc<Segment>| *a)
}

/// Whether some targeting rule targets a segment with the given id.
pub open spec fn targets_segment(rules: Seq<SegmentRule>, id: Seq<char>) -> bool {
    exists|i: int, g: int, k: int|
        0 <= i < rules.len() && 0 <= g < rules[i].rules@.len() && 0 <= k < rules[i].rules@[g].segments@.len()
            && (#[trigger] rules[i].rules@[g].segments@[k])@ == id
}

/// Whether the configuration holds a segment with the given id.
pub open spec fn has_segment(segments: Seq<Segment>, id: Seq<char>) -> bool {
    exists|j: int| 0 <= j < segments.len() && (#[trigger] segments[j].segment_id)@ == id
}

/// Whether every segment that the rules target is in the configuration.
pub open spec fn integrity_ok(rules: Seq<SegmentRule>, segments: Seq<Segment>) -> bool {
    forall|id: Seq<char>| #[trigger] targets_segment(rules, id) ==> has_segment(segments, id)
}

/// Whether `t` holds the rules in order, the segments they target and the
/// declared type.
pub open spec fn targeting_of(rules: Seq<SegmentRule>, segments: Seq<Segment>, kind: ValueType, t: TargetingRules) -> bool {
    &&& t.segment_rules@ == sort_rules(rules)
    &&& unshared(t.segments@) == referenced_segments(segments, sort_rules(rules))
    &&& t.kind == kind
}

/// Whether `e` is the entry of feature `f`.
pub open spec fn feature_entry_of(f: Feature, segments: Seq<Segment>, e: FeatureEntry) -> bool {
    &&& e.name == f.name
    &&& e.feature_id == f.feature_id
    &&& e.kind == f.kind
    &&& e.format == f.format
    &&& e.enabled_value == f.enabled_value
    &&& e.disabled_value == f.disabled_value
    &&& e.enabled == f.enabled
    &&& e.rollout_percentage == f.rollout_percentage
    &&& e.rollout_type == f.rollout_type
    &&& match f.rollout_configuration {
        Some(c) => e.rollout_configuration matches Some(a) && *a == c,
        None => e.rollout_configuration is None,
    }
    &&& targeting_of(f.segment_rules@, segments, f.kind, *e.targeting)
}

/// Whether `e` is the entry of property `p`.
pub open spec fn property_entry_of(p: Property, segments: Seq<Segment>, e: PropertyEntry) -> bool {
    &&& e.name == p.name
    &&& e.property_id == p.property_id
    &&& e.kind == p.kind
    &&& e.tags == p.tags
    &&& e.format == p.format
    &&& e.value == p.value
    &&& targeting_of(p.segment_rules@, segments, p.kind, *e.targeting)
}

/// The position of the first feature whose targeted segments are not all known.
pub open spec fn first_broken_feature(fs: Seq<Feature>, segments: Seq<Segment>) -> Option<int>
    decreases fs.len(),
{
    if fs.len() == 0 {
        None
    } else {
        match first_broken_feature(fs.drop_last(), segments) {
            Some(j) => Some(j),
            None => if integrity_ok(fs.last().segment_rules@, segments) { None } else { Some(fs.len() - 1) },
        }
    }
}

/// The position of the first property whose targeted segments are not all known.
pub open spec fn first_broken_property(ps: Seq<Property>, segments: Seq<Segment>) -> Option<int>
    decreases ps.len(),
{
    if ps.len() == 0 {
        None
    } else {
        match first_broken_property(ps.drop_last(), segments) {
            Some(j) => Some(j),
            None => if integrity_ok(ps.last().segment_rules@, segments) { None } else { Some(ps.len() - 1) },
        }
    }
}

/// The position of the first environment with the given id.
pub open spec fn environment_index(envs: Seq<Environment>, id: Seq<char>) -> Option<int>
    decreases envs.len(),
{
    if envs.len() == 0 {
        None
    } else {
        match environment_index(envs.drop_last(), id) {
            Some(j) => Some(j),
            None => if envs.last().environment_id@ == id { Some(envs.len() - 1) } else { None },
        }
    }
}

/// Whether `r` is what indexing the configuration data for an environment gives.
pub open spec fn configuration_of(environment_id: Seq<char>, json: ConfigurationJson, r: Result<Configuration, Error>) -> bool {
    match environment_index(json.environments@, environment_id) {
        None => r matches Err(Error::ConfigurationDataError(ConfigurationDataError::EnvironmentNotFound(id)))
            && id@ == environment_id,
        Some(i) => {
            let env = json.environments@[i];
            let segs = json.segments@;
            match first_broken_feature(env.features@, segs) {
                Some(j) => r == Err::<Configuration, Error>(
                    Error::ConfigurationDataError(ConfigurationDataError::MissingSegments(env.features@[j].feature_id)),
                ),
                None => match first_broken_property(env.properties@, segs) {
                    Some(j) => r == Err::<Configuration, Error>(
                        Error::ConfigurationDataError(
                            ConfigurationDataError::MissingSegments(env.properties@[j].property_id),
                        ),
                    ),
                    None => r matches Ok(c) && c.features@.len() == env.features@.len()
                        && c.properties@.len() == env.properties@.len()
                        && (forall|k: int| 0 <= k < c.features@.len() ==> #[trigger] feature_entry_of(env.features@[k], segs, c.features@[k]))
                        && (forall|k: int| 0 <= k < c.properties@.len() ==> #[trigger] property_entry_of(env.properties@[k], segs, c.properties@[k])),
                },
            }
        },
    }
}

fn share_configuration(c: &Option<Arc<RolloutConfiguration>>) -> (r: Option<Arc<RolloutConfiguration>>)
    ensures
        r == *c,
{
    match c {
        Some(a) => Some(share(a)),
        None => None,
    }
}

fn missing_segments(id: String) -> (e: Error)
    ensures
        e == Error::ConfigurationDataError(ConfigurationDataError::MissingSegments(id)),
{
    Error::ConfigurationDataError(ConfigurationDataError::MissingSegments(id))
}

proof fn lemma_group_ids_member(gs: Seq<Segments>, id: Seq<char>)
    ensures
        (exists|k: int| 0 <= k < group_ids(gs).len() && (#[trigger] group_ids(gs)[k])@ == id)
            <==> (exists|g: int, k: int|
            0 <= g < gs.len() && 0 <= k < gs[g].segments@.len() && (#[trigger] gs[g].segments@[k])@ == id),
    decreases gs.len(),
{
    if gs.len() > 0 {
        let init = gs.drop_last();
        lemma_group_ids_member(init, id);
        let prev = group_ids(init);
        let last = gs.last().segments@;
        let all = group_ids(gs);
        assert(all == prev + last);
        if exists|k: int| 0 <= k < all.len() && (#[trigger] all[k])@ == id {
            let k = choose|k: int| 0 <= k < all.len() && (#[trigger] all[k])@ == id;
            if k < prev.len() {
                assert(all[k] == prev[k]);
                assert(exists|k2: int| 0 <= k2 < prev.len() && (#[trigger] prev[k2])@ == id);
                let (g, k2) = choose|g: int, k2: int|
                    0 <= g < init.len() && 0 <= k2 < init[g].segments@.len() && (#[trigger] init[g].segments@[k2])@ == id;
                assert(gs[g] == init[g]);
                assert(gs[g].segments@[k2]@ == id);
            } else {
                assert(all[k] == last[k - prev.len()]);
                assert(gs[gs.len() - 1].segments@[k - prev.len()]@ == id);
            }
        }
        if exists|g: int, k: int|
            0 <= g < gs.len() && 0 <= k < gs[g].segments@.len() && (#[trigger] gs[g].segments@[k])@ == id {
            let (g, k) = choose|g: int, k: int|
                0 <= g < gs.len() && 0 <= k < gs[g].segments@.len() && (#[trigger] gs[g].segments@[k])@ == id;
            if g < gs.len() - 1 {
                assert(init[g] == gs[g]);
                assert(init[g].segments@[k]@ == id);
                let k2 = choose|k2: int| 0 <= k2 < prev.len() && (#[trigger] prev[k2])@ == id;
                assert(all[k2] == prev[k2]);
            } else {
                assert(all[prev.len() + k] == last[k]);
                assert(all[prev.len() + k]@ == id);
            }
        }
    }
}

/// The segment ids listed by the targeting rules are the ids they target.
proof fn lemma_referenced_targets(rules: Seq<SegmentRule>, id: Seq<char>)
    ensures
        referenced(rules, id) <==> targets_segment(rules, id),
    decreases rules.len(),
{
    if rules.len() > 0 {
        let init = rules.drop_last();
        lemma_referenced_targets(init, id);
        let n = rules.len();
        let gs = rules.last().rules@;
        lemma_group_ids_member(gs, id);
        let prev = flat_targets(init);
        let ids = group_ids(gs);
        let tail = ids.map_values(|x: String| ((n - 1) as usize, x));
        let all = flat_targets(rules);
        assert(all == prev + tail);
        if referenced(rules, id) {
            let k = choose|k: int| 0 <= k < all.len() && (#[trigger] all[k]).1@ == id;
            if k < prev.len() {
                assert(all[k] == prev[k]);
                assert(referenced(init, id));
                let (i, g, m) = choose|i: int, g: int, m: int|
                    0 <= i < init.len() && 0 <= g < init[i].rules@.len() && 0 <= m < init[i].rules@[g].segments@.len()
                        && (#[trigger] init[i].rules@[g].segments@[m])@ == id;
                assert(rules[i] == init[i]);
                assert(rules[i].rules@[g].segments@[m]@ == id);
            } else {
                assert(all[k] == tail[k - prev.len()]);
                assert(ids[k - prev.len()]@ == id);
                let (g, m) = choose|g: int, m: int|
                    0 <= g < gs.len() && 0 <= m < gs[g].segments@.len() && (#[trigger] gs[g].segments@[m])@ == id;
                assert(rules[n - 1].rules@[g].segments@[m]@ == id);
            }
        }
        if targets_segment(rules, id) {
            let (i, g, m) = choose|i: int, g: int, m: int|
                0 <= i < rules.len() && 0 <= g < rules[i].rules@.len() && 0 <= m < rules[i].rules@[g].segments@.len()
                    && (#[trigger] rules[i].rules@[g].segments@[m])@ == id;
            if i < n - 1 {
                assert(init[i] == rules[i]);
                assert(init[i].rules@[g].segments@[m]@ == id);
                assert(targets_segment(init, id));
                let k = choose|k: int| 0 <= k < prev.len() && (#[trigger] prev[k]).1@ == id;
                assert(all[k] == prev[k]);
            } else {
                assert(gs[g].segments@[m]@ == id);
                let k = choose|k: int| 0 <= k < ids.len() && (#[trigger] ids[k])@ == id;
                assert(all[prev.len() + k] == tail[k]);
                assert(all[prev.len() + k].1@ == id);
            }
        }
    }
}

/// Sorting the rules does not change which segments they target.
proof fn lemma_sorted_targets(rules: Seq<SegmentRule>, id: Seq<char>)
    ensures
        targets_segment(sort_rules(rules), id) <==> targets_segment(rules, id),
{
    broadcast use vstd::seq_lib::group_to_multiset_ensures;
    let sorted = sort_rules(rules);
    law_sorting_keeps_every_rule(rules);
    if targets_segment(rules, id) {
        let (i, g, m) = choose|i: int, g: int, m: int|
            0 <= i < rules.len() && 0 <= g < rules[i].rules@.len() && 0 <= m < rules[i].rules@[g].segments@.len()
                && (#[trigger] rules[i].rules@[g].segments@[m])@ == id;
        assert(rules.contains(rules[i]));
        assert(sorted.to_multiset().count(rules[i]) > 0);
        assert(sorted.contains(rules[i]));
        let j = choose|j: int| 0 <= j < sorted.len() && sorted[j] == rules[i];
        assert(sorted[j].rules@[g].segments@[m]@ == id);
    }
    if targets_segment(sorted, id) {
        let (i, g, m) = choose|i: int, g: int, m: int|
            0 <= i < sorted.len() && 0 <= g < sorted[i].rules@.len() && 0 <= m < sorted[i].rules@[g].segments@.len()
                && (#[trigger] sorted[i].rules@[g].segments@[m])@ == id;
        assert(sorted.contains(sorted[i]));
        assert(rules.to_multiset().count(sorted[i]) > 0);
        assert(rules.contains(sorted[i]));
        let j = choose|j: int| 0 <= j < rules.len() && rules[j] == sorted[i];
        assert(rules[j].rules@[g].segments@[m]@ == id);
    }
}

/// Whether some entry is keyed by `id`.
pub open spec fn has_key(entries: Seq<(String, Segment)>, id: Seq<char>) -> bool {
    exists|m: int| 0 <= m < entries.len() && (#[trigger] entries[m]).0@ == id
}

proof fn lemma_key_index_has_key(entries: Seq<(String, Segment)>, id: Seq<char>)
    ensures
        key_index(entries, id) is Some <==> has_key(entries, id),
        key_index(entries, id) matches Some(i) ==> 0 <= i < entries.len() && entries[i].0@ == id,
    decreases entries.len(),
{
    if entries.len() > 0 {
        let init = entries.drop_last();
        lemma_key_index_has_key(init, id);
        if has_key(init, id) {
            let m = choose|m: int| 0 <= m < init.len() && (#[trigger] init[m]).0@ == id;
            assert(entries[m] == init[m]);
        }
        if has_key(entries, id) && !has_key(init, id) {
            let m = choose|m: int| 0 <= m < entries.len() && (#[trigger] entries[m]).0@ == id;
            if m < init.len() {
                assert(init[m] == entries[m]);
            }
        }
    }
}

/// The segments that a configuration keeps for a list of targeting rules
/// are exactly those that the rules target and that the configuration
/// holds: each is kept once, under its own id.
pub proof fn law_kept_segments_are_the_targeted_ones(all: Seq<Segment>, rules: Seq<SegmentRule>)
    ensures
        forall|id: Seq<char>| #[trigger] has_key(referenced_segments(all, rules), id)
            <==> (targets_segment(rules, id) && has_segment(all, id)),
        forall|m: int| 0 <= m < referenced_segments(all, rules).len()
            ==> (#[trigger] referenced_segments(all, rules)[m]).0 == referenced_segments(all, rules)[m].1.segment_id,
        forall|m: int, n: int| 0 <= m < n < referenced_segments(all, rules).len()
            ==> (#[trigger] referenced_segments(all, rules)[m]).0@ != (#[trigger] referenced_segments(all, rules)[n]).0@,
    decreases all.len(),
{
    if all.len() > 0 {
        let init = all.drop_last();
        let s = all.last();
        law_kept_segments_are_the_targeted_ones(init, rules);
        let prev = referenced_segments(init, rules);
        let cur = referenced_segments(all, rules);
        lemma_referenced_targets(rules, s.segment_id@);
        assert forall|id: Seq<char>| has_segment(all, id) <==> (has_segment(init, id) || s.segment_id@ == id) by {
            if has_segment(all, id) {
                let j = choose|j: int| 0 <= j < all.len() && (#[trigger] all[j].segment_id)@ == id;
                if j < init.len() {
                    assert(init[j] == all[j]);
                }
            }
            if has_segment(init, id) {
                let j = choose|j: int| 0 <= j < init.len() && (#[trigger] init[j].segment_id)@ == id;
                assert(all[j] == init[j]);
            }
            if s.segment_id@ == id {
                assert(all[all.len() - 1].segment_id@ == id);
            }
        }
        if referenced(rules, s.segment_id@) {
            lemma_key_index_has_key(prev, s.segment_id@);
            match key_index(prev, s.segment_id@) {
                Some(i) => {
                    assert(cur == prev.update(i, (s.segment_id, s)));
                    assert forall|id: Seq<char>| has_key(cur, id) <==> (has_key(prev, id) || s.segment_id@ == id) by {
                        if has_key(cur, id) {
                            let m = choose|m: int| 0 <= m < cur.len() && (#[trigger] cur[m]).0@ == id;
                            if m != i {
                                assert(prev[m] == cur[m]);
                            }
                        }
                        if has_key(prev, id) {
                            let m = choose|m: int| 0 <= m < prev.len() && (#[trigger] prev[m]).0@ == id;
                            if m != i {
                                assert(cur[m] == prev[m]);
                            } else {
                                assert(cur[i].0@ == id);
                            }
                        }
                        if s.segment_id@ == id {
                            assert(cur[i].0@ == id);
                        }
                    }
                },
                None => {
                    assert(cur == prev.push((s.segment_id, s)));
                    assert forall|id: Seq<char>| has_key(cur, id) <==> (has_key(prev, id) || s.segment_id@ == id) by {
                        if has_key(cur, id) {
                            let m = choose|m: int| 0 <= m < cur.len() && (#[trigger] cur[m]).0@ == id;
                            if m < prev.len() {
                                assert(prev[m] == cur[m]);
                            }
                        }
                        if has_key(prev, id) {
                            let m = choose|m: int| 0 <= m < prev.len() && (#[trigger] prev[m]).0@ == id;
                            assert(cur[m] == prev[m]);
                        }
                        if s.segment_id@ == id {
                            assert(cur[prev.len() as int].0@ == id);
                        }
                    }
                    assert forall|m: int, n: int| 0 <= m < n < cur.len() implies (#[trigger] cur[m]).0@ != (#[trigger] cur[n]).0@ by {
                        if n == prev.len() {
                            assert(cur[m] == prev[m]);
                            if cur[m].0@ == s.segment_id@ {
                                assert(has_key(prev, s.segment_id@));
                            }
                        } else {
                            assert(cur[m] == prev[m]);
                            assert(cur[n] == prev[n]);
                        }
                    }
                },
            }
        }
    }
}

/// Whether every target is the id of a segment.
fn all_targets_known(targets: &Vec<(usize, String)>, segments: &Vec<Arc<Segment>>) -> (r: bool)
    ensures
        r == forall|k: int| 0 <= k < targets@.len() ==> has_segment(plain_segments(segments@), (#[trigger] targets@[k]).1@),
{
    let ghost segs = plain_segments(segments@);
    let n = targets.len();
    let mut k: usize = 0;
    while k < n
        invariant
            n == targets@.len(),
            k <= n,
            segs == plain_segments(segments@),
            forall|m: int| 0 <= m < k ==> has_segment(segs, (#[trigger] targets@[m]).1@),
        decreases n - k,
    {
        let id = &targets[k].1;
        let m = segments.len();
        let mut j: usize = 0;
        let mut found = false;
        while j < m && !found
            invariant
                m == segments@.len(),
                j <= m,
                segs == plain_segments(segments@),
                found ==> has_segment(segs, id@),
                !found ==> forall|x: int| 0 <= x < j ==> (#[trigger] segs[x].segment_id)@ != id@,
            decreases m - j + (if found { 0int } else { 1int }),
        {
            if segments[j].segment_id == *id {
                assert(segs[j as int].segment_id@ == id@);
                found = true;
            } else {
                j = j + 1;
            }
        }
        if !found {
            assert(!has_segment(segs, id@));
            return false;
        }
        k = k + 1;
    }
    true
}

fn targeting_for(rules: Vec<SegmentRule>, segments: &Vec<Arc<Segment>>, kind: ValueType) -> (r: Option<Arc<TargetingRules>>)
    ensures
        match r {
            Some(t) => integrity_ok(rules@, plain_segments(segments@)) && targeting_of(rules@, plain_segments(segments@), kind, *t),
            None => !integrity_ok(rules@, plain_segments(segments@)),
        },
{
    let ghost original = rules@;
    let sorted = sort_by_order(rules);
    let targets = flat_targets_exec(sorted.as_slice());
    let known = all_targets_known(&targets, segments);
    proof {
        let segs = plain_segments(segments@);
        let flat = flat_targets(sorted@);
        if known {
            assert forall|id: Seq<char>| #[trigger] targets_segment(original, id) implies has_segment(segs, id) by {
                lemma_sorted_targets(original, id);
                lemma_referenced_targets(sorted@, id);
                let k = choose|k: int| 0 <= k < flat.len() && (#[trigger] flat[k]).1@ == id;
                assert(has_segment(segs, flat[k].1@));
            }
        } else {
            let k = choose|k: int| 0 <= k < flat.len() && !has_segment(segs, (#[trigger] flat[k]).1@);
            let id = flat[k].1@;
            lemma_referenced_targets(sorted@, id);
            lemma_sorted_targets(original, id);
            assert(targets_segment(original, id));
        }
    }
    if !known {
        return None;
    }
    let targeted = get_segments_for_segment_rules(segments, &sorted);
    Some(Arc::new(TargetingRules::new(targeted, sorted, kind)))
}

fn feature_entry(f: Feature, segments: &Vec<Arc<Segment>>) -> (r: Result<FeatureEntry, Error>)
    ensures
        if integrity_ok(f.segment_rules@, plain_segments(segments@)) {
            r matches Ok(e) && feature_entry_of(f, plain_segments(segments@), e)
        } else {
            r == Err::<FeatureEntry, Error>(
                Error::ConfigurationDataError(ConfigurationDataError::MissingSegments(f.feature_id)),
            )
        },
{
    let Feature {
        name,
        feature_id,
        kind,
        format,
        enabled_value,
        disabled_value,
        segment_rules,
        enabled,
        rollout_percentage,
        rollout_type,
        rollout_configuration,
    } = f;
    let targeting = match targeting_for(segment_rules, segments, kind) {
        Some(t) => t,
        None => return Err(missing_segments(feature_id)),
    };
    let rollout_configuration = match rollout_configuration {
        Some(c) => Some(Arc::new(c)),
        None => None,
    };
    Ok(FeatureEntry {
        name,
        feature_id,
        kind,
        format,
        enabled_value,
        disabled_value,
        enabled,
        rollout_percentage,
        rollout_type,
        rollout_configuration,
        targeting,
    })
}

fn property_entry(p: Property, segments: &Vec<Arc<Segment>>) -> (r: Result<PropertyEntry, Error>)
    ensures
        if integrity_ok(p.segment_rules@, plain_segments(segments@)) {
            r matches Ok(e) && property_entry_of(p, plain_segments(segments@), e)
        } else {
            r == Err::<PropertyEntry, Error>(
                Error::ConfigurationDataError(ConfigurationDataError::MissingSegments(p.property_id)),
            )
        },
{
    let Property { name, property_id, kind, tags, format, value, segment_rules } = p;
    let targeting = match targeting_for(segment_rules, segments, kind) {
        Some(t) => t,
        None => return Err(missing_segments(property_id)),
    };
    Ok(PropertyEntry { name, property_id, kind, tags, format, value, targeting })
}

fn shared_segments(segments: Vec<Segment>) -> (r: Vec<Arc<Segment>>)
    ensures
        plain_segments(r@) == segments@,
{
    let ghost orig = segments@;
    let mut rest = segments;
    let mut r: Vec<Arc<Segment>> = Vec::new();
    let n = rest.len();
    let mut i: usize = 0;
    while i < n
        invariant
            n == orig.len(),
            i <= n,
            rest@ == orig.subrange(i as int, n as int),
            plain_segments(r@) == orig.subrange(0, i as int),
        decreases n - i,
    {
        let s = rest.remove(0);
        let ghost before = r@;
        r.push(Arc::new(s));
        assert(plain_segments(r@) =~= plain_segments(before).push(orig[i as int]));
        i = i + 1;
        assert(rest@ =~= orig.subrange(i as int, n as int));
        assert(plain_segments(r@) =~= orig.subrange(0, i as int));
    }
    assert(orig.subrange(0, n as int) =~= orig);
    r
}

fn feature_entries(fs: Vec<Feature>, segments: &Vec<Arc<Segment>>) -> (r: Result<Vec<FeatureEntry>, Error>)
    ensures
        match first_broken_feature(fs@, plain_segments(segments@)) {
            Some(j) => r == Err::<Vec<FeatureEntry>, Error>(
                Error::ConfigurationDataError(ConfigurationDataError::MissingSegments(fs@[j].feature_id)),
            ),
            None => r matches Ok(v) && v@.len() == fs@.len() && forall|k: int|
                0 <= k < v@.len() ==> #[trigger] feature_entry_of(fs@[k], plain_segments(segments@), v@[k]),
        },
{
    let ghost orig = fs@;
    let ghost segs = plain_segments(segments@);
    let mut rest = fs;
    let mut r: Vec<FeatureEntry> = Vec::new();
    let n = rest.len();
    let mut i: usize = 0;
    assert(orig.subrange(0, 0) =~= Seq::<Feature>::empty());
    while i < n
        invariant
            n == orig.len(),
            orig == fs@,
            i <= n,
            segs == plain_segments(segments@),
            rest@ == orig.subrange(i as int, n as int),
            first_broken_feature(orig.subrange(0, i as int), segs) is None,
            r@.len() == i,
            forall|k: int| 0 <= k < i ==> #[trigger] feature_entry_of(orig[k], segs, r@[k]),
        decreases n - i,
    {
        let f = rest.remove(0);
        proof {
            assert(orig.subrange(0, i as int + 1).drop_last() =~= orig.subrange(0, i as int));
            assert(f == orig[i as int]);
        }
        match feature_entry(f, segments) {
            Ok(e) => {
                r.push(e);
            },
            Err(e) => {
                proof {
                    lemma_first_broken_feature_prefix(orig, segs, i as int);
                }
                return Err(e);
            },
        }
        i = i + 1;
        assert(rest@ =~= orig.subrange(i as int, n as int));
    }
    assert(orig.subrange(0, n as int) =~= orig);
    Ok(r)
}

proof fn lemma_first_broken_feature_prefix(fs: Seq<Feature>, segs: Seq<Segment>, i: int)
    requires
        0 <= i < fs.len(),
        first_broken_feature(fs.subrange(0, i), segs) is None,
        !integrity_ok(fs[i].segment_rules@, segs),
    ensures
        first_broken_feature(fs, segs) == Some(i),
    decreases fs.len(),
{
    assert(fs.subrange(0, i + 1).drop_last() =~= fs.subrange(0, i));
    if i + 1 < fs.len() {
        assert(fs.drop_last().subrange(0, i) =~= fs.subrange(0, i));
        lemma_first_broken_feature_prefix(fs.drop_last(), segs, i);
    }
}

fn property_entries(ps: Vec<Property>, segments: &Vec<Arc<Segment>>) -> (r: Result<Vec<PropertyEntry>, Error>)
    ensures
        match first_broken_property(ps@, plain_segments(segments@)) {
            Some(j) => r == Err::<Vec<PropertyEntry>, Error>(
                Error::ConfigurationDataError(ConfigurationDataError::MissingSegments(ps@[j].property_id)),
            ),
            None => r matches Ok(v) && v@.len() == ps@.len() && forall|k: int|
                0 <= k < v@.len() ==> #[trigger] property_entry_of(ps@[k], plain_segments(segments@), v@[k]),
        },
{
    let ghost orig = ps@;
    let ghost segs = plain_segments(segments@);
    let mut rest = ps;
    let mut r: Vec<PropertyEntry> = Vec::new();
    let n = rest.len();
    let mut i: usize = 0;
    assert(orig.subrange(0, 0) =~= Seq::<Property>::empty());
    while i < n
        invariant
            n == orig.len(),
            orig == ps@,
            i <= n,
            segs == plain_segments(segments@),
            rest@ == orig.subrange(i as int, n as int),
            first_broken_property(orig.subrange(0, i as int), segs) is None,
            r@.len() == i,
            forall|k: int| 0 <= k < i ==> #[trigger] property_entry_of(orig[k], segs, r@[k]),
        decreases n - i,
    {
        let p = rest.remove(0);
        proof {
            assert(orig.subrange(0, i as int + 1).drop_last() =~= orig.subrange(0, i as int));
            assert(p == orig[i as int]);
        }
        match property_entry(p, segments) {
            Ok(e) => {
                r.push(e);
            },
            Err(e) => {
                proof {
                    lemma_first_broken_property_prefix(orig, segs, i as int);
                }
                return Err(e);
            },
        }
        i = i + 1;
        assert(rest@ =~= orig.subrange(i as int, n as int));
    }
    assert(orig.subrange(0, n as int) =~= orig);
    Ok(r)
}

proof fn lemma_first_broken_property_prefix(ps: Seq<Property>, segs: Seq<Segment>, i: int)
    requires
        0 <= i < ps.len(),
        first_broken_property(ps.subrange(0, i), segs) is None,
        !integrity_ok(ps[i].segment_rules@, segs),
    ensures
        first_broken_property(ps, segs) == Some(i),
    decreases ps.len(),
{
    assert(ps.subrange(0, i + 1).drop_last() =~= ps.subrange(0, i));
    if i + 1 < ps.len() {
        assert(ps.drop_last().subrange(0, i) =~= ps.subrange(0, i));
        lemma_first_broken_property_prefix(ps.drop_last(), segs, i);
    }
}

proof fn lemma_environment_index_found(envs: Seq<Environment>, id: Seq<char>, i: int)
    requires
        0 <= i < envs.len(),
        envs[i].environment_id@ == id,
        forall|m: int| 0 <= m < i ==> (#[trigger] envs[m]).environment_id@ != id,
    ensures
        environment_index(envs, id) == Some(i),
    decreases envs.len(),
{
    if i < envs.len() - 1 {
        lemma_environment_index_found(envs.drop_last(), id, i);
    } else {
        lemma_environment_index_absent(envs.drop_last(), id);
    }
}

proof fn lemma_environment_index_absent(envs: Seq<Environment>, id: Seq<char>)
    requires
        forall|m: int| 0 <= m < envs.len() ==> (#[trigger] envs[m]).environment_id@ != id,
    ensures
        environment_index(envs, id) is None,
    decreases envs.len(),
{
    if envs.len() > 0 {
        lemma_environment_index_absent(envs.drop_last(), id);
    }
}

fn find_environment(envs: &Vec<Environment>, id: &str) -> (r: Option<usize>)
    ensures
        match r {
            Some(i) => i < envs@.len() && environment_index(envs@, id@) == Some(i as int),
            None => environment_index(envs@, id@) is None,
        },
{
    let n = envs.len();
    let mut i: usize = 0;
    while i < n
        invariant
            n == envs@.len(),
            i <= n,
            forall|m: int| 0 <= m < i ==> (#[trigger] envs@[m]).environment_id@ != id@,
        decreases n - i,
    {
        if chars_equal(chars_of(envs[i].environment_id.as_str()).as_slice(), chars_of(id).as_slice()) {
            proof {
                lemma_environment_index_found(envs@, id@, i as int);
            }
            return Some(i);
        }
        i = i + 1;
    }
    proof {
        lemma_environment_index_absent(envs@, id@);
    }
    None
}

impl Configuration {
    /// Indexes the configuration data of one environment: its features and
    /// properties, each with its targeting rules in order and the segments
    /// they target.
    pub fn new(environment_id: &str, configuration: ConfigurationJson) -> (r: Result<Configuration, Error>)
        ensures
            configuration_of(environment_id@, configuration, r),
    {
        let ghost json = configuration;
        let ConfigurationJson { environments, segments } = configuration;
        let i = match find_environment(&environments, environment_id) {
            Some(i) => i,
            None => {
                return Err(
                    Error::ConfigurationDataError(
                        ConfigurationDataError::EnvironmentNotFound(String::from_str(environment_id)),
                    ),
                );
            },
        };
        let mut environments = environments;
        let env = environments.remove(i);
        let shared = shared_segments(segments);
        let Environment { environment_id: _, features, properties } = env;
        let features = feature_entries(features, &shared)?;
        let properties = property_entries(properties, &shared)?;
        Ok(Configuration { features, properties })
    }
}

/// The position of the last feature entry with the given id (a later
/// feature replaces an earlier one with the same id).
pub open spec fn feature_index(entries: Seq<FeatureEntry>, id: Seq<char>) -> Option<int>
    decreases entries.len(),
{
    if entries.len() == 0 {
        None
    } else if entries.last().feature_id@ == id {
        Some(entries.len() - 1)
    } else {
        feature_index(entries.drop_last(), id)
    }
}

/// The position of the last property entry with the given id.
pub open spec fn property_index(entries: Seq<PropertyEntry>, id: Seq<char>) -> Option<int>
    decreases entries.len(),
{
    if entries.len() == 0 {
        None
    } else if entries.last().property_id@ == id {
        Some(entries.len() - 1)
    } else {
        property_index(entries.drop_last(), id)
    }
}

/// Whether `s` is the snapshot of feature entry `e` with the given values.
pub open spec fn feature_snapshot_of(e: FeatureEntry, enabled_value: Value, disabled_value: Value, s: FeatureSnapshot) -> bool {
    &&& s.enabled == e.enabled
    &&& s.enabled_value == enabled_value
    &&& s.disabled_value == disabled_value
    &&& s.rollout_percentage == e.rollout_percentage
    &&& s.rollout_type == e.rollout_type
    &&& s.rollout_configuration == e.rollout_configuration
    &&& s.name@ == e.name@
    &&& s.feature_id@ == e.feature_id@
    &&& s.type_label@ == spec_type_label(e.kind)
    &&& s.format == e.format
    &&& s.segment_rules == e.targeting
    &&& table_for(e.rollout_type, e.rollout_configuration, s.rollout_table)
}

/// Whether `s` is the snapshot of property entry `e` with the given value.
pub open spec fn property_snapshot_of(e: PropertyEntry, value: Value, s: PropertySnapshot) -> bool {
    &&& s.value == value
    &&& s.segment_rules == e.targeting
    &&& s.value_type == e.kind
    &&& s.type_label@ == spec_type_label(e.kind)
    &&& s.format == e.format
    &&& s.name@ == e.name@
    &&& s.property_id@ == e.property_id@
}

/// Whether `r` is what looking up a feature snapshot gives.
pub open spec fn feature_result(c: Configuration, feature_id: Seq<char>, r: Result<FeatureSnapshot, Error>) -> bool {
    match feature_index(c.features@, feature_id) {
        None => r matches Err(Error::ConfigurationDataError(ConfigurationDataError::FeatureNotFound(id)))
            && id@ == feature_id,
        Some(i) => {
            let e = c.features@[i];
            match (spec_value_of(e.kind, e.enabled_value), spec_value_of(e.kind, e.disabled_value)) {
                (Some(ev), Some(dv)) => r matches Ok(s) && feature_snapshot_of(e, ev, dv, s),
                _ => r matches Err(x) && is_conversion_error(e.kind, x),
            }
        },
    }
}

/// Whether `r` is what looking up a property snapshot gives.
pub open spec fn property_result(c: Configuration, property_id: Seq<char>, r: Result<PropertySnapshot, Error>) -> bool {
    match property_index(c.properties@, property_id) {
        None => r matches Err(Error::ConfigurationDataError(ConfigurationDataError::PropertyNotFound(id)))
            && id@ == property_id,
        Some(i) => {
            let e = c.properties@[i];
            match spec_value_of(e.kind, e.value) {
                Some(v) => r matches Ok(s) && property_snapshot_of(e, v, s),
                None => r matches Err(x) && is_conversion_error(e.kind, x),
            }
        },
    }
}

/// Whether `r` is what looking up a secret-reference property gives.
pub open spec fn secret_property_result(c: Configuration, property_id: Seq<char>, r: Result<SecretPropertySnapshot, Error>) -> bool {
    match property_index(c.properties@, property_id) {
        None => r matches Err(Error::ConfigurationDataError(ConfigurationDataError::PropertyNotFound(id)))
            && id@ == property_id,
        Some(i) => {
            let e = c.properties@[i];
            match spec_value_of(e.kind, e.value) {
                Some(v) => r matches Ok(s) && property_snapshot_of(e, v, s.property) && s.property_id@ == property_id,
                None => r matches Err(x) && is_conversion_error(e.kind, x),
            }
        },
    }
}

/// The ids of the entries, each once, in the order of their last occurrence.
pub open spec fn distinct_feature_ids(entries: Seq<FeatureEntry>) -> Seq<Seq<char>>
    decreases entries.len(),
{
    if entries.len() == 0 {
        Seq::empty()
    } else {
        let rest = distinct_feature_ids(entries.skip(1));
        if exists|k: int| 1 <= k < entries.len() && (#[trigger] entries[k]).feature_id@ == entries[0].feature_id@ {
            rest
        } else {
            seq![entries[0].feature_id@] + rest
        }
    }
}

/// The ids of the entries, each once, in the order of their last occurrence.
pub open spec fn distinct_property_ids(entries: Seq<PropertyEntry>) -> Seq<Seq<char>>
    decreases entries.len(),
{
    if entries.len() == 0 {
        Seq::empty()
    } else {
        let rest = distinct_property_ids(entries.skip(1));
        if exists|k: int| 1 <= k < entries.len() && (#[trigger] entries[k]).property_id@ == entries[0].property_id@ {
            rest
        } else {
            seq![entries[0].property_id@] + rest
        }
    }
}

/// The views of a list of strings.
pub open spec fn string_views(v: Seq<String>) -> Seq<Seq<char>> {
    v.map_values(|s: String| s@)
}

fn find_feature(entries: &Vec<FeatureEntry>, id: &str) -> (r: Option<usize>)
    ensures
        match r {
            Some(i) => i < entries@.len() && feature_index(entries@, id@) == Some(i as int),
            None => feature_index(entries@, id@) is None,
        },
{
    let mut i: usize = entries.len();
    assert(entries@.subrange(0, i as int) =~= entries@);
    while i > 0
        invariant
            i <= entries@.len(),
            feature_index(entries@, id@) == feature_index(entries@.subrange(0, i as int), id@),
        decreases i,
    {
        proof {
            assert(entries@.subrange(0, i as int).drop_last() =~= entries@.subrange(0, i as int - 1));
        }
        if chars_equal(chars_of(entries[i - 1].feature_id.as_str()).as_slice(), chars_of(id).as_slice()) {
            return Some(i - 1);
        }
        i = i - 1;
    }
    None
}

fn find_property(entries: &Vec<PropertyEntry>, id: &str) -> (r: Option<usize>)
    ensures
        match r {
            Some(i) => i < entries@.len() && property_index(entries@, id@) == Some(i as int),
            None => property_index(entries@, id@) is None,
        },
{
    let mut i: usize = entries.len();
    assert(entries@.subrange(0, i as int) =~= entries@);
    while i > 0
        invariant
            i <= entries@.len(),
            property_index(entries@, id@) == property_index(entries@.subrange(0, i as int), id@),
        decreases i,
    {
        proof {
            assert(entries@.subrange(0, i as int).drop_last() =~= entries@.subrange(0, i as int - 1));
        }
        if chars_equal(chars_of(entries[i - 1].property_id.as_str()).as_slice(), chars_of(id).as_slice()) {
            return Some(i - 1);
        }
        i = i - 1;
    }
    None
}

impl Configuration {
    /// A snapshot of the feature with the given id.
    pub fn get_feature(&self, feature_id: &str) -> (r: Result<FeatureSnapshot, Error>)
        ensures
            feature_result(*self, feature_id@, r),
    {
        let i = match find_feature(&self.features, feature_id) {
            Some(i) => i,
            None => {
                return Err(
                    Error::ConfigurationDataError(ConfigurationDataError::FeatureNotFound(String::from_str(feature_id))),
                );
            },
        };
        let e = &self.features[i];
        let enabled_value = value_of(e.kind, &e.enabled_value)?;
        let disabled_value = value_of(e.kind, &e.disabled_value)?;
        Ok(
            FeatureSnapshot::new(
                e.enabled,
                enabled_value,
                disabled_value,
                e.rollout_percentage,
                e.rollout_type.clone(),
                share_configuration(&e.rollout_configuration),
                e.name.as_str(),
                e.feature_id.as_str(),
                e.kind.label(),
                e.format.clone(),
                share(&e.targeting),
            ),
        )
    }

    /// A snapshot of the property with the given id.
    pub fn get_property(&self, property_id: &str) -> (r: Result<PropertySnapshot, Error>)
        ensures
            property_result(*self, property_id@, r),
    {
        let i = match find_property(&self.properties, property_id) {
            Some(i) => i,
            None => {
                return Err(
                    Error::ConfigurationDataError(
                        ConfigurationDataError::PropertyNotFound(String::from_str(property_id)),
                    ),
                );
            },
        };
        let e = &self.properties[i];
        let value = value_of(e.kind, &e.value)?;
        Ok(
            PropertySnapshot::new(
                value,
                share(&e.targeting),
                e.kind,
                e.kind.label(),
                e.format.clone(),
                e.name.as_str(),
                e.property_id.as_str(),
            ),
        )
    }

    /// A secret-reference view of the property with the given id.
    pub fn get_secret_property(&self, property_id: &str) -> (r: Result<SecretPropertySnapshot, Error>)
        ensures
            secret_property_result(*self, property_id@, r),
    {
        let property = self.get_property(property_id)?;
        Ok(SecretPropertySnapshot::new(property, String::from_str(property_id)))
    }

    /// The ids of the features, each once.
    pub fn get_feature_ids(&self) -> (r: Vec<String>)
        ensures
            string_views(r@) == distinct_feature_ids(self.features@),
    {
        let n = self.features.len();
        let mut ids: Vec<String> = Vec::new();
        let mut i: usize = n;
        assert(self.features@.skip(n as int) =~= Seq::<FeatureEntry>::empty());
        assert(string_views(ids@) =~= Seq::<Seq<char>>::empty());
        while i > 0
            invariant
                n == self.features@.len(),
                i <= n,
                string_views(ids@) == distinct_feature_ids(self.features@.skip(i as int)),
            decreases i,
        {
            let j = i - 1;
            let mut later = false;
            let mut k: usize = i;
            while k < n
                invariant
                    n == self.features@.len(),
                    j + 1 == i,
                    i <= k <= n,
                    later == exists|m: int| i <= m < k && (#[trigger] self.features@[m]).feature_id@ == self.features@[j as int].feature_id@,
                decreases n - k,
            {
                if chars_equal(
                    chars_of(self.features[k].feature_id.as_str()).as_slice(),
                    chars_of(self.features[j].feature_id.as_str()).as_slice(),
                ) {
                    later = true;
                }
                k = k + 1;
            }
            let ghost tail = self.features@.skip(j as int);
            proof {
                assert(tail.skip(1) =~= self.features@.skip(i as int));
                assert(later == exists|m: int| 1 <= m < tail.len() && (#[trigger] tail[m]).feature_id@ == tail[0].feature_id@) by {
                    if later {
                        let m = choose|m: int| i <= m < n && (#[trigger] self.features@[m]).feature_id@ == self.features@[j as int].feature_id@;
                        assert(tail[m - j] == self.features@[m]);
                    }
                    if exists|m: int| 1 <= m < tail.len() && (#[trigger] tail[m]).feature_id@ == tail[0].feature_id@ {
                        let m = choose|m: int| 1 <= m < tail.len() && (#[trigger] tail[m]).feature_id@ == tail[0].feature_id@;
                        assert(self.features@[m + j] == tail[m]);
                    }
                }
            }
            if !later {
                let ghost before = ids@;
                ids.insert(0, self.features[j].feature_id.clone());
                assert(string_views(ids@) =~= seq![self.features@[j as int].feature_id@] + string_views(before));
            }
            i = j;
        }
        assert(self.features@.skip(0) =~= self.features@);
        ids
    }

    /// The ids of the properties, each once.
    pub fn get_property_ids(&self) -> (r: Vec<String>)
        ensures
            string_views(r@) == distinct_property_ids(self.properties@),
    {
        let n = self.properties.len();
        let mut ids: Vec<String> = Vec::new();
        let mut i: usize = n;
        assert(self.properties@.skip(n as int) =~= Seq::<PropertyEntry>::empty());
        assert(string_views(ids@) =~= Seq::<Seq<char>>::empty());
        while i > 0
            invariant
                n == self.properties@.len(),
                i <= n,
                string_views(ids@) == distinct_property_ids(self.properties@.skip(i as int)),
            decreases i,
        {
            let j = i - 1;
            let mut later = false;
            let mut k: usize = i;
            while k < n
                invariant
                    n == self.properties@.len(),
                    j + 1 == i,
                    i <= k <= n,
                    later == exists|m: int| i <= m < k && (#[trigger] self.properties@[m]).property_id@ == self.properties@[j as int].property_id@,
                decreases n - k,
            {
                if chars_equal(
                    chars_of(self.properties[k].property_id.as_str()).as_slice(),
                    chars_of(self.properties[j].property_id.as_str()).as_slice(),
                ) {
                    later = true;
                }
                k = k + 1;
            }
            let ghost tail = self.properties@.skip(j as int);
            proof {
                assert(tail.skip(1) =~= self.properties@.skip(i as int));
                assert(later == exists|m: int| 1 <= m < tail.len() && (#[trigger] tail[m]).property_id@ == tail[0].property_id@) by {
                    if later {
                        let m = choose|m: int| i <= m < n && (#[trigger] self.properties@[m]).property_id@ == self.properties@[j as int].property_id@;
                        assert(tail[m - j] == self.properties@[m]);
                    }
                    if exists|m: int| 1 <= m < tail.len() && (#[trigger] tail[m]).property_id@ == tail[0].property_id@ {
                        let m = choose|m: int| 1 <= m < tail.len() && (#[trigger] tail[m]).property_id@ == tail[0].property_id@;
                        assert(self.properties@[m + j] == tail[m]);
                    }
                }
            }
            if !later {
                let ghost before = ids@;
                ids.insert(0, self.properties[j].property_id.clone());
                assert(string_views(ids@) =~= seq![self.properties@[j as int].property_id@] + string_views(before));
            }
            i = j;
        }
        assert(self.properties@.skip(0) =~= self.properties@);
        ids
    }
}

} // verus!
