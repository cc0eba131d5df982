use vstd::prelude::*;

use crate::client::ConfigurationId;
use crate::models::duplicate_opt_string;
use crate::worker::{retry_base_delay_ms, retry_base_ms};

verus! {

/// What was evaluated: a feature or a property, by id.
#[derive(Debug, Clone, PartialEq, Eq)]
pub enum SubjectId {
    Feature(String),
    Property(String),
}

/// One evaluation: of what, for which entity, and in which segment.
#[derive(Debug, Clone, PartialEq, Eq)]
pub struct EvaluationEventData {
    pub subject_id: SubjectId,
    pub entity_id: String,
    pub segment_id: Option<String>,
}

/// An evaluation of a feature or of a property.
#[derive(Debug, Clone, PartialEq, Eq)]
pub enum EvaluationEvent {
    Feature(EvaluationEventData),
    Property(EvaluationEventData),
}

/// The event recording an evaluation: a feature event for a feature, a
/// property event for a property.
pub open spec fn spec_evaluation_event(subject_id: SubjectId, entity_id: String, segment_id: Option<String>) -> EvaluationEvent {
    let data = EvaluationEventData { subject_id, entity_id, segment_id };
    match subject_id {
        SubjectId::Feature(_) => EvaluationEvent::Feature(data),
        SubjectId::Property(_) => EvaluationEvent::Property(data),
    }
}

/// Builds the event recording an evaluation of a feature or property for an
/// entity, in a segment or none.
pub fn evaluation_event(subject_id: SubjectId, entity_id: String, segment_id: Option<String>) -> (r: EvaluationEvent)
    ensures
        r == spec_evaluation_event(subject_id, entity_id, segment_id),
{
    let is_feature = match &subject_id {
        SubjectId::Feature(_) => true,
        SubjectId::Property(_) => false,
    };
    let data = EvaluationEventData { subject_id, entity_id, segment_id };
    if is_feature {
        EvaluationEvent::Feature(data)
    } else {
        EvaluationEvent::Property(data)
    }
}

/// What evaluations are counted by.
#[derive(Debug, Clone, PartialEq, Eq)]
pub struct MeteringKey {
    pub feature_id: Option<String>,
    pub property_id: Option<String>,
    pub entity_id: String,
    pub segment_id: Option<String>,
}

/// How often a key was evaluated, and when last (milliseconds since the epoch).
#[derive(Debug, Clone, Copy, PartialEq, Eq, Structural)]
pub struct EvaluationData {
    pub count: u32,
    pub last_evaluation_millis: i64,
}

/// The usage of one key, as reported to the server.
#[derive(Debug, Clone, PartialEq, Eq)]
pub struct MeteringUsage {
    pub feature_id: Option<String>,
    pub property_id: Option<String>,
    pub entity_id: String,
    pub segment_id: Option<String>,
    pub evaluation_time_millis: i64,
    pub count: u32,
}

/// The usages of a collection and environment, as reported to the server.
#[derive(Debug, Clone, PartialEq, Eq)]
pub struct MeteringData {
    pub collection_id: String,
    pub environment_id: String,
    pub usages: Vec<MeteringUsage>,
}

/// Why reporting usages failed.
#[derive(Debug, Clone, PartialEq, Eq)]
pub enum MeteringError {
    /// The server could not be reached.
    NetworkError(String),
    /// The server answered with the given HTTP status.
    DataNotAccepted(u16),
}

/// Counts evaluations and reports them in batches.
#[derive(Debug)]
pub struct MeteringBatcher {
    pub evaluations: Vec<(MeteringKey, EvaluationData)>,
    pub config_id: ConfigurationId,
    pub retry_attempt: u32,
    /// When a failed report may be retried (milliseconds since the epoch).
    pub next_retry_at_millis: Option<i64>,
}

/// The key an evaluation is counted by.
pub open spec fn key_of(e: EvaluationEvent) -> MeteringKey {
    match e {
        EvaluationEvent::Feature(d) => MeteringKey {
            feature_id: match d.subject_id {
                SubjectId::Feature(id) => Some(id),
                SubjectId::Property(_) => None,
            },
            property_id: None,
            entity_id: d.entity_id,
            segment_id: d.segment_id,
        },
        EvaluationEvent::Property(d) => MeteringKey {
            feature_id: None,
            property_id: match d.subject_id {
                SubjectId::Property(id) => Some(id),
                SubjectId::Feature(_) => None,
            },
            entity_id: d.entity_id,
            segment_id: d.segment_id,
        },
    }
}

/// The text of an optional string.
pub open spec fn opt_view(o: Option<String>) -> Option<Seq<char>> {
    match o {
        Some(s) => Some(s@),
        None => None,
    }
}

/// What identifies a key: the texts of its parts.
pub open spec fn key_view(k: MeteringKey) -> (Option<Seq<char>>, Option<Seq<char>>, Seq<char>, Option<Seq<char>>) {
    (opt_view(k.feature_id), opt_view(k.property_id), k.entity_id@, opt_view(k.segment_id))
}

/// Whether no key is counted twice.
pub open spec fn distinct_keys(evals: Seq<(MeteringKey, EvaluationData)>) -> bool {
    forall|i: int, j: int| 0 <= i < j < evals.len() ==> key_view((#[trigger] evals[i]).0) != key_view((#[trigger] evals[j]).0)
}

/// The position of a key among the counted ones.
pub open spec fn key_position(evals: Seq<(MeteringKey, EvaluationData)>, k: MeteringKey) -> Option<int> {
    if exists|i: int| 0 <= i < evals.len() && key_view(evals[i].0) == key_view(k) {
        Some(choose|i: int| 0 <= i < evals.len() && key_view(evals[i].0) == key_view(k))
    } else {
        None
    }
}

/// The counts after one more evaluation of `k` at `now`: the count of a
/// known key grows by one (saturating), a new key starts at one.
pub open spec fn counted(evals: Seq<(MeteringKey, EvaluationData)>, k: MeteringKey, now: i64) -> Seq<(MeteringKey, EvaluationData)> {
    match key_position(evals, k) {
        Some(i) => evals.update(
            i,
            (
                k,
                EvaluationData {
                    count: if evals[i].1.count == u32::MAX { u32::MAX } else { (evals[i].1.count + 1) as u32 },
                    last_evaluation_millis: now,
                },
            ),
        ),
        None => evals.push((k, EvaluationData { count: 1, last_evaluation_millis: now })),
    }
}

/// The usage reported for a counted key.
pub open spec fn usage_of(entry: (MeteringKey, EvaluationData)) -> MeteringUsage {
    MeteringUsage {
        feature_id: entry.0.feature_id,
        property_id: entry.0.property_id,
        entity_id: entry.0.entity_id,
        segment_id: entry.0.segment_id,
        evaluation_time_millis: entry.1.last_evaluation_millis,
        count: entry.1.count,
    }
}

/// Whether a failed report is tried again: network failures, rate limits
/// (429) and server errors (5xx) are.
pub open spec fn spec_retryable(e: MeteringError) -> bool {
    match e {
        MeteringError::NetworkError(_) => true,
        MeteringError::DataNotAccepted(status) => status == 429 || (500 <= status <= 599),
    }
}

/// Whether a failed report is tried again.
pub fn is_retryable_error(e: &MeteringError) -> (r: bool)
    ensures
        r == spec_retryable(*e),
{
    match e {
        MeteringError::NetworkError(_) => true,
        MeteringError::DataNotAccepted(status) => *status == 429 || (500 <= *status && *status <= 599),
    }
}

/// The delay before retrying a report after `attempt` failed retries: 15 s,
/// doubled per attempt, at most one hour (in milliseconds).
pub fn metering_retry_delay_ms(attempt: u32) -> (r: u64)
    ensures
        r == retry_base_ms(attempt),
{
    retry_base_delay_ms(attempt)
}

fn opt_string_eq(a: &Option<String>, b: &Option<String>) -> (r: bool)
    ensures
        r == (opt_view(*a) == opt_view(*b)),
{
    match (a, b) {
        (Some(x), Some(y)) => *x == *y,
        (None, None) => true,
        _ => false,
    }
}

fn keys_equal(a: &MeteringKey, b: &MeteringKey) -> (r: bool)
    ensures
        r == (key_view(*a) == key_view(*b)),
{
    opt_string_eq(&a.feature_id, &b.feature_id) && opt_string_eq(&a.property_id, &b.property_id)
        && a.entity_id == b.entity_id && opt_string_eq(&a.segment_id, &b.segment_id)
}

fn key_of_event(e: EvaluationEvent) -> (k: MeteringKey)
    ensures
        k == key_of(e),
{
    match e {
        EvaluationEvent::Feature(d) => MeteringKey {
            feature_id: match d.subject_id {
                SubjectId::Feature(id) => Some(id),
                SubjectId::Property(_) => None,
            },
            property_id: None,
            entity_id: d.entity_id,
            segment_id: d.segment_id,
        },
        EvaluationEvent::Property(d) => MeteringKey {
            feature_id: None,
            property_id: match d.subject_id {
                SubjectId::Property(id) => Some(id),
                SubjectId::Feature(_) => None,
            },
            entity_id: d.entity_id,
            segment_id: d.segment_id,
        },
    }
}

fn duplicate_key(k: &MeteringKey) -> (r: MeteringKey)
    ensures
        r == *k,
{
    MeteringKey {
        feature_id: duplicate_opt_string(&k.feature_id),
        property_id: duplicate_opt_string(&k.property_id),
        entity_id: k.entity_id.clone(),
        segment_id: duplicate_opt_string(&k.segment_id),
    }
}

impl MeteringBatcher {
    /// A batcher without counted evaluations.
    pub fn new(config_id: ConfigurationId) -> (r: Self)
        ensures
            r.evaluations@.len() == 0,
            r.config_id == config_id,
            r.retry_attempt == 0,
            r.next_retry_at_millis is None,
    {
        MeteringBatcher { evaluations: Vec::new(), config_id, retry_attempt: 0, next_retry_at_millis: None }
    }

    /// Counts an evaluation made at `now`.
    pub fn handle_event(&mut self, event: EvaluationEvent, now: i64)
        requires
            distinct_keys(old(self).evaluations@),
        ensures
            final(self).evaluations@ == counted(old(self).evaluations@, key_of(event), now),
            distinct_keys(final(self).evaluations@),
            final(self).config_id == old(self).config_id,
            final(self).retry_attempt == old(self).retry_attempt,
            final(self).next_retry_at_millis == old(self).next_retry_at_millis,
    {
        let ghost ev = event;
        let key = key_of_event(event);
        let n = self.evaluations.len();
        let mut i: usize = 0;
        while i < n
            invariant
                n == self.evaluations@.len(),
                *self == *old(self),
                distinct_keys(old(self).evaluations@),
                key == key_of(ev),
                ev == event,
                i <= n,
                forall|m: int| 0 <= m < i ==> key_view((#[trigger] self.evaluations@[m]).0) != key_view(key),
            decreases n - i,
        {
            if keys_equal(&self.evaluations[i].0, &key) {
                let old_data = self.evaluations[i].1;
                let data = EvaluationData { count: old_data.count.saturating_add(1), last_evaluation_millis: now };
                proof {
                    let evals = old(self).evaluations@;
                    assert(exists|m: int| 0 <= m < evals.len() && key_view(evals[m].0) == key_view(key)) by {
                        assert(key_view(evals[i as int].0) == key_view(key));
                    }
                    let c = choose|m: int| 0 <= m < evals.len() && key_view(evals[m].0) == key_view(key);
                    if c != i as int {
                        if c < i {
                        } else {
                            assert(key_view(evals[i as int].0) != key_view(evals[c].0));
                        }
                    }
                    assert(key_position(evals, key) == Some(i as int));
                }
                let ghost before = self.evaluations@;
                self.evaluations.set(i, (key, data));

                assert(distinct_keys(self.evaluations@)) by {
                    assert forall|a: int, b: int| 0 <= a < b < self.evaluations@.len() implies key_view((#[trigger] self.evaluations@[a]).0)
                        != key_view((#[trigger] self.evaluations@[b]).0) by {
                        assert(key_view(before[a].0) != key_view(before[b].0));
                        assert(key_view(self.evaluations@[a].0) == key_view(before[a].0));
                        assert(key_view(self.evaluations@[b].0) == key_view(before[b].0));
                    }
                }
                return;
            }
            i = i + 1;
        }
        proof {
            assert(!exists|m: int| 0 <= m < old(self).evaluations@.len() && key_view(old(self).evaluations@[m].0) == key_view(key));
        }
        let ghost before = self.evaluations@;
        self.evaluations.push((key, EvaluationData { count: 1, last_evaluation_millis: now }));
        assert(distinct_keys(self.evaluations@)) by {
            assert forall|a: int, b: int| 0 <= a < b < self.evaluations@.len() implies key_view((#[trigger] self.evaluations@[a]).0)
                != key_view((#[trigger] self.evaluations@[b]).0) by {
                if b < before.len() {
                    assert(key_view(before[a].0) != key_view(before[b].0));
                }
            }
        }
    }

    /// The report to send at `now`: none while nothing was counted or a
    /// retry is not due yet, otherwise the usage of every counted key.
    pub fn prepare_flush(&self, now: i64) -> (r: Option<MeteringData>)
        ensures
            (self.evaluations@.len() == 0 || (self.next_retry_at_millis matches Some(t) && now < t)) ==> r is None,
            !(self.evaluations@.len() == 0 || (self.next_retry_at_millis matches Some(t) && now < t)) ==> (r matches Some(d)
                && d.collection_id == self.config_id.collection_id && d.environment_id == self.config_id.environment_id
                && d.usages@ == self.evaluations@.map_values(|e: (MeteringKey, EvaluationData)| usage_of(e))),
    {
        if self.evaluations.len() == 0 {
            return None;
        }
        if let Some(t) = self.next_retry_at_millis {
            if now < t {
                return None;
            }
        }
        let n = self.evaluations.len();
        let mut usages: Vec<MeteringUsage> = Vec::new();
        let mut i: usize = 0;
        while i < n
            invariant
                n == self.evaluations@.len(),
                i <= n,
                usages@ == self.evaluations@.subrange(0, i as int).map_values(|e: (MeteringKey, EvaluationData)| usage_of(e)),
            decreases n - i,
        {
            let (k, d) = (&self.evaluations[i].0, &self.evaluations[i].1);
            let k2 = duplicate_key(k);
            usages.push(
                MeteringUsage {
                    feature_id: k2.feature_id,
                    property_id: k2.property_id,
                    entity_id: k2.entity_id,
                    segment_id: k2.segment_id,
                    evaluation_time_millis: d.last_evaluation_millis,
                    count: d.count,
                },
            );
            i = i + 1;
            assert(usages@ =~= self.evaluations@.subrange(0, i as int).map_values(|e: (MeteringKey, EvaluationData)| usage_of(e)));
        }
        assert(self.evaluations@.subrange(0, n as int) =~= self.evaluations@);
        Some(
            MeteringData {
                collection_id: self.config_id.collection_id.clone(),
                environment_id: self.config_id.environment_id.clone(),
                usages,
            },
        )
    }

    /// Takes in the outcome of a report sent at `now`: a success or a
    /// failure that is not retried drops the counts; a retried failure keeps
    /// them and schedules the next try later with each attempt.
    pub fn complete_flush(&mut self, result: Result<(), MeteringError>, now: i64)
        ensures
            final(self).config_id == old(self).config_id,
            match result {
                Err(e) => if spec_retryable(e) {
                    &&& final(self).evaluations@ == old(self).evaluations@
                    &&& final(self).retry_attempt == (if old(self).retry_attempt == u32::MAX {
                        u32::MAX
                    } else {
                        (old(self).retry_attempt + 1) as u32
                    })
                    &&& final(self).next_retry_at_millis == Some(
                        (if now + retry_base_ms(old(self).retry_attempt) <= i64::MAX {
                            now + retry_base_ms(old(self).retry_attempt)
                        } else {
                            i64::MAX as int
                        }) as i64,
                    )
                } else {
                    &&& final(self).evaluations@.len() == 0
                    &&& final(self).retry_attempt == 0
                    &&& final(self).next_retry_at_millis is None
                },
                Ok(()) => {
                    &&& final(self).evaluations@.len() == 0
                    &&& final(self).retry_attempt == 0
                    &&& final(self).next_retry_at_millis is None
                },
            },
    {
        match result {
            Ok(()) => {
                self.evaluations = Vec::new();
                self.retry_attempt = 0;
                self.next_retry_at_millis = None;
            },
            Err(e) => {
                if is_retryable_error(&e) {
                    let delay = metering_retry_delay_ms(self.retry_attempt);
                    self.retry_attempt = self.retry_attempt.saturating_add(1);
                    let next = match now.checked_add(delay as i64) {
                        Some(t) => t,
                        None => i64::MAX,
                    };
                    self.next_retry_at_millis = Some(next);
                } else {
                    self.evaluations = Vec::new();
                    self.retry_attempt = 0;
                    self.next_retry_at_millis = None;
                }
            },
        }
    }
}

} // verus!
