use vstd::prelude::*;
use vstd::string::*;

use crate::models::{RolloutConfiguration, RolloutPhase};
use crate::segment_evaluation::chars_equal;
use crate::text::chars_of;

verus! {

/// The instant an RFC 3339 timestamp denotes, in milliseconds since the
/// Unix epoch, or `None` when the text is not such a timestamp.
pub uninterp spec fn rfc3339_millis(s: Seq<char>) -> Option<i64>;

/// Parses an RFC 3339 timestamp with `chrono::DateTime::parse_from_rfc3339`
/// and gives its instant in milliseconds since the epoch
/// (`DateTime::timestamp_millis`). The contract only names the result.
#[verifier::external_body]
fn parse_rfc3339_millis(s: &str) -> (r: Option<i64>)
    ensures
        r == rfc3339_millis(s@),
{
    match chrono::DateTime::parse_from_rfc3339(s) {
        Ok(d) => Some(d.timestamp_millis()),
        Err(_) => None,
    }
}

/// The time elapsed since the Unix epoch (`Ok`) or left until it (`Err`), in
/// whole milliseconds (`SystemTime::elapsed` from `UNIX_EPOCH`). Nothing is
/// promised of the value: it is the machine's clock.
#[verifier::external_body]
fn clock_millis() -> (r: Result<u128, u128>) {
    match std::time::UNIX_EPOCH.elapsed() {
        Ok(d) => Ok(d.as_millis()),
        Err(e) => Err(e.duration().as_millis()),
    }
}

/// The current time in milliseconds since the epoch, negative before it and
/// saturated at the bounds of `i64`.
pub(crate) fn current_time_millis() -> (r: i64) {
    match clock_millis() {
        Ok(m) => if m <= 9223372036854775807u128 {
            m as i64
        } else {
            9223372036854775807i64
        },
        Err(m) => if m <= 9223372036854775807u128 {
            -(m as i64)
        } else {
            -9223372036854775807i64
        },
    }
}

/// The length in milliseconds of one unit of a phase duration.
pub open spec fn unit_millis(t: Seq<char>) -> Option<int> {
    if t == "minutes"@ {
        Some(60_000)
    } else if t == "hours"@ {
        Some(3_600_000)
    } else if t == "days"@ {
        Some(86_400_000)
    } else {
        None
    }
}

/// The length of a phase in milliseconds, when its unit is known.
pub open spec fn phase_millis(d: u32, t: Option<String>) -> Option<int> {
    match t {
        Some(t) => match unit_millis(t@) {
            Some(u) => Some(d as int * u),
            None => None,
        },
        None => None,
    }
}

/// The schedule of a progressive rollout from time `t`: each phase starts
/// when the previous one ends and takes effect with its percentage. A phase
/// without a duration lasts for ever and ends the schedule. A phase whose
/// duration has no known unit, or a phase end beyond the `i64` range, makes
/// the whole schedule invalid.
pub open spec fn schedule_from(t: int, phases: Seq<RolloutPhase>) -> Option<Seq<(i64, u32)>>
    decreases phases.len(),
{
    if phases.len() == 0 {
        Some(Seq::empty())
    } else {
        let e = (t as i64, phases[0].percentage);
        match phases[0].duration {
            None => Some(seq![e]),
            Some(d) => match phase_millis(d, phases[0].duration_type) {
                None => None,
                Some(ms) => if t + ms > i64::MAX {
                    None
                } else {
                    match schedule_from(t + ms, phases.skip(1)) {
                        None => None,
                        Some(rest) => Some(seq![e] + rest),
                    }
                },
            },
        }
    }
}

/// The percentage table of a progressive rollout: 0% from the epoch, then
/// the schedule of its phases from its start time.
pub open spec fn spec_rollout_table(config: RolloutConfiguration) -> Option<Seq<(i64, u32)>> {
    match rfc3339_millis(config.start_at@) {
        None => None,
        Some(start) => if start < 0 {
            None
        } else {
            match schedule_from(start as int, config.phases@) {
                None => None,
                Some(s) => Some(seq![(0i64, 0u32)] + s),
            }
        },
    }
}

/// The entry that is in force at `now`: the one with the greatest time not
/// after `now`, the later one among entries of equal time.
pub open spec fn entry_in_force(table: Seq<(i64, u32)>, now: i64) -> Option<(i64, u32)>
    decreases table.len(),
{
    if table.len() == 0 {
        None
    } else {
        let before = entry_in_force(table.drop_last(), now);
        let e = table.last();
        if e.0 <= now && (before is None || e.0 >= before->Some_0.0) {
            Some(e)
        } else {
            before
        }
    }
}

/// The rollout percentage in force at `now` (0 before the table starts).
pub open spec fn percentage_at(table: Seq<(i64, u32)>, now: i64) -> u32 {
    match entry_in_force(table, now) {
        Some(e) => e.1,
        None => 0,
    }
}

fn unit_millis_exec(t: &String) -> (r: Option<i64>)
    ensures
        match unit_millis(t@) {
            Some(u) => r == Some(u as i64),
            None => r is None,
        },
{
    let c = chars_of(t.as_str());
    if chars_equal(c.as_slice(), chars_of("minutes").as_slice()) {
        Some(60_000)
    } else if chars_equal(c.as_slice(), chars_of("hours").as_slice()) {
        Some(3_600_000)
    } else if chars_equal(c.as_slice(), chars_of("days").as_slice()) {
        Some(86_400_000)
    } else {
        None
    }
}

/// Builds the percentage table of a progressive rollout, or `None` when the
/// configuration is not valid.
pub fn parse_rollout_configuration_phases(config: &RolloutConfiguration) -> (r: Option<Vec<(i64, u32)>>)
    ensures
        match spec_rollout_table(*config) {
            Some(t) => r matches Some(v) && v@ == t,
            None => r is None,
        },
{
    let start = match parse_rfc3339_millis(config.start_at.as_str()) {
        Some(s) => s,
        None => return None,
    };
    if start < 0 {
        return None;
    }
    let mut table: Vec<(i64, u32)> = Vec::new();
    table.push((0, 0));
    let phases = &config.phases;
    let mut t: i64 = start;
    let mut i: usize = 0;
    assert(phases@.skip(0) =~= phases@);
    while i < phases.len()
        invariant
            i <= phases@.len(),
            rfc3339_millis(config.start_at@) == Some(start),
            start >= 0,
            t >= 0,
            phases@ == config.phases@,
            match schedule_from(start as int, phases@) {
                Some(whole) => match schedule_from(t as int, phases@.skip(i as int)) {
                    Some(rest) => whole == table@.skip(1) + rest,
                    None => false,
                },
                None => schedule_from(t as int, phases@.skip(i as int)) is None,
            },
            table@.len() >= 1,
            table@[0] == (0i64, 0u32),
        decreases phases@.len() - i,
    {
        let ph = &phases[i];
        let ghost rest = phases@.skip(i as int);
        assert(rest[0] == phases@[i as int]);
        assert(rest.skip(1) =~= phases@.skip(i + 1));
        let ghost old_table = table@;
        table.push((t, ph.percentage));
        match ph.duration {
            None => {
                proof {
                    assert(table@.skip(1) =~= old_table.skip(1) + seq![(t, ph.percentage)]);
                }
                assert(table@ =~= seq![(0i64, 0u32)] + table@.skip(1));
                return Some(table);
            },
            Some(d) => {
                let unit = match &ph.duration_type {
                    Some(ty) => match unit_millis_exec(ty) {
                        Some(u) => u,
                        None => return None,
                    },
                    None => return None,
                };
                let ms: i64 = d as i64 * unit;
                if t > 9223372036854775807i64 - ms {
                    return None;
                }
                proof {
                    assert(table@.skip(1) =~= old_table.skip(1) + seq![(t, ph.percentage)]);
                }
                t = t + ms;
            },
        }
        i = i + 1;
    }
    assert(phases@.skip(i as int) =~= Seq::<RolloutPhase>::empty());
    assert(table@ =~= seq![(0i64, 0u32)] + table@.skip(1));
    Some(table)
}

/// The rollout percentage in force at `now`.
pub fn get_current_rollout_percentage(table: &[(i64, u32)], now: i64) -> (r: u32)
    ensures
        r == percentage_at(table@, now),
{
    let mut best: Option<(i64, u32)> = None;
    let mut i: usize = 0;
    while i < table.len()
        invariant
            i <= table@.len(),
            best == entry_in_force(table@.subrange(0, i as int), now),
        decreases table@.len() - i,
    {
        let e = table[i];
        assert(table@.subrange(0, i + 1).drop_last() =~= table@.subrange(0, i as int));
        let take = match best {
            None => e.0 <= now,
            Some(b) => e.0 <= now && e.0 >= b.0,
        };
        if take {
            best = Some(e);
        }
        i = i + 1;
    }
    assert(table@.subrange(0, table@.len() as int) =~= table@);
    match best {
        Some(e) => e.1,
        None => 0,
    }
}

} // verus!
