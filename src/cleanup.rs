//! The retention policy: removal of entries past a maximum age and beyond a
//! maximum count, run on a fixed period.
use vstd::prelude::*;

use crate::models::{created_at_or_after, min_int, Entry, EntryStore};

verus! {

/// Seconds between two runs of the retention rules.
pub const CLEANUP_INTERVAL_SECS: u64 = 43_200;

/// Nanoseconds in a day.
pub const NANOS_PER_DAY: i64 = 86_400_000_000_000;

/// The retention rules that are switched on: each holds a positive value.
#[derive(Debug, Clone, Copy)]
pub struct RetentionPolicy {
    pub retention_days: Option<u32>,
    pub max_entries: Option<u32>,
}

/// A setting, kept only when it is positive.
pub open spec fn positive(v: Option<u32>) -> Option<u32> {
    match v {
        Some(x) => if x > 0 {
            Some(x)
        } else {
            None
        },
        None => None,
    }
}

fn keep_positive(v: Option<u32>) -> (r: Option<u32>)
    ensures
        r == positive(v),
{
    match v {
        Some(x) => if x > 0 {
            Some(x)
        } else {
            None
        },
        None => None,
    }
}

/// The policy for the two settings; None (no task at all) when neither
/// holds a positive value.
pub fn retention_policy(retention_days: Option<u32>, max_entries: Option<u32>) -> (r: Option<
    RetentionPolicy,
>)
    ensures
        r is None <==> positive(retention_days) is None && positive(max_entries) is None,
        r is Some ==> r->Some_0.retention_days == positive(retention_days)
            && r->Some_0.max_entries == positive(max_entries),
{
    let days = keep_positive(retention_days);
    let max = keep_positive(max_entries);
    if days.is_none() && max.is_none() {
        None
    } else {
        Some(RetentionPolicy { retention_days: days, max_entries: max })
    }
}

/// `days` days before `now`, or the earliest representable instant when
/// that lies further back.
pub open spec fn cutoff_of(now: i64, days: u32) -> i64 {
    let t = now - days * NANOS_PER_DAY;
    if t < i64::MIN {
        i64::MIN
    } else {
        t as i64
    }
}

/// The instant before which entries are too old at `now`.
pub fn retention_cutoff(now: i64, days: u32) -> (r: i64)
    ensures
        r == cutoff_of(now, days),
{
    assert(0 <= days * NANOS_PER_DAY <= 0xffff_ffff * NANOS_PER_DAY) by (nonlinear_arith)
        requires
            days <= 0xffff_ffff,
    ;
    let span: i128 = (days as i128) * (NANOS_PER_DAY as i128);
    let t: i128 = (now as i128) - span;
    if t < (i64::MIN as i128) {
        i64::MIN
    } else {
        t as i64
    }
}

/// Removes the entries older than `days` days at `now`.
fn cleanup_by_age(store: &mut EntryStore, now: i64, days: u32) -> (r: u64)
    requires
        old(store).wf(),
    ensures
        final(store).wf(),
        final(store)@ == old(store)@.filter(created_at_or_after(cutoff_of(now, days))),
        r == old(store)@.len() - final(store)@.len(),
{
    Entry::delete_older_than(store, retention_cutoff(now, days))
}

/// Removes the entries beyond the `max` most recent.
fn cleanup_by_count(store: &mut EntryStore, max: u32) -> (r: u64)
    requires
        old(store).wf(),
    ensures
        final(store).wf(),
        final(store)@ == old(store)@.take(min_int(max as int, old(store)@.len() as int)),
        r == old(store)@.len() - final(store)@.len(),
{
    Entry::delete_beyond_limit(store, max)
}

/// The entries that the age rule leaves.
pub open spec fn after_age_rule(s: Seq<Entry>, days: Option<u32>, now: i64) -> Seq<Entry> {
    match positive(days) {
        Some(d) => s.filter(created_at_or_after(cutoff_of(now, d))),
        None => s,
    }
}

/// The entries that the count rule leaves.
pub open spec fn after_count_rule(s: Seq<Entry>, max: Option<u32>) -> Seq<Entry> {
    match positive(max) {
        Some(m) => s.take(min_int(m as int, s.len() as int)),
        None => s,
    }
}

/// The numbers of entries that one run removed, by rule; a rule that is off
/// or removed nothing reports None.
#[derive(Debug, Clone, Copy)]
pub struct CleanupReport {
    pub deleted_by_age: Option<u64>,
    pub deleted_by_count: Option<u64>,
}

/// A count worth reporting: a positive one.
pub open spec fn reported(n: int) -> Option<u64> {
    if n > 0 {
        Some(n as u64)
    } else {
        None
    }
}

/// One run of the retention rules at `now`: the age rule first, then the
/// count rule, each only when its setting is positive.
pub fn run_cleanup(store: &mut EntryStore, policy: &RetentionPolicy, now: i64) -> (r: CleanupReport)
    requires
        old(store).wf(),
    ensures
        final(store).wf(),
        final(store)@ == after_count_rule(
            after_age_rule(old(store)@, policy.retention_days, now),
            policy.max_entries,
        ),
        r.deleted_by_age == reported(
            old(store)@.len() - after_age_rule(old(store)@, policy.retention_days, now).len(),
        ),
        r.deleted_by_count == reported(
            after_age_rule(old(store)@, policy.retention_days, now).len() - final(store)@.len(),
        ),
{
    let mut by_age: Option<u64> = None;
    if let Some(days) = policy.retention_days {
        if days > 0 {
            let n = cleanup_by_age(store, now, days);
            if n > 0 {
                by_age = Some(n);
            }
        }
    }
    let mut by_count: Option<u64> = None;
    if let Some(max) = policy.max_entries {
        if max > 0 {
            let n = cleanup_by_count(store, max);
            if n > 0 {
                by_count = Some(n);
            }
        }
    }
    CleanupReport { deleted_by_age: by_age, deleted_by_count: by_count }
}

} // verus!
