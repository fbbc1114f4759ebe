//! Screen content change detection: a signal, independent of bandwidth
//! adaptation, telling whether the screen is active or has gone quiet.

use crate::clock::{duration_as_nanos, duration_from_millis, duration_nanos, instant_elapsed, instant_now};
use crate::frame_skipper::{lemma_run_covers_trailing, unchanged_run};
use std::time::Duration;
use std::time::Instant;
use vstd::prelude::*;

verus! {

/// Whether the screen content is changing.
#[derive(Debug, Clone, Copy, PartialEq, Eq, Structural)]
pub enum ContentChange {
    /// The screen has been quiet for the threshold number of checks.
    NoChange,
    /// A change was seen.
    Active,
}

/// Tracks whether the screen content is active or quiet. The screen counts
/// as quiet once `quiet_threshold` checks in a row have seen no change.
pub struct ContentDetector {
    sample_rate: u32,
    quiet_threshold: u32,
    unchanged_count: u32,
    last_check: Instant,
    check_interval: Duration,
    current_state: ContentChange,
}

/// The state after one report: a change makes the screen active; the
/// threshold of unchanged checks in a row makes it quiet; otherwise the
/// state stays.
pub open spec fn content_step(state: ContentChange, count_after: int, threshold: int, has_changes: bool) -> ContentChange {
    if has_changes {
        ContentChange::Active
    } else if count_after >= threshold {
        ContentChange::NoChange
    } else {
        state
    }
}

/// The state after a sequence of reports, from `state` with `start`
/// unchanged checks counted.
pub open spec fn content_run(state: ContentChange, start: int, threshold: int, reports: Seq<bool>) -> ContentChange
    decreases reports.len(),
{
    if reports.len() == 0 {
        state
    } else {
        content_step(
            content_run(state, start, threshold, reports.drop_last()),
            unchanged_run(start, reports),
            threshold,
            reports.last(),
        )
    }
}

impl ContentDetector {
    /// The current state.
    pub closed spec fn state(self) -> ContentChange {
        self.current_state
    }

    /// Number of checks in a row that saw no change.
    pub closed spec fn unchanged(self) -> u32 {
        self.unchanged_count
    }

    /// Number of quiet checks in a row after which the screen is quiet.
    pub closed spec fn threshold(self) -> u32 {
        self.quiet_threshold
    }

    /// One tile in this many is sampled (0: every tile).
    pub closed spec fn rate(self) -> u32 {
        self.sample_rate
    }

    /// When the current check period started.
    pub closed spec fn last_check(self) -> Instant {
        self.last_check
    }

    /// Length of a check period in nanoseconds.
    pub closed spec fn interval_nanos(self) -> u128 {
        duration_nanos(self.check_interval)
    }

    /// A detector that samples one tile in `sample_rate` (0: all), counts
    /// the screen quiet after `quiet_threshold` unchanged checks in a row,
    /// and checks once per `check_interval`. Until a quiet run has been
    /// seen, the screen counts as active.
    pub fn new(sample_rate: u32, quiet_threshold: u32, check_interval: Duration) -> (d: Self)
        ensures
            d.rate() == sample_rate,
            d.threshold() == quiet_threshold,
            d.unchanged() == 0,
            d.interval_nanos() == duration_nanos(check_interval),
            d.state() == ContentChange::Active,
    {
        ContentDetector {
            sample_rate,
            quiet_threshold,
            unchanged_count: 0,
            last_check: instant_now(),
            check_interval,
            current_state: ContentChange::Active,
        }
    }

    /// The current state.
    pub fn current_state(&self) -> (s: ContentChange)
        ensures
            s == self.state(),
    {
        self.current_state
    }

    /// Reports the result of one check. A change makes the screen active
    /// and clears the count; no change is counted, and once the count
    /// reaches the threshold the screen is quiet.
    pub fn report(&mut self, has_changes: bool)
        requires
            !has_changes ==> old(self).unchanged() < u32::MAX,
        ensures
            final(self).unchanged() == unchanged_run(old(self).unchanged() as int, seq![has_changes]),
            final(self).state() == content_step(
                old(self).state(),
                final(self).unchanged() as int,
                old(self).threshold() as int,
                has_changes,
            ),
            has_changes ==> final(self).state() == ContentChange::Active,
            !has_changes ==> final(self).unchanged() == old(self).unchanged() + 1,
            !has_changes && final(self).unchanged() >= old(self).threshold() ==> final(self).state()
                == ContentChange::NoChange,
            !has_changes && final(self).unchanged() < old(self).threshold() ==> final(self).state() == old(
                self,
            ).state(),
            final(self).threshold() == old(self).threshold(),
            final(self).rate() == old(self).rate(),
            final(self).interval_nanos() == old(self).interval_nanos(),
    {
        proof {
            let one = seq![has_changes];
            let u = self.unchanged_count as int;
            assert(one.drop_last() =~= Seq::<bool>::empty());
            assert(unchanged_run(u, one.drop_last()) == u);
            assert(one.last() == has_changes);
            assert(unchanged_run(u, one) == (if has_changes { 0 } else { u + 1 }));
        }
        if has_changes {
            self.unchanged_count = 0;
            self.current_state = ContentChange::Active;
        } else {
            self.unchanged_count = self.unchanged_count + 1;
            if self.unchanged_count >= self.quiet_threshold {
                self.current_state = ContentChange::NoChange;
            }
        }
    }

    /// Returns whether a check period has passed since the last time this
    /// returned true, and if so restarts the period. Which of the two
    /// happens depends on the clock; the detector's counters and state are
    /// untouched either way.
    pub fn check_and_update(&mut self) -> (due: bool)
        ensures
            old(self).interval_nanos() == 0 ==> due,
            !due ==> final(self).last_check() == old(self).last_check(),
            final(self).state() == old(self).state(),
            final(self).unchanged() == old(self).unchanged(),
            final(self).threshold() == old(self).threshold(),
            final(self).rate() == old(self).rate(),
            final(self).interval_nanos() == old(self).interval_nanos(),
    {
        let waited = duration_as_nanos(&instant_elapsed(&self.last_check));
        if !self.period_elapsed(waited) {
            return false;
        }
        self.last_check = instant_now();
        true
    }

    /// Whether a check period has passed when `waited_nanos` nanoseconds
    /// have gone by since the last check.
    pub fn period_elapsed(&self, waited_nanos: u128) -> (due: bool)
        ensures
            due == (waited_nanos >= self.interval_nanos()),
    {
        let interval = duration_as_nanos(&self.check_interval);
        waited_nanos >= interval
    }

    /// Reports the result of one check, as `report` does.
    pub fn force_update(&mut self, has_changes: bool)
        requires
            !has_changes ==> old(self).unchanged() < u32::MAX,
        ensures
            final(self).unchanged() == unchanged_run(old(self).unchanged() as int, seq![has_changes]),
            final(self).state() == content_step(
                old(self).state(),
                final(self).unchanged() as int,
                old(self).threshold() as int,
                has_changes,
            ),
            has_changes ==> final(self).state() == ContentChange::Active,
            !has_changes ==> final(self).unchanged() == old(self).unchanged() + 1,
            !has_changes && final(self).unchanged() >= old(self).threshold() ==> final(self).state()
                == ContentChange::NoChange,
            !has_changes && final(self).unchanged() < old(self).threshold() ==> final(self).state() == old(
                self,
            ).state(),
            final(self).threshold() == old(self).threshold(),
            final(self).rate() == old(self).rate(),
            final(self).interval_nanos() == old(self).interval_nanos(),
    {
        self.report(has_changes);
    }

    /// Clears the count and marks the screen quiet.
    pub fn reset(&mut self)
        ensures
            final(self).unchanged() == 0,
            final(self).state() == ContentChange::NoChange,
            final(self).threshold() == old(self).threshold(),
            final(self).rate() == old(self).rate(),
            final(self).interval_nanos() == old(self).interval_nanos(),
    {
        self.unchanged_count = 0;
        self.current_state = ContentChange::NoChange;
    }

    /// One tile in this many is sampled (0: every tile).
    pub fn sample_rate(&self) -> (r: u32)
        ensures
            r == self.rate(),
    {
        self.sample_rate
    }

    /// Number of quiet checks in a row after which the screen is quiet.
    pub fn quiet_threshold(&self) -> (t: u32)
        ensures
            t == self.threshold(),
    {
        self.quiet_threshold
    }

    /// Number of checks in a row that saw no change.
    pub fn unchanged_count(&self) -> (n: u32)
        ensures
            n == self.unchanged(),
    {
        self.unchanged_count
    }
}

impl Default for ContentDetector {
    /// Samples one tile in 4, counts the screen quiet after 3 unchanged
    /// checks, and checks every 100 ms.
    fn default() -> (d: Self)
        ensures
            d.rate() == 4,
            d.threshold() == 3,
            d.unchanged() == 0,
            d.interval_nanos() == 100_000_000,
            d.state() == ContentChange::Active,
    {
        Self::new(4, 3, duration_from_millis(100))
    }
}

/// Law: a change makes the screen active at once. Whatever the reports
/// before, if the last one saw a change, the state is `Active`.
pub proof fn law_change_makes_active(state: ContentChange, start: int, threshold: int, reports: Seq<bool>)
    requires
        reports.len() > 0,
        reports.last(),
    ensures
        content_run(state, start, threshold, reports) == ContentChange::Active,
{
}

/// Law: the screen goes quiet after the threshold of unchanged checks in a
/// row. Whatever came before, when the last `threshold` reports (at least
/// one) saw no change, the state is `NoChange`.
pub proof fn law_quiet_after_threshold(state: ContentChange, start: int, threshold: int, reports: Seq<bool>)
    requires
        start >= 0,
        1 <= threshold <= reports.len(),
        forall|i: int| reports.len() - threshold <= i < reports.len() ==> !#[trigger] reports[i],
    ensures
        content_run(state, start, threshold, reports) == ContentChange::NoChange,
{
    assert(reports.last() == reports[reports.len() - 1]);
    lemma_run_covers_trailing(start, reports, threshold);
}

/// A change followed by `n` reports of no change.
pub open spec fn change_then_quiet(n: nat) -> Seq<bool> {
    seq![true] + Seq::new(n, |i: int| false)
}

/// Law: after a change the screen stays active until the threshold. Once a
/// change is reported and then `n` checks in a row see none, the screen is
/// quiet exactly when `n` has reached the threshold, and active before,
/// whatever the state and count before the change.
pub proof fn law_active_until_threshold(state: ContentChange, start: int, threshold: int, n: nat)
    requires
        threshold >= 1,
    ensures
        unchanged_run(start, change_then_quiet(n)) == n,
        content_run(state, start, threshold, change_then_quiet(n)) == (if n >= threshold {
            ContentChange::NoChange
        } else {
            ContentChange::Active
        }),
    decreases n,
{
    let reports = change_then_quiet(n);
    if n == 0 {
        assert(reports =~= seq![true]);
        assert(reports.drop_last() =~= Seq::<bool>::empty());
    } else {
        let m = (n - 1) as nat;
        law_active_until_threshold(state, start, threshold, m);
        assert(reports.drop_last() =~= change_then_quiet(m));
        assert(reports.last() == false);
    }
}

/// Law: a report of no change never makes the screen active. It leaves
/// the state as it was until the count reaches the threshold, and from
/// there makes the screen quiet.
pub proof fn law_no_change_never_activates(state: ContentChange, count_after: int, threshold: int)
    ensures
        content_step(state, count_after, threshold, false) == ContentChange::Active ==> state
            == ContentChange::Active,
        count_after >= threshold ==> content_step(state, count_after, threshold, false) == ContentChange::NoChange,
        count_after < threshold ==> content_step(state, count_after, threshold, false) == state,
{
}

/// Law: with no change reported, the screen never turns active. After any
/// number of reports that all saw no change, the state is the one before
/// them or quiet, and a quiet screen stays quiet.
pub proof fn law_quiet_run_stays_quiet(state: ContentChange, start: int, threshold: int, reports: Seq<bool>)
    requires
        forall|i: int| 0 <= i < reports.len() ==> !#[trigger] reports[i],
    ensures
        content_run(state, start, threshold, reports) == state || content_run(state, start, threshold, reports)
            == ContentChange::NoChange,
        state == ContentChange::NoChange ==> content_run(state, start, threshold, reports) == ContentChange::NoChange,
    decreases reports.len(),
{
    if reports.len() > 0 {
        let before = reports.drop_last();
        assert forall|i: int| 0 <= i < before.len() implies !#[trigger] before[i] by {
            assert(before[i] == reports[i]);
        }
        law_quiet_run_stays_quiet(state, start, threshold, before);
        assert(!reports[reports.len() - 1]);
    }
}

} // verus!
