//! Bandwidth adaptation: quality tiers and the controller that picks one
//! from the measured send rate.

use crate::clock::{
    duration_as_nanos, duration_from_millis, duration_from_secs, duration_nanos, instant_elapsed,
    instant_now,
};
use std::time::Duration;
use std::time::Instant;
use vstd::prelude::*;

verus! {

/// Quality tier chosen from the measured bandwidth.
#[derive(Debug, Clone, Copy, PartialEq, Eq, Structural)]
pub enum BandwidthTier {
    /// More than 2 Mbps: 1080p at 30 fps.
    High,
    /// 1 to 2 Mbps: 720p at 15 fps.
    Medium,
    /// 500 Kbps to 1 Mbps: 720p at 10 fps.
    Low,
    /// Below 500 Kbps: 800x600 at 8 fps.
    VeryLow,
}

impl BandwidthTier {
    pub open spec fn spec_width(self) -> u32 {
        match self {
            BandwidthTier::High => 1920,
            BandwidthTier::Medium | BandwidthTier::Low => 1280,
            BandwidthTier::VeryLow => 800,
        }
    }

    pub open spec fn spec_height(self) -> u32 {
        match self {
            BandwidthTier::High => 1080,
            BandwidthTier::Medium | BandwidthTier::Low => 720,
            BandwidthTier::VeryLow => 600,
        }
    }

    pub open spec fn spec_fps(self) -> u32 {
        match self {
            BandwidthTier::High => 30,
            BandwidthTier::Medium => 15,
            BandwidthTier::Low => 10,
            BandwidthTier::VeryLow => 8,
        }
    }

    pub open spec fn spec_bitrate_kbps(self) -> u32 {
        match self {
            BandwidthTier::High => 2000,
            BandwidthTier::Medium => 1000,
            BandwidthTier::Low => 600,
            BandwidthTier::VeryLow => 300,
        }
    }

    /// Frame width in pixels.
    pub fn width(&self) -> (w: u32)
        ensures
            w == self.spec_width(),
    {
        match self {
            BandwidthTier::High => 1920,
            BandwidthTier::Medium | BandwidthTier::Low => 1280,
            BandwidthTier::VeryLow => 800,
        }
    }
}

impl BandwidthTier {
    /// Frame height in pixels.
    pub fn height(&self) -> (h: u32)
        ensures
            h == self.spec_height(),
    {
        match self {
            BandwidthTier::High => 1080,
            BandwidthTier::Medium | BandwidthTier::Low => 720,
            BandwidthTier::VeryLow => 600,
        }
    }

    /// Target frame rate.
    pub fn fps(&self) -> (f: u32)
        ensures
            f == self.spec_fps(),
    {
        match self {
            BandwidthTier::High => 30,
            BandwidthTier::Medium => 15,
            BandwidthTier::Low => 10,
            BandwidthTier::VeryLow => 8,
        }
    }

    /// Target encoder bitrate in Kbps.
    pub fn bitrate_kbps(&self) -> (b: u32)
        ensures
            b == self.spec_bitrate_kbps(),
    {
        match self {
            BandwidthTier::High => 2000,
            BandwidthTier::Medium => 1000,
            BandwidthTier::Low => 600,
            BandwidthTier::VeryLow => 300,
        }
    }

    /// Whole milliseconds between two frames at this tier's frame rate.
    pub open spec fn spec_frame_interval_millis(self) -> int {
        1000int / (self.spec_fps() as int)
    }

    /// Time between two frames: `1000 / fps` whole milliseconds.
    pub fn frame_interval(&self) -> (d: Duration)
        ensures
            duration_nanos(d) == self.spec_frame_interval_millis() * 1_000_000,
    {
        let fps = self.fps();
        duration_from_millis(1000 / fps as u64)
    }
}

/// The tier that a measured send rate falls in: `bytes` sent during a period
/// of `nanos` nanoseconds, compared with the 2000, 1000 and 500 Kbps bounds.
///
/// The rate in Kbps is `bytes * 8 / (nanos / 1e9) / 1000`, so it exceeds `t`
/// exactly when `bytes * 8 * 1e6 > t * nanos`. For an empty period this
/// reads an infinite rate as `High` and a zero-over-zero rate as `VeryLow`.
pub open spec fn tier_for_rate(bytes: int, nanos: int) -> BandwidthTier {
    let scaled = bytes * 8 * 1_000_000;
    if scaled > 2000 * nanos {
        BandwidthTier::High
    } else if scaled > 1000 * nanos {
        BandwidthTier::Medium
    } else if scaled > 500 * nanos {
        BandwidthTier::Low
    } else {
        BandwidthTier::VeryLow
    }
}

/// The position of a tier, from the lowest quality up.
pub open spec fn tier_rank(t: BandwidthTier) -> int {
    match t {
        BandwidthTier::VeryLow => 0,
        BandwidthTier::Low => 1,
        BandwidthTier::Medium => 2,
        BandwidthTier::High => 3,
    }
}

/// Law: more bandwidth never means less quality. A higher measured rate,
/// whether more bytes or the same bytes in less time, never gets a lower
/// tier, and a higher tier never streams with fewer pixels, frames or bits.
pub proof fn law_tier_follows_rate(bytes1: int, bytes2: int, nanos1: int, nanos2: int)
    requires
        0 <= bytes1 <= bytes2,
        0 <= nanos2 <= nanos1,
    ensures
        tier_rank(tier_for_rate(bytes1, nanos1)) <= tier_rank(tier_for_rate(bytes2, nanos2)),
        ({
            let (t1, t2) = (tier_for_rate(bytes1, nanos1), tier_for_rate(bytes2, nanos2));
            &&& t1.spec_width() <= t2.spec_width()
            &&& t1.spec_height() <= t2.spec_height()
            &&& t1.spec_fps() <= t2.spec_fps()
            &&& t1.spec_bitrate_kbps() <= t2.spec_bitrate_kbps()
        }),
{
}

/// Classifies `bytes` sent during `nanos` nanoseconds into a tier.
pub fn classify_rate(bytes: u64, nanos: u128) -> (t: BandwidthTier)
    ensures
        t == tier_for_rate(bytes as int, nanos as int),
{
    let scaled: u128 = (bytes as u128) * 8_000_000;
    if nanos > 1_000_000_000_000_000_000_000_000_000u128 {
        // The rate is below 500 Kbps for every byte count a u64 can hold.
        BandwidthTier::VeryLow
    } else if scaled > 2000 * nanos {
        BandwidthTier::High
    } else if scaled > 1000 * nanos {
        BandwidthTier::Medium
    } else if scaled > 500 * nanos {
        BandwidthTier::Low
    } else {
        BandwidthTier::VeryLow
    }
}

/// What a check does to a controller: `before` becomes `after` and returns
/// `r` when `waited` nanoseconds have passed since the last measurement and
/// the period measured lasted `elapsed`. Before a full check period nothing
/// changes and nothing is returned; after it the bytes sent since the last
/// measurement decide the tier, the tier is returned when it changed, and
/// the next period counts from the bytes sent so far.
pub open spec fn adjusted(
    before: AdaptiveController,
    after: AdaptiveController,
    r: Option<BandwidthTier>,
    waited: int,
    elapsed: int,
) -> bool {
    &&& after.sent() == before.sent()
    &&& after.interval_nanos() == before.interval_nanos()
    &&& if waited < before.interval_nanos() {
        &&& r is None
        &&& after.tier() == before.tier()
        &&& after.sent_at_last_check() == before.sent_at_last_check()
    } else {
        let t = tier_for_rate(before.pending(), elapsed);
        &&& after.tier() == t
        &&& r == (if t == before.tier() { None } else { Some(t) })
        &&& after.sent_at_last_check() == before.sent()
    }
}

/// Picks the bandwidth tier from the number of bytes sent per check period.
pub struct AdaptiveController {
    current_tier: BandwidthTier,
    last_check: Instant,
    check_interval: Duration,
    bytes_sent: u64,
    last_bytes: u64,
}

impl AdaptiveController {
    #[verifier::type_invariant]
    spec fn inv(self) -> bool {
        self.last_bytes <= self.bytes_sent
    }

    /// The tier currently in force.
    pub closed spec fn tier(self) -> BandwidthTier {
        self.current_tier
    }

    /// When the current check period started.
    pub closed spec fn last_check(self) -> Instant {
        self.last_check
    }

    /// Length of a check period in nanoseconds.
    pub closed spec fn interval_nanos(self) -> u128 {
        duration_nanos(self.check_interval)
    }

    /// Total number of bytes reported as sent.
    pub closed spec fn sent(self) -> u64 {
        self.bytes_sent
    }

    /// The total that had been sent when the last period was measured.
    pub closed spec fn sent_at_last_check(self) -> u64 {
        self.last_bytes
    }

    /// Bytes sent since the last measured period.
    pub open spec fn pending(self) -> int {
        self.sent() - self.sent_at_last_check()
    }

    /// A controller at tier `Medium`, with a two-second check period and
    /// nothing sent yet.
    pub fn new() -> (c: Self)
        ensures
            c.tier() == BandwidthTier::Medium,
            c.interval_nanos() == 2_000_000_000,
            c.sent() == 0,
            c.sent_at_last_check() == 0,
    {
        AdaptiveController {
            current_tier: BandwidthTier::Medium,
            last_check: instant_now(),
            check_interval: duration_from_secs(2),
            bytes_sent: 0,
            last_bytes: 0,
        }
    }

    /// A controller at tier `Medium` with the given check period and nothing
    /// sent yet.
    pub fn new_with_interval(check_interval: Duration) -> (c: Self)
        ensures
            c.tier() == BandwidthTier::Medium,
            c.interval_nanos() == duration_nanos(check_interval),
            c.sent() == 0,
            c.sent_at_last_check() == 0,
    {
        AdaptiveController {
            current_tier: BandwidthTier::Medium,
            last_check: instant_now(),
            check_interval,
            bytes_sent: 0,
            last_bytes: 0,
        }
    }

    /// The tier currently in force.
    pub fn current_tier(&self) -> (t: BandwidthTier)
        ensures
            t == self.tier(),
    {
        self.current_tier
    }

    /// Records `bytes` more bytes as sent.
    pub fn add_bytes_sent(&mut self, bytes: u64)
        requires
            old(self).sent() + bytes <= u64::MAX,
        ensures
            final(self).sent() == old(self).sent() + bytes,
            final(self).sent_at_last_check() == old(self).sent_at_last_check(),
            final(self).tier() == old(self).tier(),
            final(self).interval_nanos() == old(self).interval_nanos(),
    {
        proof {
            use_type_invariant(&*self);
        }
        self.bytes_sent = self.bytes_sent + bytes;
    }

    /// Ends a measured period of `elapsed_nanos` nanoseconds: the bytes sent
    /// since the last period decide the new tier, and the tier is returned
    /// when it differs from the one in force.
    pub fn apply_measurement(&mut self, elapsed_nanos: u128) -> (r: Option<BandwidthTier>)
        ensures
            ({
                let t = tier_for_rate(old(self).pending(), elapsed_nanos as int);
                &&& final(self).tier() == t
                &&& r == (if t == old(self).tier() { None } else { Some(t) })
            }),
            final(self).sent() == old(self).sent(),
            final(self).sent_at_last_check() == old(self).sent(),
            final(self).interval_nanos() == old(self).interval_nanos(),
            final(self).last_check() == old(self).last_check(),
    {
        proof {
            use_type_invariant(&*self);
        }
        let bytes_in_period = self.bytes_sent - self.last_bytes;
        let new_tier = classify_rate(bytes_in_period, elapsed_nanos);
        self.last_bytes = self.bytes_sent;
        if new_tier != self.current_tier {
            self.current_tier = new_tier;
            Some(new_tier)
        } else {
            None
        }
    }

    /// Whether a check period has passed when `waited_nanos` nanoseconds
    /// have gone by since the last measurement.
    pub fn period_elapsed(&self, waited_nanos: u128) -> (due: bool)
        ensures
            due == (waited_nanos >= self.interval_nanos()),
    {
        let interval = duration_as_nanos(&self.check_interval);
        waited_nanos >= interval
    }

    /// The check made when `waited_nanos` nanoseconds have passed since the
    /// last measurement, measuring a period of `elapsed_nanos`: before a
    /// full check period nothing changes and `None` is returned; after it
    /// the period ends as `apply_measurement` ends it.
    pub fn check_and_adjust_after(&mut self, waited_nanos: u128, elapsed_nanos: u128) -> (r: Option<
        BandwidthTier,
    >)
        ensures
            adjusted(*old(self), *final(self), r, waited_nanos as int, elapsed_nanos as int),
            final(self).last_check() == old(self).last_check(),
    {
        if !self.period_elapsed(waited_nanos) {
            return None;
        }
        self.apply_measurement(elapsed_nanos)
    }

    /// Once a full check period has passed since the last measurement, ends
    /// the period as `apply_measurement` does with a fresh reading of the
    /// time that has passed, and restarts the clock. Before that it changes
    /// nothing and returns `None`. The time waited and the period measured
    /// are read from the clock; what follows from them is
    /// `check_and_adjust_after`.
    pub fn check_and_adjust(&mut self) -> (r: Option<BandwidthTier>)
        ensures
            old(self).interval_nanos() == 0 ==> exists|elapsed: u128|
                {
                    let t = #[trigger] tier_for_rate(old(self).pending(), elapsed as int);
                    &&& final(self).tier() == t
                    &&& r == (if t == old(self).tier() { None } else { Some(t) })
                    &&& final(self).sent_at_last_check() == old(self).sent()
                },
            exists|waited: u128, elapsed: u128|
                #[trigger] adjusted(*old(self), *final(self), r, waited as int, elapsed as int) && (waited
                    < old(self).interval_nanos() ==> final(self).last_check() == old(self).last_check()),
    {
        let waited = duration_as_nanos(&instant_elapsed(&self.last_check));
        let elapsed = duration_as_nanos(&instant_elapsed(&self.last_check));
        let due = self.period_elapsed(waited);
        let ghost before = *self;
        let r = self.check_and_adjust_after(waited, elapsed);
        if due {
            self.last_check = instant_now();
        }
        proof {
            assert(adjusted(before, *self, r, waited as int, elapsed as int));
            if before.interval_nanos() == 0 {
                assert(tier_for_rate(before.pending(), elapsed as int) == self.tier());
            }
        }
        r
    }

    /// Ends a period as if exactly one check period had passed. With a
    /// zero-length check period nothing changes, so that bytes keep
    /// accumulating, and `None` is returned.
    pub fn force_check(&mut self) -> (r: Option<BandwidthTier>)
        ensures
            final(self).sent() == old(self).sent(),
            final(self).interval_nanos() == old(self).interval_nanos(),
            old(self).interval_nanos() == 0 ==> {
                &&& r is None
                &&& final(self).tier() == old(self).tier()
                &&& final(self).sent_at_last_check() == old(self).sent_at_last_check()
            },
            old(self).interval_nanos() > 0 ==> {
                let t = tier_for_rate(old(self).pending(), old(self).interval_nanos() as int);
                &&& final(self).tier() == t
                &&& r == (if t == old(self).tier() { None } else { Some(t) })
                &&& final(self).sent_at_last_check() == old(self).sent()
            },
    {
        let interval = duration_as_nanos(&self.check_interval);
        if interval == 0 {
            return None;
        }
        self.apply_measurement(interval)
    }
}

} // verus!
