//! Frame skipping: when the screen stops changing, frames are skipped and
//! the frame rate drops to its minimum until the next change.

use vstd::prelude::*;

verus! {

/// Decides, frame by frame, whether an unchanged frame is skipped.
pub struct FrameSkipper {
    unchanged_count: u32,
    skip_threshold: u32,
    current_fps: u32,
    min_fps: u32,
    max_fps: u32,
}

/// Number of unchanged frames in a row, at the end of `reports`, added to
/// `start` when no frame in `reports` changed.
pub open spec fn unchanged_run(start: int, reports: Seq<bool>) -> int
    decreases reports.len(),
{
    if reports.len() == 0 {
        start
    } else if reports.last() {
        0
    } else {
        unchanged_run(start, reports.drop_last()) + 1
    }
}

/// The target frame rate after `reports`, from `fps` with `start`
/// unchanged frames counted: a change restores `max`; reaching `threshold`
/// unchanged frames in a row drops it to `min`; otherwise it stays.
pub open spec fn fps_run(fps: int, start: int, threshold: int, min: int, max: int, reports: Seq<bool>) -> int
    decreases reports.len(),
{
    if reports.len() == 0 {
        fps
    } else if reports.last() {
        max
    } else if unchanged_run(start, reports) >= threshold {
        min
    } else {
        fps_run(fps, start, threshold, min, max, reports.drop_last())
    }
}

impl FrameSkipper {
    /// Number of unchanged frames reported in a row.
    pub closed spec fn unchanged(self) -> u32 {
        self.unchanged_count
    }

    /// Number of unchanged frames in a row after which frames are skipped.
    pub closed spec fn threshold(self) -> u32 {
        self.skip_threshold
    }

    /// The target frame rate.
    pub closed spec fn fps(self) -> u32 {
        self.current_fps
    }

    /// The frame rate while frames are skipped.
    pub closed spec fn min_rate(self) -> u32 {
        self.min_fps
    }

    /// The frame rate while the screen changes.
    pub closed spec fn max_rate(self) -> u32 {
        self.max_fps
    }

    /// A skipper that targets `max_fps`, skips after 5 unchanged frames in
    /// a row, and then drops to 5 fps.
    pub fn new(max_fps: u32) -> (s: Self)
        ensures
            s.unchanged() == 0,
            s.threshold() == 5,
            s.fps() == max_fps,
            s.min_rate() == 5,
            s.max_rate() == max_fps,
    {
        FrameSkipper { unchanged_count: 0, skip_threshold: 5, current_fps: max_fps, min_fps: 5, max_fps }
    }

    /// Reports whether the frame changed and returns whether to skip it. A
    /// changed frame resets the count and restores the full frame rate; an
    /// unchanged one is counted, and once the count reaches the threshold
    /// the frame is skipped and the rate drops to its minimum.
    pub fn should_skip(&mut self, has_changes: bool) -> (skip: bool)
        requires
            !has_changes ==> old(self).unchanged() < u32::MAX,
        ensures
            final(self).unchanged() == (if has_changes { 0 } else { old(self).unchanged() + 1 }),
            final(self).unchanged() == unchanged_run(old(self).unchanged() as int, seq![has_changes]),
            skip == (!has_changes && final(self).unchanged() >= old(self).threshold()),
            final(self).fps() == (if has_changes {
                old(self).max_rate()
            } else if skip {
                old(self).min_rate()
            } else {
                old(self).fps()
            }),
            final(self).fps() == fps_run(
                old(self).fps() as int,
                old(self).unchanged() as int,
                old(self).threshold() as int,
                old(self).min_rate() as int,
                old(self).max_rate() as int,
                seq![has_changes],
            ),
            final(self).threshold() == old(self).threshold(),
            final(self).min_rate() == old(self).min_rate(),
            final(self).max_rate() == old(self).max_rate(),
    {
        proof {
            let one = seq![has_changes];
            let u = self.unchanged_count as int;
            assert(one.drop_last() =~= Seq::<bool>::empty());
            assert(unchanged_run(u, one.drop_last()) == u);
            assert(one.last() == has_changes);
            assert(unchanged_run(u, one) == (if has_changes { 0 } else { u + 1 }));
            assert(fps_run(
                self.current_fps as int,
                u,
                self.skip_threshold as int,
                self.min_fps as int,
                self.max_fps as int,
                one.drop_last(),
            ) == self.current_fps);
        }
        if has_changes {
            self.unchanged_count = 0;
            self.current_fps = self.max_fps;
            false
        } else {
            self.unchanged_count = self.unchanged_count + 1;
            if self.unchanged_count >= self.skip_threshold {
                self.current_fps = self.min_fps;
                true
            } else {
                false
            }
        }
    }

    /// The target frame rate.
    pub fn target_fps(&self) -> (f: u32)
        ensures
            f == self.fps(),
    {
        self.current_fps
    }
}

/// Counting from a non-negative start, the count never goes negative, and
/// it is at least the number of unchanged reports at the end.
pub proof fn lemma_run_covers_trailing(start: int, reports: Seq<bool>, t: int)
    requires
        start >= 0,
        0 <= t <= reports.len(),
        forall|i: int| reports.len() - t <= i < reports.len() ==> !#[trigger] reports[i],
    ensures
        unchanged_run(start, reports) >= t,
    decreases reports.len(),
{
    if reports.len() > 0 {
        let prefix = reports.drop_last();
        let last = reports.len() - 1;
        assert(reports.last() == reports[last]);
        if t > 0 {
            assert forall|i: int| prefix.len() - (t - 1) <= i < prefix.len() implies !#[trigger] prefix[i] by {
                assert(prefix[i] == reports[i]);
            }
            lemma_run_covers_trailing(start, prefix, t - 1);
        } else {
            if !reports.last() {
                lemma_run_covers_trailing(start, prefix, 0);
            }
        }
    }
}

/// Law: once the screen has stayed unchanged for as many frames in a row as
/// the threshold, the frame is skipped, whatever came before. The last
/// `threshold` reports being unchanged, and the count of unchanged frames
/// starting non-negative, the last frame is skipped.
pub proof fn law_skip_after_threshold_unchanged(start: int, reports: Seq<bool>, threshold: int)
    requires
        start >= 0,
        1 <= threshold <= reports.len(),
        forall|i: int| reports.len() - threshold <= i < reports.len() ==> !#[trigger] reports[i],
    ensures
        !reports.last() && unchanged_run(start, reports) >= threshold,
{
    assert(reports.last() == reports[reports.len() - 1]);
    lemma_run_covers_trailing(start, reports, threshold);
}

/// Law: after a changed frame, no frame is skipped until the threshold of
/// unchanged frames has been reached again. If a report at `j` was a change
/// and fewer than `threshold` reports follow it, the last frame is not
/// skipped.
pub proof fn law_change_resets_skipping(start: int, reports: Seq<bool>, threshold: int, j: int)
    requires
        0 <= j < reports.len(),
        reports[j],
        reports.len() - 1 - j < threshold,
    ensures
        !(!reports.last() && unchanged_run(start, reports) >= threshold),
    decreases reports.len(),
{
    let last = reports.len() - 1;
    assert(reports.last() == reports[last]);
    if j < last && !reports[last] {
        let prefix = reports.drop_last();
        assert(prefix[j] == reports[j]);
        assert(prefix.last() == reports[last - 1]);
        assert(unchanged_run(start, reports) == unchanged_run(start, prefix) + 1);
        if prefix.last() {
            assert(unchanged_run(start, prefix) == 0);
        } else {
            law_change_resets_skipping(start, prefix, threshold - 1, j);
        }
    }
}

/// Law: the target rate is the full rate until the threshold of unchanged
/// frames in a row, and the minimum from then on. Starting as a new skipper
/// does (the full rate, fewer unchanged frames counted than the threshold),
/// after any frames the rate is the minimum exactly when the unchanged
/// frames at the end number at least the threshold, and the full rate
/// otherwise.
pub proof fn law_rate_follows_unchanged_run(start: int, threshold: int, min: int, max: int, reports: Seq<bool>)
    requires
        0 <= start < threshold,
    ensures
        fps_run(max, start, threshold, min, max, reports) == (if unchanged_run(start, reports) >= threshold {
            min
        } else {
            max
        }),
    decreases reports.len(),
{
    if reports.len() > 0 {
        let prefix = reports.drop_last();
        law_rate_follows_unchanged_run(start, threshold, min, max, prefix);
        if !reports.last() {
            assert(unchanged_run(start, reports) == unchanged_run(start, prefix) + 1);
        }
    }
}

} // verus!
