//! Frame-time statistics: the rolling window of recent frame durations and
//! the frame rate derived from it.
//!
//! Durations are whole nanoseconds. A frame rate is a whole number of
//! hundredths of a frame per second, which is the precision the overlay shows.

use std::collections::VecDeque;
use vstd::prelude::*;

verus! {

/// Number of frame durations the rolling window holds.
pub const WINDOW_LEN: usize = 60;

/// Nanoseconds in one second.
pub const NANOS_PER_SECOND: u64 = 1_000_000_000;

/// Hundredths of a frame per second in one frame per nanosecond.
pub const RATE_SCALE: u64 = 100 * NANOS_PER_SECOND;

/// Sum of a sequence of durations.
pub open spec fn total_nanos(samples: Seq<u64>) -> int
    decreases samples.len(),
{
    if samples.len() == 0 {
        0
    } else {
        total_nanos(samples.drop_last()) + samples.last()
    }
}

/// The window after one more frame: the oldest duration leaves, the newest
/// joins at the back.
pub open spec fn slide(window: Seq<u64>, sample: u64) -> Seq<u64> {
    window.drop_first().push(sample)
}

/// The window after a whole run of frames, oldest first.
pub open spec fn slide_all(window: Seq<u64>, samples: Seq<u64>) -> Seq<u64>
    decreases samples.len(),
{
    if samples.len() == 0 {
        window
    } else {
        slide(slide_all(window, samples.drop_last()), samples.last())
    }
}

/// The exact frame rate of a window, in hundredths of a frame per second,
/// rounded down: the number of frames over the time they took. Only
/// meaningful when the durations do not sum to zero.
pub open spec fn exact_rate(samples: Seq<u64>) -> int {
    samples.len() * RATE_SCALE / total_nanos(samples)
}

/// The frame rate of a window as `calculate_fps` reports it: none when the
/// durations sum to zero, otherwise the exact rate, capped at `u64::MAX`.
pub open spec fn frame_rate(samples: Seq<u64>) -> Option<u64> {
    if total_nanos(samples) == 0 {
        None
    } else if exact_rate(samples) > u64::MAX {
        Some(u64::MAX)
    } else {
        Some(exact_rate(samples) as u64)
    }
}

/// A sum of durations is never negative and never exceeds what that many
/// full-range durations add up to.
pub proof fn lemma_total_bounds(samples: Seq<u64>)
    ensures
        0 <= total_nanos(samples) <= samples.len() * u64::MAX,
    decreases samples.len(),
{
    if samples.len() > 0 {
        lemma_total_bounds(samples.drop_last());
    }
}

/// Appending one duration adds it to the sum.
pub proof fn lemma_total_push(samples: Seq<u64>, sample: u64)
    ensures
        total_nanos(samples.push(sample)) == total_nanos(samples) + sample,
{
    assert(samples.push(sample).drop_last() =~= samples);
}

/// Durations sum to zero exactly when each of them is zero.
pub proof fn lemma_total_zero(samples: Seq<u64>)
    ensures
        total_nanos(samples) == 0 <==> forall|i: int|
            0 <= i < samples.len() ==> #[trigger] samples[i] == 0,
    decreases samples.len(),
{
    if samples.len() > 0 {
        let front = samples.drop_last();
        lemma_total_zero(front);
        lemma_total_bounds(front);
        assert(forall|i: int| 0 <= i < front.len() ==> front[i] == samples[i]);
        if total_nanos(samples) == 0 {
            assert forall|i: int| 0 <= i < samples.len() implies #[trigger] samples[i] == 0 by {
                if i < front.len() {
                    assert(front[i] == 0);
                }
            }
        }
    }
}

/// Frames that all took the same time sum to that time, times their number.
pub proof fn lemma_total_steady(samples: Seq<u64>, duration: u64)
    requires
        forall|i: int| 0 <= i < samples.len() ==> #[trigger] samples[i] == duration,
    ensures
        total_nanos(samples) == samples.len() * duration,
    decreases samples.len(),
{
    if samples.len() > 0 {
        let front = samples.drop_last();
        assert(forall|i: int| 0 <= i < front.len() ==> front[i] == samples[i]);
        lemma_total_steady(front, duration);
        assert(samples.len() * duration == front.len() * duration + duration) by (nonlinear_arith)
            requires
                samples.len() == front.len() + 1,
        ;
    }
}

/// However many durations are pushed into a window, it keeps its length.
pub proof fn window_keeps_its_length(window: Seq<u64>, samples: Seq<u64>)
    requires
        window.len() > 0,
    ensures
        slide_all(window, samples).len() == window.len(),
    decreases samples.len(),
{
    if samples.len() > 0 {
        window_keeps_its_length(window, samples.drop_last());
    }
}

/// The window is first in, first out: after any run of frames it holds the
/// most recent durations, in the order they came.
pub proof fn window_holds_most_recent(window: Seq<u64>, samples: Seq<u64>)
    requires
        window.len() > 0,
    ensures
        slide_all(window, samples) == (window + samples).subrange(
            samples.len() as int,
            (samples.len() + window.len()) as int,
        ),
    decreases samples.len(),
{
    if samples.len() == 0 {
        assert(window =~= (window + samples).subrange(0, window.len() as int));
    } else {
        let front = samples.drop_last();
        window_holds_most_recent(window, front);
        window_keeps_its_length(window, front);
        assert(slide_all(window, samples) =~= (window + samples).subrange(
            samples.len() as int,
            (samples.len() + window.len()) as int,
        ));
    }
}

/// A window has no frame rate exactly when all its durations are zero, as
/// they are before the first frame.
pub proof fn no_rate_without_time(samples: Seq<u64>)
    ensures
        frame_rate(samples) is None <==> forall|i: int|
            0 <= i < samples.len() ==> #[trigger] samples[i] == 0,
{
    lemma_total_zero(samples);
}

/// The exact rate is the inverse of the mean duration, rounded down to a
/// whole hundredth of a frame per second: it is the largest number whose
/// product with the time taken does not exceed the scaled number of frames.
pub proof fn rate_is_inverse_of_mean(samples: Seq<u64>)
    requires
        total_nanos(samples) != 0,
    ensures
        0 <= exact_rate(samples),
        exact_rate(samples) * total_nanos(samples) <= samples.len() * RATE_SCALE,
        samples.len() * RATE_SCALE < (exact_rate(samples) + 1) * total_nanos(samples),
{
    lemma_total_bounds(samples);
    let frames = samples.len() * RATE_SCALE;
    let total = total_nanos(samples);
    vstd::arithmetic::div_mod::lemma_fundamental_div_mod(frames, total);
    vstd::arithmetic::div_mod::lemma_mod_bound(frames, total);
    vstd::arithmetic::div_mod::lemma_div_pos_is_pos(frames, total);
    assert(total * (frames / total) == (frames / total) * total) by (nonlinear_arith);
    assert((frames / total + 1) * total == (frames / total) * total + total) by (nonlinear_arith);
}

/// Frames that each took the same non-zero time give the inverse of that
/// time as the rate, however many they are: a thirtieth of a second each
/// gives thirty frames per second.
pub proof fn steady_frames_give_steady_rate(samples: Seq<u64>, duration: u64)
    requires
        samples.len() > 0,
        duration > 0,
        forall|i: int| 0 <= i < samples.len() ==> #[trigger] samples[i] == duration,
    ensures
        frame_rate(samples) == Some((RATE_SCALE / duration) as u64),
{
    lemma_total_steady(samples, duration);
    let count = samples.len() as int;
    vstd::arithmetic::div_mod::lemma_div_multiples_vanish_quotient(
        count,
        RATE_SCALE as int,
        duration as int,
    );
    assert(RATE_SCALE / duration <= RATE_SCALE) by (nonlinear_arith)
        requires
            duration > 0,
    ;
    assert(0 <= RATE_SCALE / duration) by (nonlinear_arith)
        requires
            duration > 0,
    ;
}

/// Frame rate in hundredths of a frame per second: the number of samples
/// divided by the seconds they sum to. A window whose durations sum to zero
/// has no rate.
pub fn calculate_fps(times: &VecDeque<u64>) -> (fps: Option<u64>)
    ensures
        fps == frame_rate(times@),
{
    let count: usize = times.len();
    let mut total: u128 = 0;
    let mut i: usize = 0;
    while i < count
        invariant
            count == times@.len(),
            i <= count,
            total == total_nanos(times@.subrange(0, i as int)),
            total <= i * u64::MAX,
        decreases count - i,
    {
        let sample: u64 = times[i];
        proof {
            lemma_total_push(times@.subrange(0, i as int), sample);
            assert(times@.subrange(0, i as int).push(sample) =~= times@.subrange(0, i + 1));
        }
        total = total + sample as u128;
        i = i + 1;
    }
    assert(times@.subrange(0, count as int) =~= times@);
    if total == 0 {
        None
    } else {
        assert(count * RATE_SCALE <= u64::MAX * RATE_SCALE) by (nonlinear_arith)
            requires
                count <= u64::MAX,
        ;
        let frames: u128 = count as u128 * RATE_SCALE as u128;
        let rate: u128 = frames / total;
        if rate > u64::MAX as u128 {
            Some(u64::MAX)
        } else {
            Some(rate as u64)
        }
    }
}

/// The rolling window of the most recent frame durations, oldest first.
pub struct FrameTimes {
    samples: VecDeque<u64>,
}

impl View for FrameTimes {
    type V = Seq<u64>;

    closed spec fn view(&self) -> Seq<u64> {
        self.samples@
    }
}

impl FrameTimes {
    /// The window always holds exactly `WINDOW_LEN` durations.
    pub open spec fn wf(&self) -> bool {
        self@.len() == WINDOW_LEN
    }

    /// A window seeded with zero durations.
    pub fn new() -> (window: Self)
        ensures
            window.wf(),
            forall|i: int| 0 <= i < WINDOW_LEN ==> window@[i] == 0,
    {
        let mut samples: VecDeque<u64> = VecDeque::new();
        let mut i: usize = 0;
        while i < WINDOW_LEN
            invariant
                i <= WINDOW_LEN,
                samples@.len() == i,
                forall|k: int| 0 <= k < i ==> samples@[k] == 0,
            decreases WINDOW_LEN - i,
        {
            samples.push_back(0);
            i = i + 1;
        }
        FrameTimes { samples }
    }

    /// Records the newest frame duration and evicts the oldest.
    pub fn push(&mut self, sample: u64)
        requires
            old(self).wf(),
        ensures
            final(self).wf(),
            final(self)@ == slide(old(self)@, sample),
    {
        let _ = self.samples.pop_front();
        self.samples.push_back(sample);
        assert(self.samples@ =~= slide(old(self).samples@, sample));
    }

    /// The durations in the window, oldest first.
    pub fn samples(&self) -> (samples: &VecDeque<u64>)
        ensures
            samples@ == self@,
    {
        &self.samples
    }

    /// The frame rate over the window.
    pub fn fps(&self) -> (fps: Option<u64>)
        ensures
            fps == frame_rate(self@),
    {
        calculate_fps(&self.samples)
    }
}

} // verus!
