//! Timed frame-cycling animation, gated by a movement flag.
//!
//! The walk cycle has `total_frames` frames; the current frame fraction is
//! the exact rational `frame_index / total_frames`, which stays in [0, 1).
//! Time is an externally sampled monotonic clock in milliseconds, so the
//! logic is deterministic and the clock is an injected dependency.

use vstd::prelude::*;

verus! {

/// The timing state of the sprite's walk cycle.
pub struct AnimationState {
    /// Current frame of the cycle; always below `total_frames`, so the
    /// frame fraction `frame_index / total_frames` stays in [0, 1).
    pub frame_index: u64,
    /// Length of the cycle in frames; always positive.
    pub total_frames: u64,
    /// Clock reading, in milliseconds, at the last frame increment (or at
    /// creation, before the first increment).
    pub last_advance_time: u64,
    /// Configured time between frame increments, in milliseconds.
    pub frame_period: u64,
    /// True only while at least one directional input is held; the frame
    /// index is frozen while it is false.
    pub is_moving: bool,
}

impl AnimationState {
    /// Well-formedness: the cycle is non-empty and the frame index lies
    /// inside it, which keeps the frame fraction in [0, 1).
    pub open spec fn wf(self) -> bool {
        0 < self.total_frames && self.frame_index < self.total_frames
    }

    /// A fresh cycle: at frame zero, not moving, with the last advance set
    /// to the clock reading `now`.
    pub fn new(total_frames: u64, frame_period: u64, now: u64) -> (s: AnimationState)
        requires
            0 < total_frames,
        ensures
            s == (AnimationState {
                frame_index: 0,
                total_frames,
                last_advance_time: now,
                frame_period,
                is_moving: false,
            }),
            s.wf(),
    {
        AnimationState {
            frame_index: 0,
            total_frames,
            last_advance_time: now,
            frame_period,
            is_moving: false,
        }
    }

    /// Advances the cycle by at most one frame: a no-op unless the entity is
    /// moving and at least `frame_period` milliseconds have passed since
    /// `last_advance_time`. However many periods have elapsed, only a single
    /// increment occurs per call — ticks finer than the period are the
    /// expected driving cadence, and missed time is not caught up in a burst.
    /// A `now` earlier than `last_advance_time` (a stale sample) simply
    /// fails the threshold and changes nothing.
    pub fn advance_animation(&mut self, now: u64)
        requires
            old(self).wf(),
        ensures
            *final(self) == spec_advance_animation(*old(self), now),
            final(self).wf(),
    {
        if self.is_moving && now >= self.last_advance_time
            && now - self.last_advance_time >= self.frame_period {
            self.last_advance_time = now;
            self.frame_index = if self.frame_index + 1 < self.total_frames {
                self.frame_index + 1
            } else {
                0
            };
        }
    }
}

/// Whether a call of `advance_animation` at clock reading `now` increments
/// the frame: the entity is moving and a full period has elapsed.
pub open spec fn advance_fires(s: AnimationState, now: u64) -> bool {
    s.is_moving && now >= s.last_advance_time + s.frame_period
}

/// The frame that follows `i` in a cycle of `total` frames: one step
/// forward, wrapping to zero at the end of the cycle.
pub open spec fn next_frame_index(i: u64, total: u64) -> u64 {
    if i + 1 < total {
        (i + 1) as u64
    } else {
        0
    }
}

/// The state after one `advance_animation` call at clock reading `now`:
/// unchanged unless the call fires, in which case the frame steps once and
/// the advance time is resampled.
pub open spec fn spec_advance_animation(s: AnimationState, now: u64) -> AnimationState {
    if advance_fires(s, now) {
        AnimationState {
            frame_index: next_frame_index(s.frame_index, s.total_frames),
            last_advance_time: now,
            ..s
        }
    } else {
        s
    }
}

/// The state after a series of `advance_animation` calls at the given clock
/// readings, in order.
pub open spec fn spec_advance_at_times(s: AnimationState, times: Seq<u64>) -> AnimationState
    decreases times.len(),
{
    if times.len() == 0 {
        s
    } else {
        spec_advance_at_times(spec_advance_animation(s, times[0]), times.drop_first())
    }
}

/// Whether every call in the series finds the entity moving with a full
/// period elapsed, so that each one increments the frame.
pub open spec fn all_advances_fire(s: AnimationState, times: Seq<u64>) -> bool
    decreases times.len(),
{
    times.len() == 0 || (advance_fires(s, times[0]) && all_advances_fire(
        spec_advance_animation(s, times[0]),
        times.drop_first(),
    ))
}

/// The frame reached from `i` after `k` single steps through a cycle of
/// `total` frames.
pub open spec fn advance_n(i: u64, total: u64, k: nat) -> u64
    decreases k,
{
    if k == 0 {
        i
    } else {
        advance_n(next_frame_index(i, total), total, (k - 1) as nat)
    }
}

/// Closed form of `advance_n` for at most one trip around the cycle.
proof fn lemma_advance_n_value(i: u64, total: u64, k: nat)
    requires
        0 < total,
        i < total,
        k <= total,
    ensures
        advance_n(i, total, k) == if i + k < total {
            i + k
        } else {
            i + k - total
        },
    decreases k,
{
    if k > 0 {
        lemma_advance_n_value(next_frame_index(i, total), total, (k - 1) as nat);
    }
}

/// Advancing never breaks well-formedness: the frame index stays inside the
/// cycle, so the frame fraction never leaves [0, 1).
pub proof fn lemma_advance_preserves_wf(s: AnimationState, now: u64)
    requires
        s.wf(),
    ensures
        spec_advance_animation(s, now).wf(),
{
}

/// A series of advances that all fire steps the frame index once per call
/// and never touches the cycle length.
proof fn lemma_advance_at_times_index(s: AnimationState, times: Seq<u64>)
    requires
        s.wf(),
        all_advances_fire(s, times),
    ensures
        spec_advance_at_times(s, times).total_frames == s.total_frames,
        spec_advance_at_times(s, times).frame_index == advance_n(
            s.frame_index,
            s.total_frames,
            times.len(),
        ),
    decreases times.len(),
{
    if times.len() > 0 {
        lemma_advance_preserves_wf(s, times[0]);
        lemma_advance_at_times_index(spec_advance_animation(s, times[0]), times.drop_first());
    }
}

/// Cycle closure: after exactly `total_frames` advances that each fire, the
/// frame index is back where it began — in particular, a cycle started at
/// frame zero returns to zero.
pub proof fn lemma_cycle_closure(s: AnimationState, times: Seq<u64>)
    requires
        s.wf(),
        all_advances_fire(s, times),
        times.len() == s.total_frames,
    ensures
        spec_advance_at_times(s, times).frame_index == s.frame_index,
{
    lemma_advance_at_times_index(s, times);
    lemma_advance_n_value(s.frame_index, s.total_frames, times.len());
}

/// While the entity is not moving, advancing is a no-op whatever the clock
/// says: elapsed time alone never moves the frame.
pub proof fn lemma_advance_noop_when_idle(s: AnimationState, now: u64)
    requires
        !s.is_moving,
    ensures
        spec_advance_animation(s, now) == s,
{
}

/// No burst catch-up: two calls less than one period apart trigger at most
/// one increment between them, even if the time elapsed since the earlier
/// `last_advance_time` spans several periods — a firing call resamples the
/// advance time, so the next call within a period cannot fire.
pub proof fn lemma_no_burst_catch_up(s: AnimationState, t1: u64, t2: u64)
    requires
        t1 <= t2,
        t2 < t1 + s.frame_period,
    ensures
        !(advance_fires(s, t1) && advance_fires(spec_advance_animation(s, t1), t2)),
{
}

} // verus!
