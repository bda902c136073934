//! Frame-rate accounting of the engine.
//!
//! Each frame the engine is told how much time went by since the previous
//! frame. It counts frames (the 32-bit count wraps around to zero, as an
//! unchecked `u32` addition does) and accumulates time; as soon as at least one second
//! has accumulated it records a measurement (frames counted over the time that
//! accumulated), restarts the frame count and takes exactly one second off the
//! accumulated time. Time is held in nanoseconds, which represents every
//! `std::time::Duration` exactly.

use vstd::prelude::*;

verus! {

/// Nanoseconds in one second: the length of a frame-rate window.
pub const NANOS_PER_SEC: u128 = 1_000_000_000;

/// The longest span a `std::time::Duration` can hold, in nanoseconds
/// (`u64::MAX` seconds and 999 999 999 nanoseconds).
pub const DURATION_MAX_NANOS: u128 = 18_446_744_073_709_551_615_999_999_999;

/// One frame-rate measurement: `frames` frames were counted while
/// `window_nanos` nanoseconds accumulated. The frame rate is their quotient,
/// in frames per second.
#[derive(Clone, Copy, Debug, PartialEq, Eq)]
pub struct FpsSample {
    pub frames: u32,
    pub window_nanos: u128,
}

/// Frame counter and time accumulator of the engine.
pub struct FrameTimer {
    frame_count: u32,
    fps_update_timer: u128,
    last_sample: Option<FpsSample>,
}

/// What a `FrameTimer` holds, as mathematical values.
pub struct FrameTimerView {
    /// Frames counted since the last measurement.
    pub frame_count: nat,
    /// Nanoseconds accumulated toward the next measurement.
    pub pending_nanos: nat,
    /// The latest measurement, if one was taken.
    pub last_sample: Option<FpsSample>,
}

impl View for FrameTimer {
    type V = FrameTimerView;

    closed spec fn view(&self) -> FrameTimerView {
        FrameTimerView {
            frame_count: self.frame_count as nat,
            pending_nanos: self.fps_update_timer as nat,
            last_sample: self.last_sample,
        }
    }
}

/// Number of values of the 32-bit frame count.
pub open spec fn frame_count_modulus() -> nat {
    0x1_0000_0000
}

/// A frame can be counted when the accumulated time stays a valid `Duration`.
pub open spec fn can_tick(s: FrameTimerView, delta_nanos: nat) -> bool {
    s.pending_nanos + delta_nanos <= DURATION_MAX_NANOS
}

/// The frame count after one more frame: one more, wrapping around to zero
/// after `u32::MAX`.
pub open spec fn next_count(count: nat) -> nat {
    (count + 1) % frame_count_modulus()
}

/// Whether counting a frame that took `delta_nanos` completes a window.
pub open spec fn completes_window(s: FrameTimerView, delta_nanos: nat) -> bool {
    s.pending_nanos + delta_nanos >= NANOS_PER_SEC
}

/// The state after counting one frame that took `delta_nanos`.
pub open spec fn after_tick(s: FrameTimerView, delta_nanos: nat) -> FrameTimerView {
    let frames = next_count(s.frame_count);
    let elapsed = s.pending_nanos + delta_nanos;
    if elapsed >= NANOS_PER_SEC {
        FrameTimerView {
            frame_count: 0,
            pending_nanos: (elapsed - NANOS_PER_SEC) as nat,
            last_sample: Some(FpsSample { frames: frames as u32, window_nanos: elapsed as u128 }),
        }
    } else {
        FrameTimerView { frame_count: frames, pending_nanos: elapsed, last_sample: s.last_sample }
    }
}

/// No time is lost or invented: what is pending after a frame, plus the
/// second taken off when a measurement was made, is what was pending before
/// plus the frame's duration.
pub proof fn lemma_time_conserved(s: FrameTimerView, delta_nanos: nat)
    ensures
        after_tick(s, delta_nanos).pending_nanos + (if completes_window(s, delta_nanos) {
            NANOS_PER_SEC as nat
        } else {
            0nat
        }) == s.pending_nanos + delta_nanos,
{
}

/// No frame is lost or counted twice: the frames pending after a frame, plus
/// those handed to a measurement taken then, are those pending before plus
/// one (short of a full frame count, which wraps around).
pub proof fn lemma_frames_conserved(s: FrameTimerView, delta_nanos: nat)
    requires
        s.frame_count < u32::MAX,
    ensures
        after_tick(s, delta_nanos).frame_count + (if completes_window(s, delta_nanos) {
            after_tick(s, delta_nanos).last_sample->0.frames as nat
        } else {
            0nat
        }) == s.frame_count + 1,
{
}

/// A measurement covers at least one second and, short of a full frame count,
/// at least one frame, so the frame rate it gives never exceeds the frames it
/// counted; a frame that does not complete a window keeps the previous
/// measurement.
pub proof fn lemma_measurement_window(s: FrameTimerView, delta_nanos: nat)
    requires
        can_tick(s, delta_nanos),
    ensures
        completes_window(s, delta_nanos) ==> {
            let m = after_tick(s, delta_nanos).last_sample->0;
            &&& after_tick(s, delta_nanos).last_sample is Some
            &&& m.window_nanos >= NANOS_PER_SEC
            &&& s.frame_count < u32::MAX ==> m.frames >= 1
            &&& m.window_nanos == s.pending_nanos + delta_nanos
            &&& after_tick(s, delta_nanos).frame_count == 0
        },
        !completes_window(s, delta_nanos) ==> after_tick(s, delta_nanos).last_sample
            == s.last_sample,
{
}

/// While frames come faster than one per second, every frame can be counted
/// (whatever the frame count) and less than a second stays pending after it.
pub proof fn lemma_pending_stays_below_a_second(s: FrameTimerView, delta_nanos: nat)
    requires
        s.pending_nanos < NANOS_PER_SEC,
        delta_nanos < NANOS_PER_SEC,
    ensures
        can_tick(s, delta_nanos),
        after_tick(s, delta_nanos).pending_nanos < NANOS_PER_SEC,
{
}

/// A frame completes a measurement window exactly when, with its duration,
/// at least one second has accumulated; then the measurement is the frames
/// counted (this one included) over all the time accumulated, the count
/// restarts at zero and one second is taken off. Otherwise the frame is
/// counted, its duration accumulates and the previous measurement stays.
pub proof fn lemma_measures_exactly_when_a_second_accumulates(s: FrameTimerView, delta_nanos: nat)
    requires
        s.frame_count <= u32::MAX,
        can_tick(s, delta_nanos),
    ensures
        completes_window(s, delta_nanos) <==> s.pending_nanos + delta_nanos >= NANOS_PER_SEC,
        s.pending_nanos + delta_nanos >= NANOS_PER_SEC ==> {
            &&& after_tick(s, delta_nanos).last_sample == Some(
                FpsSample {
                    frames: ((s.frame_count + 1) % 0x1_0000_0000) as u32,
                    window_nanos: (s.pending_nanos + delta_nanos) as u128,
                },
            )
            &&& after_tick(s, delta_nanos).frame_count == 0
            &&& after_tick(s, delta_nanos).pending_nanos + NANOS_PER_SEC == s.pending_nanos
                + delta_nanos
        },
        s.pending_nanos + delta_nanos < NANOS_PER_SEC ==> {
            &&& after_tick(s, delta_nanos).last_sample == s.last_sample
            &&& after_tick(s, delta_nanos).frame_count == (s.frame_count + 1) % 0x1_0000_0000
            &&& after_tick(s, delta_nanos).pending_nanos == s.pending_nanos + delta_nanos
        },
{
}

impl FrameTimer {
    /// A timer that has counted nothing and measured nothing.
    pub fn new() -> (t: FrameTimer)
        ensures
            t@.frame_count == 0,
            t@.pending_nanos == 0,
            t@.last_sample is None,
    {
        FrameTimer { frame_count: 0, fps_update_timer: 0, last_sample: None }
    }

    /// Counts one frame that took `delta_nanos` nanoseconds. Returns whether a
    /// new measurement was taken.
    pub fn update(&mut self, delta_nanos: u128) -> (measured: bool)
        requires
            can_tick(old(self)@, delta_nanos as nat),
        ensures
            final(self)@ == after_tick(old(self)@, delta_nanos as nat),
            measured == completes_window(old(self)@, delta_nanos as nat),
            measured <==> old(self)@.pending_nanos + delta_nanos >= NANOS_PER_SEC,
            measured ==> {
                &&& final(self)@.last_sample == Some(
                    FpsSample {
                        frames: ((old(self)@.frame_count + 1) % 0x1_0000_0000) as u32,
                        window_nanos: (old(self)@.pending_nanos + delta_nanos) as u128,
                    },
                )
                &&& final(self)@.frame_count == 0
                &&& final(self)@.pending_nanos + NANOS_PER_SEC == old(self)@.pending_nanos
                    + delta_nanos
            },
            !measured ==> {
                &&& final(self)@.last_sample == old(self)@.last_sample
                &&& final(self)@.frame_count == (old(self)@.frame_count + 1) % 0x1_0000_0000
                &&& final(self)@.pending_nanos == old(self)@.pending_nanos + delta_nanos
            },
    {
        self.frame_count = if self.frame_count == u32::MAX {
            0
        } else {
            self.frame_count + 1
        };
        self.fps_update_timer = self.fps_update_timer + delta_nanos;
        if self.fps_update_timer >= NANOS_PER_SEC {
            self.last_sample = Some(
                FpsSample { frames: self.frame_count, window_nanos: self.fps_update_timer },
            );
            self.frame_count = 0;
            self.fps_update_timer = self.fps_update_timer - NANOS_PER_SEC;
            true
        } else {
            false
        }
    }

    /// The latest measurement, if one was taken.
    pub fn last_sample(&self) -> (s: Option<FpsSample>)
        ensures
            s == self@.last_sample,
    {
        self.last_sample
    }

    /// Frames counted since the latest measurement.
    pub fn frame_count(&self) -> (n: u32)
        ensures
            n == self@.frame_count,
    {
        self.frame_count
    }

    /// Nanoseconds accumulated toward the next measurement.
    pub fn pending_nanos(&self) -> (n: u128)
        ensures
            n == self@.pending_nanos,
    {
        self.fps_update_timer
    }
}

} // verus!
