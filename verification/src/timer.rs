//! Frame timing on a clock that counts nanoseconds.
//!
//! The timer does not read a clock: each tick its caller hands it the
//! clock's reading. A reading that lies before the last one is taken as the
//! last one, so time never runs backwards.

use vstd::prelude::*;

verus! {

/// The nanoseconds of a second.
pub const NANOS_PER_SECOND: u64 = 1_000_000_000;

/// The span over which frames are counted for one measurement of the frame
/// rate, in nanoseconds.
pub const FPS_WINDOW: u64 = 1_000_000_000;

/// The unit of the frame rate, per frame and nanosecond: the rate is given in
/// frames per thousand seconds.
pub const FPS_SCALE: u64 = 1_000_000_000_000;

/// What a timer holds.
pub struct TimerModel {
    /// The reading at which the timer was made.
    pub start: u64,
    /// The reading of the last tick.
    pub now: u64,
    /// The nanoseconds between the last tick and the one before it.
    pub delta: u64,
    /// The reading at which the frames began to be counted.
    pub window_start: u64,
    /// The ticks counted since then.
    pub window_frames: u32,
    /// The frame rate as last measured, in frames per thousand seconds.
    pub fps: u64,
}

impl TimerModel {
    /// The readings are in order: the start, the start of the count, the last
    /// tick.
    pub open spec fn wf(self) -> bool {
        self.start <= self.window_start <= self.now
    }
}

/// A timer made at the reading `now`.
pub open spec fn started(now: u64) -> TimerModel {
    TimerModel { start: now, now, delta: 0, window_start: now, window_frames: 0, fps: 0 }
}

/// One more frame, up to the most that the counter holds.
pub open spec fn one_more(frames: u32) -> u32 {
    if frames < u32::MAX {
        (frames + 1) as u32
    } else {
        frames
    }
}

/// The frame rate of `frames` frames in `span` nanoseconds, in frames per
/// thousand seconds, rounded down.
pub open spec fn frame_rate(frames: u32, span: u64) -> int
    recommends
        span > 0,
{
    (frames as int * FPS_SCALE as int) / (span as int)
}

/// The timer after a tick at the reading `reading`. The tick is counted. Once
/// the count has run for the length of a window, the rate is measured from it
/// and the count starts again.
pub open spec fn responded(timer: TimerModel, reading: u64) -> TimerModel {
    let now = if reading > timer.now {
        reading
    } else {
        timer.now
    };
    let frames = one_more(timer.window_frames);
    let span = now - timer.window_start;
    if span >= FPS_WINDOW {
        TimerModel {
            start: timer.start,
            now,
            delta: (now - timer.now) as u64,
            window_start: now,
            window_frames: 0,
            fps: frame_rate(frames, span as u64) as u64,
        }
    } else {
        TimerModel {
            start: timer.start,
            now,
            delta: (now - timer.now) as u64,
            window_start: timer.window_start,
            window_frames: frames,
            fps: timer.fps,
        }
    }
}

/// A tick keeps the readings in order, and the time it reports since the tick
/// before is the distance between the two readings where the clock went on,
/// and 0 where it did not.
pub proof fn lemma_responded(timer: TimerModel, reading: u64)
    requires
        timer.wf(),
    ensures
        responded(timer, reading).wf(),
        responded(timer, reading).start == timer.start,
        responded(timer, reading).now >= timer.now,
        reading >= timer.now ==> responded(timer, reading).delta == reading - timer.now,
        reading <= timer.now ==> responded(timer, reading).delta == 0,
{
}

/// The rate measured from a full window fits the field that holds it.
pub proof fn lemma_frame_rate_bound(frames: u32, span: u64)
    requires
        span >= FPS_WINDOW,
    ensures
        0 <= frame_rate(frames, span) <= frames * 1000,
{
    let scaled: int = frames as int * FPS_SCALE as int;
    let bound: int = frames as int * 1000;
    assert(scaled == bound * FPS_WINDOW as int) by (nonlinear_arith)
        requires
            scaled == frames as int * 1_000_000_000_000,
            bound == frames as int * 1000,
            FPS_WINDOW as int == 1_000_000_000,
    ;
    assert(0 <= scaled / (span as int) <= bound) by (nonlinear_arith)
        requires
            scaled == bound * 1_000_000_000,
            span as int >= 1_000_000_000,
            bound >= 0,
    ;
}

/// What a tick reads of the timer.
#[derive(Copy, Clone, Debug, PartialEq, Eq)]
pub struct State {
    now: u64,
    time: u64,
    delta_time: u64,
    fps: u64,
}

impl State {
    /// The clock's reading at the last tick.
    pub closed spec fn spec_now(&self) -> u64 {
        self.now
    }

    /// The nanoseconds from the making of the timer to the last tick.
    pub closed spec fn spec_time(&self) -> u64 {
        self.time
    }

    /// The nanoseconds between the last tick and the one before it.
    pub closed spec fn spec_delta_time(&self) -> u64 {
        self.delta_time
    }

    /// The frame rate as last measured, in frames per thousand seconds.
    pub closed spec fn spec_fps(&self) -> u64 {
        self.fps
    }

    /// The clock's reading at the last tick.
    #[verifier::when_used_as_spec(spec_now)]
    pub fn get_now(&self) -> (r: u64)
        ensures
            r == self.spec_now(),
    {
        self.now
    }

    /// The nanoseconds from the making of the timer to the last tick.
    #[verifier::when_used_as_spec(spec_time)]
    pub fn get_time(&self) -> (r: u64)
        ensures
            r == self.spec_time(),
    {
        self.time
    }

    /// The nanoseconds between the last tick and the one before it.
    #[verifier::when_used_as_spec(spec_delta_time)]
    pub fn get_delta_time(&self) -> (r: u64)
        ensures
            r == self.spec_delta_time(),
    {
        self.delta_time
    }

    /// The frame rate as last measured, in frames per thousand seconds; 0
    /// until the first window is full.
    #[verifier::when_used_as_spec(spec_fps)]
    pub fn get_fps(&self) -> (r: u64)
        ensures
            r == self.spec_fps(),
    {
        self.fps
    }
}

/// Measures the time between ticks and the frame rate.
pub struct Timer {
    start: u64,
    now: u64,
    delta: u64,
    window_start: u64,
    window_frames: u32,
    fps: u64,
}

impl View for Timer {
    type V = TimerModel;

    closed spec fn view(&self) -> TimerModel {
        TimerModel {
            start: self.start,
            now: self.now,
            delta: self.delta,
            window_start: self.window_start,
            window_frames: self.window_frames,
            fps: self.fps,
        }
    }
}

impl Timer {
    #[verifier::type_invariant]
    spec fn ordered(self) -> bool {
        self.start <= self.window_start <= self.now
    }

    /// A timer made at the clock's reading `now`.
    pub fn new(now: u64) -> (r: Self)
        ensures
            r@ == started(now),
            r@.wf(),
    {
        Timer { start: now, now, delta: 0, window_start: now, window_frames: 0, fps: 0 }
    }

    /// Takes the clock's reading for one tick.
    pub fn response(&mut self, reading: u64)
        ensures
            final(self)@ == responded(old(self)@, reading),
            final(self)@.wf(),
    {
        proof {
            use_type_invariant(&*self);
        }
        let now: u64 = if reading > self.now {
            reading
        } else {
            self.now
        };
        let frames: u32 = if self.window_frames < u32::MAX {
            self.window_frames + 1
        } else {
            self.window_frames
        };
        let span: u64 = now - self.window_start;
        self.delta = now - self.now;
        self.now = now;
        if span >= FPS_WINDOW {
            proof {
                lemma_frame_rate_bound(frames, span);
            }
            let rate: u128 = (frames as u128 * FPS_SCALE as u128) / (span as u128);
            self.fps = rate as u64;
            self.window_start = now;
            self.window_frames = 0;
        } else {
            self.window_frames = frames;
        }
    }

    /// What the last tick measured.
    pub fn get_state(&self) -> (r: State)
        ensures
            r.spec_now() == self@.now,
            r.spec_time() == self@.now - self@.start,
            r.spec_delta_time() == self@.delta,
            r.spec_fps() == self@.fps,
    {
        proof {
            use_type_invariant(self);
        }
        State {
            now: self.now,
            time: self.now - self.start,
            delta_time: self.delta,
            fps: self.fps,
        }
    }
}

} // verus!
