//! Framerate and time based stuff

use std::time::Duration;
use std::time::SystemTime;
use vstd::prelude::*;
use crate::context::EngineContext;
use crate::rendering::GpuBackend;
use crate::utils::unwrap_ref;

verus! {

/// A point in time as the system clock tells it.
#[verifier::external_type_specification]
#[verifier::external_body]
pub struct ExSystemTime(SystemTime);

/// Calls `SystemTime::now`: the time that the system clock tells at the
/// moment of the call. Nothing is known of it.
#[verifier::external_body]
fn system_time_now() -> (now: SystemTime) {
    SystemTime::now()
}

/// The time that passed from `earlier` to `later` as
/// `SystemTime::duration_since` tells it, or nothing where `earlier` is the
/// later of the two.
pub uninterp spec fn elapsed_between(later: SystemTime, earlier: SystemTime) -> Option<Duration>;

/// The whole nanoseconds that a duration holds, as `Duration::as_nanos`
/// tells them.
pub uninterp spec fn nanos_in(duration: Duration) -> u128;

/// Calls `SystemTime::duration_since`: the time that passed from `earlier`
/// to `later`, or nothing where `earlier` is the later of the two. It
/// depends on the two points in time alone.
#[verifier::external_body]
fn duration_between(later: &SystemTime, earlier: &SystemTime) -> (passed: Option<Duration>)
    ensures
        passed == elapsed_between(*later, *earlier),
{
    later.duration_since(*earlier).ok()
}

/// Calls `Duration::as_nanos`: the whole nanoseconds that the duration
/// holds. They depend on the duration alone.
#[verifier::external_body]
fn nanos_of(duration: &Duration) -> (nanos: u128)
    ensures
        nanos == nanos_in(*duration),
{
    duration.as_nanos()
}

/// Counts the frames and measures how long the last one took.
pub struct ChronoSystem {
    /// The number of frames that have started.
    frame_number: u64,
    /// Time when `start_new_frame()` was last called.
    curr_frame_start: Option<SystemTime>,
    /// Is None for the very first frame, should be Some(Duration) for all other frames.
    last_frame_duration: Option<Duration>,
}

impl ChronoSystem {
    /// The number of frames that have started.
    pub closed spec fn frames(&self) -> u64 {
        self.frame_number
    }

    /// The time at which the current frame started.
    pub closed spec fn frame_start(&self) -> Option<SystemTime> {
        self.curr_frame_start
    }

    /// The time that the previous frame took, where it was measured.
    pub closed spec fn measured(&self) -> Option<Duration> {
        self.last_frame_duration
    }

    /// What the previous frame took, if the next frame starts at `now`: the
    /// time from the start of the current frame to `now`; what was measured
    /// before, if no frame has started yet.
    pub open spec fn measured_at(&self, now: SystemTime) -> Option<Duration> {
        match self.frame_start() {
            Some(start) => elapsed_between(now, start),
            None => self.measured(),
        }
    }

    /// `post` is the system after a new frame has started in `self`, at
    /// the time that it knows as the start of the frame.
    pub open spec fn frame_started(&self, post: Self) -> bool {
        &&& post.frames() == self.frames() + 1
        &&& post.frame_start() is Some
        &&& post.measured() == self.measured_at(post.frame_start()->0)
    }

    /// No frame has started and nothing was measured.
    pub fn new() -> (system: Self)
        ensures
            system.frames() == 0,
            system.frame_start() is None,
            system.measured() is None,
    {
        ChronoSystem { frame_number: 0, curr_frame_start: None, last_frame_duration: None }
    }

    /// The number of frames that have started.
    pub fn frame_number(&self) -> (frame_number: u64)
        ensures
            frame_number == self.frames(),
    {
        self.frame_number
    }

    /// Starts a new frame at the time that the system clock tells and ends
    /// the previous one, if there is one: the time from its start to the
    /// start of the new frame is then what the previous frame took, and
    /// nothing where the clock went backwards.
    pub fn start_new_frame(&mut self)
        requires
            old(self).frames() < u64::MAX,
        ensures
            old(self).frame_started(*final(self)),
    {
        let now = system_time_now();
        self.start_new_frame_at(now);
    }

    /// Starts a new frame at the time `now` and ends the previous one, if
    /// there is one: the time from its start to `now` is then what the
    /// previous frame took, and nothing where the clock went backwards.
    pub fn start_new_frame_at(&mut self, now: SystemTime)
        requires
            old(self).frames() < u64::MAX,
        ensures
            final(self).frame_start() == Some(now),
            old(self).frame_started(*final(self)),
    {
        if let Some(start) = &self.curr_frame_start {
            self.last_frame_duration = duration_between(&now, start);
        }
        self.curr_frame_start = Some(now);
        self.frame_number += 1;
    }

    /// The time that the previous frame took in nanoseconds, where it was
    /// measured: not in the first frame.
    pub fn last_frame_nanos(&self) -> (nanos: Option<u128>)
        ensures
            nanos == (match self.measured() {
                Some(duration) => Some(nanos_in(duration)),
                None => None,
            }),
    {
        match &self.last_frame_duration {
            Some(duration) => Some(nanos_of(duration)),
            None => None,
        }
    }
}

/// Returns nothing for the first frame, and the duration of the previous
/// frame in nanoseconds for the other frames for which it was measured.
pub fn delta_time_nanos<G: GpuBackend>(ctx: &EngineContext<G>) -> (nanos: Option<u128>)
    requires
        ctx.chrono_system is Some,
    ensures
        nanos == (match ctx.chrono_system->0.measured() {
            Some(duration) => Some(nanos_in(duration)),
            None => None,
        }),
{
    unwrap_ref(&ctx.chrono_system).last_frame_nanos()
}

} // verus!
