//! The multi-rate scheduler: four independently-periodic timers driven by
//! one wall-clock sample per loop iteration.
//!
//! One iteration samples the clock once, feeds the same elapsed interval to
//! all four timers (so no subsystem ever observes a different elapsed time
//! than another), runs the phase of each sprung timer, and finally sleeps
//! for the tightest remainder net of the work already done.  The clock,
//! event source and renderer are collaborators outside this core: the
//! caller hands in monotone timestamps and performs the phases.

use crate::timer::Timer;
use vstd::prelude::*;

verus! {

/// Owns the four phase timers (input poll, simulation, render, stats), the
/// timestamp of the last wall-clock sample, and the rolling frame counter
/// with the last published frame rate.
pub struct Scheduler {
    input_timer: Timer,
    logic_timer: Timer,
    render_timer: Timer,
    fps_timer: Timer,
    last_sample: u64,
    frames_rendered: u32,
    frame_rate: u32,
}

impl Scheduler {
    pub closed spec fn spec_input_timer(self) -> Timer {
        self.input_timer
    }

    pub closed spec fn spec_logic_timer(self) -> Timer {
        self.logic_timer
    }

    pub closed spec fn spec_render_timer(self) -> Timer {
        self.render_timer
    }

    pub closed spec fn spec_fps_timer(self) -> Timer {
        self.fps_timer
    }

    pub closed spec fn spec_last_sample(self) -> u64 {
        self.last_sample
    }

    pub closed spec fn spec_frames_rendered(self) -> u32 {
        self.frames_rendered
    }

    pub closed spec fn spec_frame_rate(self) -> u32 {
        self.frame_rate
    }

    pub open spec fn wf(self) -> bool {
        &&& self.spec_input_timer().wf()
        &&& self.spec_logic_timer().wf()
        &&& self.spec_render_timer().wf()
        &&& self.spec_fps_timer().wf()
    }

    /// The tightest time to the next spring over all four timers.
    pub open spec fn spec_min_remainder(self) -> int {
        let a = self.spec_input_timer().spec_remainder();
        let b = self.spec_logic_timer().spec_remainder();
        let c = self.spec_render_timer().spec_remainder();
        let d = self.spec_fps_timer().spec_remainder();
        let ab = if a <= b {
            a
        } else {
            b
        };
        let abc = if ab <= c {
            ab
        } else {
            c
        };
        if abc <= d {
            abc
        } else {
            d
        }
    }

    /// Seeds the four timers with their periods (nanoseconds) and records
    /// the first wall-clock sample.
    pub fn new(
        input_period: u64,
        logic_period: u64,
        render_period: u64,
        fps_period: u64,
        now: u64,
    ) -> (s: Scheduler)
        requires
            input_period > 0,
            logic_period > 0,
            render_period > 0,
            fps_period > 0,
        ensures
            s.wf(),
            s.spec_input_timer().period() == input_period,
            s.spec_logic_timer().period() == logic_period,
            s.spec_render_timer().period() == render_period,
            s.spec_fps_timer().period() == fps_period,
            s.spec_input_timer().accumulated() == 0,
            s.spec_logic_timer().accumulated() == 0,
            s.spec_render_timer().accumulated() == 0,
            s.spec_fps_timer().accumulated() == 0,
            s.spec_last_sample() == now,
            s.spec_frames_rendered() == 0,
            s.spec_frame_rate() == 0,
    {
        Scheduler {
            input_timer: Timer::new(input_period),
            logic_timer: Timer::new(logic_period),
            render_timer: Timer::new(render_period),
            fps_timer: Timer::new(fps_period),
            last_sample: now,
            frames_rendered: 0,
            frame_rate: 0,
        }
    }

    /// Feeds one wall-clock sample to all four timers at once and advances
    /// the last-sample mark, returning the shared elapsed interval.
    pub fn sample(&mut self, now: u64) -> (dt: u64)
        requires
            now >= old(self).spec_last_sample(),
            old(self).spec_input_timer().accumulated() + (now - old(self).spec_last_sample())
                <= u64::MAX,
            old(self).spec_logic_timer().accumulated() + (now - old(self).spec_last_sample())
                <= u64::MAX,
            old(self).spec_render_timer().accumulated() + (now - old(self).spec_last_sample())
                <= u64::MAX,
            old(self).spec_fps_timer().accumulated() + (now - old(self).spec_last_sample())
                <= u64::MAX,
        ensures
            dt == now - old(self).spec_last_sample(),
            final(self).spec_last_sample() == now,
            final(self).spec_input_timer().period() == old(self).spec_input_timer().period(),
            final(self).spec_logic_timer().period() == old(self).spec_logic_timer().period(),
            final(self).spec_render_timer().period() == old(self).spec_render_timer().period(),
            final(self).spec_fps_timer().period() == old(self).spec_fps_timer().period(),
            final(self).spec_input_timer().accumulated() == old(
                self,
            ).spec_input_timer().accumulated() + dt,
            final(self).spec_logic_timer().accumulated() == old(
                self,
            ).spec_logic_timer().accumulated() + dt,
            final(self).spec_render_timer().accumulated() == old(
                self,
            ).spec_render_timer().accumulated() + dt,
            final(self).spec_fps_timer().accumulated() == old(self).spec_fps_timer().accumulated()
                + dt,
            final(self).spec_frames_rendered() == old(self).spec_frames_rendered(),
            final(self).spec_frame_rate() == old(self).spec_frame_rate(),
    {
        let dt = now - self.last_sample;
        self.input_timer.elapsed(dt);
        self.logic_timer.elapsed(dt);
        self.render_timer.elapsed(dt);
        self.fps_timer.elapsed(dt);
        self.last_sample = now;
        dt
    }

    pub fn input_sprung(&self) -> (b: bool)
        ensures
            b == self.spec_input_timer().spec_sprung(),
    {
        self.input_timer.sprung()
    }

    pub fn logic_sprung(&self) -> (b: bool)
        ensures
            b == self.spec_logic_timer().spec_sprung(),
    {
        self.logic_timer.sprung()
    }

    pub fn render_sprung(&self) -> (b: bool)
        ensures
            b == self.spec_render_timer().spec_sprung(),
    {
        self.render_timer.sprung()
    }

    pub fn fps_sprung(&self) -> (b: bool)
        ensures
            b == self.spec_fps_timer().spec_sprung(),
    {
        self.fps_timer.sprung()
    }

    /// Acknowledges a handled input phase: one period is subtracted from
    /// the input timer, keeping the overshoot.
    pub fn acknowledge_input(&mut self)
        requires
            old(self).spec_input_timer().spec_sprung(),
        ensures
            final(self).spec_input_timer().period() == old(self).spec_input_timer().period(),
            final(self).spec_input_timer().accumulated() == old(
                self,
            ).spec_input_timer().accumulated() - old(self).spec_input_timer().period(),
            final(self).spec_logic_timer() == old(self).spec_logic_timer(),
            final(self).spec_render_timer() == old(self).spec_render_timer(),
            final(self).spec_fps_timer() == old(self).spec_fps_timer(),
            final(self).spec_last_sample() == old(self).spec_last_sample(),
            final(self).spec_frames_rendered() == old(self).spec_frames_rendered(),
            final(self).spec_frame_rate() == old(self).spec_frame_rate(),
    {
        self.input_timer.reset_with_overflow();
    }

    /// Acknowledges a handled simulation phase.
    pub fn acknowledge_logic(&mut self)
        requires
            old(self).spec_logic_timer().spec_sprung(),
        ensures
            final(self).spec_logic_timer().period() == old(self).spec_logic_timer().period(),
            final(self).spec_logic_timer().accumulated() == old(
                self,
            ).spec_logic_timer().accumulated() - old(self).spec_logic_timer().period(),
            final(self).spec_input_timer() == old(self).spec_input_timer(),
            final(self).spec_render_timer() == old(self).spec_render_timer(),
            final(self).spec_fps_timer() == old(self).spec_fps_timer(),
            final(self).spec_last_sample() == old(self).spec_last_sample(),
            final(self).spec_frames_rendered() == old(self).spec_frames_rendered(),
            final(self).spec_frame_rate() == old(self).spec_frame_rate(),
    {
        self.logic_timer.reset_with_overflow();
    }

    /// Acknowledges a handled render phase and counts the rendered frame.
    pub fn acknowledge_render(&mut self)
        requires
            old(self).spec_render_timer().spec_sprung(),
            old(self).spec_frames_rendered() < u32::MAX,
        ensures
            final(self).spec_render_timer().period() == old(self).spec_render_timer().period(),
            final(self).spec_render_timer().accumulated() == old(
                self,
            ).spec_render_timer().accumulated() - old(self).spec_render_timer().period(),
            final(self).spec_frames_rendered() == old(self).spec_frames_rendered() + 1,
            final(self).spec_input_timer() == old(self).spec_input_timer(),
            final(self).spec_logic_timer() == old(self).spec_logic_timer(),
            final(self).spec_fps_timer() == old(self).spec_fps_timer(),
            final(self).spec_last_sample() == old(self).spec_last_sample(),
            final(self).spec_frame_rate() == old(self).spec_frame_rate(),
    {
        self.frames_rendered = self.frames_rendered + 1;
        self.render_timer.reset_with_overflow();
    }

    /// Publishes the frames rendered since the last stats phase as the
    /// current frame rate, zeroes the counter and acknowledges the phase.
    pub fn publish_frame_rate(&mut self)
        requires
            old(self).spec_fps_timer().spec_sprung(),
        ensures
            final(self).spec_fps_timer().period() == old(self).spec_fps_timer().period(),
            final(self).spec_fps_timer().accumulated() == old(self).spec_fps_timer().accumulated()
                - old(self).spec_fps_timer().period(),
            final(self).spec_frame_rate() == old(self).spec_frames_rendered(),
            final(self).spec_frames_rendered() == 0,
            final(self).spec_input_timer() == old(self).spec_input_timer(),
            final(self).spec_logic_timer() == old(self).spec_logic_timer(),
            final(self).spec_render_timer() == old(self).spec_render_timer(),
            final(self).spec_last_sample() == old(self).spec_last_sample(),
    {
        self.frame_rate = self.frames_rendered;
        self.frames_rendered = 0;
        self.fps_timer.reset_with_overflow();
    }

    /// The frames rendered since the last stats phase.
    pub fn frames_rendered(&self) -> (r: u32)
        ensures
            r == self.spec_frames_rendered(),
    {
        self.frames_rendered
    }

    /// The frame rate published by the last stats phase.
    pub fn frame_rate(&self) -> (r: u32)
        ensures
            r == self.spec_frame_rate(),
    {
        self.frame_rate
    }

    /// How long to suspend at the end of an iteration: the tightest timer
    /// remainder, net of the work time spent since the sample (`now` is a
    /// fresh reading of the same clock), clamped at zero.
    pub fn sleep_duration(&self, now: u64) -> (r: u64)
        requires
            now >= self.spec_last_sample(),
        ensures
            r == if self.spec_min_remainder() > now - self.spec_last_sample() {
                self.spec_min_remainder() - (now - self.spec_last_sample())
            } else {
                0
            },
    {
        let a = self.input_timer.remainder();
        let b = self.logic_timer.remainder();
        let c = self.render_timer.remainder();
        let d = self.fps_timer.remainder();
        let ab = if a <= b {
            a
        } else {
            b
        };
        let abc = if ab <= c {
            ab
        } else {
            c
        };
        let min = if abc <= d {
            abc
        } else {
            d
        };
        let work = now - self.last_sample;
        if min > work {
            min - work
        } else {
            0
        }
    }
}

} // verus!
