//! The frame driver: a periodic timer that keeps requesting redraws, and a
//! frame counter that advances once per rendered frame.
//!
//! The driver plans each frame; the program carries the plan out against the
//! real graphics context (open a frame of the planned size, derive the clear
//! color from the planned phase, submit) and runs the event loop that calls
//! back in.

use vstd::prelude::*;

verus! {

/// Redraw requests per second.
pub const FPS: u32 = 60;

/// The counter value after one more completed frame: one higher, wrapping at
/// the native unsigned width.
pub open spec fn next_counter(counter: u32) -> u32 {
    if counter == u32::MAX {
        0
    } else {
        (counter + 1) as u32
    }
}

/// The counter value after a number of completed frames, starting from zero.
pub open spec fn counter_after(frames: nat) -> u32
    decreases frames,
{
    if frames == 0 {
        0
    } else {
        next_counter(counter_after((frames - 1) as nat))
    }
}

/// What one render notification asks the program to do: open a frame of the
/// surface's current size, clear it to the color derived from `phase`, submit
/// it, count the completed frame, and tell the toolkit the event was handled.
#[derive(Clone, Copy, Debug, PartialEq, Eq, Structural)]
pub struct RenderPlan {
    /// Framebuffer width in pixels for the new frame.
    pub width: u32,
    /// Framebuffer height in pixels for the new frame.
    pub height: u32,
    /// The animation phase: the frame counter as it stood when the
    /// notification arrived, before this frame was counted.
    pub phase: u32,
    /// The signal returned to the toolkit: the event was handled, so default
    /// processing stops.
    pub handled: bool,
}

/// The frame driver's state: how many frames have been completed since
/// startup, wrapping at the native unsigned width.
///
/// The counter is shared between the timer callback and the render callback,
/// both of which run on the single GUI event-loop thread, so it is only ever
/// mutated serially.
pub struct FrameDriver {
    /// Completed frames since startup, modulo the native unsigned width.
    pub counter: u32,
}

impl FrameDriver {
    /// A fresh driver: no frame has been rendered yet.
    pub fn new() -> (driver: FrameDriver)
        ensures
            driver.counter == 0,
    {
        FrameDriver { counter: 0 }
    }

    /// Plans the frame for one render notification from the toolkit, given
    /// the surface's live framebuffer dimensions.
    ///
    /// The plan carries the queried dimensions through unchanged and derives
    /// the animation phase from the counter as it stands; the counter itself
    /// does not move until the planned frame has been submitted and
    /// [`complete_frame`](FrameDriver::complete_frame) records it.
    pub fn plan_frame(&self, width: u32, height: u32) -> (plan: RenderPlan)
        ensures
            plan.width == width,
            plan.height == height,
            plan.phase == self.counter,
            plan.handled,
    {
        RenderPlan { width, height, phase: self.counter, handled: true }
    }

    /// Records that a planned frame was submitted: the counter advances by
    /// exactly one — never zero, never two — per completed render, wrapping
    /// at the native unsigned width.
    pub fn complete_frame(&mut self)
        ensures
            final(self).counter == next_counter(old(self).counter),
    {
        self.counter = if self.counter == u32::MAX {
            0
        } else {
            self.counter + 1
        };
    }
}

/// The interval, in milliseconds, at which the timer requests a redraw.
pub fn timer_interval_ms() -> (interval: u32)
    ensures
        interval == 1000 as int / FPS as int,
{
    1000 / FPS
}

/// Decides whether the timer stays registered after a tick: always yes. The
/// timer requests a redraw on every tick and continues indefinitely, until
/// the owning window is destroyed and the event loop drops it.
pub fn timer_continue() -> (keep_running: bool)
    ensures
        keep_running,
{
    true
}

/// After a number of completed renders from a fresh driver, and before the
/// counter first wraps, the counter equals exactly the number of renders: it
/// counts every frame once.
pub proof fn lemma_counter_counts_frames(frames: nat)
    requires
        frames <= u32::MAX,
    ensures
        counter_after(frames) == frames,
    decreases frames,
{
    if frames > 0 {
        lemma_counter_counts_frames((frames - 1) as nat);
    }
}

} // verus!
