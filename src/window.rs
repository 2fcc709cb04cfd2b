use vstd::prelude::*;

verus! {

/// How long the loop sleeps on each idle tick, in milliseconds.
pub const IDLE_TICK_MILLIS: u64 = 1;

/// The window events that the loop tells apart.
#[derive(Clone, Copy, Debug, PartialEq, Eq, Structural)]
pub enum LoopEvent {
    /// The user asked to close the window.
    CloseRequested,
    /// All pending events have been handled for this iteration.
    MainEventsCleared,
    /// Anything else.
    Other,
}

/// What the loop does in answer to an event.
#[derive(Clone, Copy, Debug, PartialEq, Eq, Structural)]
pub enum LoopAction {
    /// Leave the loop.
    Exit,
    /// Sleep for the given number of milliseconds, then go on.
    Sleep { millis: u64 },
    /// Go on without doing anything.
    Continue,
}

/// Closing the window ends the loop, each idle tick sleeps for
/// `IDLE_TICK_MILLIS`, and every other event is ignored.
pub fn next_action(event: LoopEvent) -> (r: LoopAction)
    ensures
        r == (match event {
            LoopEvent::CloseRequested => LoopAction::Exit,
            LoopEvent::MainEventsCleared => LoopAction::Sleep { millis: IDLE_TICK_MILLIS },
            LoopEvent::Other => LoopAction::Continue,
        }),
{
    match event {
        LoopEvent::CloseRequested => LoopAction::Exit,
        LoopEvent::MainEventsCleared => LoopAction::Sleep { millis: IDLE_TICK_MILLIS },
        LoopEvent::Other => LoopAction::Continue,
    }
}

/// The number of swapchain images to ask for: one more than the surface's
/// minimum, so that one image can be drawn while another is shown.
pub fn swapchain_image_count(min_image_count: u32) -> (r: u32)
    requires
        min_image_count < u32::MAX,
    ensures
        r == min_image_count + 1,
{
    min_image_count + 1
}

} // verus!
