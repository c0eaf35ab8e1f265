//! What passes between the presentation loop and whoever drives it: the
//! events the loop is told of and the commands it answers with.

use vstd::prelude::*;
use crate::chain::{Framebuffer, ImageChain};
use crate::extent::Extent;
use crate::tracker::Token;

verus! {

/// Where in a tick the loop stands.
#[derive(Clone, Copy, Debug, PartialEq, Eq, Structural)]
pub enum Phase {
    /// Between two ticks.
    Idle,
    /// Waiting for the chain to be rebuilt.
    Reconciling,
    /// Waiting for the next image.
    Acquiring,
    /// Waiting for the frame's commands to be recorded.
    Recording,
    /// Waiting for the submission to be accepted.
    Submitting,
    /// Waiting for the presentation request to be accepted.
    Presenting,
    /// The loop has ended.
    Stopped,
}

/// What the window reports between two ticks.
#[derive(Clone, Copy, Debug, PartialEq, Eq, Structural)]
pub enum WindowEvent {
    Close,
    Resized,
}

/// What a batch of window events amounts to.
#[derive(Clone, Copy, Debug, PartialEq, Eq, Structural)]
pub struct EventSummary {
    pub close_requested: bool,
    pub resized: bool,
}

/// The step of a tick at which the device failed beyond recovery.
#[derive(Clone, Copy, Debug, PartialEq, Eq, Structural)]
pub enum Fatal {
    Rebuild,
    Acquisition,
    Recording,
    Submission,
    Presentation,
}

/// Why the loop ended.
#[derive(Clone, Copy, Debug, PartialEq, Eq, Structural)]
pub enum Exit {
    /// The window was closed.
    Closed,
    Failed(Fatal),
}

/// How an attempt to rebuild the chain ended.
#[derive(Clone, Copy, Debug, PartialEq, Eq, Structural)]
pub enum RecreateOutcome {
    /// The replacement chain, ready for use.
    Rebuilt(ImageChain),
    /// The surface cannot take the extent right now.
    UnsupportedExtent,
    Failed,
}

/// How an attempt to acquire the next image ended.
#[derive(Clone, Copy, Debug, PartialEq, Eq, Structural)]
pub enum AcquireOutcome {
    /// An image is available. `suboptimal` says that the chain still works
    /// but no longer matches the surface well.
    Image { index: u32, suboptimal: bool },
    /// The chain no longer matches the surface; no image was handed out.
    Stale,
    Failed,
}

#[derive(Clone, Copy, Debug, PartialEq, Eq, Structural)]
pub enum RecordOutcome {
    Recorded,
    Failed,
}

#[derive(Clone, Copy, Debug, PartialEq, Eq, Structural)]
pub enum SubmitOutcome {
    /// The queue took the work; the token stands for its completion.
    Submitted(Token),
    OutOfDate,
    Failed,
}

#[derive(Clone, Copy, Debug, PartialEq, Eq, Structural)]
pub enum PresentOutcome {
    Presented,
    OutOfDate,
    Failed,
}

/// Something the loop is told.
#[derive(Clone, Copy, Debug, PartialEq, Eq, Structural)]
pub enum Event {
    /// A new tick begins, with the window events since the last one and the
    /// drawable extent of the window as it is now.
    Tick { summary: EventSummary, extent: Extent },
    Recreated(RecreateOutcome),
    Acquired(AcquireOutcome),
    Recorded(RecordOutcome),
    Submitted(SubmitOutcome),
    Presented(PresentOutcome),
}

/// What the loop wants done next.
#[derive(Clone, Copy, Debug, PartialEq, Eq, Structural)]
pub enum Command {
    /// Nothing more in this tick: come back with the next `Tick`.
    AwaitTick,
    /// Rebuild the chain for this extent, then report `Recreated`.
    Recreate { extent: Extent },
    /// Acquire the next image, waiting as long as it takes, then report
    /// `Acquired`.
    Acquire,
    /// Record the frame against this framebuffer, then report `Recorded`.
    Record { framebuffer: Framebuffer },
    /// Submit the recorded work so that it runs after `wait_on` and after
    /// the image has become available, then report `Submitted`.
    Submit { image_index: u32, wait_on: Token },
    /// Present the image once `wait_on` has completed, then report
    /// `Presented`.
    Present { image_index: u32, wait_on: Token },
    /// Leave the loop and end the process with this code.
    Exit { code: i32 },
    /// The event does not belong to the current phase. Nothing changed.
    Ignored,
}

/// The process exit code for each way the loop can end: zero when the
/// window was closed, one after a fatal failure.
pub open spec fn exit_code_of(exit: Exit) -> i32 {
    match exit {
        Exit::Closed => 0i32,
        Exit::Failed(_) => 1i32,
    }
}

pub fn exit_code(exit: Exit) -> (code: i32)
    ensures
        code == exit_code_of(exit),
        (code == 0) == (exit == Exit::Closed),
{
    match exit {
        Exit::Closed => 0,
        Exit::Failed(_) => 1,
    }
}

/// Reduces a batch of window events to the two facts the loop acts on.
pub fn summarize(events: &Vec<WindowEvent>) -> (summary: EventSummary)
    ensures
        summary.close_requested == events@.contains(WindowEvent::Close),
        summary.resized == events@.contains(WindowEvent::Resized),
{
    let mut close_requested = false;
    let mut resized = false;
    let mut i: usize = 0;
    while i < events.len()
        invariant
            i <= events@.len(),
            close_requested == events@.take(i as int).contains(WindowEvent::Close),
            resized == events@.take(i as int).contains(WindowEvent::Resized),
        decreases events@.len() - i,
    {
        proof {
            let before = events@.take(i as int);
            let after = events@.take(i as int + 1);
            assert(after =~= before.push(events@[i as int]));
            assert forall|e: WindowEvent| after.contains(e) == (before.contains(e) || e
                == events@[i as int]) by {
                if before.contains(e) {
                    let k = choose|k: int| 0 <= k < before.len() && before[k] == e;
                    assert(after[k] == e);
                }
                if e == events@[i as int] {
                    assert(after[i as int] == e);
                }
            }
        }
        match events[i] {
            WindowEvent::Close => {
                close_requested = true;
            },
            WindowEvent::Resized => {
                resized = true;
            },
        }
        i = i + 1;
    }
    proof {
        assert(events@.take(i as int) =~= events@);
    }
    EventSummary { close_requested, resized }
}

} // verus!
