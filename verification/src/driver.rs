//! The frame loop's decisions: which input events stop it, and what to do
//! at each checkpoint.
//!
//! The loop itself performs platform work (drawing, polling, presenting), so
//! it runs outside the library; here stands the state-free step function
//! that takes the loop's state and the events drained at a checkpoint, and
//! answers with the next state and the action to perform.  One frame is one
//! pass over all columns, one checkpoint before each column, then a present.

use vstd::prelude::*;

verus! {

/// A platform input event, reduced to what the frame loop reads: a quit
/// request, a press of the escape key, or anything else (ignored).
#[derive(Clone, Copy, PartialEq, Eq, Structural, Debug)]
pub enum InputEvent {
    Quit,
    EscapeKey,
    Other,
}

/// Whether an event asks the frame loop to stop.
pub open spec fn is_quit(e: InputEvent) -> bool {
    e == InputEvent::Quit || e == InputEvent::EscapeKey
}

/// Whether any event of a drained batch asks the frame loop to stop.
pub open spec fn any_quit(es: Seq<InputEvent>) -> bool {
    exists|k: int| 0 <= k < es.len() && is_quit(es[k])
}

/// True when no event of the batch is a quit request or an escape key:
/// the loop may go on.
pub fn should_continue(events: &Vec<InputEvent>) -> (r: bool)
    ensures
        r == !any_quit(events@),
{
    let n = events.len();
    let mut k: usize = 0;
    while k < n
        invariant
            n == events@.len(),
            k <= n,
            forall|j: int| 0 <= j < k ==> !is_quit(events@[j]),
        decreases n - k,
    {
        match events[k] {
            InputEvent::Quit | InputEvent::EscapeKey => {
                proof {
                    assert(is_quit(events@[k as int]));
                }
                return false;
            },
            InputEvent::Other => {},
        }
        k = k + 1;
    }
    true
}

/// What the frame loop asks the platform to do next.
#[derive(Clone, Copy, PartialEq, Eq, Structural, Debug)]
pub enum FrameAction {
    /// Draw every pixel of the given column.
    DrawColumn(u32),
    /// Present the finished frame.
    Present,
    /// Leave the loop: a quit was requested.
    Stop,
}

/// Frame-loop state: the next column to draw, equal to the surface width
/// once the frame is complete and waiting to be presented.
#[derive(Clone, Copy, PartialEq, Eq, Structural, Debug)]
pub struct DriverState {
    pub next_col: u32,
}

/// The decision at one checkpoint of the frame loop.  With columns left to
/// draw, a quit event stops the loop at once, and otherwise the next column
/// is drawn; with none left, the frame is presented and a new frame starts.
/// Events are polled only before a column, never before the present, as in
/// the loop this models.
pub open spec fn drive_step_spec(s: DriverState, width: int, events: Seq<InputEvent>) -> (
    DriverState,
    FrameAction,
) {
    if s.next_col >= width {
        (DriverState { next_col: 0 }, FrameAction::Present)
    } else if any_quit(events) {
        (s, FrameAction::Stop)
    } else {
        (DriverState { next_col: (s.next_col + 1) as u32 }, FrameAction::DrawColumn(s.next_col))
    }
}

/// Performs one checkpoint decision of the frame loop.
pub fn drive_step(s: DriverState, width: u32, events: &Vec<InputEvent>) -> (r: (
    DriverState,
    FrameAction,
))
    requires
        s.next_col <= width,
    ensures
        r == drive_step_spec(s, width as int, events@),
        r.0.next_col <= width,
{
    if s.next_col >= width {
        (DriverState { next_col: 0 }, FrameAction::Present)
    } else if !should_continue(events) {
        (s, FrameAction::Stop)
    } else {
        (DriverState { next_col: s.next_col + 1 }, FrameAction::DrawColumn(s.next_col))
    }
}

/// A quit event seen at any checkpoint with columns still to draw stops the
/// loop at once: the action is neither a draw nor a present, so a quit that
/// arrives before a frame's first pixel keeps that frame from ever being
/// presented.
pub proof fn lemma_quit_stops(s: DriverState, width: int, events: Seq<InputEvent>)
    requires
        s.next_col < width,
        any_quit(events),
    ensures
        drive_step_spec(s, width, events).1 == FrameAction::Stop,
        drive_step_spec(s, width, events).0 == s,
{
}

} // verus!
