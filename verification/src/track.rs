//! The pointer-tracking state machine. A session starts in `Tracking` with
//! the pointer grabbed and an initial preview already captured and
//! installed; each input event is fed through [`track_step`], whose result
//! tells the driver what to do next. The session ends in `Resolved` (a
//! button press picked a pixel) or `Cancelled` (the event stream closed),
//! and the pointer grab is released exactly on that one exit transition.

use vstd::prelude::*;

verus! {

/// The pointer button whose press picks a color: the primary button.
pub const SELECTION_BUTTON: u8 = 1;

/// An input event delivered while the pointer is being tracked.
#[derive(Clone, Copy, Debug, PartialEq, Eq, Structural)]
pub enum TrackEvent {
    /// The pointer moved to `(x, y)` in screen coordinates.
    Motion { x: i16, y: i16 },
    /// Button `button` was pressed with the pointer at `(x, y)`.
    ButtonPress { x: i16, y: i16, button: u8 },
    /// The event stream ended: the display connection closed.
    Closed,
}

/// The state of a tracking session. `Tracking` is the only state that
/// receives events; `Resolved` and `Cancelled` are terminal.
#[derive(Clone, Copy, Debug, PartialEq, Eq, Structural)]
pub enum TrackState {
    /// The pointer is grabbed and the live preview follows it.
    Tracking,
    /// The session picked the pixel at `(x, y)`.
    Resolved { x: i16, y: i16 },
    /// The session ended without picking anything.
    Cancelled,
}

/// What the driver of the event loop must do after a step.
#[derive(Clone, Copy, Debug, PartialEq, Eq, Structural)]
pub enum TrackAction {
    /// Capture a new region around `(x, y)`, render the magnifier again and
    /// install the new cursor image.
    Redraw { x: i16, y: i16 },
    /// Nothing: the event is ignored and the session keeps its preview.
    Ignore,
    /// The session reached a terminal state: release the pointer grab,
    /// exactly once.
    ReleaseGrab,
}

/// The transition relation of the tracking loop, from the `Tracking` state:
/// motion keeps tracking and redraws at the new position; a press of the
/// selection button resolves at the press position; any other press is
/// ignored; a closed stream cancels.
pub open spec fn spec_track_step(event: TrackEvent) -> (TrackState, TrackAction) {
    match event {
        TrackEvent::Motion { x, y } => (TrackState::Tracking, TrackAction::Redraw { x, y }),
        TrackEvent::ButtonPress { x, y, button } => if button == SELECTION_BUTTON {
            (TrackState::Resolved { x, y }, TrackAction::ReleaseGrab)
        } else {
            (TrackState::Tracking, TrackAction::Ignore)
        },
        TrackEvent::Closed => (TrackState::Cancelled, TrackAction::ReleaseGrab),
    }
}

/// One step of the tracking loop: the next state and the action the driver
/// must perform. Only the `Tracking` state receives events.
pub fn track_step(state: TrackState, event: TrackEvent) -> (r: (TrackState, TrackAction))
    requires
        state is Tracking,
    ensures
        r == spec_track_step(event),
{
    match event {
        TrackEvent::Motion { x, y } => (TrackState::Tracking, TrackAction::Redraw { x, y }),
        TrackEvent::ButtonPress { x, y, button } => {
            if button == SELECTION_BUTTON {
                (TrackState::Resolved { x, y }, TrackAction::ReleaseGrab)
            } else {
                (TrackState::Tracking, TrackAction::Ignore)
            }
        },
        TrackEvent::Closed => (TrackState::Cancelled, TrackAction::ReleaseGrab),
    }
}

/// The grab is released exactly when the session leaves `Tracking`: every
/// step into a terminal state releases it, and no step that stays in
/// `Tracking` does. The driver therefore releases the grab exactly once
/// per session, whichever exit is taken.
pub proof fn lemma_release_iff_terminal(event: TrackEvent)
    ensures
        spec_track_step(event).1 is ReleaseGrab <==> !(spec_track_step(event).0 is Tracking),
{
}

/// What a finished session reports: the press position of a resolved
/// session, nothing for a cancelled one.
pub fn session_outcome(state: TrackState) -> (r: Option<(i16, i16)>)
    requires
        !(state is Tracking),
    ensures
        state matches TrackState::Resolved { x, y } ==> r == Some((x, y)),
        state is Cancelled ==> r is None,
{
    match state {
        TrackState::Resolved { x, y } => Some((x, y)),
        _ => None,
    }
}

} // verus!
