use xcolor::track::{
    session_outcome, track_step, TrackAction, TrackEvent, TrackState, SELECTION_BUTTON,
};

#[test]
fn motion_keeps_tracking_and_redraws() {
    let (state, action) = track_step(TrackState::Tracking, TrackEvent::Motion { x: 12, y: -3 });
    assert_eq!(state, TrackState::Tracking);
    assert_eq!(action, TrackAction::Redraw { x: 12, y: -3 });
}

#[test]
fn selection_press_resolves_at_the_press_position() {
    let (state, action) = track_step(
        TrackState::Tracking,
        TrackEvent::ButtonPress { x: 40, y: 50, button: SELECTION_BUTTON },
    );
    assert_eq!(state, TrackState::Resolved { x: 40, y: 50 });
    assert_eq!(action, TrackAction::ReleaseGrab);
}

#[test]
fn press_before_any_motion_still_resolves() {
    // A session starts in Tracking with the initial capture already taken;
    // a button press as the very first event resolves at that position
    // without any redraw having happened.
    let initial = TrackState::Tracking;
    let (state, action) =
        track_step(initial, TrackEvent::ButtonPress { x: 7, y: 9, button: SELECTION_BUTTON });
    assert_eq!(state, TrackState::Resolved { x: 7, y: 9 });
    assert_eq!(action, TrackAction::ReleaseGrab);
    assert_eq!(session_outcome(state), Some((7, 9)));
}

#[test]
fn other_buttons_are_ignored() {
    let (state, action) = track_step(
        TrackState::Tracking,
        TrackEvent::ButtonPress { x: 1, y: 2, button: 3 },
    );
    assert_eq!(state, TrackState::Tracking);
    assert_eq!(action, TrackAction::Ignore);
}

#[test]
fn closed_stream_cancels() {
    let (state, action) = track_step(TrackState::Tracking, TrackEvent::Closed);
    assert_eq!(state, TrackState::Cancelled);
    assert_eq!(action, TrackAction::ReleaseGrab);
    assert_eq!(session_outcome(state), None);
}

#[test]
fn session_processes_events_until_terminal() {
    let events = [
        TrackEvent::Motion { x: 5, y: 5 },
        TrackEvent::ButtonPress { x: 5, y: 5, button: 2 },
        TrackEvent::Motion { x: 6, y: 7 },
        TrackEvent::ButtonPress { x: 6, y: 7, button: SELECTION_BUTTON },
        TrackEvent::Motion { x: 99, y: 99 },
    ];
    let mut state = TrackState::Tracking;
    let mut redraws = 0;
    let mut releases = 0;
    for event in events {
        if !matches!(state, TrackState::Tracking) {
            break;
        }
        let (next, action) = track_step(state, event);
        match action {
            TrackAction::Redraw { .. } => redraws += 1,
            TrackAction::Ignore => {}
            TrackAction::ReleaseGrab => releases += 1,
        }
        state = next;
    }
    assert_eq!(state, TrackState::Resolved { x: 6, y: 7 });
    assert_eq!(redraws, 2);
    assert_eq!(releases, 1);
}
