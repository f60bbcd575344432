use sctk_bridge::commands::{Action, ActivationAction, SessionLockAction};
use sctk_bridge::events::{ProtocolEvent, ProtocolRequest, SctkEvent};
use sctk_bridge::ids::{Id, ObjectId};
use sctk_bridge::state::{Capabilities, SctkState};

fn caps() -> Capabilities {
    Capabilities {
        layer_shell: true,
        activation: true,
        viewporter: false,
        fractional_scaling: false,
        session_lock: true,
    }
}

#[test]
fn lock_then_surface_then_unlock() {
    let mut state = SctkState::new(caps());

    let out = state.handle_action(Action::SessionLock(SessionLockAction::Lock));
    assert_eq!(out.requests, vec![ProtocolRequest::LockSession]);
    assert_eq!(out.events, vec![SctkEvent::SessionLocked]);

    // A second lock while one is held does nothing.
    let out = state.handle_action(Action::SessionLock(SessionLockAction::Lock));
    assert!(out.requests.is_empty());
    assert!(out.events.is_empty());

    let output = ObjectId(77);
    let out = state.handle_action(Action::SessionLock(SessionLockAction::LockSurface {
        id: Id(5),
        output,
    }));
    let surface = match out.events[0] {
        SctkEvent::SessionLockSurfaceCreated { surface, native_id } => {
            assert_eq!(native_id, Id(5));
            surface
        }
        ref other => panic!("expected a lock surface, got {other:?}"),
    };
    assert_eq!(out.requests, vec![ProtocolRequest::CreateLockSurface { surface, output }]);

    // Its configure negotiates the size and marks the first.
    let out = state.dispatch_event(ProtocolEvent::LockSurfaceConfigureEvent {
        surface,
        width: 1920,
        height: 1080,
    });
    assert!(matches!(
        out.events[0],
        SctkEvent::SessionLockSurfaceConfigure { first: true, .. }
    ));

    let out = state.handle_action(Action::SessionLock(SessionLockAction::DestroyLockSurface {
        id: Id(5),
    }));
    assert_eq!(out.events, vec![SctkEvent::SessionLockSurfaceDone { surface }]);

    let out = state.handle_action(Action::SessionLock(SessionLockAction::Unlock));
    assert_eq!(out.requests, vec![ProtocolRequest::UnlockSession]);
    assert_eq!(out.events, vec![SctkEvent::SessionUnlocked]);
}

#[test]
fn lock_without_the_extension_is_dropped() {
    let mut state = SctkState::new(Capabilities { session_lock: false, ..caps() });
    let out = state.handle_action(Action::SessionLock(SessionLockAction::Lock));
    assert!(out.requests.is_empty());
    assert!(out.events.is_empty());
}

#[test]
fn lock_surface_without_an_active_lock_is_dropped() {
    let mut state = SctkState::new(caps());
    let out = state.handle_action(Action::SessionLock(SessionLockAction::LockSurface {
        id: Id(5),
        output: ObjectId(77),
    }));
    assert!(out.requests.is_empty());
    assert!(out.events.is_empty());
}

#[test]
fn compositor_may_finish_the_lock() {
    let mut state = SctkState::new(caps());
    let _ = state.handle_action(Action::SessionLock(SessionLockAction::Lock));
    let out = state.dispatch_event(ProtocolEvent::SessionLockFinished);
    assert_eq!(out.events, vec![SctkEvent::SessionLockFinished]);
    // The lock can be taken again afterwards.
    let out = state.handle_action(Action::SessionLock(SessionLockAction::Lock));
    assert_eq!(out.events, vec![SctkEvent::SessionLocked]);
}

#[test]
fn token_request_round_trips_under_its_ticket() {
    let mut state = SctkState::new(caps());
    let out = state.handle_action(Action::Activation(ActivationAction::RequestToken {
        app_id: Some(String::from("com.example.editor")),
        window: None,
    }));
    let ticket = match &out.requests[0] {
        ProtocolRequest::RequestActivationToken { ticket, .. } => *ticket,
        other => panic!("expected a token request, got {other:?}"),
    };
    assert!(out.events.is_empty());

    let out = state.dispatch_event(ProtocolEvent::TokenDone {
        ticket,
        token: Some(String::from("tok-1")),
    });
    assert_eq!(
        out.events,
        vec![SctkEvent::ActivationToken { ticket, token: Some(String::from("tok-1")) }]
    );
}

#[test]
fn token_request_without_the_extension_answers_none_at_once() {
    let mut state = SctkState::new(Capabilities { activation: false, ..caps() });
    let out = state.handle_action(Action::Activation(ActivationAction::RequestToken {
        app_id: None,
        window: None,
    }));
    assert!(out.requests.is_empty());
    assert_eq!(out.events, vec![SctkEvent::ActivationToken { ticket: 0, token: None }]);
}

#[test]
fn outputs_are_announced() {
    let mut state = SctkState::new(caps());
    let out = state.dispatch_event(ProtocolEvent::OutputAdded(ObjectId(5)));
    assert_eq!(out.events, vec![SctkEvent::NewOutput { id: ObjectId(5) }]);
    let out = state.dispatch_event(ProtocolEvent::OutputUpdated(ObjectId(5)));
    assert_eq!(out.events, vec![SctkEvent::UpdateOutput { id: ObjectId(5) }]);
    let out = state.dispatch_event(ProtocolEvent::OutputRemoved(ObjectId(5)));
    assert_eq!(out.events, vec![SctkEvent::RemovedOutput(ObjectId(5))]);
}

#[test]
fn scale_change_updates_the_owning_record() {
    let mut state = SctkState::new(caps());
    let _ = state.handle_action(Action::SessionLock(SessionLockAction::Lock));
    let out = state.handle_action(Action::SessionLock(SessionLockAction::LockSurface {
        id: Id(5),
        output: ObjectId(77),
    }));
    let surface = match out.events[0] {
        SctkEvent::SessionLockSurfaceCreated { surface, .. } => surface,
        ref other => panic!("expected a lock surface, got {other:?}"),
    };

    // A fractional announcement of 1.5 arrives as 180/120.
    let out = state.dispatch_event(ProtocolEvent::ScaleFactorChanged {
        surface,
        scale_120: 180,
        legacy: false,
    });
    assert_eq!(
        out.events,
        vec![SctkEvent::SurfaceScaleFactorChanged(180, surface, Id(5))]
    );
    assert!(out.requests.is_empty());

    // A legacy integer scale of 2 re-issues the buffer scale.
    let out = state.dispatch_event(ProtocolEvent::ScaleFactorChanged {
        surface,
        scale_120: 240,
        legacy: true,
    });
    assert_eq!(out.requests, vec![ProtocolRequest::SetBufferScale { surface, scale: 2 }]);

    // An announcement for an unknown surface is ignored.
    let out = state.dispatch_event(ProtocolEvent::ScaleFactorChanged {
        surface: ObjectId(999),
        scale_120: 240,
        legacy: true,
    });
    assert!(out.events.is_empty());
}
