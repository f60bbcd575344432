use sctk_bridge::commands::{
    Action, LayerSurfaceAction, LayerSurfaceSettings, LoopCommand, PopupAction, PopupSettings,
    PositionerSettings,
};
use sctk_bridge::events::{
    PopupEventVariant, ProtocolEvent, ProtocolRequest, SctkEvent, FailureReason,
};
use sctk_bridge::geometry::{
    KeyboardInteractivity, Layer, Margin, OutputChoice, Rectangle, ANCHOR_TOP,
};
use sctk_bridge::ids::{Id, ObjectId, SurfaceIdWrapper};
use sctk_bridge::state::{Capabilities, SctkState};

fn caps() -> Capabilities {
    Capabilities {
        layer_shell: true,
        activation: true,
        viewporter: false,
        fractional_scaling: false,
        session_lock: true,
    }
}

fn root_settings(id: Id) -> LayerSurfaceSettings {
    LayerSurfaceSettings {
        id,
        layer: Layer::Top,
        keyboard_interactivity: KeyboardInteractivity::OnDemand,
        pointer_interactivity: true,
        anchor: ANCHOR_TOP,
        output: OutputChoice::Active,
        namespace: String::from("bar"),
        margin: Margin::default(),
        size: Some((Some(600), Some(30))),
        exclusive_zone: 0,
    }
}

fn popup_settings(id: Id, parent: Id) -> PopupSettings {
    PopupSettings {
        id,
        parent,
        positioner: PositionerSettings {
            size: Some((200, 100)),
            anchor_rect: Rectangle { x: 0, y: 0, width: 30, height: 30 },
            anchor: 0,
            gravity: 0,
            constraint_adjustment: 0,
            offset: (0, 0),
            reactive: false,
        },
        grab: false,
    }
}

/// Creates a root layer surface and returns a fresh state.
fn state_with_root() -> SctkState {
    let mut state = SctkState::new(caps());
    let _ = state.handle_action(Action::LayerSurface(LayerSurfaceAction::LayerSurface {
        builder: root_settings(Id(1)),
    }));
    state
}

fn create_popup(state: &mut SctkState, id: Id, parent: Id) -> ObjectId {
    let out = state.handle_action(Action::Popup(PopupAction::Popup {
        popup: popup_settings(id, parent),
    }));
    for ev in &out.events {
        if let SctkEvent::PopupEvent {
            variant: PopupEventVariant::Created(surface, created_id),
            ..
        } = ev
        {
            assert_eq!(*created_id, id);
            return *surface;
        }
    }
    panic!("no created notification in {:?}", out.events);
}

#[test]
fn destroying_the_root_of_a_chain_notifies_leaf_first() {
    let mut state = state_with_root();
    let p2 = create_popup(&mut state, Id(2), Id(1));
    let p3 = create_popup(&mut state, Id(3), Id(2));
    let p4 = create_popup(&mut state, Id(4), Id(3));

    let out = state.handle_action(Action::Popup(PopupAction::Destroy { id: Id(2) }));

    // Exactly three destroy notifications, strictly innermost to outermost.
    let done_ids: Vec<ObjectId> = out
        .events
        .iter()
        .filter_map(|ev| match ev {
            SctkEvent::PopupEvent { variant: PopupEventVariant::Done, id, .. } => Some(*id),
            _ => None,
        })
        .collect();
    assert_eq!(done_ids, vec![p4, p3, p2]);
    assert_eq!(out.events.len(), 3);
    assert_eq!(
        out.requests,
        vec![
            ProtocolRequest::DestroySurface { surface: p4 },
            ProtocolRequest::DestroySurface { surface: p3 },
            ProtocolRequest::DestroySurface { surface: p2 },
        ]
    );
}

#[test]
fn destroying_a_middle_popup_spares_the_ones_below() {
    let mut state = state_with_root();
    let _p2 = create_popup(&mut state, Id(2), Id(1));
    let p3 = create_popup(&mut state, Id(3), Id(2));
    let p4 = create_popup(&mut state, Id(4), Id(3));

    let out = state.handle_action(Action::Popup(PopupAction::Destroy { id: Id(3) }));
    let done_ids: Vec<ObjectId> = out
        .events
        .iter()
        .filter_map(|ev| match ev {
            SctkEvent::PopupEvent { variant: PopupEventVariant::Done, id, .. } => Some(*id),
            _ => None,
        })
        .collect();
    assert_eq!(done_ids, vec![p4, p3]);

    // Once the consumer drops the destroyed handles, the popup below
    // survives: a new popup can still stack on it.
    let _ = state.handle_command(LoopCommand::Dropped(SurfaceIdWrapper::Popup(Id(4))));
    let _ = state.handle_command(LoopCommand::Dropped(SurfaceIdWrapper::Popup(Id(3))));
    let _p5 = create_popup(&mut state, Id(5), Id(2));
}

#[test]
fn mismatched_parent_destroys_the_blocker_then_creates_after_a_retry() {
    let mut state = state_with_root();
    let blocker = create_popup(&mut state, Id(2), Id(1));

    // A popup whose parent is the root, while another popup is topmost.
    let out = state.handle_action(Action::Popup(PopupAction::Popup {
        popup: popup_settings(Id(3), Id(1)),
    }));

    // The blocking popup is proactively destroyed, and the creation is
    // parked with the retry timer armed.
    assert!(out.events.iter().any(|ev| matches!(
        ev,
        SctkEvent::PopupEvent { variant: PopupEventVariant::Done, id, .. } if *id == blocker
    )));
    assert!(out.requests.contains(&ProtocolRequest::ScheduleRetry));

    // While the destroyed handle is still in flight, a retry only re-arms.
    let out = state.dispatch_event(ProtocolEvent::RetryTimer);
    assert_eq!(out.requests, vec![ProtocolRequest::ScheduleRetry]);
    assert!(out.events.is_empty());

    // Once the consumer drops the handle, the next retry creates the popup.
    let _ = state.handle_command(LoopCommand::Dropped(SurfaceIdWrapper::Popup(Id(2))));
    let out = state.dispatch_event(ProtocolEvent::RetryTimer);
    assert!(out.events.iter().any(|ev| matches!(
        ev,
        SctkEvent::PopupEvent { variant: PopupEventVariant::Created(_, id), .. } if *id == Id(3)
    )));
}

#[test]
fn creation_fails_once_after_the_retry_budget_is_spent() {
    let mut state = state_with_root();
    let _blocker = create_popup(&mut state, Id(2), Id(1));

    // Park a creation whose parent is nowhere; the blocker is destroyed but
    // its handle is never dropped, so the stack never quiets down.
    let out = state.handle_action(Action::Popup(PopupAction::Popup {
        popup: popup_settings(Id(9), Id(99)),
    }));
    assert!(out.requests.contains(&ProtocolRequest::ScheduleRetry));

    // Five retries re-arm the timer without any notification.
    for _ in 0..5 {
        let out = state.dispatch_event(ProtocolEvent::RetryTimer);
        assert_eq!(out.requests, vec![ProtocolRequest::ScheduleRetry]);
        assert!(out.events.is_empty());
    }

    // The sixth firing gives up with exactly one failure notification.
    let out = state.dispatch_event(ProtocolEvent::RetryTimer);
    assert!(out.requests.is_empty());
    assert_eq!(
        out.events,
        vec![SctkEvent::Failed { id: Id(9), reason: FailureReason::ParentMissing }]
    );

    // And never fails twice: the timer is dead.
    let out = state.dispatch_event(ProtocolEvent::RetryTimer);
    assert!(out.requests.is_empty());
    assert!(out.events.is_empty());
}

#[test]
fn unknown_parent_fails_with_parent_missing() {
    let mut state = state_with_root();
    let out = state.handle_action(Action::Popup(PopupAction::Popup {
        popup: popup_settings(Id(5), Id(42)),
    }));
    // No popup is up, so the request runs at once and fails cleanly.
    assert_eq!(
        out.events,
        vec![SctkEvent::Failed { id: Id(5), reason: FailureReason::ParentMissing }]
    );
}

#[test]
fn popup_resize_is_idempotent_and_repositions() {
    let mut state = state_with_root();
    let p2 = create_popup(&mut state, Id(2), Id(1));

    let out = state.handle_action(Action::Popup(PopupAction::Size {
        id: Id(2),
        width: 300,
        height: 150,
    }));
    assert_eq!(
        out.requests,
        vec![
            ProtocolRequest::SetWindowGeometry { surface: p2, width: 300, height: 150 },
            ProtocolRequest::SetPositionerSize { surface: p2, width: 300, height: 150 },
            ProtocolRequest::RepositionPopup { surface: p2, token: 0 },
        ]
    );
    assert_eq!(out.events.len(), 1);

    // The identical resize changes nothing and sends nothing.
    let out = state.handle_action(Action::Popup(PopupAction::Size {
        id: Id(2),
        width: 300,
        height: 150,
    }));
    assert!(out.requests.is_empty());
    assert!(out.events.is_empty());
}

#[test]
fn compositor_dismissal_cascades_like_a_destroy() {
    let mut state = state_with_root();
    let p2 = create_popup(&mut state, Id(2), Id(1));
    let p3 = create_popup(&mut state, Id(3), Id(2));

    let out = state.dispatch_event(ProtocolEvent::PopupDone { surface: p2 });
    let done_ids: Vec<ObjectId> = out
        .events
        .iter()
        .filter_map(|ev| match ev {
            SctkEvent::PopupEvent { variant: PopupEventVariant::Done, id, .. } => Some(*id),
            _ => None,
        })
        .collect();
    assert_eq!(done_ids, vec![p3, p2]);
}

#[test]
fn popup_configure_marks_the_first() {
    let mut state = state_with_root();
    let p2 = create_popup(&mut state, Id(2), Id(1));
    let configure = sctk_bridge::events::PopupConfigure { x: 4, y: 5, width: 200, height: 100 };
    let out = state.dispatch_event(ProtocolEvent::PopupConfigureEvent {
        surface: p2,
        configure,
    });
    assert!(matches!(
        out.events[0],
        SctkEvent::PopupEvent {
            variant: PopupEventVariant::Configure(_, _, true),
            ..
        }
    ));
    let out = state.dispatch_event(ProtocolEvent::PopupConfigureEvent {
        surface: p2,
        configure,
    });
    assert!(matches!(
        out.events[0],
        SctkEvent::PopupEvent {
            variant: PopupEventVariant::Configure(_, _, false),
            ..
        }
    ));
}

#[test]
fn nesting_violation_is_rejected_not_parent_missing() {
    let mut state = state_with_root();
    let _p2 = create_popup(&mut state, Id(2), Id(1));

    // The root layer surface is alive, but a popup is stacked on it, so
    // creating directly on the root would break strict nesting. The refusal
    // names the nesting, not a missing parent.
    let (res, out) = state.get_popup(popup_settings(Id(3), Id(1)));
    assert_eq!(res, Err(FailureReason::ObjectCreationRejected));
    assert!(out.requests.is_empty());

    // A parent that is nowhere is the missing one.
    let (res, _) = state.get_popup(popup_settings(Id(4), Id(42)));
    assert_eq!(res, Err(FailureReason::ParentMissing));
}

#[test]
fn missing_positioner_size_defaults_to_one_by_one() {
    let mut state = state_with_root();
    let mut settings = popup_settings(Id(2), Id(1));
    settings.positioner.size = None;
    let out = state.handle_action(Action::Popup(PopupAction::Popup { popup: settings }));

    // The shell is told the defaulted size, both in the positioner it is
    // handed and in the window geometry.
    match &out.requests[0] {
        ProtocolRequest::CreatePopup { positioner, .. } => {
            assert_eq!(positioner.size, Some((1, 1)));
        }
        other => panic!("expected the creation request, got {other:?}"),
    }
    assert!(out.requests.iter().any(|r| matches!(
        r,
        ProtocolRequest::SetWindowGeometry { width: 1, height: 1, .. }
    )));
}
