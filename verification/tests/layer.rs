use sctk_bridge::commands::{Action, LayerSurfaceAction, LayerSurfaceSettings};
use sctk_bridge::events::{
    LayerSurfaceEventVariant, ProtocolEvent, ProtocolRequest, SctkEvent,
};
use sctk_bridge::geometry::{
    KeyboardInteractivity, Layer, Margin, OutputChoice, ANCHOR_LEFT, ANCHOR_TOP,
};
use sctk_bridge::ids::{Id, ObjectId};
use sctk_bridge::state::{Capabilities, SctkState};

fn caps() -> Capabilities {
    Capabilities {
        layer_shell: true,
        activation: true,
        viewporter: false,
        fractional_scaling: false,
        session_lock: true,
    }
}

fn panel_settings(id: Id) -> LayerSurfaceSettings {
    LayerSurfaceSettings {
        id,
        layer: Layer::Top,
        keyboard_interactivity: KeyboardInteractivity::OnDemand,
        pointer_interactivity: true,
        anchor: ANCHOR_TOP | ANCHOR_LEFT,
        output: OutputChoice::Active,
        namespace: String::from("panel"),
        margin: Margin { top: 0, right: 0, bottom: 0, left: 0 },
        size: Some((None, Some(40))),
        exclusive_zone: 40,
    }
}

fn create_panel(state: &mut SctkState, id: Id) -> ObjectId {
    let out = state.handle_action(Action::LayerSurface(LayerSurfaceAction::LayerSurface {
        builder: panel_settings(id),
    }));
    match &out.events[0] {
        SctkEvent::LayerSurfaceEvent {
            variant: LayerSurfaceEventVariant::Created(surface, created_id),
            ..
        } => {
            assert_eq!(*created_id, id);
            *surface
        }
        other => panic!("expected a created notification, got {other:?}"),
    }
}

#[test]
fn create_then_first_configure_negotiates_width_one_height_forty() {
    let mut state = SctkState::new(caps());
    let surface = create_panel(&mut state, Id(1));

    // The compositor proposes a size; the requested height wins, and the
    // free width axis is floored at 1.
    let out = state.dispatch_event(ProtocolEvent::LayerConfigure {
        surface,
        width: 0,
        height: 0,
    });
    assert_eq!(out.events.len(), 1);
    match &out.events[0] {
        SctkEvent::LayerSurfaceEvent {
            variant: LayerSurfaceEventVariant::Configure(configure, s, first),
            ..
        } => {
            assert_eq!(configure.new_size, (1, 40));
            assert_eq!(*s, surface);
            assert!(*first);
        }
        other => panic!("expected a configure notification, got {other:?}"),
    }

    // A second configure is no longer the first.
    let out = state.dispatch_event(ProtocolEvent::LayerConfigure {
        surface,
        width: 500,
        height: 64,
    });
    match &out.events[0] {
        SctkEvent::LayerSurfaceEvent {
            variant: LayerSurfaceEventVariant::Configure(configure, _, first),
            ..
        } => {
            // Height stays pinned by the request; width is still floored.
            assert_eq!(configure.new_size, (1, 40));
            assert!(!*first);
        }
        other => panic!("expected a configure notification, got {other:?}"),
    }
}

#[test]
fn creation_fails_without_layer_shell() {
    let mut state = SctkState::new(Capabilities { layer_shell: false, ..caps() });
    let out = state.handle_action(Action::LayerSurface(LayerSurfaceAction::LayerSurface {
        builder: panel_settings(Id(1)),
    }));
    assert!(out.requests.is_empty());
    assert_eq!(out.events.len(), 1);
    assert!(matches!(out.events[0], SctkEvent::Failed { id: Id(1), .. }));
}

#[test]
fn resize_twice_with_identical_arguments_recommits_once() {
    let mut state = SctkState::new(caps());
    let surface = create_panel(&mut state, Id(1));

    let first = state.handle_action(Action::LayerSurface(LayerSurfaceAction::Size {
        id: Id(1),
        width: Some(300),
        height: Some(40),
    }));
    assert_eq!(
        first.requests,
        vec![ProtocolRequest::SetLayerSize { surface, width: 300, height: 40 }]
    );

    // The identical resize changes nothing and sends nothing.
    let second = state.handle_action(Action::LayerSurface(LayerSurfaceAction::Size {
        id: Id(1),
        width: Some(300),
        height: Some(40),
    }));
    assert!(second.requests.is_empty());
    assert!(second.events.is_empty());
}

#[test]
fn anchor_change_marks_a_coalesced_recommit() {
    let mut state = SctkState::new(caps());
    let surface = create_panel(&mut state, Id(1));

    let out = state.handle_action(Action::LayerSurface(LayerSurfaceAction::Anchor {
        id: Id(1),
        anchor: ANCHOR_TOP,
    }));
    assert_eq!(out.requests, vec![ProtocolRequest::SetAnchor { surface, anchor: ANCHOR_TOP }]);

    // The next pass performs exactly one commit for the mark.
    let pass = state.redraw_pass();
    assert_eq!(pass.requests, vec![ProtocolRequest::Commit { surface }]);

    // The mark is consumed: another pass commits nothing.
    let pass = state.redraw_pass();
    assert!(pass.requests.is_empty());
}

#[test]
fn destroy_removes_the_mapping_and_notifies() {
    let mut state = SctkState::new(caps());
    let surface = create_panel(&mut state, Id(1));

    let out = state.handle_action(Action::LayerSurface(LayerSurfaceAction::Destroy(Id(1))));
    assert_eq!(out.requests, vec![ProtocolRequest::DestroySurface { surface }]);
    assert_eq!(out.events.len(), 1);
    assert!(matches!(
        out.events[0],
        SctkEvent::LayerSurfaceEvent { variant: LayerSurfaceEventVariant::Done, .. }
    ));

    // A configure for the dead surface is ignored.
    let out = state.dispatch_event(ProtocolEvent::LayerConfigure { surface, width: 5, height: 5 });
    assert!(out.events.is_empty());
}

#[test]
fn ready_surface_is_committed_once_per_rendezvous() {
    let mut state = SctkState::new(caps());
    let surface = create_panel(&mut state, Id(1));

    // Ready takes both a redraw request and a frame callback.
    state.handle_command(sctk_bridge::commands::LoopCommand::RequestRedraw(surface));
    let pass = state.redraw_pass();
    assert!(pass.requests.is_empty());
    let _ = state.dispatch_event(ProtocolEvent::Frame(surface));
    let pass = state.redraw_pass();
    assert_eq!(pass.requests, vec![ProtocolRequest::RequestFrame { surface }]);
    assert_eq!(pass.events, vec![SctkEvent::RedrawRequested(surface)]);

    // Readiness was consumed: nothing happens until the next rendezvous.
    let pass = state.redraw_pass();
    assert!(pass.requests.is_empty());
    state.handle_command(sctk_bridge::commands::LoopCommand::RequestRedraw(surface));
    let pass = state.redraw_pass();
    assert!(pass.requests.is_empty());
    let _ = state.dispatch_event(ProtocolEvent::Frame(surface));
    let pass = state.redraw_pass();
    assert_eq!(pass.requests, vec![ProtocolRequest::RequestFrame { surface }]);
}
