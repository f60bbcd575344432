use sctk_bridge::clipboard::{self, Action as ClipboardAction, DndDestinationRectangle, DndDestinationRectangles, Kind};
use sctk_bridge::conversion::{
    modifiers_to_native, pointer_button_to_native, wayland_button_to_winit, MouseButton,
    RawModifiers, BTN_BACK, BTN_EXTRA, BTN_LEFT, BTN_MIDDLE, BTN_RIGHT, BTN_SIDE, MODIFIER_ALT,
    MODIFIER_CTRL, MODIFIER_SHIFT,
};
use sctk_bridge::dnd::{end_dnd, register_dnd_destination, set_action, DndAction, DND_ACTION_COPY};
use sctk_bridge::drag_resize::{
    drag_resize_supported, resize_direction_cursor_icon, CursorIcon, ResizeDirection,
};
use sctk_bridge::event::{user_force_quit, Status, WindowEvent};
use sctk_bridge::geometry::Rectangle;
use sctk_bridge::ids::Id;
use sctk_bridge::runtime::{exit, RuntimeAction};

#[test]
fn merge_prefers_captured() {
    assert_eq!(Status::Ignored.merge(Status::Ignored), Status::Ignored);
    assert_eq!(Status::Ignored.merge(Status::Captured), Status::Captured);
    assert_eq!(Status::Captured.merge(Status::Ignored), Status::Captured);
    assert_eq!(Status::Captured.merge(Status::Captured), Status::Captured);
}

#[test]
fn unique_ids_advance_and_skip_the_named_ids() {
    let mut counter: u64 = 1;
    let a = Id::unique(&mut counter);
    let b = Id::unique(&mut counter);
    let c = Id::unique(&mut counter);
    assert_eq!(a, Id(2));
    assert_ne!(a, b);
    assert_ne!(b, c);

    // Around the wrap, both reserved candidates are skipped.
    let mut wrapped: u64 = 0;
    let w = Id::unique(&mut wrapped);
    assert_ne!(w, Id::none());
    assert_ne!(w, Id::reserved());
    assert_eq!(w, Id(2));
}

#[test]
fn clipboard_commands_carry_their_target() {
    assert_eq!(clipboard::read(), ClipboardAction::Read { target: Kind::Standard });
    assert_eq!(clipboard::read_primary(), ClipboardAction::Read { target: Kind::Primary });
    assert_eq!(
        clipboard::write(String::from("hi")),
        ClipboardAction::Write { target: Kind::Standard, contents: String::from("hi") }
    );
    assert_eq!(
        clipboard::write_primary(String::from("hi")),
        ClipboardAction::Write { target: Kind::Primary, contents: String::from("hi") }
    );
}

#[test]
fn dnd_rectangles_come_back_reversed() {
    let rect = |id: u128| DndDestinationRectangle {
        id,
        rectangle: Rectangle { x: 0, y: 0, width: 10, height: 10 },
    };
    let mut list = DndDestinationRectangles::with_capacity(3);
    list.push(rect(1));
    list.push(rect(2));
    let mut more = vec![rect(3)];
    list.append(&mut more);
    assert!(more.is_empty());
    let out = list.into_rectangles();
    let ids: Vec<u128> = out.iter().map(|r| r.id).collect();
    assert_eq!(ids, vec![3, 2, 1]);

    let empty = DndDestinationRectangles::new();
    assert!(empty.into_rectangles().is_empty());
}

#[test]
fn dnd_commands_carry_their_payload() {
    let rects = vec![DndDestinationRectangle {
        id: 9,
        rectangle: Rectangle { x: 1, y: 2, width: 3, height: 4 },
    }];
    match register_dnd_destination(Id(4), rects) {
        DndAction::RegisterDndDestination { surface, rectangles } => {
            assert_eq!(surface, Id(4));
            assert_eq!(rectangles.len(), 1);
        }
        other => panic!("unexpected command {other:?}"),
    }
    assert_eq!(end_dnd(), DndAction::EndDnd);
    assert_eq!(set_action(DND_ACTION_COPY), DndAction::SetAction(DND_ACTION_COPY));
}

#[test]
fn exit_is_the_exit_command() {
    assert_eq!(exit(), RuntimeAction::Exit);
}

#[test]
fn pointer_buttons_map_to_native_buttons() {
    assert_eq!(pointer_button_to_native(BTN_LEFT), Some(MouseButton::Left));
    assert_eq!(pointer_button_to_native(BTN_RIGHT), Some(MouseButton::Right));
    assert_eq!(pointer_button_to_native(BTN_MIDDLE), Some(MouseButton::Middle));
    assert_eq!(pointer_button_to_native(BTN_SIDE), Some(MouseButton::Back));
    assert_eq!(pointer_button_to_native(BTN_EXTRA), Some(MouseButton::Forward));
    assert_eq!(pointer_button_to_native(0x117), Some(MouseButton::Other(0x117)));

    assert_eq!(wayland_button_to_winit(BTN_LEFT), MouseButton::Left);
    assert_eq!(wayland_button_to_winit(BTN_BACK), MouseButton::Back);
    assert_eq!(wayland_button_to_winit(BTN_SIDE), MouseButton::Back);
    assert_eq!(wayland_button_to_winit(0x118), MouseButton::Other(0x118));
}

#[test]
fn modifiers_become_a_bit_set() {
    let mods = RawModifiers { ctrl: true, alt: true, shift: true, ..RawModifiers::default() };
    let native = modifiers_to_native(mods);
    assert_eq!(native, MODIFIER_ALT | MODIFIER_CTRL | MODIFIER_SHIFT);
    // Lock keys carry no bit.
    let locks = RawModifiers { caps_lock: true, num_lock: true, ..RawModifiers::default() };
    assert_eq!(modifiers_to_native(locks), 0);
}

#[test]
fn resize_directions_pick_their_cursor() {
    assert!(drag_resize_supported());
    assert_eq!(resize_direction_cursor_icon(None), CursorIcon::Default);
    assert_eq!(
        resize_direction_cursor_icon(Some(ResizeDirection::NorthWest)),
        CursorIcon::NwResize
    );
    assert_eq!(resize_direction_cursor_icon(Some(ResizeDirection::East)), CursorIcon::EResize);
}

#[test]
fn no_event_forces_a_quit_on_this_platform() {
    let event = WindowEvent::SuggestedBounds(None);
    assert!(!user_force_quit(&event, MODIFIER_CTRL | MODIFIER_SHIFT));
    assert!(!user_force_quit(&event, 0));
}
