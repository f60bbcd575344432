//! Cursor support for dragging a window border to resize.

use vstd::prelude::*;

verus! {

/// A compass direction a resize drag can pull in.
#[derive(Debug, Clone, Copy, PartialEq, Eq, Structural)]
pub enum ResizeDirection {
    East,
    North,
    NorthEast,
    NorthWest,
    South,
    SouthEast,
    SouthWest,
    West,
}

/// The cursor icons the resize support uses.
#[derive(Debug, Clone, Copy, PartialEq, Eq, Structural)]
pub enum CursorIcon {
    Default,
    EResize,
    NResize,
    NeResize,
    NwResize,
    SResize,
    SeResize,
    SwResize,
    WResize,
}

/// Whether the windowing backend supports resizing by dragging a border.
/// This library speaks a desktop Wayland-style protocol, where it does.
pub fn drag_resize_supported() -> (r: bool)
    ensures
        r,
{
    true
}

/// The cursor icon matching a resize direction; no direction keeps the
/// default cursor.
pub fn resize_direction_cursor_icon(resize_direction: Option<ResizeDirection>) -> (r: CursorIcon)
    ensures
        r == match resize_direction {
            Some(d) => match d {
                ResizeDirection::East => CursorIcon::EResize,
                ResizeDirection::North => CursorIcon::NResize,
                ResizeDirection::NorthEast => CursorIcon::NeResize,
                ResizeDirection::NorthWest => CursorIcon::NwResize,
                ResizeDirection::South => CursorIcon::SResize,
                ResizeDirection::SouthEast => CursorIcon::SeResize,
                ResizeDirection::SouthWest => CursorIcon::SwResize,
                ResizeDirection::West => CursorIcon::WResize,
            },
            None => CursorIcon::Default,
        },
{
    match resize_direction {
        Some(resize_direction) => match resize_direction {
            ResizeDirection::East => CursorIcon::EResize,
            ResizeDirection::North => CursorIcon::NResize,
            ResizeDirection::NorthEast => CursorIcon::NeResize,
            ResizeDirection::NorthWest => CursorIcon::NwResize,
            ResizeDirection::South => CursorIcon::SResize,
            ResizeDirection::SouthEast => CursorIcon::SeResize,
            ResizeDirection::SouthWest => CursorIcon::SwResize,
            ResizeDirection::West => CursorIcon::WResize,
        },
        None => CursorIcon::Default,
    }
}

} // verus!
