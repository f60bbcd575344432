//! Drag-and-drop commands.
//!
//! Only the commands to start, register and end an operation live here; the
//! payload negotiation is the shell's business.

use vstd::prelude::*;
use crate::clipboard::DndDestinationRectangle;
use crate::ids::Id;

verus! {

/// Bit for the copy drag action.
pub const DND_ACTION_COPY: u32 = 1;
/// Bit for the move drag action.
pub const DND_ACTION_MOVE: u32 = 2;
/// Bit for the ask drag action.
pub const DND_ACTION_ASK: u32 = 4;

/// A drag-and-drop command for the shell to perform.
#[derive(Debug, Clone, PartialEq, Eq)]
pub enum DndAction {
    /// Register the rectangles a drop may land in on a surface.
    RegisterDndDestination {
        /// The surface to register on.
        surface: Id,
        /// The rectangles to register.
        rectangles: Vec<DndDestinationRectangle>,
    },
    /// End the drag-and-drop operation.
    EndDnd,
    /// Peek at the dragged data under a mime type.
    PeekDnd(String),
    /// Set the resolved action of the operation, over the `DND_ACTION_`
    /// bits.
    SetAction(u32),
}

/// The command that registers drop rectangles on a surface.
pub fn register_dnd_destination(surface: Id, rectangles: Vec<DndDestinationRectangle>) -> (a:
    DndAction)
    ensures
        a == (DndAction::RegisterDndDestination { surface, rectangles }),
{
    DndAction::RegisterDndDestination { surface, rectangles }
}

/// The command that ends a drag-and-drop operation.
pub fn end_dnd() -> (a: DndAction)
    ensures
        a == (DndAction::EndDnd),
{
    DndAction::EndDnd
}

/// The command that sets the resolved action of the operation.
pub fn set_action(action: u32) -> (a: DndAction)
    ensures
        a == (DndAction::SetAction(action)),
{
    DndAction::SetAction(action)
}

/// The command that peeks at the dragged data under `mime`.
pub fn peek_dnd(mime: String) -> (a: DndAction)
    ensures
        a == (DndAction::PeekDnd(mime)),
{
    DndAction::PeekDnd(mime)
}

} // verus!
