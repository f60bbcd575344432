//! Typed commands from the consumer runtime to the dispatch thread.
//!
//! A command never blocks its caller: it is enqueued, the dispatch thread is
//! woken, and every effect comes back later as a notification.

use vstd::prelude::*;
use crate::geometry::{KeyboardInteractivity, Layer, Margin, OutputChoice, Rectangle};
use crate::ids::{Id, ObjectId, SurfaceIdWrapper};

verus! {

/// Parameters for creating a layer surface.
#[derive(Debug, Clone, PartialEq, Eq)]
pub struct LayerSurfaceSettings {
    /// The consumer's id for the new surface.
    pub id: Id,
    pub layer: Layer,
    pub keyboard_interactivity: KeyboardInteractivity,
    /// Whether the surface accepts pointer input; without it an empty input
    /// region is installed.
    pub pointer_interactivity: bool,
    /// The anchor bit set, over the `ANCHOR_` bits.
    pub anchor: u32,
    pub output: OutputChoice,
    /// The namespace handed to the compositor, also used as a title.
    pub namespace: String,
    pub margin: Margin,
    /// The requested logical size; `None` on an axis asks the compositor to
    /// choose, subject to the anchors.
    pub size: Option<(Option<u32>, Option<u32>)>,
    pub exclusive_zone: i32,
}

/// Parameters for the positioner of a popup.
#[derive(Debug, Clone, Copy, PartialEq, Eq)]
pub struct PositionerSettings {
    /// The requested size; a missing size falls back to 1 by 1.
    pub size: Option<(u32, u32)>,
    pub anchor_rect: Rectangle,
    /// The positioner anchor, as the protocol encodes it.
    pub anchor: u32,
    /// The gravity, as the protocol encodes it.
    pub gravity: u32,
    /// The constraint-adjustment bit set, as the protocol encodes it.
    pub constraint_adjustment: u32,
    pub offset: (i32, i32),
    pub reactive: bool,
}

/// Parameters for creating a popup.
#[derive(Debug, Clone, Copy, PartialEq, Eq)]
pub struct PopupSettings {
    /// The consumer's id for the new popup.
    pub id: Id,
    /// The consumer id of the parent surface: a window, a layer surface, or
    /// the popup that is currently topmost.
    pub parent: Id,
    pub positioner: PositionerSettings,
    /// Whether the popup takes an input grab.
    pub grab: bool,
}

/// Commands on layer surfaces.
#[derive(Debug, Clone, PartialEq, Eq)]
pub enum LayerSurfaceAction {
    /// Create a layer surface.
    LayerSurface { builder: LayerSurfaceSettings },
    /// Request a new size for a layer surface; idempotent.
    Size { id: Id, width: Option<u32>, height: Option<u32> },
    /// Destroy a layer surface.
    Destroy(Id),
    /// Change the anchors.
    Anchor { id: Id, anchor: u32 },
    /// Change the exclusive zone.
    ExclusiveZone { id: Id, exclusive_zone: i32 },
    /// Change the margins.
    Margin { id: Id, margin: Margin },
    /// Change how the surface takes keyboard focus.
    KeyboardInteractivity { id: Id, keyboard_interactivity: KeyboardInteractivity },
    /// Move the surface to another layer band.
    Layer { id: Id, layer: Layer },
}

/// Commands on popups.
#[derive(Debug, Clone, Copy, PartialEq, Eq)]
pub enum PopupAction {
    /// Create a popup; deferred and retried while the parent has not
    /// stabilized.
    Popup { popup: PopupSettings },
    /// Destroy a popup and, first, everything nested above it.
    Destroy { id: Id },
    /// Reposition a popup to a new size.
    Size { id: Id, width: u32, height: u32 },
}

/// Commands for the activation protocol.
#[derive(Debug, Clone, PartialEq, Eq)]
pub enum ActivationAction {
    /// Ask the compositor for an activation token. The answer arrives as an
    /// [`crate::events::SctkEvent::ActivationToken`] notification carrying
    /// the returned ticket.
    RequestToken { app_id: Option<String>, window: Option<Id> },
    /// Activate a window with a previously obtained token.
    Activate { window: Id, token: String },
}

/// Commands for the session-lock protocol.
#[derive(Debug, Clone, Copy, PartialEq, Eq, Structural)]
pub enum SessionLockAction {
    /// Request a session lock.
    Lock,
    /// Give the lock back.
    Unlock,
    /// Create a lock surface for an output; needs an active lock.
    LockSurface { id: Id, output: ObjectId },
    /// Destroy a lock surface.
    DestroyLockSurface { id: Id },
}

/// All platform commands a consumer can issue.
#[derive(Debug, Clone, PartialEq, Eq)]
pub enum Action {
    LayerSurface(LayerSurfaceAction),
    Popup(PopupAction),
    Activation(ActivationAction),
    SessionLock(SessionLockAction),
}

/// Everything the dispatch thread drains from its command channel.
#[derive(Debug, Clone, PartialEq, Eq)]
pub enum LoopCommand {
    /// A platform command.
    Action(Action),
    /// Begin tracking a window created elsewhere, under its protocol object.
    TrackWindow(Id, ObjectId),
    /// Stop tracking a window.
    RemoveWindow(Id),
    /// The consumer asks to redraw the given protocol object.
    RequestRedraw(ObjectId),
    /// The consumer dropped its handle to a destroyed surface; the id may be
    /// reused afterwards.
    Dropped(SurfaceIdWrapper),
}

} // verus!
