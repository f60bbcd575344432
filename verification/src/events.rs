//! What crosses the edges of the dispatch core.
//!
//! [`ProtocolRequest`] values are the protocol calls the core decides to
//! make; an unverified shell performs them on the live connection, in order.
//! [`ProtocolEvent`] values are the compositor's messages, handed into the
//! core. [`SctkEvent`] values are the notifications the core emits for the
//! consumer runtime; they are its only way to observe an effect.

use vstd::prelude::*;
use crate::geometry::{KeyboardInteractivity, Layer, Margin, OutputChoice};
use crate::commands::PositionerSettings;
use crate::ids::{Id, ObjectId};

verus! {

/// A configure event for a layer surface, after size negotiation.
#[derive(Debug, Clone, Copy, PartialEq, Eq)]
pub struct LayerSurfaceConfigure {
    /// The negotiated logical size.
    pub new_size: (u32, u32),
}

/// A configure event for a popup.
#[derive(Debug, Clone, Copy, PartialEq, Eq, Structural)]
pub struct PopupConfigure {
    pub x: i32,
    pub y: i32,
    pub width: i32,
    pub height: i32,
}

/// A configure event for a session-lock surface.
#[derive(Debug, Clone, Copy, PartialEq, Eq)]
pub struct LockSurfaceConfigure {
    pub new_size: (u32, u32),
}

/// Why a command failed. Every failure is recoverable: the command is
/// dropped, a [`SctkEvent::Failed`] notification is emitted, and the
/// dispatch loop goes on.
#[derive(Debug, Clone, Copy, PartialEq, Eq, Structural)]
pub enum FailureReason {
    /// The declared parent of a popup could not be found, or never
    /// stabilized as the topmost popup within the retry budget.
    ParentMissing,
    /// The compositor refused to create a positioner.
    PositionerCreationFailed,
    /// Creating the protocol object was rejected: the compositor refused
    /// it, or it would break strict popup nesting (the declared parent is
    /// alive but not the topmost popup).
    ObjectCreationRejected,
    /// A required protocol extension is not offered by the compositor.
    ExtensionUnavailable,
    /// A protocol object identity was registered twice.
    RegistryCollision,
}

/// A protocol call the dispatch core asks the shell to perform, in order.
#[derive(Debug, Clone, PartialEq, Eq)]
pub enum ProtocolRequest {
    /// Create a surface and give it the layer-shell role.
    CreateLayerSurface {
        surface: ObjectId,
        layer: Layer,
        namespace: String,
        output: OutputChoice,
    },
    SetAnchor { surface: ObjectId, anchor: u32 },
    SetKeyboardInteractivity { surface: ObjectId, keyboard_interactivity: KeyboardInteractivity },
    SetMargin { surface: ObjectId, margin: Margin },
    /// Set the requested layer-surface size; `0` on an axis defers to the
    /// compositor.
    SetLayerSize { surface: ObjectId, width: u32, height: u32 },
    SetExclusiveZone { surface: ObjectId, zone: i32 },
    SetLayer { surface: ObjectId, layer: Layer },
    /// Install an empty input region, for surfaces without pointer
    /// interactivity.
    SetInputRegionEmpty { surface: ObjectId },
    /// Commit pending surface state.
    Commit { surface: ObjectId },
    /// Arm a frame-callback listener on the surface.
    RequestFrame { surface: ObjectId },
    /// Create a popup for `surface` with a positioner built from the given
    /// parameters, parented onto `parent`.
    CreatePopup { surface: ObjectId, parent: ObjectId, positioner: PositionerSettings },
    /// Grab input for a freshly created popup.
    GrabPopup { surface: ObjectId },
    SetWindowGeometry { surface: ObjectId, width: u32, height: u32 },
    /// Reposition a popup after its positioner changed.
    RepositionPopup { surface: ObjectId, token: u32 },
    /// Resize the positioner of a popup.
    SetPositionerSize { surface: ObjectId, width: u32, height: u32 },
    /// Bind a viewport for the surface and set its destination size.
    GetViewport { surface: ObjectId },
    SetViewportDestination { surface: ObjectId, width: u32, height: u32 },
    /// Bind a fractional-scale object for the surface.
    GetFractionalScale { surface: ObjectId },
    /// Set the legacy integer buffer scale.
    SetBufferScale { surface: ObjectId, scale: u32 },
    /// Destroy the protocol object.
    DestroySurface { surface: ObjectId },
    /// Ask the compositor to lock the session.
    LockSession,
    /// Give the session lock back.
    UnlockSession,
    /// Create a lock surface on an output; needs the active lock.
    CreateLockSurface { surface: ObjectId, output: ObjectId },
    /// Ask for an activation token; the answer carries the ticket back.
    RequestActivationToken { ticket: u32, app_id: Option<String>, surface: Option<ObjectId> },
    /// Activate a window with a token.
    Activate { surface: ObjectId, token: String },
    /// Arm the popup-retry timer.
    ScheduleRetry,
}

/// A lifecycle notification on a layer surface.
#[derive(Debug, Clone, PartialEq, Eq)]
pub enum LayerSurfaceEventVariant {
    /// Sent after creation.
    Created(ObjectId, Id),
    /// The surface is gone.
    Done,
    /// A configure, after size negotiation; the flag says whether it is the
    /// first one.
    Configure(LayerSurfaceConfigure, ObjectId, bool),
}

/// A lifecycle notification on a popup.
#[derive(Debug, Clone, Copy, PartialEq, Eq, Structural)]
pub enum PopupEventVariant {
    /// Sent after creation.
    Created(ObjectId, Id),
    /// The popup is gone.
    Done,
    /// A configure; the flag says whether it is the first one.
    Configure(PopupConfigure, ObjectId, bool),
    /// The compositor acknowledged a repositioning.
    RepositionedPopup { token: u32 },
    /// The popup was resized by command.
    Size(u32, u32),
}

/// A notification from the dispatch core to the consumer runtime.
#[derive(Debug, Clone, PartialEq, Eq)]
pub enum SctkEvent {
    LayerSurfaceEvent { variant: LayerSurfaceEventVariant, id: ObjectId },
    PopupEvent {
        variant: PopupEventVariant,
        /// The toplevel under the popup chain.
        toplevel_id: ObjectId,
        /// The popup's direct parent.
        parent_id: ObjectId,
        /// The popup's own surface.
        id: ObjectId,
    },
    /// An output appeared.
    NewOutput { id: ObjectId },
    /// An output changed.
    UpdateOutput { id: ObjectId },
    /// An output went away.
    RemovedOutput(ObjectId),
    /// The session is locked.
    SessionLocked,
    /// The compositor ended the lock.
    SessionLockFinished,
    /// A lock surface exists for an output.
    SessionLockSurfaceCreated { surface: ObjectId, native_id: Id },
    /// A configure for a lock surface.
    SessionLockSurfaceConfigure { surface: ObjectId, configure: LockSurfaceConfigure, first: bool },
    /// A lock surface is gone.
    SessionLockSurfaceDone { surface: ObjectId },
    /// The session is unlocked again.
    SessionUnlocked,
    /// A surface's scale changed; the scale is carried in 120ths, as the
    /// fractional-scale protocol encodes it.
    SurfaceScaleFactorChanged(u32, ObjectId, Id),
    /// The answer to a token request: the ticket it was filed under, and the
    /// token, or nothing when the compositor lacks the capability.
    ActivationToken { ticket: u32, token: Option<String> },
    /// The surface is ready and a redraw should be drawn and submitted.
    RedrawRequested(ObjectId),
    /// A command failed; the command is dropped and the loop goes on.
    Failed { id: Id, reason: FailureReason },
}

/// What one step of the dispatch core decided: protocol calls to perform,
/// in order, and notifications to deliver, in order.
#[derive(Debug, PartialEq, Eq)]
pub struct StepOutput {
    pub requests: Vec<ProtocolRequest>,
    pub events: Vec<SctkEvent>,
}

impl StepOutput {
    /// An empty step: nothing to perform, nothing to deliver.
    pub fn new() -> (out: StepOutput)
        ensures
            out.requests@ == Seq::<ProtocolRequest>::empty(),
            out.events@ == Seq::<SctkEvent>::empty(),
    {
        StepOutput { requests: Vec::new(), events: Vec::new() }
    }
}

/// A message from the compositor (or the shell's timer), handed into the
/// dispatch core.
#[derive(Debug, Clone, PartialEq, Eq)]
pub enum ProtocolEvent {
    /// A frame callback arrived for the surface.
    Frame(ObjectId),
    /// A configure for a layer surface.
    LayerConfigure { surface: ObjectId, width: u32, height: u32 },
    /// The compositor closed a layer surface.
    LayerClosed { surface: ObjectId },
    /// A configure for a popup.
    PopupConfigureEvent { surface: ObjectId, configure: PopupConfigure },
    /// The compositor dismissed a popup.
    PopupDone { surface: ObjectId },
    /// The compositor acknowledged a popup repositioning.
    PopupRepositioned { surface: ObjectId, token: u32 },
    /// A configure for a lock surface.
    LockSurfaceConfigureEvent { surface: ObjectId, width: u32, height: u32 },
    /// The compositor ended the session lock.
    SessionLockFinished,
    /// A new scale for a surface, in 120ths; `legacy` marks the integer
    /// `wl_surface` path, which is ignored when a fractional-scale object
    /// is bound.
    ScaleFactorChanged { surface: ObjectId, scale_120: u32, legacy: bool },
    /// An activation token arrived for the given ticket.
    TokenDone { ticket: u32, token: Option<String> },
    /// An output appeared.
    OutputAdded(ObjectId),
    /// An output changed.
    OutputUpdated(ObjectId),
    /// An output went away.
    OutputRemoved(ObjectId),
    /// The popup-retry timer fired.
    RetryTimer,
}

} // verus!
