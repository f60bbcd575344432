//! A verified model of a Wayland surface-lifecycle bridge.
//!
//! The crate models the state kept by a compositor-facing dispatch thread:
//! a registry mapping protocol object identities to opaque surface ids, a
//! frame-callback throttle that gates redraw submission, a popup stack with
//! ordered creation and destruction, and the command handling that turns
//! consumer requests into protocol calls and notifications. The protocol
//! calls themselves are returned as data; an unverified shell performs them
//! on a live connection and feeds compositor events back in.

pub mod activation;
pub mod clipboard;
pub mod commands;
pub mod conversion;
pub mod dispatch;
pub mod dnd;
pub mod drag_resize;
pub mod event;
pub mod events;
pub mod frame;
pub mod geometry;
pub mod ids;
pub mod layer;
pub mod lock;
pub mod popup;
pub mod registry;
pub mod runtime;
pub mod state;
