//! Plain geometric and shell-protocol value types.
//!
//! Sizes are logical pixel sizes. Anchors and gravities are the protocol's
//! bit sets, carried as `u32` with named bit constants, so that contracts can
//! speak of them with ordinary bitwise operators.

use vstd::prelude::*;

verus! {

/// A logical size in pixels.
#[derive(Debug, Clone, Copy, PartialEq, Eq, Structural)]
pub struct Size {
    pub width: u32,
    pub height: u32,
}

impl Size {
    pub fn new(width: u32, height: u32) -> (s: Size)
        ensures
            s == (Size { width, height }),
    {
        Size { width, height }
    }
}

/// A rectangle in logical coordinates, used for popup anchor rectangles.
#[derive(Debug, Clone, Copy, PartialEq, Eq, Structural)]
pub struct Rectangle {
    pub x: i32,
    pub y: i32,
    pub width: i32,
    pub height: i32,
}

/// The margin of a layer surface, in logical pixels per edge.
#[derive(Debug, Clone, Copy, PartialEq, Eq, Structural, Default)]
pub struct Margin {
    pub top: i32,
    pub right: i32,
    pub bottom: i32,
    pub left: i32,
}

/// Anchor bit for the top screen edge.
pub const ANCHOR_TOP: u32 = 1;
/// Anchor bit for the bottom screen edge.
pub const ANCHOR_BOTTOM: u32 = 2;
/// Anchor bit for the left screen edge.
pub const ANCHOR_LEFT: u32 = 4;
/// Anchor bit for the right screen edge.
pub const ANCHOR_RIGHT: u32 = 8;

/// Whether the anchor set `anchor` contains every bit of `bits`.
pub open spec fn anchor_contains(anchor: u32, bits: u32) -> bool {
    anchor & bits == bits
}

/// The band a layer surface is stacked in, from back to front.
#[derive(Debug, Clone, Copy, PartialEq, Eq, Structural)]
pub enum Layer {
    Background,
    Bottom,
    Top,
    Overlay,
}

/// How a layer surface takes keyboard focus.
#[derive(Debug, Clone, Copy, PartialEq, Eq, Structural)]
pub enum KeyboardInteractivity {
    /// The surface never receives keyboard focus.
    NoInteractivity,
    /// The surface holds exclusive keyboard focus while on screen.
    Exclusive,
    /// Focus follows the ordinary focus rules.
    OnDemand,
}

/// The output a layer surface is placed on.
#[derive(Debug, Clone, Copy, PartialEq, Eq, Structural)]
pub enum OutputChoice {
    /// Let the compositor place the surface on every output.
    All,
    /// Let the compositor pick the active output.
    Active,
    /// Place the surface on one given output.
    Output(crate::ids::ObjectId),
}

} // verus!
