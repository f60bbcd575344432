//! Event status and window-level consumer events.

use vstd::prelude::*;
use crate::geometry::Size;

verus! {

/// The status of an event after being processed by the consumer's widgets.
#[derive(Debug, Clone, Copy, PartialEq, Eq, Structural)]
pub enum Status {
    /// The event was not handled by any widget.
    Ignored,
    /// The event was handled and processed by a widget.
    Captured,
}

impl Status {
    /// Merges two statuses into one; `Captured` takes precedence over
    /// `Ignored`.
    pub fn merge(self, b: Self) -> (r: Self)
        ensures
            r == (Status::Captured) <==> (self == (Status::Captured) || b == (Status::Captured)),
    {
        match self {
            Status::Ignored => b,
            Status::Captured => Status::Captured,
        }
    }
}

/// A window event forwarded from the shell to the consumer.
#[derive(Debug, Clone, Copy, PartialEq, Eq, Structural)]
pub enum WindowEvent {
    /// The compositor suggested bounds for the window.
    SuggestedBounds(Option<Size>),
}

/// Whether a window event together with the held modifiers is the
/// platform's forced-quit chord. The Wayland desktop this library speaks to
/// has no such chord, so no event ever forces a quit; the consumer's close
/// handling decides instead.
pub fn user_force_quit(_event: &WindowEvent, _modifiers: u32) -> (r: bool)
    ensures
        !r,
{
    false
}

} // verus!
