//! Runtime-level commands and appearance.
//!
//! The runtime's command type gathers everything a consumer task can ask
//! for; the shell's loop drains these and performs them.

use vstd::prelude::*;

verus! {

/// A color, as 8-bit red, green, blue and alpha.
#[derive(Debug, Clone, Copy, PartialEq, Eq, Structural)]
pub struct Color {
    pub r: u8,
    pub g: u8,
    pub b: u8,
    pub a: u8,
}

/// The appearance of a program.
#[derive(Debug, Clone, Copy, PartialEq, Eq, Structural)]
pub struct Appearance {
    /// The background color of the application.
    pub background_color: Color,
    /// The default text color of the application.
    pub text_color: Color,
    /// The default icon color of the application.
    pub icon_color: Color,
}

/// The default style of a program, implemented by its theme.
pub trait DefaultStyle {
    /// Returns the default style of a program.
    fn default_style(&self) -> Appearance;
}

/// An action the runtime can perform.
#[derive(Debug, Clone, PartialEq, Eq)]
pub enum RuntimeAction {
    /// Run a clipboard command.
    Clipboard(crate::clipboard::Action),
    /// Run a drag-and-drop command.
    Dnd(crate::dnd::DndAction),
    /// Run a platform command.
    PlatformSpecific(crate::commands::Action),
    /// Exit the runtime: close every window and end the loop.
    Exit,
}

/// The command that exits the runtime.
pub fn exit() -> (a: RuntimeAction)
    ensures
        a == (RuntimeAction::Exit),
{
    RuntimeAction::Exit
}

} // verus!
