//! Conversions between the protocol's input encodings and the consumer's.
//!
//! Pointer buttons arrive as Linux input-event codes; modifiers arrive as a
//! struct of flags and leave as a bit set.

use vstd::prelude::*;

verus! {

/// An error carrying a key code nothing could be made of.
#[derive(Debug, Clone, Copy, PartialEq, Eq, Structural)]
pub struct KeyCodeError(pub u32);

/// A pointer button, as consumers see it.
#[derive(Debug, Clone, Copy, PartialEq, Eq, Structural)]
pub enum MouseButton {
    Left,
    Right,
    Middle,
    Back,
    Forward,
    /// Any other button, by its low 16 bits.
    Other(u16),
}

/// Left pointer button, from the input-event codes.
pub const BTN_LEFT: u32 = 0x110;
/// Right pointer button.
pub const BTN_RIGHT: u32 = 0x111;
/// Middle pointer button.
pub const BTN_MIDDLE: u32 = 0x112;
/// Side (back) pointer button.
pub const BTN_SIDE: u32 = 0x113;
/// Extra (forward) pointer button.
pub const BTN_EXTRA: u32 = 0x114;
/// Forward pointer button.
pub const BTN_FORWARD: u32 = 0x115;
/// Back pointer button.
pub const BTN_BACK: u32 = 0x116;

/// Maps a protocol button code to a consumer button; a code that does not
/// fit in 16 bits maps to nothing.
pub fn pointer_button_to_native(button: u32) -> (r: Option<MouseButton>)
    ensures
        r == (if button == BTN_LEFT {
            Some(MouseButton::Left)
        } else if button == BTN_RIGHT {
            Some(MouseButton::Right)
        } else if button == BTN_MIDDLE {
            Some(MouseButton::Middle)
        } else if button == BTN_SIDE {
            Some(MouseButton::Back)
        } else if button == BTN_EXTRA {
            Some(MouseButton::Forward)
        } else if button <= 0xFFFF {
            Some(MouseButton::Other(button as u16))
        } else {
            None
        }),
{
    if button == BTN_LEFT {
        Some(MouseButton::Left)
    } else if button == BTN_RIGHT {
        Some(MouseButton::Right)
    } else if button == BTN_MIDDLE {
        Some(MouseButton::Middle)
    } else if button == BTN_SIDE {
        Some(MouseButton::Back)
    } else if button == BTN_EXTRA {
        Some(MouseButton::Forward)
    } else if button <= 0xFFFF {
        Some(MouseButton::Other(button as u16))
    } else {
        None
    }
}

/// Maps a protocol button code to a window-system button; the side and
/// extra codes double as back and forward, and anything else is carried by
/// its low 16 bits.
pub fn wayland_button_to_winit(button: u32) -> (r: MouseButton)
    ensures
        r == (if button == BTN_LEFT {
            MouseButton::Left
        } else if button == BTN_RIGHT {
            MouseButton::Right
        } else if button == BTN_MIDDLE {
            MouseButton::Middle
        } else if button == BTN_BACK || button == BTN_SIDE {
            MouseButton::Back
        } else if button == BTN_FORWARD || button == BTN_EXTRA {
            MouseButton::Forward
        } else {
            MouseButton::Other((button & 0xFFFF) as u16)
        }),
{
    if button == BTN_LEFT {
        MouseButton::Left
    } else if button == BTN_RIGHT {
        MouseButton::Right
    } else if button == BTN_MIDDLE {
        MouseButton::Middle
    } else if button == BTN_BACK || button == BTN_SIDE {
        MouseButton::Back
    } else if button == BTN_FORWARD || button == BTN_EXTRA {
        MouseButton::Forward
    } else {
        proof {
            assert((button & 0xFFFF) <= 0xFFFF) by (bit_vector);
        }
        MouseButton::Other((button & 0xFFFF) as u16)
    }
}

/// The modifiers as the seat reports them: one flag per key.
#[derive(Debug, Clone, Copy, PartialEq, Eq, Structural, Default)]
pub struct RawModifiers {
    pub ctrl: bool,
    pub alt: bool,
    pub shift: bool,
    pub caps_lock: bool,
    pub logo: bool,
    pub num_lock: bool,
}

/// Shift bit of the consumer's modifier set.
pub const MODIFIER_SHIFT: u32 = 0b100;
/// Control bit of the consumer's modifier set.
pub const MODIFIER_CTRL: u32 = 0b100 << 3;
/// Alt bit of the consumer's modifier set.
pub const MODIFIER_ALT: u32 = 0b100 << 6;
/// Logo bit of the consumer's modifier set.
pub const MODIFIER_LOGO: u32 = 0b100 << 9;

/// The consumer's modifier set for a seat report: one bit per held
/// modifier; caps lock and num lock carry no bit.
pub open spec fn native_modifiers(mods: RawModifiers) -> u32 {
    (if mods.alt {
        MODIFIER_ALT
    } else {
        0u32
    }) | (if mods.ctrl {
        MODIFIER_CTRL
    } else {
        0u32
    }) | (if mods.logo {
        MODIFIER_LOGO
    } else {
        0u32
    }) | (if mods.shift {
        MODIFIER_SHIFT
    } else {
        0u32
    })
}

/// Maps the seat's modifier flags to the consumer's modifier bit set.
pub fn modifiers_to_native(mods: RawModifiers) -> (r: u32)
    ensures
        r == native_modifiers(mods),
{
    let a: u32 = if mods.alt {
        MODIFIER_ALT
    } else {
        0
    };
    let c: u32 = if mods.ctrl {
        MODIFIER_CTRL
    } else {
        0
    };
    let l: u32 = if mods.logo {
        MODIFIER_LOGO
    } else {
        0
    };
    let s: u32 = if mods.shift {
        MODIFIER_SHIFT
    } else {
        0
    };
    a | c | l | s
}

} // verus!
