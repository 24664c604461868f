//! The events that forwarded input turns into.
//!
//! Distances travel as `f32` and stay bits here. Where the value an event carries is
//! a quotient or a product, the event holds both operands: whoever evaluates it does
//! the one floating-point operation.

use vstd::prelude::*;

use crate::input::{Modifiers, MouseButton};

verus! {

/// Lines that one notch of a wheel scrolls, where the platform has no setting.
pub const SCROLL_LINES: u32 = 3;

/// A point in logical pixels: two `f32`s in device pixels, given by their bits, each
/// divided by a scale of `scale_percent` hundredths.
#[derive(Clone, Copy, Debug, PartialEq, Eq, Structural)]
pub struct LogicalPoint {
    pub x_bits: u32,
    pub y_bits: u32,
    pub scale_percent: u32,
}

/// How far to scroll. Both axes are negated: the consumer's sign is the opposite of
/// the app's.
#[derive(Clone, Copy, Debug, PartialEq, Eq, Structural)]
pub enum ScrollDelta {
    /// Notches, given by the bits of `f32`s, times the lines of a notch, negated.
    Lines { dx_bits: u32, dy_bits: u32, lines_per_notch: u32 },
    /// Device pixels, given by the bits of `f32`s, divided by a scale of
    /// `scale_percent` hundredths, negated.
    Pixels { dx_bits: u32, dy_bits: u32, scale_percent: u32 },
}

/// The phase of a touch that scrolls.
#[derive(Clone, Copy, Debug, PartialEq, Eq, Structural)]
pub enum TouchPhase {
    Started,
    Moved,
    Ended,
}

/// A key with what it types.
#[derive(Debug)]
pub struct Keystroke {
    pub modifiers: Modifiers,
    pub key: String,
    pub key_char: Option<String>,
}

/// An event for a window.
#[derive(Debug)]
pub enum PlatformInput {
    MouseMove {
        position: LogicalPoint,
        pressed_button: Option<MouseButton>,
        modifiers: Modifiers,
    },
    MouseDown {
        button: MouseButton,
        position: LogicalPoint,
        modifiers: Modifiers,
        click_count: usize,
        first_mouse: bool,
    },
    MouseUp {
        button: MouseButton,
        position: LogicalPoint,
        modifiers: Modifiers,
        click_count: usize,
    },
    ScrollWheel {
        position: LogicalPoint,
        delta: ScrollDelta,
        modifiers: Modifiers,
        touch_phase: TouchPhase,
    },
    KeyDown { keystroke: Keystroke, is_held: bool, prefer_character_input: bool },
    KeyUp { keystroke: Keystroke },
    ModifiersChanged { modifiers: Modifiers, capslock: bool },
}

/// No modifier is held.
pub open spec fn no_modifiers() -> Modifiers {
    Modifiers { control: false, alt: false, shift: false, platform: false, function: false }
}

impl Default for Modifiers {
    fn default() -> (modifiers: Modifiers)
        ensures
            modifiers == no_modifiers(),
    {
        Modifiers { control: false, alt: false, shift: false, platform: false, function: false }
    }
}

/// The lines that one notch of a wheel scrolls on Windows, by the user's setting.
pub open spec fn lines_of_a_notch(setting: Option<u32>) -> u32 {
    match setting {
        Some(lines) if lines != 0 => lines,
        _ => SCROLL_LINES,
    }
}

/// The lines that one notch of a wheel scrolls on Windows: the user's setting, if it
/// could be read and is not zero.
pub fn wheel_scroll_lines(setting: Option<u32>) -> (lines: u32)
    ensures
        lines == lines_of_a_notch(setting),
{
    match setting {
        Some(lines) => if lines == 0 {
            SCROLL_LINES
        } else {
            lines
        },
        None => SCROLL_LINES,
    }
}

/// A wheel always scrolls: by what the user set, and by three lines where nothing or zero
/// is set.
pub proof fn a_wheel_always_scrolls(setting: Option<u32>)
    ensures
        lines_of_a_notch(setting) > 0,
        setting matches Some(lines) ==> lines_of_a_notch(setting) == lines || lines == 0,
        setting is None || setting == Some(0u32) ==> lines_of_a_notch(setting) == 3,
{
}

/// Without modifiers no key is held.
pub proof fn without_modifiers_no_key_is_held()
    ensures
        !no_modifiers().control,
        !no_modifiers().alt,
        !no_modifiers().shift,
        !no_modifiers().platform,
        !no_modifiers().function,
{
}

} // verus!
