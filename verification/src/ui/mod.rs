//! What the machine shows and what the player presses, as plain values: the
//! eight buttons, the four shades of the screen, and the geometry of the
//! window.

use vstd::prelude::*;

pub mod controller;

verus! {

/// The state of a button.
#[derive(Clone, Copy, Debug, PartialEq, Eq, Structural)]
pub enum ButtonState {
    /// The button is not pressed.
    Up,
    /// The button is pressed.
    Down,
}

/// The state of the eight buttons.
#[derive(Clone, Copy, Debug, PartialEq, Eq, Structural)]
pub struct Buttons {
    pub up: ButtonState,
    pub down: ButtonState,
    pub left: ButtonState,
    pub right: ButtonState,
    pub a: ButtonState,
    pub b: ButtonState,
    pub start: ButtonState,
    pub select: ButtonState,
}

/// What the player asks of the machine besides pressing its buttons.
#[derive(Clone, Copy, Debug, PartialEq, Eq, Structural)]
pub enum Event {
    /// Nothing.
    Nothing,
    /// The machine is to be switched off.
    PowerOff,
}

/// The four shades of the screen.
#[derive(Clone, Copy, Debug, PartialEq, Eq, Structural)]
pub enum Color {
    Black,
    DarkGrey,
    LightGrey,
    White,
}

/// The width of the screen in pixels.
pub const SCREEN_WIDTH: u32 = 160;

/// The height of the screen in pixels.
pub const SCREEN_HEIGHT: u32 = 144;

impl Buttons {
    /// Eight buttons in the same state.
    pub open spec fn spec_new(state: ButtonState) -> Buttons {
        Buttons {
            up: state,
            down: state,
            left: state,
            right: state,
            a: state,
            b: state,
            start: state,
            select: state,
        }
    }

    /// Eight buttons in the same state.
    #[verifier::when_used_as_spec(spec_new)]
    pub fn new(state: ButtonState) -> (buttons: Buttons)
        ensures
            buttons == Buttons::spec_new(state),
    {
        Buttons {
            up: state,
            down: state,
            left: state,
            right: state,
            a: state,
            b: state,
            start: state,
            select: state,
        }
    }
}

impl Color {
    /// The red, green and blue of a shade, which are equal: 0x00, 0x55, 0xAB
    /// and 0xFF from black to white.
    pub open spec fn spec_rgb(self) -> (u8, u8, u8) {
        match self {
            Color::Black => (0x00, 0x00, 0x00),
            Color::DarkGrey => (0x55, 0x55, 0x55),
            Color::LightGrey => (0xab, 0xab, 0xab),
            Color::White => (0xff, 0xff, 0xff),
        }
    }

    /// The red, green and blue of a shade.
    #[verifier::when_used_as_spec(spec_rgb)]
    pub fn rgb(self) -> (shade: (u8, u8, u8))
        ensures
            shade == self.spec_rgb(),
    {
        match self {
            Color::Black => (0x00, 0x00, 0x00),
            Color::DarkGrey => (0x55, 0x55, 0x55),
            Color::LightGrey => (0xab, 0xab, 0xab),
            Color::White => (0xff, 0xff, 0xff),
        }
    }
}

/// The width and the height of the window that shows the screen with each
/// pixel `upscale` window pixels wide and high.
pub fn resolution(upscale: u8) -> (size: (u32, u32))
    ensures
        size.0 == SCREEN_WIDTH * upscale,
        size.1 == SCREEN_HEIGHT * upscale,
{
    (SCREEN_WIDTH * upscale as u32, SCREEN_HEIGHT * upscale as u32)
}

/// The place of the pixel (`x`, `y`) of the screen in the window: the left
/// and the top of its square, and the length of its side. With an upscale of
/// zero the pixel is one point at (`x`, `y`), and the side is zero.
pub fn pixel_square(x: u32, y: u32, upscale: u8) -> (square: (i32, i32, u32))
    requires
        x <= i32::MAX,
        y <= i32::MAX,
        x * upscale <= i32::MAX,
        y * upscale <= i32::MAX,
    ensures
        square.0 == if upscale == 0 { x as int } else { x * upscale },
        square.1 == if upscale == 0 { y as int } else { y * upscale },
        square.2 == upscale,
{
    if upscale == 0 {
        (x as i32, y as i32, 0)
    } else {
        let left = x as i32 * upscale as i32;
        let top = y as i32 * upscale as i32;
        (left, top, upscale as u32)
    }
}

} // verus!
