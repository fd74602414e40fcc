//! How keys, pad buttons and the left stick of a game pad press the eight
//! buttons of the machine.

use vstd::prelude::*;
use crate::ui::{ButtonState, Buttons, Event};

verus! {

/// How far from 0 a stick has to move to count: a stick moves in the range
/// from -32768 to 32767, and small movements are noise.
pub const AXIS_DEAD_ZONE: i16 = 10_000;

/// Where a stick is along one axis.
#[derive(Clone, Copy, Debug, PartialEq, Eq, Structural)]
pub enum AxisState {
    Neutral,
    Negative,
    Positive,
}

/// The keys of the keyboard that matter.
#[derive(Clone, Copy, Debug, PartialEq, Eq, Structural)]
pub enum Key {
    Up,
    Down,
    Left,
    Right,
    LAlt,
    LCtrl,
    Return,
    RShift,
    Escape,
    /// Any other key.
    Other,
}

/// The buttons of a game pad that matter.
#[derive(Clone, Copy, Debug, PartialEq, Eq, Structural)]
pub enum PadButton {
    A,
    B,
    DPadLeft,
    DPadRight,
    DPadUp,
    DPadDown,
    Start,
    Back,
    /// Any other button.
    Other,
}

/// The axes of a game pad that matter.
#[derive(Clone, Copy, Debug, PartialEq, Eq, Structural)]
pub enum Axis {
    LeftX,
    LeftY,
    /// Any other axis.
    Other,
}

/// What a keyboard or a game pad reports.
#[derive(Clone, Copy, Debug, PartialEq, Eq, Structural)]
pub enum Input {
    KeyDown(Key),
    KeyUp(Key),
    ButtonDown(PadButton),
    ButtonUp(PadButton),
    AxisMotion(Axis, i16),
    /// The window was closed.
    Quit,
}

/// The buttons of the machine together with the last position of the left
/// stick, which presses the four directions.
#[derive(Clone, Copy, Debug, PartialEq, Eq, Structural)]
pub struct ControllerState {
    pub buttons: Buttons,
    pub x_axis_state: AxisState,
    pub y_axis_state: AxisState,
}

impl AxisState {
    /// The position that the value `val` of an axis stands for: positive
    /// above the dead zone, negative below it, neutral inside it.
    pub open spec fn spec_from_value(val: i16) -> AxisState {
        if val > AXIS_DEAD_ZONE {
            AxisState::Positive
        } else if val < -AXIS_DEAD_ZONE {
            AxisState::Negative
        } else {
            AxisState::Neutral
        }
    }

    /// Pressed exactly at the negative position.
    pub open spec fn spec_down_if_negative(self) -> ButtonState {
        if self == AxisState::Negative {
            ButtonState::Down
        } else {
            ButtonState::Up
        }
    }

    /// Pressed exactly at the positive position.
    pub open spec fn spec_down_if_positive(self) -> ButtonState {
        if self == AxisState::Positive {
            ButtonState::Down
        } else {
            ButtonState::Up
        }
    }

    /// The position that the value `val` of an axis stands for.
    #[verifier::when_used_as_spec(spec_from_value)]
    pub fn from_value(val: i16) -> (state: AxisState)
        ensures
            state == AxisState::spec_from_value(val),
    {
        if val > AXIS_DEAD_ZONE {
            AxisState::Positive
        } else if val < -AXIS_DEAD_ZONE {
            AxisState::Negative
        } else {
            AxisState::Neutral
        }
    }

    /// Pressed exactly at the negative position.
    #[verifier::when_used_as_spec(spec_down_if_negative)]
    pub fn down_if_negative(self) -> (state: ButtonState)
        ensures
            state == self.spec_down_if_negative(),
    {
        if self == AxisState::Negative {
            ButtonState::Down
        } else {
            ButtonState::Up
        }
    }

    /// Pressed exactly at the positive position.
    #[verifier::when_used_as_spec(spec_down_if_positive)]
    pub fn down_if_positive(self) -> (state: ButtonState)
        ensures
            state == self.spec_down_if_positive(),
    {
        if self == AxisState::Positive {
            ButtonState::Down
        } else {
            ButtonState::Up
        }
    }
}

impl ControllerState {
    /// The buttons after the key `key` went to `state`: the arrows are the
    /// directions, left Alt is A, left Ctrl is B, Return is start and right
    /// Shift is select.
    pub open spec fn spec_update_key(self, key: Key, state: ButtonState) -> ControllerState {
        let b = self.buttons;
        ControllerState {
            buttons: match key {
                Key::Up => Buttons { up: state, ..b },
                Key::Down => Buttons { down: state, ..b },
                Key::Left => Buttons { left: state, ..b },
                Key::Right => Buttons { right: state, ..b },
                Key::LAlt => Buttons { a: state, ..b },
                Key::LCtrl => Buttons { b: state, ..b },
                Key::Return => Buttons { start: state, ..b },
                Key::RShift => Buttons { select: state, ..b },
                _ => b,
            },
            ..self
        }
    }

    /// The buttons after the pad button `button` went to `state`. A and B
    /// of the pad are B and A of the machine, which has them the other way
    /// round; Back is select.
    pub open spec fn spec_update_button(self, button: PadButton, state: ButtonState) -> ControllerState {
        let b = self.buttons;
        ControllerState {
            buttons: match button {
                PadButton::B => Buttons { a: state, ..b },
                PadButton::A => Buttons { b: state, ..b },
                PadButton::DPadLeft => Buttons { left: state, ..b },
                PadButton::DPadRight => Buttons { right: state, ..b },
                PadButton::DPadUp => Buttons { up: state, ..b },
                PadButton::DPadDown => Buttons { down: state, ..b },
                PadButton::Start => Buttons { start: state, ..b },
                PadButton::Back => Buttons { select: state, ..b },
                _ => b,
            },
            ..self
        }
    }

    /// The state after the axis `axis` moved to `val`. Where the position of
    /// the left stick along the axis changes, the two directions of the axis
    /// follow it: left or up at the negative position, right or down at the
    /// positive one. Else nothing changes.
    pub open spec fn spec_update_axis(self, axis: Axis, val: i16) -> ControllerState {
        let state = AxisState::spec_from_value(val);
        match axis {
            Axis::LeftX => if state != self.x_axis_state {
                ControllerState {
                    buttons: Buttons {
                        left: state.spec_down_if_negative(),
                        right: state.spec_down_if_positive(),
                        ..self.buttons
                    },
                    x_axis_state: state,
                    ..self
                }
            } else {
                self
            },
            Axis::LeftY => if state != self.y_axis_state {
                ControllerState {
                    buttons: Buttons {
                        up: state.spec_down_if_negative(),
                        down: state.spec_down_if_positive(),
                        ..self.buttons
                    },
                    y_axis_state: state,
                    ..self
                }
            } else {
                self
            },
            _ => self,
        }
    }

    /// The state after `input`, and what it asks of the machine: Escape and
    /// the closing of the window switch it off.
    pub open spec fn spec_update(self, input: Input) -> (ControllerState, Event) {
        match input {
            Input::KeyDown(Key::Escape) => (self, Event::PowerOff),
            Input::KeyDown(key) => (self.spec_update_key(key, ButtonState::Down), Event::Nothing),
            Input::KeyUp(key) => (self.spec_update_key(key, ButtonState::Up), Event::Nothing),
            Input::ButtonDown(button) => (
                self.spec_update_button(button, ButtonState::Down),
                Event::Nothing,
            ),
            Input::ButtonUp(button) => (self.spec_update_button(button, ButtonState::Up), Event::Nothing),
            Input::AxisMotion(axis, val) => (self.spec_update_axis(axis, val), Event::Nothing),
            Input::Quit => (self, Event::PowerOff),
        }
    }

    /// No button is pressed and the stick is at rest.
    pub fn new() -> (controller: ControllerState)
        ensures
            controller == (ControllerState {
                buttons: Buttons::new(ButtonState::Up),
                x_axis_state: AxisState::Neutral,
                y_axis_state: AxisState::Neutral,
            }),
    {
        ControllerState {
            buttons: Buttons::new(ButtonState::Up),
            x_axis_state: AxisState::Neutral,
            y_axis_state: AxisState::Neutral,
        }
    }

    /// The buttons.
    pub fn buttons(&self) -> (buttons: Buttons)
        ensures
            buttons == self.buttons,
    {
        self.buttons
    }

    /// Takes one report of the keyboard or the game pad, and says what it
    /// asks of the machine.
    pub fn update(&mut self, input: Input) -> (event: Event)
        ensures
            (*final(self), event) == old(self).spec_update(input),
    {
        match input {
            Input::KeyDown(Key::Escape) => Event::PowerOff,
            Input::KeyDown(key) => {
                self.update_key(key, ButtonState::Down);
                Event::Nothing
            },
            Input::KeyUp(key) => {
                self.update_key(key, ButtonState::Up);
                Event::Nothing
            },
            Input::ButtonDown(button) => {
                self.update_button(button, ButtonState::Down);
                Event::Nothing
            },
            Input::ButtonUp(button) => {
                self.update_button(button, ButtonState::Up);
                Event::Nothing
            },
            Input::AxisMotion(axis, val) => {
                self.update_axis(axis, val);
                Event::Nothing
            },
            Input::Quit => Event::PowerOff,
        }
    }

    /// Sets the button that the key `key` stands for to `state`.
    pub fn update_key(&mut self, key: Key, state: ButtonState)
        ensures
            *final(self) == old(self).spec_update_key(key, state),
    {
        let mut b = self.buttons;
        match key {
            Key::Up => b.up = state,
            Key::Down => b.down = state,
            Key::Left => b.left = state,
            Key::Right => b.right = state,
            Key::LAlt => b.a = state,
            Key::LCtrl => b.b = state,
            Key::Return => b.start = state,
            Key::RShift => b.select = state,
            _ => (),
        }
        self.buttons = b;
    }

    /// Sets the button that the pad button `button` stands for to `state`.
    pub fn update_button(&mut self, button: PadButton, state: ButtonState)
        ensures
            *final(self) == old(self).spec_update_button(button, state),
    {
        let mut b = self.buttons;
        match button {
            // the machine has A and B the other way round
            PadButton::B => b.a = state,
            PadButton::A => b.b = state,
            PadButton::DPadLeft => b.left = state,
            PadButton::DPadRight => b.right = state,
            PadButton::DPadUp => b.up = state,
            PadButton::DPadDown => b.down = state,
            PadButton::Start => b.start = state,
            PadButton::Back => b.select = state,
            _ => (),
        }
        self.buttons = b;
    }

    /// Lets the left stick press the four directions.
    pub fn update_axis(&mut self, axis: Axis, val: i16)
        ensures
            *final(self) == old(self).spec_update_axis(axis, val),
    {
        let mut b = self.buttons;
        let state = AxisState::from_value(val);
        match axis {
            Axis::LeftX => {
                if state != self.x_axis_state {
                    self.x_axis_state = state;
                    b.left = state.down_if_negative();
                    b.right = state.down_if_positive();
                }
            },
            Axis::LeftY => {
                if state != self.y_axis_state {
                    self.y_axis_state = state;
                    b.up = state.down_if_negative();
                    b.down = state.down_if_positive();
                }
            },
            _ => (),
        }
        self.buttons = b;
    }
}

} // verus!
