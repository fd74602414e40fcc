use gamedorp::ui::controller::{
    Axis, AxisState, ControllerState, Input, Key, PadButton, AXIS_DEAD_ZONE,
};
use gamedorp::ui::{pixel_square, resolution, ButtonState, Buttons, Color, Event};

#[test]
fn stick_positions() {
    assert_eq!(AXIS_DEAD_ZONE, 10_000);
    assert_eq!(AxisState::from_value(0), AxisState::Neutral);
    assert_eq!(AxisState::from_value(10_000), AxisState::Neutral);
    assert_eq!(AxisState::from_value(-10_000), AxisState::Neutral);
    assert_eq!(AxisState::from_value(10_001), AxisState::Positive);
    assert_eq!(AxisState::from_value(-10_001), AxisState::Negative);
    assert_eq!(AxisState::from_value(i16::MAX), AxisState::Positive);
    assert_eq!(AxisState::from_value(i16::MIN), AxisState::Negative);
    assert_eq!(AxisState::Negative.down_if_negative(), ButtonState::Down);
    assert_eq!(AxisState::Neutral.down_if_negative(), ButtonState::Up);
    assert_eq!(AxisState::Positive.down_if_negative(), ButtonState::Up);
    assert_eq!(AxisState::Positive.down_if_positive(), ButtonState::Down);
    assert_eq!(AxisState::Neutral.down_if_positive(), ButtonState::Up);
    assert_eq!(AxisState::Negative.down_if_positive(), ButtonState::Up);
}

#[test]
fn keys_press_buttons() {
    let up = Buttons::new(ButtonState::Up);
    let mut controller = ControllerState::new();
    assert_eq!(controller.buttons(), up);
    assert_eq!(controller.update(Input::KeyDown(Key::LAlt)), Event::Nothing);
    assert_eq!(controller.buttons(), Buttons { a: ButtonState::Down, ..up });
    assert_eq!(controller.update(Input::KeyDown(Key::LCtrl)), Event::Nothing);
    assert_eq!(controller.update(Input::KeyUp(Key::LAlt)), Event::Nothing);
    assert_eq!(controller.buttons(), Buttons { b: ButtonState::Down, ..up });
    controller.update_key(Key::LCtrl, ButtonState::Up);
    controller.update_key(Key::Up, ButtonState::Down);
    controller.update_key(Key::Down, ButtonState::Down);
    controller.update_key(Key::Left, ButtonState::Down);
    controller.update_key(Key::Right, ButtonState::Down);
    controller.update_key(Key::Return, ButtonState::Down);
    controller.update_key(Key::RShift, ButtonState::Down);
    controller.update_key(Key::Other, ButtonState::Down);
    assert_eq!(
        controller.buttons(),
        Buttons { a: ButtonState::Up, b: ButtonState::Up, ..Buttons::new(ButtonState::Down) }
    );
}

#[test]
fn pad_buttons_press_buttons_with_a_and_b_exchanged() {
    let up = Buttons::new(ButtonState::Up);
    let mut controller = ControllerState::new();
    assert_eq!(controller.update(Input::ButtonDown(PadButton::A)), Event::Nothing);
    assert_eq!(controller.buttons(), Buttons { b: ButtonState::Down, ..up });
    assert_eq!(controller.update(Input::ButtonUp(PadButton::A)), Event::Nothing);
    assert_eq!(controller.update(Input::ButtonDown(PadButton::B)), Event::Nothing);
    assert_eq!(controller.buttons(), Buttons { a: ButtonState::Down, ..up });
    controller.update_button(PadButton::B, ButtonState::Up);
    controller.update_button(PadButton::Back, ButtonState::Down);
    assert_eq!(controller.buttons(), Buttons { select: ButtonState::Down, ..up });
    controller.update_button(PadButton::Start, ButtonState::Down);
    controller.update_button(PadButton::DPadUp, ButtonState::Down);
    controller.update_button(PadButton::DPadDown, ButtonState::Down);
    controller.update_button(PadButton::DPadLeft, ButtonState::Down);
    controller.update_button(PadButton::DPadRight, ButtonState::Down);
    controller.update_button(PadButton::Other, ButtonState::Down);
    assert_eq!(
        controller.buttons(),
        Buttons { a: ButtonState::Up, b: ButtonState::Up, ..Buttons::new(ButtonState::Down) }
    );
}

#[test]
fn the_stick_presses_directions_when_its_position_changes() {
    let up = Buttons::new(ButtonState::Up);
    let mut controller = ControllerState::new();
    controller.update_axis(Axis::LeftX, 20_000);
    assert_eq!(controller.buttons(), Buttons { right: ButtonState::Down, ..up });
    assert_eq!(controller.x_axis_state, AxisState::Positive);
    // the left key goes down; more movement on the same side changes nothing
    controller.update_key(Key::Left, ButtonState::Down);
    controller.update_axis(Axis::LeftX, 30_000);
    assert_eq!(
        controller.buttons(),
        Buttons { left: ButtonState::Down, right: ButtonState::Down, ..up }
    );
    // back to rest: both directions are released
    assert_eq!(controller.update(Input::AxisMotion(Axis::LeftX, 0)), Event::Nothing);
    assert_eq!(controller.buttons(), up);
    controller.update_axis(Axis::LeftX, -20_000);
    assert_eq!(controller.buttons(), Buttons { left: ButtonState::Down, ..up });
    controller.update_axis(Axis::LeftY, -20_000);
    assert_eq!(
        controller.buttons(),
        Buttons { left: ButtonState::Down, up: ButtonState::Down, ..up }
    );
    controller.update_axis(Axis::LeftY, 20_000);
    assert_eq!(
        controller.buttons(),
        Buttons { left: ButtonState::Down, down: ButtonState::Down, ..up }
    );
    assert_eq!(controller.y_axis_state, AxisState::Positive);
    controller.update_axis(Axis::Other, 20_000);
    assert_eq!(
        controller.buttons(),
        Buttons { left: ButtonState::Down, down: ButtonState::Down, ..up }
    );
}

#[test]
fn escape_and_closing_the_window_switch_off() {
    let mut controller = ControllerState::new();
    assert_eq!(controller.update(Input::KeyDown(Key::Escape)), Event::PowerOff);
    assert_eq!(controller.update(Input::Quit), Event::PowerOff);
    assert_eq!(controller.update(Input::KeyUp(Key::Escape)), Event::Nothing);
    assert_eq!(controller.buttons(), Buttons::new(ButtonState::Up));
}

#[test]
fn shades_and_geometry() {
    assert_eq!(Color::Black.rgb(), (0x00, 0x00, 0x00));
    assert_eq!(Color::DarkGrey.rgb(), (0x55, 0x55, 0x55));
    assert_eq!(Color::LightGrey.rgb(), (0xab, 0xab, 0xab));
    assert_eq!(Color::White.rgb(), (0xff, 0xff, 0xff));
    assert_eq!(resolution(1), (160, 144));
    assert_eq!(resolution(4), (640, 576));
    assert_eq!(resolution(0), (0, 0));
    assert_eq!(pixel_square(10, 20, 0), (10, 20, 0));
    assert_eq!(pixel_square(10, 20, 1), (10, 20, 1));
    assert_eq!(pixel_square(10, 20, 3), (30, 60, 3));
    assert_eq!(pixel_square(159, 143, 255), (40545, 36465, 255));
}
