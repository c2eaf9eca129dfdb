use hidmaestro::gamepad::{AxisValues, StateEdit};
use hidmaestro::{Axis, Buttons, GamepadState, Hat, Single, StandardAxes};

fn single(value: f32) -> Single {
    Single(value.to_bits())
}

fn buttons(bits: u32) -> Buttons {
    Buttons::from_bits_truncate(bits)
}

#[test]
fn pressing_and_releasing_leaves_the_rest() {
    let mut state = GamepadState::neutral();
    state.buttons = buttons(0b1010);
    state.hat = Hat::South;
    let pressed = state.edit(StateEdit::Press(buttons(0b0110)));
    assert_eq!(pressed.buttons.bits(), 0b1110);
    assert_eq!(pressed.hat, Hat::South);
    assert_eq!(pressed.edit(StateEdit::Press(buttons(0b0110))), pressed);
    let released = pressed.edit(StateEdit::Release(buttons(0b0110)));
    assert_eq!(released.buttons.bits(), 0b1000);
    assert_eq!(released, state.edit(StateEdit::Release(buttons(0b0110))));
    assert_eq!(
        state
            .edit(StateEdit::SetButtons(buttons(1)))
            .buttons
            .bits(),
        1
    );
    assert_eq!(pressed.edit(StateEdit::Reset), GamepadState::neutral());
    assert_eq!(GamepadState::default(), GamepadState::neutral());
}

#[test]
fn a_direction_clears_the_angle() {
    let mut state = GamepadState::neutral();
    state.hat_degrees = Some(single(45.0));
    let turned = state.edit(StateEdit::SetHat(Hat::West));
    assert_eq!(turned.hat, Hat::West);
    assert_eq!(turned.hat_degrees, None);
}

#[test]
fn axes_are_limited_to_the_unit_range() {
    let state = GamepadState::neutral();
    for (value, expected) in [
        (-3.0, 0.0),
        (0.0, 0.0),
        (0.25, 0.25),
        (1.0, 1.0),
        (1.5, 1.0),
        (f32::INFINITY, 1.0),
    ] {
        let moved = state.edit(StateEdit::SetAxis(Axis(Axis::BRAKE), single(value)));
        assert_eq!(moved.axes.get(Axis(Axis::BRAKE)), Some(single(expected)));
    }
    let change = StandardAxes {
        left_stick_x: Some(single(-1.0)),
        right_trigger: Some(single(9.0)),
        ..StandardAxes::default()
    };
    let moved = state.edit(StateEdit::MoveSticks(change));
    let axes = moved.standard_axes.unwrap();
    assert_eq!(axes.left_stick_x, Some(single(0.0)));
    assert_eq!(axes.right_trigger, Some(single(1.0)));
    assert_eq!(axes.left_stick_y, None);
    let replaced = moved.edit(StateEdit::SetStandardAxes(change));
    assert_eq!(replaced.standard_axes, Some(change));
}

#[test]
fn states_are_equal_when_their_numbers_are() {
    let with = |value: f32| {
        let mut state = GamepadState::neutral();
        state.hat_degrees = Some(single(value));
        state.axes = state.axes.with(Axis(Axis::X), single(value));
        state
    };
    assert_eq!(with(0.0), with(-0.0));
    assert_ne!(with(0.0), with(0.5));
    assert_ne!(with(f32::NAN), with(f32::NAN));
}

#[test]
fn axis_values_stand_in_the_order_of_usages() {
    let values = AxisValues::new()
        .with(Axis(7), single(0.7))
        .with(Axis(3), single(0.3))
        .with(Axis(9), single(0.9))
        .with(Axis(7), single(0.1));
    assert_eq!(
        values.entries(),
        vec![
            (Axis(3), single(0.3)),
            (Axis(7), single(0.1)),
            (Axis(9), single(0.9)),
        ]
    );
    assert_eq!(values.get(Axis(9)), Some(single(0.9)));
    assert_eq!(values.get(Axis(8)), None);
    assert_eq!(values.clone(), values);
}
