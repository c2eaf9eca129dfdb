use hidmaestro::json::Json;
use hidmaestro::patch::{parse_buttons, patched_state, Patch};
use hidmaestro::{Axis, Buttons, GamepadState, Hat, Single, StandardAxes};

fn json(text: &str) -> Json {
    Json::parse(text).unwrap()
}

fn single(value: f32) -> Single {
    Single(value.to_bits())
}

fn no_patch() -> Patch {
    Patch {
        buttons: None,
        hat: None,
        hat_degrees: None,
        axes: None,
        standard_axes: None,
    }
}

fn state_with_angle() -> GamepadState {
    let mut state = GamepadState::neutral();
    state.hat_degrees = Some(single(45.0));
    state
}

#[test]
fn rejected_patch_leaves_cached_state_unchanged() {
    let mut state = GamepadState::neutral();
    state.buttons = Buttons::from_bits_truncate(Buttons::A);
    let before = state.clone();
    let patch = Patch {
        buttons: Some(json("\"b\"")),
        axes: Some(vec![("not_an_axis".to_string(), json("0.5"))]),
        ..no_patch()
    };

    assert!(patched_state(state.clone(), patch).is_err());
    assert_eq!(state, before);
}

#[test]
fn discrete_hat_clears_degrees() {
    for (hat, expected) in [("none", Hat::Neutral), ("north", Hat::North)] {
        let patch = Patch {
            hat: Some(hat.to_string()),
            ..no_patch()
        };
        let state = patched_state(state_with_angle(), patch).unwrap();

        assert_eq!(state.hat, expected);
        assert_eq!(state.hat_degrees, None);
    }
}

#[test]
fn omitted_hat_fields_preserve_degrees() {
    let patch = Patch {
        buttons: Some(json("\"a\"")),
        ..no_patch()
    };

    assert_eq!(
        patched_state(state_with_angle(), patch)
            .unwrap()
            .hat_degrees,
        Some(single(45.0))
    );
}

#[test]
fn null_hat_degrees_clears_angle() {
    let patch = Patch {
        hat_degrees: Some(None),
        ..no_patch()
    };

    assert_eq!(
        patched_state(state_with_angle(), patch)
            .unwrap()
            .hat_degrees,
        None
    );
}

#[test]
fn numeric_angle_overrides_discrete_hat_when_both_are_set() {
    let patch = Patch {
        hat: Some("east".to_string()),
        hat_degrees: Some(Some(single(270.0))),
        ..no_patch()
    };
    let state = patched_state(state_with_angle(), patch).unwrap();

    assert_eq!(state.hat, Hat::East);
    assert_eq!(state.hat_degrees, Some(single(270.0)));
}

#[test]
fn buttons_are_read_in_every_form() {
    let bits = |text: &str| parse_buttons(&json(text)).map(|b| b.bits());
    assert_eq!(bits("[\"a\", \"start\"]"), Ok(0x81));
    assert_eq!(bits("[]"), Ok(0));
    assert_eq!(bits("\"Cross\""), Ok(1));
    assert_eq!(bits("129"), Ok(0x81));
    assert_eq!(bits("4294967295"), Ok(0x3_ffff));
    assert_eq!(bits("4294967297"), Ok(1));
}

#[test]
fn unreadable_buttons_are_explained() {
    let error = |text: &str| parse_buttons(&json(text)).unwrap_err();
    assert_eq!(error("\"nope\""), "unknown button 'nope'");
    assert_eq!(error("[\"a\", \"nope\", 3]"), "unknown button 'nope'");
    assert_eq!(error("[\"a\", 3]"), "buttons must be strings");
    assert_eq!(
        error("-1"),
        "buttons bitmask must be an unsigned integer"
    );
    assert_eq!(error("1.5"), "buttons bitmask must be an unsigned integer");
    for other in ["null", "true", "{}"] {
        assert_eq!(
            error(other),
            "buttons must be a string, array of names, or integer bitmask"
        );
    }
}

#[test]
fn names_of_buttons_are_read_back() {
    for bits in [0u32, 1, 0x81, 0x1_0400, 0x3_ffff] {
        let buttons = Buttons::from_bits_truncate(bits);
        let names = Json::Array(buttons.names().into_iter().map(Json::text).collect());
        assert_eq!(parse_buttons(&names), Ok(buttons));
    }
}

#[test]
fn axes_are_set_in_order_and_limited() {
    let patch = Patch {
        axes: Some(vec![
            ("left_x".to_string(), json("0.25")),
            ("rx".to_string(), json("7")),
            ("ry".to_string(), json("-0.5")),
            ("x".to_string(), json("0.75")),
            ("0x0140".to_string(), json("1e300")),
        ]),
        ..no_patch()
    };
    let state = patched_state(GamepadState::neutral(), patch).unwrap();
    assert_eq!(state.axes.get(Axis(Axis::X)), Some(single(0.75)));
    assert_eq!(state.axes.get(Axis(Axis::RX)), Some(single(1.0)));
    assert_eq!(state.axes.get(Axis(Axis::RY)), Some(single(0.0)));
    assert_eq!(state.axes.get(Axis(0x140)), Some(single(1.0)));
    assert_eq!(state.axes.get(Axis(Axis::Y)), None);
}

#[test]
fn each_wrong_part_of_a_patch_is_explained() {
    let error = |patch: Patch| patched_state(GamepadState::neutral(), patch).unwrap_err();
    assert_eq!(
        error(Patch {
            hat: Some("sideways".to_string()),
            ..no_patch()
        }),
        "unknown direction 'sideways'"
    );
    assert_eq!(
        error(Patch {
            axes: Some(vec![("bogus".to_string(), json("1"))]),
            ..no_patch()
        }),
        "unknown axis 'bogus'"
    );
    assert_eq!(
        error(Patch {
            axes: Some(vec![("x".to_string(), json("\"1\""))]),
            ..no_patch()
        }),
        "axis values must be numbers"
    );
    assert_eq!(
        error(Patch {
            buttons: Some(json("null")),
            hat: Some("sideways".to_string()),
            ..no_patch()
        }),
        "buttons must be a string, array of names, or integer bitmask"
    );
}

#[test]
fn a_patch_keeps_what_it_does_not_hold() {
    let mut state = state_with_angle();
    state.buttons = Buttons::from_bits_truncate(Buttons::Y);
    state.battery_level = Some(3);
    let axes = StandardAxes {
        left_stick_x: Some(single(2.0)),
        ..StandardAxes::default()
    };
    let patch = Patch {
        standard_axes: Some(axes),
        ..no_patch()
    };
    let after = patched_state(state.clone(), patch).unwrap();
    assert_eq!(after.standard_axes, Some(axes));
    assert_eq!(after.buttons, state.buttons);
    assert_eq!(after.hat_degrees, state.hat_degrees);
    assert_eq!(after.battery_level, Some(3));
    assert_eq!(patched_state(state.clone(), no_patch()), Ok(state));
}
