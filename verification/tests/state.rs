use hidmaestro::{Axis, Buttons, Hat};

#[test]
fn button_names_round_trip() {
    for name in [
        "a",
        "b",
        "x",
        "y",
        "left_bumper",
        "right_bumper",
        "back",
        "start",
        "left_stick",
        "right_stick",
        "guide",
        "touchpad",
        "share",
        "misc1",
        "left_paddle",
        "right_paddle",
        "left_paddle2",
        "right_paddle2",
    ] {
        let b = Buttons::by_name(name).unwrap_or_else(|| panic!("{name}"));
        assert!(b.names().contains(&name) || name == "misc1", "{name}");
    }
    assert_eq!(Buttons::by_name("cross"), Some(Buttons::from_bits_truncate(Buttons::A)));
    assert_eq!(
        Buttons::by_name("L1"),
        Some(Buttons::from_bits_truncate(Buttons::LEFT_BUMPER))
    );
    assert_eq!(Buttons::by_name("bogus"), None);
}

#[test]
fn hat_names() {
    assert_eq!(Hat::by_name("up"), Some(Hat::North));
    assert_eq!(Hat::by_name("down-left"), Some(Hat::SouthWest));
    assert_eq!(Hat::by_name("neutral"), Some(Hat::Neutral));
    assert_eq!(Hat::by_name("nope"), None);
}

#[test]
fn axis_names() {
    assert_eq!(Axis::by_name("x"), Some(Axis(Axis::X)));
    assert_eq!(Axis::by_name("left_trigger"), Some(Axis(Axis::Z)));
    assert_eq!(Axis::by_name("0x0133"), Some(Axis(Axis::RX)));
    assert_eq!(Axis::by_name("304"), Some(Axis(Axis::X)));
    assert_eq!(Axis::by_name("bogus"), None);
}

#[test]
fn hat_serializes_as_byte() {
    assert_eq!(Hat::SouthEast.as_u8(), 4);
    assert_eq!(Hat::from_u8(7), Hat::West);
    assert_eq!(Hat::from_u8(99), Hat::Neutral);
}

#[test]
fn every_direction_survives_its_byte() {
    for byte in 0..=8u8 {
        assert_eq!(Hat::from_u8(byte).as_u8(), byte);
    }
    assert_eq!(Hat::default(), Hat::Neutral);
}

#[test]
fn axis_numbers_at_the_edges() {
    assert_eq!(Axis::by_name("0xffff"), Some(Axis(0xffff)));
    assert_eq!(Axis::by_name("0x10000"), None);
    assert_eq!(Axis::by_name("65535"), Some(Axis(65535)));
    assert_eq!(Axis::by_name("65536"), None);
    assert_eq!(Axis::by_name("0x"), None);
    assert_eq!(Axis::by_name(""), None);
    assert_eq!(Axis::by_name("+7"), Some(Axis(7)));
    assert_eq!(Axis::by_name("0X0131"), Some(Axis(0x131)));
    assert_eq!(Axis::by_name("-1"), None);
}

#[test]
fn axis_numbers_are_read_back() {
    for usage in (0..=u16::MAX).step_by(97) {
        assert_eq!(Axis::by_name(&format!("{usage}")), Some(Axis(usage)));
        assert_eq!(Axis::by_name(&format!("0x{usage:04X}")), Some(Axis(usage)));
    }
}

#[test]
fn button_sets() {
    let a = Buttons::from_bits_truncate(Buttons::A);
    let start = Buttons::from_bits_truncate(Buttons::START);
    let both = a.union(start);
    assert_eq!(both.bits(), 0x81);
    assert_eq!(both.names(), vec!["a", "start"]);
    assert!(both.contains(a));
    assert!(!a.contains(both));
    assert_eq!(both.difference(a), start);
    assert_eq!(Buttons::empty(), Buttons::default());
    assert_eq!(Buttons::from_bits_truncate(0xffff_ffff).bits(), 0x3_ffff);
}

#[test]
fn canonical_names_are_read_back() {
    for bit in 0..18u32 {
        let button = Buttons::from_bits_truncate(1 << bit);
        let names = button.names();
        assert_eq!(names.len(), 1);
        assert_eq!(Buttons::by_name(names[0]), Some(button));
    }
}
