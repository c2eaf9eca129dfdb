//! Buttons, directions and axes of a controller, and their names.

use vstd::prelude::*;

use crate::text;

verus! {

broadcast use vstd::string::group_string_axioms;

/// A set of pressed buttons. Profile-specific names (Cross for A, Circle for B,
/// and so on) are a matter of the active profile. On the wire it is the mask.
#[derive(Clone, Copy, Debug, PartialEq, Eq, Hash, Structural)]
pub struct Buttons {
    bits: u32,
}

/// The mask of all known buttons.
pub const ALL_BUTTONS: u32 = 0x3_ffff;

/// The masks of the single buttons.
impl Buttons {
    pub const NONE: u32 = 0;

    pub const A: u32 = 0x1;

    pub const B: u32 = 0x2;

    pub const X: u32 = 0x4;

    pub const Y: u32 = 0x8;

    pub const LEFT_BUMPER: u32 = 0x10;

    pub const RIGHT_BUMPER: u32 = 0x20;

    /// Select, Share or View.
    pub const BACK: u32 = 0x40;

    /// Options or Menu.
    pub const START: u32 = 0x80;

    /// L3.
    pub const LEFT_STICK: u32 = 0x100;

    /// R3.
    pub const RIGHT_STICK: u32 = 0x200;

    /// Xbox, PS or Home.
    pub const GUIDE: u32 = 0x400;

    /// PS touchpad click.
    pub const TOUCHPAD: u32 = 0x800;

    /// Xbox Series Share.
    pub const SHARE: u32 = 0x1000;

    pub const RIGHT_PADDLE: u32 = 0x2000;

    pub const LEFT_PADDLE: u32 = 0x4000;

    /// Switch 2 C, or DualSense microphone mute.
    pub const MISC1: u32 = 0x8000;

    pub const RIGHT_PADDLE2: u32 = 0x1_0000;

    pub const LEFT_PADDLE2: u32 = 0x2_0000;

    /// PlayStation name of A.
    pub const CROSS: u32 = 0x1;

    /// PlayStation name of B.
    pub const CIRCLE: u32 = 0x2;

    /// PlayStation name of X.
    pub const SQUARE: u32 = 0x4;

    /// PlayStation name of Y.
    pub const TRIANGLE: u32 = 0x8;
}

/// The button that a name in lookup form stands for.
pub open spec fn named_button(name: Seq<char>) -> Option<u32> {
    if name == "a"@ || name == "cross"@ {
        Some(Buttons::A)
    } else if name == "b"@ || name == "circle"@ {
        Some(Buttons::B)
    } else if name == "x"@ || name == "square"@ {
        Some(Buttons::X)
    } else if name == "y"@ || name == "triangle"@ {
        Some(Buttons::Y)
    } else if name == "left_bumper"@ || name == "lb"@ || name == "l1"@ {
        Some(Buttons::LEFT_BUMPER)
    } else if name == "right_bumper"@ || name == "rb"@ || name == "r1"@ {
        Some(Buttons::RIGHT_BUMPER)
    } else if name == "back"@ || name == "select"@ || name == "view"@ || name == "share_x360"@ {
        Some(Buttons::BACK)
    } else if name == "start"@ || name == "options"@ || name == "menu"@ {
        Some(Buttons::START)
    } else if name == "left_stick"@ || name == "l3"@ {
        Some(Buttons::LEFT_STICK)
    } else if name == "right_stick"@ || name == "r3"@ {
        Some(Buttons::RIGHT_STICK)
    } else if name == "guide"@ || name == "home"@ || name == "ps"@ || name == "xbox"@ {
        Some(Buttons::GUIDE)
    } else if name == "touchpad"@ {
        Some(Buttons::TOUCHPAD)
    } else if name == "share"@ {
        Some(Buttons::SHARE)
    } else if name == "right_paddle"@ {
        Some(Buttons::RIGHT_PADDLE)
    } else if name == "left_paddle"@ {
        Some(Buttons::LEFT_PADDLE)
    } else if name == "misc1"@ || name == "mic"@ || name == "c"@ {
        Some(Buttons::MISC1)
    } else if name == "right_paddle2"@ {
        Some(Buttons::RIGHT_PADDLE2)
    } else if name == "left_paddle2"@ {
        Some(Buttons::LEFT_PADDLE2)
    } else {
        None
    }
}

/// The canonical name of the button with the given bit number.
pub open spec fn button_name(index: nat) -> Seq<char> {
    if index == 0 {
        "a"@
    } else if index == 1 {
        "b"@
    } else if index == 2 {
        "x"@
    } else if index == 3 {
        "y"@
    } else if index == 4 {
        "left_bumper"@
    } else if index == 5 {
        "right_bumper"@
    } else if index == 6 {
        "back"@
    } else if index == 7 {
        "start"@
    } else if index == 8 {
        "left_stick"@
    } else if index == 9 {
        "right_stick"@
    } else if index == 10 {
        "guide"@
    } else if index == 11 {
        "touchpad"@
    } else if index == 12 {
        "share"@
    } else if index == 13 {
        "right_paddle"@
    } else if index == 14 {
        "left_paddle"@
    } else if index == 15 {
        "misc1"@
    } else if index == 16 {
        "right_paddle2"@
    } else {
        "left_paddle2"@
    }
}

/// True when `mask` holds the button with the given bit number.
pub open spec fn holds(mask: u32, index: nat) -> bool {
    mask & (1u32 << index as u32) != 0
}

/// The canonical names of the buttons in `mask` with bit numbers below `count`.
pub open spec fn button_names(mask: u32, count: nat) -> Seq<Seq<char>>
    decreases count,
{
    if count == 0 {
        Seq::empty()
    } else {
        let index = (count - 1) as nat;
        if holds(mask, index) {
            button_names(mask, index).push(button_name(index))
        } else {
            button_names(mask, index)
        }
    }
}

fn canonical_name(index: u32) -> (name: &'static str)
    requires
        index < 18,
    ensures
        name@ == button_name(index as nat),
{
    match index {
        0 => "a",
        1 => "b",
        2 => "x",
        3 => "y",
        4 => "left_bumper",
        5 => "right_bumper",
        6 => "back",
        7 => "start",
        8 => "left_stick",
        9 => "right_stick",
        10 => "guide",
        11 => "touchpad",
        12 => "share",
        13 => "right_paddle",
        14 => "left_paddle",
        15 => "misc1",
        16 => "right_paddle2",
        _ => "left_paddle2",
    }
}

impl Buttons {
    /// The mask.
    pub closed spec fn mask(self) -> u32 {
        self.bits
    }

    /// The buttons with this mask.
    pub closed spec fn of(mask: u32) -> Buttons {
        Buttons { bits: mask }
    }

    #[verifier::type_invariant]
    spec fn known(self) -> bool {
        self.bits <= ALL_BUTTONS
    }

    /// The known buttons of a mask; other bits are dropped.
    pub fn from_bits_truncate(bits: u32) -> (buttons: Buttons)
        ensures
            buttons.mask() == bits & ALL_BUTTONS,
    {
        assert(bits & 0x3_ffff <= 0x3_ffff) by (bit_vector);
        Buttons { bits: bits & ALL_BUTTONS }
    }

    /// No button.
    pub fn empty() -> (buttons: Buttons)
        ensures
            buttons.mask() == 0,
    {
        Buttons { bits: 0 }
    }

    /// The mask.
    pub fn bits(self) -> (bits: u32)
        ensures
            bits == self.mask(),
            bits <= ALL_BUTTONS,
    {
        proof {
            use_type_invariant(self);
        }
        self.bits
    }

    /// The buttons of both.
    pub fn union(self, other: Buttons) -> (both: Buttons)
        ensures
            both.mask() == self.mask() | other.mask(),
    {
        proof {
            use_type_invariant(self);
            use_type_invariant(other);
            let a = self.bits;
            let b = other.bits;
            assert(a | b <= 0x3_ffff) by (bit_vector)
                requires
                    a <= 0x3_ffff,
                    b <= 0x3_ffff,
            ;
        }
        Buttons { bits: self.bits | other.bits }
    }

    /// The buttons of this set that are not in the other.
    pub fn difference(self, other: Buttons) -> (rest: Buttons)
        ensures
            rest.mask() == self.mask() & !other.mask(),
    {
        proof {
            use_type_invariant(self);
            let a = self.bits;
            let b = other.bits;
            assert(a & !b <= 0x3_ffff) by (bit_vector)
                requires
                    a <= 0x3_ffff,
            ;
        }
        Buttons { bits: self.bits & !other.bits }
    }

    /// True when every button of the other set is in this one.
    pub fn contains(self, other: Buttons) -> (all: bool)
        ensures
            all == (self.mask() & other.mask() == other.mask()),
    {
        self.bits & other.bits == other.bits
    }

    /// Parses a button name, without regard to case: `"a"`, `"cross"`,
    /// `"left_bumper"`, and so on. `-` and space count as `_`.
    pub fn by_name(name: &str) -> (button: Option<Buttons>)
        ensures
            match (button, named_button(text::normalized(name@))) {
                (Some(b), Some(mask)) => b.mask() == mask,
                (None, None) => true,
                _ => false,
            },
    {
        let n = text::normalize(name);
        if text::spells(&n, "a") || text::spells(&n, "cross") {
            Some(Buttons { bits: Buttons::A })
        } else if text::spells(&n, "b") || text::spells(&n, "circle") {
            Some(Buttons { bits: Buttons::B })
        } else if text::spells(&n, "x") || text::spells(&n, "square") {
            Some(Buttons { bits: Buttons::X })
        } else if text::spells(&n, "y") || text::spells(&n, "triangle") {
            Some(Buttons { bits: Buttons::Y })
        } else if text::spells(&n, "left_bumper")
            || text::spells(&n, "lb")
            || text::spells(&n, "l1")
        {
            Some(Buttons { bits: Buttons::LEFT_BUMPER })
        } else if text::spells(&n, "right_bumper")
            || text::spells(&n, "rb")
            || text::spells(&n, "r1")
        {
            Some(Buttons { bits: Buttons::RIGHT_BUMPER })
        } else if text::spells(&n, "back")
            || text::spells(&n, "select")
            || text::spells(&n, "view")
            || text::spells(&n, "share_x360")
        {
            Some(Buttons { bits: Buttons::BACK })
        } else if text::spells(&n, "start")
            || text::spells(&n, "options")
            || text::spells(&n, "menu")
        {
            Some(Buttons { bits: Buttons::START })
        } else if text::spells(&n, "left_stick") || text::spells(&n, "l3") {
            Some(Buttons { bits: Buttons::LEFT_STICK })
        } else if text::spells(&n, "right_stick") || text::spells(&n, "r3") {
            Some(Buttons { bits: Buttons::RIGHT_STICK })
        } else if text::spells(&n, "guide")
            || text::spells(&n, "home")
            || text::spells(&n, "ps")
            || text::spells(&n, "xbox")
        {
            Some(Buttons { bits: Buttons::GUIDE })
        } else if text::spells(&n, "touchpad") {
            Some(Buttons { bits: Buttons::TOUCHPAD })
        } else if text::spells(&n, "share") {
            Some(Buttons { bits: Buttons::SHARE })
        } else if text::spells(&n, "right_paddle") {
            Some(Buttons { bits: Buttons::RIGHT_PADDLE })
        } else if text::spells(&n, "left_paddle") {
            Some(Buttons { bits: Buttons::LEFT_PADDLE })
        } else if text::spells(&n, "misc1") || text::spells(&n, "mic") || text::spells(&n, "c") {
            Some(Buttons { bits: Buttons::MISC1 })
        } else if text::spells(&n, "right_paddle2") {
            Some(Buttons { bits: Buttons::RIGHT_PADDLE2 })
        } else if text::spells(&n, "left_paddle2") {
            Some(Buttons { bits: Buttons::LEFT_PADDLE2 })
        } else {
            None
        }
    }

    /// The names of the buttons in the set, in canonical form.
    pub fn names(self) -> (names: Vec<&'static str>)
        ensures
            text::texts(names@) == button_names(self.mask(), 18),
    {
        let mut names: Vec<&'static str> = Vec::new();
        for index in 0u32..18
            invariant
                text::texts(names@) =~= button_names(self.mask(), index as nat),
        {
            if self.bits & (1u32 << index) != 0 {
                names.push(canonical_name(index));
            }
        }
        names
    }
}

/// No button is pressed.
impl Default for Buttons {
    fn default() -> (buttons: Buttons)
        ensures
            buttons.mask() == 0,
    {
        Buttons { bits: 0 }
    }
}

/// A direction of the d-pad.
#[derive(Clone, Copy, Debug, PartialEq, Eq, Hash, Structural)]
pub enum Hat {
    /// Released.
    Neutral,
    North,
    NorthEast,
    East,
    SouthEast,
    South,
    SouthWest,
    West,
    NorthWest,
}

/// The direction that a name in lookup form stands for.
pub open spec fn named_hat(name: Seq<char>) -> Option<Hat> {
    if name == "none"@
        || name == "neutral"@
        || name == "released"@
        || name == "center"@
        || name == "centre"@
    {
        Some(Hat::Neutral)
    } else if name == "north"@ || name == "up"@ || name == "n"@ {
        Some(Hat::North)
    } else if name == "north_east"@ || name == "up_right"@ || name == "ne"@ {
        Some(Hat::NorthEast)
    } else if name == "east"@ || name == "right"@ || name == "e"@ {
        Some(Hat::East)
    } else if name == "south_east"@ || name == "down_right"@ || name == "se"@ {
        Some(Hat::SouthEast)
    } else if name == "south"@ || name == "down"@ || name == "s"@ {
        Some(Hat::South)
    } else if name == "south_west"@ || name == "down_left"@ || name == "sw"@ {
        Some(Hat::SouthWest)
    } else if name == "west"@ || name == "left"@ || name == "w"@ {
        Some(Hat::West)
    } else if name == "north_west"@ || name == "up_left"@ || name == "nw"@ {
        Some(Hat::NorthWest)
    } else {
        None
    }
}

/// The byte of a direction: zero for none, then clockwise from north.
pub open spec fn hat_byte(hat: Hat) -> u8 {
    match hat {
        Hat::Neutral => 0,
        Hat::North => 1,
        Hat::NorthEast => 2,
        Hat::East => 3,
        Hat::SouthEast => 4,
        Hat::South => 5,
        Hat::SouthWest => 6,
        Hat::West => 7,
        Hat::NorthWest => 8,
    }
}

impl Hat {
    /// Parses a direction name: `"up"`, `"north_east"`, `"down"`, and so on,
    /// without regard to case. `-` and space count as `_`.
    pub fn by_name(name: &str) -> (hat: Option<Hat>)
        ensures
            hat == named_hat(text::normalized(name@)),
    {
        let n = text::normalize(name);
        if text::spells(&n, "none")
            || text::spells(&n, "neutral")
            || text::spells(&n, "released")
            || text::spells(&n, "center")
            || text::spells(&n, "centre")
        {
            Some(Hat::Neutral)
        } else if text::spells(&n, "north") || text::spells(&n, "up") || text::spells(&n, "n") {
            Some(Hat::North)
        } else if text::spells(&n, "north_east")
            || text::spells(&n, "up_right")
            || text::spells(&n, "ne")
        {
            Some(Hat::NorthEast)
        } else if text::spells(&n, "east") || text::spells(&n, "right") || text::spells(&n, "e") {
            Some(Hat::East)
        } else if text::spells(&n, "south_east")
            || text::spells(&n, "down_right")
            || text::spells(&n, "se")
        {
            Some(Hat::SouthEast)
        } else if text::spells(&n, "south") || text::spells(&n, "down") || text::spells(&n, "s") {
            Some(Hat::South)
        } else if text::spells(&n, "south_west")
            || text::spells(&n, "down_left")
            || text::spells(&n, "sw")
        {
            Some(Hat::SouthWest)
        } else if text::spells(&n, "west") || text::spells(&n, "left") || text::spells(&n, "w") {
            Some(Hat::West)
        } else if text::spells(&n, "north_west")
            || text::spells(&n, "up_left")
            || text::spells(&n, "nw")
        {
            Some(Hat::NorthWest)
        } else {
            None
        }
    }

    /// The byte that stands for the direction on the wire.
    pub fn as_u8(self) -> (byte: u8)
        ensures
            byte == hat_byte(self),
    {
        match self {
            Hat::Neutral => 0,
            Hat::North => 1,
            Hat::NorthEast => 2,
            Hat::East => 3,
            Hat::SouthEast => 4,
            Hat::South => 5,
            Hat::SouthWest => 6,
            Hat::West => 7,
            Hat::NorthWest => 8,
        }
    }

    /// The direction that a byte on the wire stands for; an unknown byte is no
    /// direction.
    pub fn from_u8(byte: u8) -> (hat: Hat)
        ensures
            byte <= 8 ==> hat_byte(hat) == byte,
            byte > 8 ==> hat == Hat::Neutral,
    {
        match byte {
            1 => Hat::North,
            2 => Hat::NorthEast,
            3 => Hat::East,
            4 => Hat::SouthEast,
            5 => Hat::South,
            6 => Hat::SouthWest,
            7 => Hat::West,
            8 => Hat::NorthWest,
            _ => Hat::Neutral,
        }
    }
}

/// The d-pad is released.
impl Default for Hat {
    fn default() -> (hat: Hat)
        ensures
            hat == Hat::Neutral,
    {
        Hat::Neutral
    }
}

/// An analog axis by its HID usage: the usage page times 256 plus the usage.
#[derive(Clone, Copy, Debug, PartialEq, Eq, PartialOrd, Ord, Hash, Structural)]
pub struct Axis(pub u16);

/// The usages of the known axes.
impl Axis {
    pub const X: u16 = 0x0130;

    pub const Y: u16 = 0x0131;

    pub const Z: u16 = 0x0132;

    pub const RX: u16 = 0x0133;

    pub const RY: u16 = 0x0134;

    pub const RZ: u16 = 0x0135;

    pub const SLIDER: u16 = 0x0136;

    pub const DIAL: u16 = 0x0137;

    pub const WHEEL: u16 = 0x0138;

    pub const VX: u16 = 0x0140;

    pub const VY: u16 = 0x0141;

    pub const RUDDER: u16 = 0x02BA;

    pub const THROTTLE: u16 = 0x02BB;

    pub const ACCELERATOR: u16 = 0x02C4;

    pub const BRAKE: u16 = 0x02C5;

    pub const CLUTCH: u16 = 0x02C6;

    pub const STEERING: u16 = 0x02C8;
}

/// A usage written as a number.
pub open spec fn axis_number(digits: Seq<char>, radix: nat) -> Option<Axis> {
    match text::unsigned_number(digits, radix, 0xffff) {
        Some(n) => Some(Axis(n as u16)),
        None => None,
    }
}

/// The axis that a name in lookup form stands for: a usage in hexadecimal after
/// `0x`, a known name, or a usage in decimal.
pub open spec fn named_axis(name: Seq<char>) -> Option<Axis> {
    if name.len() >= 2 && name[0] == '0' && name[1] == 'x' {
        axis_number(name.skip(2), 16)
    } else {
        known_axis(name)
    }
}

/// The axis that a name without the mark of a hexadecimal number stands for.
pub open spec fn known_axis(name: Seq<char>) -> Option<Axis> {
    if name == "x"@ || name == "left_x"@ || name == "left_stick_x"@ {
        Some(Axis(Axis::X))
    } else if name == "y"@ || name == "left_y"@ || name == "left_stick_y"@ {
        Some(Axis(Axis::Y))
    } else if name == "z"@ || name == "left_trigger"@ || name == "lt"@ {
        Some(Axis(Axis::Z))
    } else if name == "rx"@ || name == "right_x"@ || name == "right_stick_x"@ {
        Some(Axis(Axis::RX))
    } else if name == "ry"@ || name == "right_y"@ || name == "right_stick_y"@ {
        Some(Axis(Axis::RY))
    } else if name == "rz"@ || name == "right_trigger"@ || name == "rt"@ {
        Some(Axis(Axis::RZ))
    } else if name == "slider"@ {
        Some(Axis(Axis::SLIDER))
    } else if name == "dial"@ {
        Some(Axis(Axis::DIAL))
    } else if name == "wheel"@ {
        Some(Axis(Axis::WHEEL))
    } else if name == "steering"@ {
        Some(Axis(Axis::STEERING))
    } else if name == "rudder"@ {
        Some(Axis(Axis::RUDDER))
    } else if name == "throttle"@ {
        Some(Axis(Axis::THROTTLE))
    } else if name == "accelerator"@ || name == "gas"@ {
        Some(Axis(Axis::ACCELERATOR))
    } else if name == "brake"@ {
        Some(Axis(Axis::BRAKE))
    } else if name == "clutch"@ {
        Some(Axis(Axis::CLUTCH))
    } else {
        axis_number(name, 10)
    }
}

fn parse_axis(n: &Vec<char>, start: usize, radix: u64) -> (axis: Option<Axis>)
    requires
        start <= n@.len(),
        1 <= radix <= 16,
    ensures
        axis == axis_number(n@.skip(start as int), radix as nat),
{
    match text::parse_unsigned(n, start, radix, 0xffff) {
        Some(usage) => Some(Axis(usage as u16)),
        None => None,
    }
}

impl Axis {
    /// Parses an axis name: `"x"`, `"rx"`, `"left_trigger"`, `"throttle"`, or a
    /// raw usage such as `"0x0130"` or `"308"`.
    pub fn by_name(name: &str) -> (axis: Option<Axis>)
        ensures
            axis == named_axis(text::normalized(name@)),
    {
        let n = text::normalize(name);
        if n.len() >= 2 && n[0] == '0' && n[1] == 'x' {
            return parse_axis(&n, 2, 16);
        }
        assert(n@.skip(0) =~= n@);
        if text::spells(&n, "x") || text::spells(&n, "left_x") || text::spells(&n, "left_stick_x") {
            Some(Axis(Axis::X))
        } else if text::spells(&n, "y")
            || text::spells(&n, "left_y")
            || text::spells(&n, "left_stick_y")
        {
            Some(Axis(Axis::Y))
        } else if text::spells(&n, "z")
            || text::spells(&n, "left_trigger")
            || text::spells(&n, "lt")
        {
            Some(Axis(Axis::Z))
        } else if text::spells(&n, "rx")
            || text::spells(&n, "right_x")
            || text::spells(&n, "right_stick_x")
        {
            Some(Axis(Axis::RX))
        } else if text::spells(&n, "ry")
            || text::spells(&n, "right_y")
            || text::spells(&n, "right_stick_y")
        {
            Some(Axis(Axis::RY))
        } else if text::spells(&n, "rz")
            || text::spells(&n, "right_trigger")
            || text::spells(&n, "rt")
        {
            Some(Axis(Axis::RZ))
        } else if text::spells(&n, "slider") {
            Some(Axis(Axis::SLIDER))
        } else if text::spells(&n, "dial") {
            Some(Axis(Axis::DIAL))
        } else if text::spells(&n, "wheel") {
            Some(Axis(Axis::WHEEL))
        } else if text::spells(&n, "steering") {
            Some(Axis(Axis::STEERING))
        } else if text::spells(&n, "rudder") {
            Some(Axis(Axis::RUDDER))
        } else if text::spells(&n, "throttle") {
            Some(Axis(Axis::THROTTLE))
        } else if text::spells(&n, "accelerator") || text::spells(&n, "gas") {
            Some(Axis(Axis::ACCELERATOR))
        } else if text::spells(&n, "brake") {
            Some(Axis(Axis::BRAKE))
        } else if text::spells(&n, "clutch") {
            Some(Axis(Axis::CLUTCH))
        } else {
            parse_axis(&n, 0, 10)
        }
    }
}

/// The union of the buttons that the names stand for, if each stands for one.
pub open spec fn named_union(names: Seq<Seq<char>>) -> Option<u32>
    decreases names.len(),
{
    if names.len() == 0 {
        Some(0)
    } else {
        match (
            named_union(names.drop_last()),
            named_button(text::normalized(names.last())),
        ) {
            (Some(mask), Some(button)) => Some(mask | button),
            _ => None,
        }
    }
}

/// Every canonical name stands for its button.
pub proof fn law_canonical_name(index: nat)
    requires
        index < 18,
    ensures
        named_button(text::normalized(button_name(index))) == Some(1u32 << index as u32),
{
    reveal_strlit("a");
    reveal_strlit("cross");
    reveal_strlit("b");
    reveal_strlit("circle");
    reveal_strlit("x");
    reveal_strlit("square");
    reveal_strlit("y");
    reveal_strlit("triangle");
    reveal_strlit("left_bumper");
    reveal_strlit("lb");
    reveal_strlit("l1");
    reveal_strlit("right_bumper");
    reveal_strlit("rb");
    reveal_strlit("r1");
    reveal_strlit("back");
    reveal_strlit("select");
    reveal_strlit("view");
    reveal_strlit("share_x360");
    reveal_strlit("start");
    reveal_strlit("options");
    reveal_strlit("menu");
    reveal_strlit("left_stick");
    reveal_strlit("l3");
    reveal_strlit("right_stick");
    reveal_strlit("r3");
    reveal_strlit("guide");
    reveal_strlit("home");
    reveal_strlit("ps");
    reveal_strlit("xbox");
    reveal_strlit("touchpad");
    reveal_strlit("share");
    reveal_strlit("right_paddle");
    reveal_strlit("left_paddle");
    reveal_strlit("misc1");
    reveal_strlit("mic");
    reveal_strlit("c");
    reveal_strlit("right_paddle2");
    reveal_strlit("left_paddle2");
    assert("a"@[0] == 'a');
    assert("b"@[0] == 'b');
    assert("back"@[0] == 'b');
    assert("c"@[0] == 'c');
    assert("circle"@[0] == 'c');
    assert("cross"@[0] == 'c');
    assert("guide"@[0] == 'g');
    assert("home"@[0] == 'h');
    assert("l1"@[0] == 'l');
    assert("l1"@[1] == '1');
    assert("l3"@[0] == 'l');
    assert("l3"@[1] == '3');
    assert("lb"@[0] == 'l');
    assert("lb"@[1] == 'b');
    assert("left_bumper"@[0] == 'l');
    assert("left_bumper"@[5] == 'b');
    assert("left_paddle"@[0] == 'l');
    assert("left_paddle"@[5] == 'p');
    assert("left_paddle2"@[6] == 'a');
    assert("left_stick"@[0] == 'l');
    assert("menu"@[0] == 'm');
    assert("misc1"@[0] == 'm');
    assert("ps"@[0] == 'p');
    assert("r1"@[0] == 'r');
    assert("r1"@[1] == '1');
    assert("r3"@[0] == 'r');
    assert("r3"@[1] == '3');
    assert("rb"@[0] == 'r');
    assert("rb"@[1] == 'b');
    assert("right_bumper"@[6] == 'b');
    assert("right_paddle"@[6] == 'p');
    assert("right_stick"@[0] == 'r');
    assert("select"@[0] == 's');
    assert("select"@[1] == 'e');
    assert("share"@[0] == 's');
    assert("share"@[1] == 'h');
    assert("share_x360"@[0] == 's');
    assert("square"@[0] == 's');
    assert("square"@[1] == 'q');
    assert("start"@[0] == 's');
    assert("start"@[1] == 't');
    assert("touchpad"@[1] == 'o');
    assert("triangle"@[1] == 'r');
    assert("view"@[0] == 'v');
    assert("x"@[0] == 'x');
    assert("xbox"@[0] == 'x');
    assert("y"@[0] == 'y');
    let name = button_name(index);
    assert(text::normalized(name) =~= name);
    assert(1u32 << 0u32 == 0x1 && 1u32 << 1u32 == 0x2 && 1u32 << 2u32 == 0x4 && 1u32 << 3u32 == 0x8
        && 1u32 << 4u32 == 0x10 && 1u32 << 5u32 == 0x20 && 1u32 << 6u32 == 0x40 && 1u32 << 7u32
        == 0x80 && 1u32 << 8u32 == 0x100 && 1u32 << 9u32 == 0x200 && 1u32 << 10u32 == 0x400 && 1u32
        << 11u32 == 0x800 && 1u32 << 12u32 == 0x1000 && 1u32 << 13u32 == 0x2000 && 1u32 << 14u32
        == 0x4000 && 1u32 << 15u32 == 0x8000 && 1u32 << 16u32 == 0x1_0000 && 1u32 << 17u32
        == 0x2_0000) by (bit_vector);
}

proof fn lemma_names_below(mask: u32, count: nat)
    requires
        count <= 18,
    ensures
        named_union(button_names(mask, count)) == Some(mask & !(0xffff_ffffu32 << count as u32)),
    decreases count,
{
    if count == 0 {
        assert(mask & !(0xffff_ffffu32 << 0u32) == 0) by (bit_vector);
    } else {
        let index = (count - 1) as nat;
        let i = index as u32;
        let j = count as u32;
        lemma_names_below(mask, index);
        law_canonical_name(index);
        let before = button_names(mask, index);
        assert(before.push(button_name(index)).drop_last() =~= before);
        assert(if mask & (1u32 << i) != 0 {
            (mask & !(0xffff_ffffu32 << i)) | (1u32 << i) == mask & !(0xffff_ffffu32 << j)
        } else {
            mask & !(0xffff_ffffu32 << i) == mask & !(0xffff_ffffu32 << j)
        }) by (bit_vector)
            requires
                i < 18,
                j == i + 1,
        ;
    }
}

/// The names of a set of buttons stand for exactly that set.
pub proof fn law_names_round_trip(mask: u32)
    requires
        mask <= ALL_BUTTONS,
    ensures
        named_union(button_names(mask, 18)) == Some(mask),
{
    lemma_names_below(mask, 18);
    assert(mask & !(0xffff_ffffu32 << 18u32) == mask) by (bit_vector)
        requires
            mask <= 0x3_ffff,
    ;
}

proof fn lemma_hexadecimal_axis(prefix: Seq<char>, hex: Seq<char>)
    requires
        prefix == "0x"@ || prefix == "0X"@,
        hex.len() > 0,
        text::all_digits(hex, 16),
        text::positional(hex, 16) <= 0xffff,
    ensures
        named_axis(text::normalized(prefix + hex)) == Some(
            Axis(text::positional(hex, 16) as u16),
        ),
{
    reveal_strlit("0x");
    reveal_strlit("0X");
    let name = text::normalized(prefix + hex);
    text::lemma_normalized_digits(hex);
    assert(name[0] == '0');
    assert(name[1] == 'x');
    assert(name.skip(2) =~= text::normalized(hex));
    assert(text::normalized(hex)[0] != '+');
}

/// Every usage is found by its number: in decimal, and, behind `0x` or `0X`, by any
/// hexadecimal digits, small or capital, with or without leading zeros.
pub proof fn law_axis_numbers_are_read_back(usage: u16, hex: Seq<char>)
    ensures
        named_axis(text::normalized(text::decimal(usage as nat))) == Some(Axis(usage)),
        named_axis(text::normalized("0x"@ + text::hexadecimal(usage as nat))) == Some(Axis(usage)),
        hex.len() > 0 && text::all_digits(hex, 16) && text::positional(hex, 16) == usage ==> {
            &&& named_axis(text::normalized("0x"@ + hex)) == Some(Axis(usage))
            &&& named_axis(text::normalized("0X"@ + hex)) == Some(Axis(usage))
        },
{
    text::lemma_hexadecimal_is_read_back(usage as nat);
    lemma_hexadecimal_axis("0x"@, text::hexadecimal(usage as nat));
    if hex.len() > 0 && text::all_digits(hex, 16) && text::positional(hex, 16) == usage {
        lemma_hexadecimal_axis("0x"@, hex);
        lemma_hexadecimal_axis("0X"@, hex);
    }
    let digits = text::decimal(usage as nat);
    text::lemma_decimal_is_read_back(usage as nat);
    assert(text::normalized(digits) =~= digits);
    reveal_strlit("x");
    reveal_strlit("left_x");
    reveal_strlit("left_stick_x");
    reveal_strlit("y");
    reveal_strlit("left_y");
    reveal_strlit("left_stick_y");
    reveal_strlit("z");
    reveal_strlit("left_trigger");
    reveal_strlit("lt");
    reveal_strlit("rx");
    reveal_strlit("right_x");
    reveal_strlit("right_stick_x");
    reveal_strlit("ry");
    reveal_strlit("right_y");
    reveal_strlit("right_stick_y");
    reveal_strlit("rz");
    reveal_strlit("right_trigger");
    reveal_strlit("rt");
    reveal_strlit("slider");
    reveal_strlit("dial");
    reveal_strlit("wheel");
    reveal_strlit("steering");
    reveal_strlit("rudder");
    reveal_strlit("throttle");
    reveal_strlit("accelerator");
    reveal_strlit("gas");
    reveal_strlit("brake");
    reveal_strlit("clutch");
    assert("x"@[0] == 'x');
    assert("left_x"@[0] == 'l');
    assert("left_stick_x"@[0] == 'l');
    assert("y"@[0] == 'y');
    assert("left_y"@[0] == 'l');
    assert("left_stick_y"@[0] == 'l');
    assert("z"@[0] == 'z');
    assert("left_trigger"@[0] == 'l');
    assert("lt"@[0] == 'l');
    assert("rx"@[0] == 'r');
    assert("right_x"@[0] == 'r');
    assert("right_stick_x"@[0] == 'r');
    assert("ry"@[0] == 'r');
    assert("right_y"@[0] == 'r');
    assert("right_stick_y"@[0] == 'r');
    assert("rz"@[0] == 'r');
    assert("right_trigger"@[0] == 'r');
    assert("rt"@[0] == 'r');
    assert("slider"@[0] == 's');
    assert("dial"@[0] == 'd');
    assert("wheel"@[0] == 'w');
    assert("steering"@[0] == 's');
    assert("rudder"@[0] == 'r');
    assert("throttle"@[0] == 't');
    assert("accelerator"@[0] == 'a');
    assert("gas"@[0] == 'g');
    assert("brake"@[0] == 'b');
    assert("clutch"@[0] == 'c');
    assert('0' <= digits[0] <= '9');
    if digits.len() >= 2 {
        assert('0' <= digits[1] <= '9');
    }
}

/// Each known button name, in any spelling, stands for one bit of the mask, and each
/// bit has no other names: the face buttons under their Xbox and PlayStation names,
/// the shoulder buttons, the stick buttons, the menu buttons and the paddles.
#[verifier::rlimit(50)]
pub proof fn law_button_names(name: Seq<char>)
    ensures
        named_button(name) == Some(0x1u32) <==> (name == "a"@ || name == "cross"@),
        named_button(name) == Some(0x2u32) <==> (name == "b"@ || name == "circle"@),
        named_button(name) == Some(0x4u32) <==> (name == "x"@ || name == "square"@),
        named_button(name) == Some(0x8u32) <==> (name == "y"@ || name == "triangle"@),
        named_button(name) == Some(0x10u32) <==> (name == "left_bumper"@ || name == "lb"@ || name == "l1"@),
        named_button(name) == Some(0x20u32) <==> (name == "right_bumper"@ || name == "rb"@ || name == "r1"@),
        named_button(name) == Some(0x40u32) <==> (name == "back"@ || name == "select"@ || name == "view"@ || name == "share_x360"@),
        named_button(name) == Some(0x80u32) <==> (name == "start"@ || name == "options"@ || name == "menu"@),
        named_button(name) == Some(0x100u32) <==> (name == "left_stick"@ || name == "l3"@),
        named_button(name) == Some(0x200u32) <==> (name == "right_stick"@ || name == "r3"@),
        named_button(name) == Some(0x400u32) <==> (name == "guide"@ || name == "home"@ || name == "ps"@ || name == "xbox"@),
        named_button(name) == Some(0x800u32) <==> (name == "touchpad"@),
        named_button(name) == Some(0x1000u32) <==> (name == "share"@),
        named_button(name) == Some(0x2000u32) <==> (name == "right_paddle"@),
        named_button(name) == Some(0x4000u32) <==> (name == "left_paddle"@),
        named_button(name) == Some(0x8000u32) <==> (name == "misc1"@ || name == "mic"@ || name == "c"@),
        named_button(name) == Some(0x1_0000u32) <==> (name == "right_paddle2"@),
        named_button(name) == Some(0x2_0000u32) <==> (name == "left_paddle2"@),
        named_button(name) matches Some(mask) ==> mask <= 0x3_ffff && mask & ((mask - 1) as u32) == 0,
{
    reveal_strlit("a");
    reveal_strlit("cross");
    reveal_strlit("b");
    reveal_strlit("circle");
    reveal_strlit("x");
    reveal_strlit("square");
    reveal_strlit("y");
    reveal_strlit("triangle");
    reveal_strlit("left_bumper");
    reveal_strlit("lb");
    reveal_strlit("l1");
    reveal_strlit("right_bumper");
    reveal_strlit("rb");
    reveal_strlit("r1");
    reveal_strlit("back");
    reveal_strlit("select");
    reveal_strlit("view");
    reveal_strlit("share_x360");
    reveal_strlit("start");
    reveal_strlit("options");
    reveal_strlit("menu");
    reveal_strlit("left_stick");
    reveal_strlit("l3");
    reveal_strlit("right_stick");
    reveal_strlit("r3");
    reveal_strlit("guide");
    reveal_strlit("home");
    reveal_strlit("ps");
    reveal_strlit("xbox");
    reveal_strlit("touchpad");
    reveal_strlit("share");
    reveal_strlit("right_paddle");
    reveal_strlit("left_paddle");
    reveal_strlit("misc1");
    reveal_strlit("mic");
    reveal_strlit("c");
    reveal_strlit("right_paddle2");
    reveal_strlit("left_paddle2");
    assert("a"@.len() == 1);
    assert("cross"@.len() == 5);
    assert("b"@.len() == 1);
    assert("circle"@.len() == 6);
    assert("x"@.len() == 1);
    assert("square"@.len() == 6);
    assert("y"@.len() == 1);
    assert("triangle"@.len() == 8);
    assert("left_bumper"@.len() == 11);
    assert("lb"@.len() == 2);
    assert("l1"@.len() == 2);
    assert("right_bumper"@.len() == 12);
    assert("rb"@.len() == 2);
    assert("r1"@.len() == 2);
    assert("back"@.len() == 4);
    assert("select"@.len() == 6);
    assert("view"@.len() == 4);
    assert("share_x360"@.len() == 10);
    assert("start"@.len() == 5);
    assert("options"@.len() == 7);
    assert("menu"@.len() == 4);
    assert("left_stick"@.len() == 10);
    assert("l3"@.len() == 2);
    assert("right_stick"@.len() == 11);
    assert("r3"@.len() == 2);
    assert("guide"@.len() == 5);
    assert("home"@.len() == 4);
    assert("ps"@.len() == 2);
    assert("xbox"@.len() == 4);
    assert("touchpad"@.len() == 8);
    assert("share"@.len() == 5);
    assert("right_paddle"@.len() == 12);
    assert("left_paddle"@.len() == 11);
    assert("misc1"@.len() == 5);
    assert("mic"@.len() == 3);
    assert("c"@.len() == 1);
    assert("right_paddle2"@.len() == 13);
    assert("left_paddle2"@.len() == 12);
    assert("a"@[0] == 'a');
    assert("b"@[0] == 'b');
    assert("back"@[0] == 'b');
    assert("c"@[0] == 'c');
    assert("circle"@[0] == 'c');
    assert("cross"@[0] == 'c');
    assert("guide"@[0] == 'g');
    assert("home"@[0] == 'h');
    assert("l1"@[0] == 'l');
    assert("l1"@[1] == '1');
    assert("l3"@[0] == 'l');
    assert("l3"@[1] == '3');
    assert("lb"@[0] == 'l');
    assert("lb"@[1] == 'b');
    assert("left_bumper"@[0] == 'l');
    assert("left_bumper"@[5] == 'b');
    assert("left_paddle"@[0] == 'l');
    assert("left_paddle"@[5] == 'p');
    assert("left_paddle2"@[6] == 'a');
    assert("left_stick"@[0] == 'l');
    assert("menu"@[0] == 'm');
    assert("misc1"@[0] == 'm');
    assert("ps"@[0] == 'p');
    assert("r1"@[0] == 'r');
    assert("r1"@[1] == '1');
    assert("r3"@[0] == 'r');
    assert("r3"@[1] == '3');
    assert("rb"@[0] == 'r');
    assert("rb"@[1] == 'b');
    assert("right_bumper"@[6] == 'b');
    assert("right_paddle"@[6] == 'p');
    assert("right_stick"@[0] == 'r');
    assert("select"@[0] == 's');
    assert("select"@[1] == 'e');
    assert("share"@[0] == 's');
    assert("share"@[1] == 'h');
    assert("share_x360"@[0] == 's');
    assert("square"@[0] == 's');
    assert("square"@[1] == 'q');
    assert("start"@[0] == 's');
    assert("start"@[1] == 't');
    assert("touchpad"@[1] == 'o');
    assert("triangle"@[1] == 'r');
    assert("view"@[0] == 'v');
    assert("x"@[0] == 'x');
    assert("xbox"@[0] == 'x');
    assert("y"@[0] == 'y');
    assert(0x1u32 & 0x0u32 == 0 && 0x2u32 & 0x1u32 == 0 && 0x4u32 & 0x3u32 == 0 && 0x8u32 & 0x7u32 == 0 && 0x10u32 & 0xfu32 == 0 && 0x20u32 & 0x1fu32 == 0 && 0x40u32 & 0x3fu32 == 0 && 0x80u32 & 0x7fu32 == 0 && 0x100u32 & 0xffu32 == 0 && 0x200u32 & 0x1ffu32 == 0 && 0x400u32 & 0x3ffu32 == 0 && 0x800u32 & 0x7ffu32 == 0 && 0x1000u32 & 0xfffu32 == 0 && 0x2000u32 & 0x1fffu32 == 0 && 0x4000u32 & 0x3fffu32 == 0 && 0x8000u32 & 0x7fffu32 == 0 && 0x1_0000u32 & 0xffffu32 == 0 && 0x2_0000u32 & 0x1ffffu32 == 0) by (bit_vector);
}

/// The byte of the direction that a name stands for.
pub open spec fn named_hat_byte(name: Seq<char>) -> Option<u8> {
    match named_hat(name) {
        Some(hat) => Some(hat_byte(hat)),
        None => None,
    }
}

/// The names of a direction agree, and each direction has its byte: clockwise from
/// up, up 1, right 3, down 5 and left 7, with the diagonals between their two parts;
/// and 0 where the d-pad is released. No direction has another name.
#[verifier::rlimit(50)]
pub proof fn law_direction_names(name: Seq<char>)
    ensures
        named_hat_byte(name) == Some(0u8) <==> (name == "none"@ || name == "neutral"@ || name == "released"@ || name == "center"@ || name == "centre"@),
        named_hat_byte(name) == Some(1u8) <==> (name == "north"@ || name == "up"@ || name == "n"@),
        named_hat_byte(name) == Some(2u8) <==> (name == "north_east"@ || name == "up_right"@ || name == "ne"@),
        named_hat_byte(name) == Some(3u8) <==> (name == "east"@ || name == "right"@ || name == "e"@),
        named_hat_byte(name) == Some(4u8) <==> (name == "south_east"@ || name == "down_right"@ || name == "se"@),
        named_hat_byte(name) == Some(5u8) <==> (name == "south"@ || name == "down"@ || name == "s"@),
        named_hat_byte(name) == Some(6u8) <==> (name == "south_west"@ || name == "down_left"@ || name == "sw"@),
        named_hat_byte(name) == Some(7u8) <==> (name == "west"@ || name == "left"@ || name == "w"@),
        named_hat_byte(name) == Some(8u8) <==> (name == "north_west"@ || name == "up_left"@ || name == "nw"@),
        named_hat_byte(name) matches Some(byte) ==> byte <= 8,
{
    reveal_strlit("none");
    reveal_strlit("neutral");
    reveal_strlit("released");
    reveal_strlit("center");
    reveal_strlit("centre");
    reveal_strlit("north");
    reveal_strlit("up");
    reveal_strlit("n");
    reveal_strlit("north_east");
    reveal_strlit("up_right");
    reveal_strlit("ne");
    reveal_strlit("east");
    reveal_strlit("right");
    reveal_strlit("e");
    reveal_strlit("south_east");
    reveal_strlit("down_right");
    reveal_strlit("se");
    reveal_strlit("south");
    reveal_strlit("down");
    reveal_strlit("s");
    reveal_strlit("south_west");
    reveal_strlit("down_left");
    reveal_strlit("sw");
    reveal_strlit("west");
    reveal_strlit("left");
    reveal_strlit("w");
    reveal_strlit("north_west");
    reveal_strlit("up_left");
    reveal_strlit("nw");
    assert("none"@.len() == 4);
    assert("neutral"@.len() == 7);
    assert("released"@.len() == 8);
    assert("center"@.len() == 6);
    assert("centre"@.len() == 6);
    assert("north"@.len() == 5);
    assert("up"@.len() == 2);
    assert("n"@.len() == 1);
    assert("north_east"@.len() == 10);
    assert("up_right"@.len() == 8);
    assert("ne"@.len() == 2);
    assert("east"@.len() == 4);
    assert("right"@.len() == 5);
    assert("e"@.len() == 1);
    assert("south_east"@.len() == 10);
    assert("down_right"@.len() == 10);
    assert("se"@.len() == 2);
    assert("south"@.len() == 5);
    assert("down"@.len() == 4);
    assert("s"@.len() == 1);
    assert("south_west"@.len() == 10);
    assert("down_left"@.len() == 9);
    assert("sw"@.len() == 2);
    assert("west"@.len() == 4);
    assert("left"@.len() == 4);
    assert("w"@.len() == 1);
    assert("north_west"@.len() == 10);
    assert("up_left"@.len() == 7);
    assert("nw"@.len() == 2);
    assert("center"@[4] == 'e');
    assert("centre"@[4] == 'r');
    assert("down"@[0] == 'd');
    assert("down_right"@[0] == 'd');
    assert("e"@[0] == 'e');
    assert("east"@[0] == 'e');
    assert("left"@[0] == 'l');
    assert("n"@[0] == 'n');
    assert("ne"@[0] == 'n');
    assert("ne"@[1] == 'e');
    assert("neutral"@[0] == 'n');
    assert("none"@[0] == 'n');
    assert("north"@[0] == 'n');
    assert("north_east"@[0] == 'n');
    assert("north_east"@[6] == 'e');
    assert("north_west"@[0] == 'n');
    assert("north_west"@[6] == 'w');
    assert("nw"@[0] == 'n');
    assert("nw"@[1] == 'w');
    assert("released"@[0] == 'r');
    assert("right"@[0] == 'r');
    assert("s"@[0] == 's');
    assert("se"@[0] == 's');
    assert("se"@[1] == 'e');
    assert("south"@[0] == 's');
    assert("south_east"@[0] == 's');
    assert("south_east"@[6] == 'e');
    assert("south_west"@[0] == 's');
    assert("south_west"@[6] == 'w');
    assert("sw"@[0] == 's');
    assert("sw"@[1] == 'w');
    assert("up"@[0] == 'u');
    assert("up_left"@[0] == 'u');
    assert("up_right"@[0] == 'u');
    assert("w"@[0] == 'w');
    assert("west"@[0] == 'w');
}

/// Two names are those of opposite directions.
pub open spec fn opposite_names(a: Seq<char>, b: Seq<char>) -> bool {
    ||| a == "up"@ && b == "down"@
    ||| a == "left"@ && b == "right"@
    ||| a == "north"@ && b == "south"@
    ||| a == "east"@ && b == "west"@
    ||| a == "n"@ && b == "s"@
    ||| a == "e"@ && b == "w"@
    ||| a == "up_left"@ && b == "down_right"@
    ||| a == "up_right"@ && b == "down_left"@
    ||| a == "north_west"@ && b == "south_east"@
    ||| a == "north_east"@ && b == "south_west"@
    ||| a == "nw"@ && b == "se"@
    ||| a == "ne"@ && b == "sw"@
}

/// Opposite names stand for directions half a turn apart.
pub proof fn law_opposite_directions(a: Seq<char>, b: Seq<char>)
    requires
        opposite_names(a, b),
    ensures
        named_hat_byte(a) is Some && named_hat_byte(b) is Some,
        1 <= named_hat_byte(a)->0 <= 8 && 1 <= named_hat_byte(b)->0 <= 8,
        (named_hat_byte(a)->0 - named_hat_byte(b)->0) % 8 == 4,
{
    law_direction_names(a);
    law_direction_names(b);
}

/// The name of a diagonal, made of a name of up or down and one of left or right,
/// stands for the direction half way between the two.
pub proof fn law_diagonal_directions(vertical: Seq<char>, horizontal: Seq<char>)
    requires
        vertical == "up"@ || vertical == "down"@,
        horizontal == "left"@ || horizontal == "right"@,
    ensures
        ({
            let v = named_hat_byte(vertical);
            let h = named_hat_byte(horizontal);
            let d = named_hat_byte(vertical + "_"@ + horizontal);
            &&& v is Some && h is Some && d is Some
            &&& (d->0 - v->0) % 8 == 1 || (d->0 - v->0) % 8 == 7
            &&& (d->0 - h->0) % 8 == 1 || (d->0 - h->0) % 8 == 7
        }),
{
    reveal_strlit("up");
    reveal_strlit("down");
    reveal_strlit("left");
    reveal_strlit("right");
    reveal_strlit("_");
    reveal_strlit("up_left");
    reveal_strlit("up_right");
    reveal_strlit("down_left");
    reveal_strlit("down_right");
    assert("up"@ + "_"@ + "left"@ =~= "up_left"@);
    assert("up"@ + "_"@ + "right"@ =~= "up_right"@);
    assert("down"@ + "_"@ + "left"@ =~= "down_left"@);
    assert("down"@ + "_"@ + "right"@ =~= "down_right"@);
    law_direction_names(vertical);
    law_direction_names(horizontal);
    law_direction_names(vertical + "_"@ + horizontal);
}

/// Each known axis name stands for its HID usage: the sticks and triggers under their
/// short and their long names, and the axes of wheels, pedals and flight sticks.
#[verifier::rlimit(50)]
pub proof fn law_axis_names(name: Seq<char>)
    ensures
        (name == "x"@ || name == "left_x"@ || name == "left_stick_x"@) ==> named_axis(name) == Some(Axis(0x0130u16)),
        (name == "y"@ || name == "left_y"@ || name == "left_stick_y"@) ==> named_axis(name) == Some(Axis(0x0131u16)),
        (name == "z"@ || name == "left_trigger"@ || name == "lt"@) ==> named_axis(name) == Some(Axis(0x0132u16)),
        (name == "rx"@ || name == "right_x"@ || name == "right_stick_x"@) ==> named_axis(name) == Some(Axis(0x0133u16)),
        (name == "ry"@ || name == "right_y"@ || name == "right_stick_y"@) ==> named_axis(name) == Some(Axis(0x0134u16)),
        (name == "rz"@ || name == "right_trigger"@ || name == "rt"@) ==> named_axis(name) == Some(Axis(0x0135u16)),
        (name == "slider"@) ==> named_axis(name) == Some(Axis(0x0136u16)),
        (name == "dial"@) ==> named_axis(name) == Some(Axis(0x0137u16)),
        (name == "wheel"@) ==> named_axis(name) == Some(Axis(0x0138u16)),
        (name == "steering"@) ==> named_axis(name) == Some(Axis(0x02C8u16)),
        (name == "rudder"@) ==> named_axis(name) == Some(Axis(0x02BAu16)),
        (name == "throttle"@) ==> named_axis(name) == Some(Axis(0x02BBu16)),
        (name == "accelerator"@ || name == "gas"@) ==> named_axis(name) == Some(Axis(0x02C4u16)),
        (name == "brake"@) ==> named_axis(name) == Some(Axis(0x02C5u16)),
        (name == "clutch"@) ==> named_axis(name) == Some(Axis(0x02C6u16)),
        named_axis(name) is Some ==> (known_word(name) || text::unsigned_number(
            name,
            10,
            0xffff,
        ) is Some || (name.len() > 2 && name[0] == '0' && name[1] == 'x')),
{
    reveal_strlit("x");
    reveal_strlit("left_x");
    reveal_strlit("left_stick_x");
    reveal_strlit("y");
    reveal_strlit("left_y");
    reveal_strlit("left_stick_y");
    reveal_strlit("z");
    reveal_strlit("left_trigger");
    reveal_strlit("lt");
    reveal_strlit("rx");
    reveal_strlit("right_x");
    reveal_strlit("right_stick_x");
    reveal_strlit("ry");
    reveal_strlit("right_y");
    reveal_strlit("right_stick_y");
    reveal_strlit("rz");
    reveal_strlit("right_trigger");
    reveal_strlit("rt");
    reveal_strlit("slider");
    reveal_strlit("dial");
    reveal_strlit("wheel");
    reveal_strlit("steering");
    reveal_strlit("rudder");
    reveal_strlit("throttle");
    reveal_strlit("accelerator");
    reveal_strlit("gas");
    reveal_strlit("brake");
    reveal_strlit("clutch");
    assert("x"@.len() == 1);
    assert("left_x"@.len() == 6);
    assert("left_stick_x"@.len() == 12);
    assert("y"@.len() == 1);
    assert("left_y"@.len() == 6);
    assert("left_stick_y"@.len() == 12);
    assert("z"@.len() == 1);
    assert("left_trigger"@.len() == 12);
    assert("lt"@.len() == 2);
    assert("rx"@.len() == 2);
    assert("right_x"@.len() == 7);
    assert("right_stick_x"@.len() == 13);
    assert("ry"@.len() == 2);
    assert("right_y"@.len() == 7);
    assert("right_stick_y"@.len() == 13);
    assert("rz"@.len() == 2);
    assert("right_trigger"@.len() == 13);
    assert("rt"@.len() == 2);
    assert("slider"@.len() == 6);
    assert("dial"@.len() == 4);
    assert("wheel"@.len() == 5);
    assert("steering"@.len() == 8);
    assert("rudder"@.len() == 6);
    assert("throttle"@.len() == 8);
    assert("accelerator"@.len() == 11);
    assert("gas"@.len() == 3);
    assert("brake"@.len() == 5);
    assert("clutch"@.len() == 6);
    assert("brake"@[0] == 'b');
    assert("clutch"@[5] == 'h');
    assert("left_stick_x"@[11] == 'x');
    assert("left_stick_y"@[11] == 'y');
    assert("left_trigger"@[11] == 'r');
    assert("left_x"@[5] == 'x');
    assert("left_y"@[5] == 'y');
    assert("lt"@[0] == 'l');
    assert("right_stick_x"@[12] == 'x');
    assert("right_stick_y"@[12] == 'y');
    assert("right_trigger"@[12] == 'r');
    assert("right_x"@[6] == 'x');
    assert("right_y"@[6] == 'y');
    assert("rt"@[0] == 'r');
    assert("rt"@[1] == 't');
    assert("rudder"@[0] == 'r');
    assert("rudder"@[5] == 'r');
    assert("rx"@[0] == 'r');
    assert("rx"@[1] == 'x');
    assert("ry"@[0] == 'r');
    assert("ry"@[1] == 'y');
    assert("rz"@[0] == 'r');
    assert("rz"@[1] == 'z');
    assert("slider"@[0] == 's');
    assert("slider"@[5] == 'r');
    assert("steering"@[0] == 's');
    assert("throttle"@[0] == 't');
    assert("wheel"@[0] == 'w');
    assert("x"@[0] == 'x');
    assert("y"@[0] == 'y');
    assert("z"@[0] == 'z');
    if name.len() == 2 && name[0] == '0' && name[1] == 'x' {
        assert(name.skip(2) =~= Seq::empty());
    }
}

/// A word that names an axis.
pub open spec fn known_word(name: Seq<char>) -> bool {
    ||| name == "x"@
    ||| name == "left_x"@
    ||| name == "left_stick_x"@
    ||| name == "y"@
    ||| name == "left_y"@
    ||| name == "left_stick_y"@
    ||| name == "z"@
    ||| name == "left_trigger"@
    ||| name == "lt"@
    ||| name == "rx"@
    ||| name == "right_x"@
    ||| name == "right_stick_x"@
    ||| name == "ry"@
    ||| name == "right_y"@
    ||| name == "right_stick_y"@
    ||| name == "rz"@
    ||| name == "right_trigger"@
    ||| name == "rt"@
    ||| name == "slider"@
    ||| name == "dial"@
    ||| name == "wheel"@
    ||| name == "steering"@
    ||| name == "rudder"@
    ||| name == "throttle"@
    ||| name == "accelerator"@
    ||| name == "gas"@
    ||| name == "brake"@
    ||| name == "clutch"@
}

/// Buttons are known by their mask.
pub broadcast proof fn lemma_buttons_of(buttons: Buttons)
    ensures
        Buttons::of(#[trigger] buttons.mask()) == buttons,
{
}

/// Every mask is that of some buttons.
pub broadcast proof fn lemma_mask_of(mask: u32)
    ensures
        (#[trigger] Buttons::of(mask)).mask() == mask,
{
}

/// A direction is known by its byte.
pub proof fn law_hat_bytes_differ(a: Hat, b: Hat)
    ensures
        hat_byte(a) <= 8,
        hat_byte(a) == hat_byte(b) ==> a == b,
{
}

} // verus!
