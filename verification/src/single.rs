//! IEEE 754 numbers as bit patterns: single precision values, and the steps
//! from double precision to them.

use vstd::arithmetic::power2::*;
use vstd::prelude::*;
use vstd::std_specs::cmp::PartialEqSpecImpl;

use crate::text;

verus! {

broadcast use vstd::string::group_string_axioms;

/// A single precision number, held as its IEEE 754 bit pattern.
#[derive(Clone, Copy, Debug)]
pub struct Single(pub u32);

/// Bit pattern of `0.0`.
pub const ZERO_BITS: u32 = 0;

/// Bit pattern of `1.0`.
pub const ONE_BITS: u32 = 0x3f80_0000;

/// Bit pattern of infinity.
pub const INFINITY_BITS: u32 = 0x7f80_0000;

/// The sign bit.
pub const SIGN_BIT: u32 = 0x8000_0000;

/// `n / unit` rounded to the nearest whole number, ties to even.
pub open spec fn half_even(n: nat, unit: nat) -> nat {
    let quotient = n / unit;
    let rest = n % unit;
    if 2 * rest > unit || (2 * rest == unit && quotient % 2 == 1) {
        quotient + 1
    } else {
        quotient
    }
}

/// Rounding moves a number by at most half a unit.
pub proof fn law_half_even_is_nearest(n: nat, unit: nat)
    requires
        unit > 0,
    ensures
        2 * (half_even(n, unit) * unit - n) <= unit,
        2 * (n - half_even(n, unit) * unit) <= unit,
{
    let quotient = n / unit;
    let rest = n % unit;
    vstd::arithmetic::div_mod::lemma_fundamental_div_mod(n as int, unit as int);
    assert(unit * quotient == quotient * unit) by (nonlinear_arith);
    assert((quotient + 1) * unit == quotient * unit + unit) by (nonlinear_arith);
}

/// The magnitude of a finite double as a single's bit pattern: the exponent is
/// rebased, the fraction rounded to the nearest, ties to even, and what is too
/// large becomes infinity.
pub open spec fn narrowed_magnitude(exponent: nat, fraction: nat) -> nat {
    let significand = if exponent == 0 {
        fraction
    } else {
        fraction + 0x10_0000_0000_0000
    };
    let scale = if exponent == 0 {
        1
    } else {
        exponent
    };
    let magnitude = if scale >= 897 {
        ((scale - 897) * 0x80_0000 + half_even(significand, pow2(29))) as nat
    } else {
        half_even(significand, pow2((29 + 897 - scale) as nat))
    };
    if magnitude < INFINITY_BITS {
        magnitude
    } else {
        INFINITY_BITS as nat
    }
}

/// The double with bit pattern `bits`, converted to single precision.
pub open spec fn narrowed(bits: u64) -> Single {
    let sign: int = if bits >= 0x8000_0000_0000_0000 {
        0x8000_0000
    } else {
        0
    };
    let magnitude = bits as nat % 0x8000_0000_0000_0000;
    let exponent = magnitude / 0x10_0000_0000_0000;
    let fraction = magnitude % 0x10_0000_0000_0000;
    let result: int = if exponent < 0x7ff {
        narrowed_magnitude(exponent, fraction) as int
    } else if fraction == 0 {
        INFINITY_BITS as int
    } else {
        let payload = fraction / 0x2000_0000;
        if payload < 0x40_0000 {
            INFINITY_BITS + 0x40_0000 + payload
        } else {
            INFINITY_BITS + payload
        }
    };
    Single((sign + result) as u32)
}

/// `value` limited to the range from `0.0` to `1.0`. A number that is not one
/// stays, and so does negative zero.
pub open spec fn unit_clamped(value: Single) -> Single {
    let magnitude = value.0 as int % 0x8000_0000;
    let negative = value.0 >= SIGN_BIT;
    if magnitude > INFINITY_BITS {
        value
    } else if negative && magnitude != 0 {
        Single(ZERO_BITS)
    } else if !negative && magnitude > ONE_BITS {
        Single(ONE_BITS)
    } else {
        value
    }
}

/// The number is `0.0` to `1.0`, or negative zero.
pub open spec fn in_unit_range(value: Single) -> bool {
    value.0 <= ONE_BITS || value.0 == SIGN_BIT
}

/// The bit pattern stands for no number.
pub open spec fn is_nan(value: Single) -> bool {
    value.0 as int % 0x8000_0000 > INFINITY_BITS
}

/// The two stand for the same number: the same bit pattern, or zero with either
/// sign. What is no number is equal to nothing, not even to itself.
pub open spec fn same_number(a: Single, b: Single) -> bool {
    &&& !is_nan(a)
    &&& !is_nan(b)
    &&& a == b || (a.0 as int % 0x8000_0000 == 0 && b.0 as int % 0x8000_0000 == 0)
}

/// Equality of numbers, not of bit patterns.
impl PartialEq for Single {
    fn eq(&self, other: &Single) -> (equal: bool) {
        let a: u32 = self.0 % SIGN_BIT;
        let b: u32 = other.0 % SIGN_BIT;
        a <= INFINITY_BITS && b <= INFINITY_BITS && (self.0 == other.0 || (a == 0 && b == 0))
    }
}

impl PartialEqSpecImpl for Single {
    open spec fn obeys_eq_spec() -> bool {
        true
    }

    open spec fn eq_spec(&self, other: &Single) -> bool {
        same_number(*self, *other)
    }
}

/// Zero has two signs and is one number; what is no number differs from itself; and
/// equality of numbers is symmetric and carries over.
pub proof fn law_equality_of_numbers(a: Single, b: Single, c: Single)
    ensures
        same_number(Single(ZERO_BITS), Single(SIGN_BIT)),
        is_nan(a) <==> !same_number(a, a),
        same_number(a, b) ==> same_number(b, a),
        same_number(a, b) && same_number(b, c) ==> same_number(a, c),
{
}

/// Clamping puts every number in the unit range, and changes none that is in it.
pub proof fn law_clamp(value: Single)
    ensures
        !is_nan(value) ==> in_unit_range(unit_clamped(value)),
        in_unit_range(value) ==> unit_clamped(value) == value,
        unit_clamped(unit_clamped(value)) == unit_clamped(value),
{
}

/// A value in the unit range stays, a larger one becomes one, and a smaller one zero.
pub proof fn law_clamp_to_the_limits(value: Single)
    ensures
        in_unit_range(value) ==> unit_clamped(value) == value,
        0x3f80_0000 < value.0 <= 0x7f80_0000 ==> unit_clamped(value) == Single(0x3f80_0000),
        0x8000_0000 < value.0 <= 0xff80_0000 ==> unit_clamped(value) == Single(0),
        in_unit_range(value) <==> (value.0 <= 0x3f80_0000 || value.0 == 0x8000_0000),
{
}

/// A double that is a number narrows to a number.
pub proof fn law_narrowed_is_a_number(bits: u64)
    requires
        bits as nat % 0x8000_0000_0000_0000 <= 0x7ff0_0000_0000_0000,
    ensures
        !is_nan(narrowed(bits)),
{
}

/// The number in thousandths, rounded to the nearest, ties to even.
pub open spec fn thousandths(magnitude: nat) -> nat {
    let exponent = magnitude / 0x80_0000;
    let fraction = magnitude % 0x80_0000;
    let significand = if exponent == 0 {
        fraction
    } else {
        fraction + 0x80_0000
    };
    let scale = if exponent == 0 {
        1
    } else {
        exponent
    };
    if scale >= 150 {
        significand * pow2((scale - 150) as nat) * 1000
    } else {
        half_even(significand * 1000, pow2((150 - scale) as nat))
    }
}

/// The number in decimal notation with three digits after the point.
pub open spec fn fixed3(value: Single) -> Seq<char> {
    let magnitude = value.0 as nat % 0x8000_0000;
    if magnitude > INFINITY_BITS {
        "NaN"@
    } else {
        let sign = if value.0 >= SIGN_BIT {
            "-"@
        } else {
            ""@
        };
        if magnitude == INFINITY_BITS {
            sign + "inf"@
        } else {
            let count = thousandths(magnitude);
            sign + text::decimal(count / 1000) + "."@ + seq![
                text::digit_char(count / 100 % 10),
                text::digit_char(count / 10 % 10),
                text::digit_char(count % 10),
            ]
        }
    }
}

proof fn lemma_pow2_bounds()
    ensures
        pow2(24) == 0x100_0000,
        pow2(29) == 0x2000_0000,
        pow2(54) == 0x40_0000_0000_0000,
        pow2(35) == 0x8_0000_0000,
        pow2(127) == 0x8000_0000_0000_0000_0000_0000_0000_0000,
        pow2(128) == 0x1_0000_0000_0000_0000_0000_0000_0000_0000,
{
    lemma2_to64();
    lemma2_to64_rest();
    lemma_pow2_adds(64, 63);
    lemma_pow2_adds(64, 64);
}

/// Two to the power `exponent`.
fn power_of_two(exponent: u32) -> (power: u128)
    requires
        exponent < 128,
    ensures
        power == pow2(exponent as nat),
        power > 0,
{
    let mut power: u128 = 1;
    proof {
        lemma2_to64();
        lemma_pow2_bounds();
    }
    for i in 0..exponent
        invariant
            exponent < 128,
            power == pow2(i as nat),
            power > 0,
            pow2(127) == 0x8000_0000_0000_0000_0000_0000_0000_0000,
    {
        proof {
            lemma_pow2_strictly_increases(i as nat, 127);
            lemma_pow2_unfold((i + 1) as nat);
        }
        power = power * 2;
    }
    power
}

/// `n / unit` rounded to the nearest whole number, ties to even.
fn round_half_even(n: u128, unit: u128) -> (rounded: u128)
    requires
        unit > 0,
        n < u128::MAX,
    ensures
        rounded == half_even(n as nat, unit as nat),
{
    let quotient: u128 = n / unit;
    let rest: u128 = n % unit;
    proof {
        vstd::arithmetic::div_mod::lemma_div_is_ordered_by_denominator(n as int, 1, unit as int);
    }
    if rest > unit - rest || (rest == unit - rest && quotient % 2 == 1) {
        quotient + 1
    } else {
        quotient
    }
}

proof fn lemma_half_even_small(n: nat, unit: nat)
    requires
        2 * n < unit,
    ensures
        half_even(n, unit) == 0,
{
    vstd::arithmetic::div_mod::lemma_small_mod(n, unit);
    vstd::arithmetic::div_mod::lemma_basic_div(n as int, unit as int);
}

/// The whole part of a finite number, and its thousandths.
fn whole_and_thousandths(magnitude: u32) -> (parts: (u128, u128))
    requires
        magnitude < INFINITY_BITS,
    ensures
        parts.0 == thousandths(magnitude as nat) / 1000,
        parts.1 == thousandths(magnitude as nat) % 1000,
{
    let exponent: u32 = magnitude / 0x80_0000;
    let fraction: u32 = magnitude % 0x80_0000;
    let significand: u32 = if exponent == 0 {
        fraction
    } else {
        fraction + 0x80_0000
    };
    let scale: u32 = if exponent == 0 {
        1
    } else {
        exponent
    };
    let whole: u128;
    let part: u128;
    let ghost count = thousandths(magnitude as nat);
    proof {
        lemma_pow2_bounds();
    }
    if scale >= 150 {
        let power: u128 = power_of_two(scale - 150);
        proof {
            lemma_pow2_adds(24, (scale - 150) as nat);
            if scale - 150 < 104 {
                lemma_pow2_strictly_increases((24 + scale - 150) as nat, 128);
            }
            assert(significand * power < 0x100_0000 * power) by (nonlinear_arith)
                requires
                    significand < 0x100_0000,
                    power > 0,
            ;
        }
        whole = (significand as u128) * power;
        part = 0;
        assert(count == whole * 1000);
    } else {
        let scaled: u128 = (significand as u128) * 1000;
        let rounded: u128;
        if scale <= 115 {
            proof {
                if scale < 115 {
                    lemma_pow2_strictly_increases(35, (150 - scale) as nat);
                }
                lemma_half_even_small(scaled as nat, pow2((150 - scale) as nat));
            }
            rounded = 0;
        } else {
            rounded = round_half_even(scaled, power_of_two(150 - scale));
        }
        assert(count == rounded);
        whole = rounded / 1000;
        part = rounded % 1000;
    }
    (whole, part)
}

proof fn lemma_last_digits(count: nat)
    ensures
        count % 1000 / 100 == count / 100 % 10,
        count % 1000 / 10 % 10 == count / 10 % 10,
        count % 1000 % 10 == count % 10,
{
    let ones = count % 10;
    let tens = count / 10 % 10;
    let hundreds = count / 100 % 10;
    let rest = count / 1000;
    vstd::arithmetic::div_mod::lemma_div_denominator(count as int, 10, 10);
    vstd::arithmetic::div_mod::lemma_div_denominator(count as int, 100, 10);
    assert(count == 1000 * rest + 100 * hundreds + 10 * tens + ones);
    assert(count % 1000 == 100 * hundreds + 10 * tens + ones);
}

impl Single {
    /// The double with bit pattern `bits`, rounded to single precision.
    pub fn from_double_bits(bits: u64) -> (single: Single)
        ensures
            single == narrowed(bits),
    {
        let sign: u32 = if bits >= 0x8000_0000_0000_0000 {
            SIGN_BIT
        } else {
            0
        };
        let magnitude: u64 = bits % 0x8000_0000_0000_0000;
        let exponent: u64 = magnitude / 0x10_0000_0000_0000;
        let fraction: u64 = magnitude % 0x10_0000_0000_0000;
        if exponent >= 0x7ff {
            let payload: u32 = (fraction / 0x2000_0000) as u32;
            let result: u32 = if fraction == 0 {
                INFINITY_BITS
            } else if payload < 0x40_0000 {
                INFINITY_BITS + 0x40_0000 + payload
            } else {
                INFINITY_BITS + payload
            };
            return Single(sign + result);
        }
        let significand: u64 = if exponent == 0 {
            fraction
        } else {
            fraction + 0x10_0000_0000_0000
        };
        let scale: u64 = if exponent == 0 {
            1
        } else {
            exponent
        };
        proof {
            lemma_pow2_bounds();
        }
        let rounded: u128;
        if scale >= 897 {
            rounded = ((scale - 897) * 0x80_0000) as u128 + round_half_even(
                significand as u128,
                power_of_two(29),
            );
        } else if scale <= 872 {
            proof {
                if scale < 872 {
                    lemma_pow2_strictly_increases(54, (926 - scale) as nat);
                }
                lemma_half_even_small(significand as nat, pow2((926 - scale) as nat));
            }
            rounded = 0;
        } else {
            rounded = round_half_even(significand as u128, power_of_two((926 - scale) as u32));
        }
        let result: u32 = if rounded < INFINITY_BITS as u128 {
            rounded as u32
        } else {
            INFINITY_BITS
        };
        Single(sign + result)
    }

    /// The value limited to the range from `0.0` to `1.0`.
    pub fn clamp_unit(self) -> (clamped: Single)
        ensures
            clamped == unit_clamped(self),
    {
        let magnitude: u32 = self.0 % SIGN_BIT;
        if magnitude > INFINITY_BITS {
            self
        } else if self.0 >= SIGN_BIT && magnitude != 0 {
            Single(ZERO_BITS)
        } else if self.0 < SIGN_BIT && magnitude > ONE_BITS {
            Single(ONE_BITS)
        } else {
            self
        }
    }

    /// The value in decimal notation with three digits after the point.
    pub fn to_fixed3(self) -> (out: String)
        ensures
            out@ == fixed3(self),
    {
        let magnitude: u32 = self.0 % SIGN_BIT;
        let mut out = String::new();
        proof {
            reveal_strlit("");
        }
        if magnitude > INFINITY_BITS {
            out.append("NaN");
            assert(out@ =~= "NaN"@);
            return out;
        }
        let ghost sign = if self.0 >= SIGN_BIT {
            "-"@
        } else {
            ""@
        };
        if self.0 >= SIGN_BIT {
            out.append("-");
        }
        assert(out@ =~= sign);
        if magnitude == INFINITY_BITS {
            out.append("inf");
            return out;
        }
        let (whole, part) = whole_and_thousandths(magnitude);
        let ghost count = thousandths(magnitude as nat);
        text::push_decimal(&mut out, whole);
        out.append(".");
        let hundreds: char = (48u8 + ((part / 100) as u8)) as char;
        let tens: char = (48u8 + ((part / 10 % 10) as u8)) as char;
        let ones: char = (48u8 + ((part % 10) as u8)) as char;
        out.push(hundreds);
        out.push(tens);
        out.push(ones);
        proof {
            lemma_last_digits(count);
            assert(out@ =~= fixed3(self));
        }
        out
    }
}

/// The bit pattern of the double that is the same number as a normal single.
pub open spec fn widened(value: Single) -> u64 {
    let magnitude = value.0 as int % 0x8000_0000;
    let exponent = magnitude / 0x80_0000;
    let fraction = magnitude % 0x80_0000;
    let sign: int = if value.0 >= 0x8000_0000 {
        0x8000_0000_0000_0000
    } else {
        0
    };
    (sign + (exponent + 896) * 0x10_0000_0000_0000 + fraction * 0x2000_0000) as u64
}

/// A number that single precision can hold is narrowed to itself, and zero and infinity stay
/// what they are, each with its sign.
pub proof fn law_narrowing_keeps_singles(value: Single)
    ensures
        0x80_0000 <= value.0 as int % 0x8000_0000 < 0x7f80_0000 ==> narrowed(widened(value)) == value,
        narrowed(0) == Single(0),
        narrowed(0x8000_0000_0000_0000) == Single(0x8000_0000),
        narrowed(0x7ff0_0000_0000_0000) == Single(0x7f80_0000),
        narrowed(0xfff0_0000_0000_0000) == Single(0xff80_0000),
{
    lemma_pow2_bounds();
    let magnitude = value.0 as int % 0x8000_0000;
    if 0x80_0000 <= magnitude < 0x7f80_0000 {
        let exponent = magnitude / 0x80_0000;
        let fraction = magnitude % 0x80_0000;
        let bits = widened(value);
        let wide = bits as nat % 0x8000_0000_0000_0000;
        assert(wide == (exponent + 896) * 0x10_0000_0000_0000 + fraction * 0x2000_0000);
        assert(wide / 0x10_0000_0000_0000 == exponent + 896);
        assert(wide % 0x10_0000_0000_0000 == fraction * 0x2000_0000);
        let significand = (fraction * 0x2000_0000 + 0x10_0000_0000_0000) as nat;
        assert(significand == (fraction + 0x80_0000) * 0x2000_0000);
        assert(half_even(significand, 0x2000_0000) == fraction + 0x80_0000);
    }
    assert(half_even(0, pow2(925)) == 0) by {
        lemma_pow2_pos(925);
        assert(0nat / pow2(925) == 0) by (nonlinear_arith)
            requires
                pow2(925) > 0,
        ;
        assert(0nat % pow2(925) == 0) by (nonlinear_arith)
            requires
                pow2(925) > 0,
        ;
    }
}

/// Changing the sign of a double changes the sign of what it is narrowed to, and nothing
/// else.
pub proof fn law_narrowing_keeps_the_sign(bits: u64)
    requires
        bits < 0x8000_0000_0000_0000,
    ensures
        narrowed(bits).0 < 0x8000_0000,
        narrowed((bits + 0x8000_0000_0000_0000) as u64).0 == narrowed(bits).0 + 0x8000_0000,
{
    let exponent = bits as nat / 0x10_0000_0000_0000;
    let fraction = bits as nat % 0x10_0000_0000_0000;
    assert(narrowed_magnitude(exponent, fraction) <= INFINITY_BITS);
    assert(fraction / 0x2000_0000 < 0x80_0000);
}

} // verus!
