//! IEEE 754 doubles, held and tested by their bit patterns.

use vstd::arithmetic::div_mod::{lemma_div_is_ordered, lemma_fundamental_div_mod};
use vstd::arithmetic::power2::{lemma2_to64, lemma2_to64_rest, lemma_pow2_adds, lemma_pow2_pos, pow2};
use vstd::prelude::*;

verus! {

/// The magnitude from which a double rounds to an infinite single.
pub const SINGLE_OVERFLOW_BITS: u64 = 0x47EF_FFFF_F000_0000;

/// A double-precision number, held by its bit pattern.
#[derive(Clone, Copy, Debug, PartialEq, Eq, Structural)]
pub struct Double {
    pub bits: u64,
}

impl Double {
    /// The sign bit.
    pub open spec fn negative(self) -> bool {
        self.bits >= 0x8000_0000_0000_0000
    }

    /// The pattern without its sign bit.
    pub open spec fn magnitude(self) -> int {
        (self.bits % 0x8000_0000_0000_0000) as int
    }

    /// The biased exponent.
    pub open spec fn exponent(self) -> int {
        ((self.bits / 0x10_0000_0000_0000) % 2048) as int
    }

    /// The integral significand: the number is the significand times a power of two.
    pub open spec fn significand(self) -> int {
        let fraction = (self.bits % 0x10_0000_0000_0000) as int;
        if self.exponent() == 0 {
            fraction
        } else {
            0x10_0000_0000_0000 + fraction
        }
    }

    /// The binary exponent that scales the significand.
    pub open spec fn scale(self) -> int {
        if self.exponent() == 0 {
            -1074
        } else {
            self.exponent() - 1075
        }
    }

    /// Neither infinite nor a NaN.
    pub open spec fn finite(self) -> bool {
        self.exponent() != 2047
    }

    /// Finite, and still finite once rounded to single precision.
    pub open spec fn finite_as_single(self) -> bool {
        self.magnitude() < SINGLE_OVERFLOW_BITS
    }

    /// Tells whether the number is finite.
    pub fn is_finite(&self) -> (r: bool)
        ensures
            r == self.finite(),
    {
        (self.bits / 0x10_0000_0000_0000) % 2048 != 2047
    }

    /// Not less than zero; zero of either sign is not.
    pub open spec fn not_below_zero(self) -> bool {
        !self.negative() || self.magnitude() == 0
    }

    /// Tells whether a finite number is not less than zero.
    pub fn is_not_below_zero(&self) -> (r: bool)
        ensures
            r == self.not_below_zero(),
    {
        self.bits < 0x8000_0000_0000_0000 || self.bits % 0x8000_0000_0000_0000 == 0
    }

    /// Tells whether the number stays finite in single precision.
    pub fn is_finite_as_single(&self) -> (r: bool)
        ensures
            r == self.finite_as_single(),
    {
        self.bits % 0x8000_0000_0000_0000 < SINGLE_OVERFLOW_BITS
    }

    /// `n` is the greatest integer that does not exceed the number.
    pub open spec fn floor_is(self, n: int) -> bool {
        let value = if self.negative() {
            -self.significand()
        } else {
            self.significand()
        };
        if self.scale() >= 0 {
            n == value * pow2(self.scale() as nat)
        } else {
            n * pow2((-self.scale()) as nat) <= value < (n + 1) * pow2((-self.scale()) as nat)
        }
    }
}

/// A number that is finite in single precision is finite.
pub proof fn law_single_finite_is_finite(value: Double)
    ensures
        value.finite_as_single() ==> value.finite(),
{
    if !value.finite() {
        let b = value.bits as int;
        assert(b % 0x8000_0000_0000_0000 >= 2047 * 0x10_0000_0000_0000) by {
            let q = b / 0x10_0000_0000_0000;
            assert(q % 2048 == 2047);
            assert(b == q * 0x10_0000_0000_0000 + b % 0x10_0000_0000_0000);
        }
    }
}

/// The floor of a number is unique.
pub proof fn lemma_floor_unique(value: Double, a: int, b: int)
    requires
        value.floor_is(a),
        value.floor_is(b),
    ensures
        a == b,
{
    if value.scale() < 0 {
        let p = pow2((-value.scale()) as nat) as int;
        lemma_pow2_pos((-value.scale()) as nat);
        assert(a == b) by (nonlinear_arith)
            requires
                p > 0,
                a * p < (b + 1) * p,
                b * p < (a + 1) * p,
        ;
    }
}

fn power_of_two(k: u64) -> (p: u64)
    requires
        k <= 63,
    ensures
        p == pow2(k as nat),
{
    let mut p: u64 = 1;
    let mut i: u64 = 0;
    proof {
        lemma2_to64();
    }
    while i < k
        invariant
            i <= k <= 63,
            p == pow2(i as nat),
        decreases k - i,
    {
        proof {
            lemma2_to64();
            lemma_pow2_adds(i as nat, 1);
            lemma_pow2_adds((i + 1) as nat, (63 - (i + 1)) as nat);
            lemma_pow2_pos((63 - (i + 1)) as nat);
            lemma2_to64_rest();
            let a = pow2((i + 1) as nat) as int;
            let b = pow2((63 - (i + 1)) as nat) as int;
            assert(a <= a * b) by (nonlinear_arith)
                requires
                    a >= 0,
                    b >= 1,
            ;
        }
        p = p * 2;
        i = i + 1;
    }
    p
}

impl Double {
    /// How far apart the patterns of neighbouring singles are where this number
    /// lies; a number smaller than every single but zero has none.
    pub open spec fn single_step(self) -> int {
        if self.exponent() >= 897 {
            pow2(29) as int
        } else {
            pow2((926 - self.exponent()) as nat) as int
        }
    }

    /// The magnitude once rounded to single precision: that of the closest
    /// single, and of two that are equally close the one whose significand is even.
    pub open spec fn rounded_magnitude(self) -> int {
        if self.exponent() < 874 {
            // Zero up to half of the smallest single, that single above.
            if self.magnitude() > 873int * 0x10_0000_0000_0000 {
                874int * 0x10_0000_0000_0000
            } else {
                0
            }
        } else {
            let step = self.single_step();
            let rest = self.significand() % step;
            let even = (self.significand() / step) % 2 == 0;
            if 2 * rest < step || (2 * rest == step && even) {
                self.magnitude() - rest
            } else {
                self.magnitude() - rest + step
            }
        }
    }

    /// The number rounded to single precision, as a double. One that is not
    /// finite there stays as it is.
    pub open spec fn single_rounded(self) -> Double {
        if self.finite_as_single() {
            Double {
                bits: (self.rounded_magnitude() + if self.negative() {
                    0x8000_0000_0000_0000int
                } else {
                    0
                }) as u64,
            }
        } else {
            self
        }
    }

    /// Rounds the number to single precision.
    pub fn round_to_single(&self) -> (r: Double)
        ensures
            r == self.single_rounded(),
    {
        if !self.is_finite_as_single() {
            return *self;
        }
        let magnitude: u64 = self.bits % 0x8000_0000_0000_0000;
        let sign: u64 = if self.bits >= 0x8000_0000_0000_0000 {
            0x8000_0000_0000_0000
        } else {
            0
        };
        let exponent: u64 = (self.bits / 0x10_0000_0000_0000) % 2048;
        if exponent < 874 {
            return Double {
                bits: sign + if magnitude > 873 * 0x10_0000_0000_0000 {
                    874 * 0x10_0000_0000_0000
                } else {
                    0
                },
            };
        }
        let significand: u64 = 0x10_0000_0000_0000 + self.bits % 0x10_0000_0000_0000;
        let shift: u64 = if exponent >= 897 {
            29
        } else {
            926 - exponent
        };
        let step: u64 = power_of_two(shift);
        proof {
            lemma_step_bound(shift);
        }
        let rest: u64 = significand % step;
        let even = (significand / step) % 2 == 0;
        proof {
            let b = self.bits as int;
            assert(magnitude >= 0x10_0000_0000_0000) by {
                let q = b / 0x10_0000_0000_0000;
                assert(b == q * 0x10_0000_0000_0000 + b % 0x10_0000_0000_0000);
                assert(q % 2048 >= 874);
            }
            assert(rest <= magnitude);
        }
        let rounded: u64 = if 2 * rest < step || (2 * rest == step && even) {
            magnitude - rest
        } else {
            magnitude - rest + step
        };
        Double { bits: sign + rounded }
    }
}

proof fn lemma_step_bound(shift: u64)
    requires
        29 <= shift <= 52,
    ensures
        0 < pow2(shift as nat) <= 0x10_0000_0000_0000,
{
    lemma_pow2_pos(shift as nat);
    lemma_pow2_pos((52 - shift) as nat);
    lemma_pow2_adds(shift as nat, (52 - shift) as nat);
    lemma2_to64();
    lemma2_to64_rest();
    let a = pow2(shift as nat) as int;
    let b = pow2((52 - shift) as nat) as int;
    assert(a <= a * b) by (nonlinear_arith)
        requires
            a >= 0,
            b >= 1,
    ;
}

/// Rounding to single precision keeps the sign, and moves the pattern of a number
/// that is not tiny by no more than half of a step.
pub proof fn law_rounding_stays_close(value: Double)
    requires
        value.finite_as_single(),
    ensures
        value.single_rounded().negative() == value.negative(),
        value.exponent() >= 874 ==> {
            let moved = value.single_rounded().magnitude() - value.magnitude();
            -value.single_step() <= 2 * moved <= value.single_step()
        },
{
    let b = value.bits as int;
    let q = b / 0x10_0000_0000_0000;
    assert(b == q * 0x10_0000_0000_0000 + b % 0x10_0000_0000_0000);
    if value.exponent() >= 874 {
        let shift: u64 = if value.exponent() >= 897 {
            29
        } else {
            (926 - value.exponent()) as u64
        };
        lemma_step_bound(shift);
        let step = value.single_step();
        let rest = value.significand() % step;
        assert(0 <= rest < step);
        assert(value.magnitude() >= 0x10_0000_0000_0000);
        assert(0 <= value.rounded_magnitude() < 0x8000_0000_0000_0000);
    }
}

/// Some block coordinate is the floor of the number.
pub open spec fn has_block_coordinate(value: Double) -> bool {
    value.finite() && exists|n: int| i32::MIN <= n <= i32::MAX && #[trigger] value.floor_is(n)
}

/// The block coordinate that holds a position: its floor, where that fits.
pub open spec fn block_coordinate(value: Double) -> Option<i32> {
    if has_block_coordinate(value) {
        Some((choose|n: int| i32::MIN <= n <= i32::MAX && #[trigger] value.floor_is(n)) as i32)
    } else {
        None
    }
}

/// The block coordinate of a position is its floor, and there is one whenever
/// the floor is among the block coordinates.
pub proof fn law_block_coordinate_is_the_floor(value: Double, n: int)
    requires
        value.finite(),
        value.floor_is(n),
    ensures
        i32::MIN <= n <= i32::MAX ==> block_coordinate(value) == Some(n as i32),
        !(i32::MIN <= n <= i32::MAX) ==> block_coordinate(value) is None,
{
    if has_block_coordinate(value) {
        let m = choose|m: int| i32::MIN <= m <= i32::MAX && #[trigger] value.floor_is(m);
        lemma_floor_unique(value, n, m);
    }
}

/// The block coordinate that holds a position.
pub fn floor_block_coordinate(value: Double) -> (r: Option<i32>)
    ensures
        r == block_coordinate(value),
{
    if !value.is_finite() {
        return None;
    }
    let bits: u64 = value.bits;
    let negative = bits >= 0x8000_0000_0000_0000;
    let exponent: u64 = (bits / 0x10_0000_0000_0000) % 2048;
    let fraction: u64 = bits % 0x10_0000_0000_0000;
    if exponent > 1055 {
        // At least two to the power of 33 away from zero.
        proof {
            lemma_wide_has_no_coordinate(value);
        }
        return None;
    }
    let significand: u64 = if exponent == 0 {
        fraction
    } else {
        0x10_0000_0000_0000 + fraction
    };
    let shift: u64 = if exponent == 0 {
        1074
    } else {
        1075 - exponent
    };
    let whole: u64;
    let exact: bool;
    if shift > 63 {
        whole = 0;
        exact = significand == 0;
        proof {
            lemma_pow2_adds(63, (shift - 63) as nat);
            lemma_pow2_pos((shift - 63) as nat);
            lemma2_to64();
            lemma2_to64_rest();
            let b = pow2((shift - 63) as nat) as int;
            let s = significand as int;
            assert(s < pow2(shift as nat)) by (nonlinear_arith)
                requires
                    pow2(shift as nat) == pow2(63) * b,
                    b >= 1,
                    s < 0x20_0000_0000_0000,
                    pow2(63) == 0x8000000000000000,
            ;
        }
    } else {
        let divisor: u64 = power_of_two(shift);
        proof {
            lemma_pow2_pos(shift as nat);
            lemma_fundamental_div_mod(significand as int, divisor as int);
        }
        whole = significand / divisor;
        exact = significand % divisor == 0;
        proof {
            let s = significand as int;
            let d = divisor as int;
            let w = whole as int;
            let r = (significand % divisor) as int;
            assert(w * d <= s < (w + 1) * d) by (nonlinear_arith)
                requires
                    s == d * w + r,
                    0 <= r < d,
            ;
            assert(exact ==> s == w * d) by (nonlinear_arith)
                requires
                    s == d * w + r,
                    exact ==> r == 0,
            ;
            assert(!exact ==> s > w * d) by (nonlinear_arith)
                requires
                    s == d * w + r,
                    !exact ==> r > 0,
            ;
        }
    }
    let ghost p = pow2(shift as nat) as int;
    let ghost s = significand as int;
    let ghost w = whole as int;
    proof {
        lemma_pow2_pos(shift as nat);
        assert(w * p <= s < (w + 1) * p);
        assert(exact ==> s == w * p);
        assert(!exact ==> s > w * p);
        assert(w <= s) by (nonlinear_arith)
            requires
                w * p <= s,
                p >= 1,
                w >= 0,
        ;
    }
    let floor: i64 = if negative {
        if exact {
            -(whole as i64)
        } else {
            -(whole as i64) - 1
        }
    } else {
        whole as i64
    };
    proof {
        let f = floor as int;
        if negative {
            if exact {
                assert(f * p <= -s < (f + 1) * p) by (nonlinear_arith)
                    requires
                        f == -w,
                        s == w * p,
                        p >= 1,
                ;
            } else {
                assert(f * p <= -s < (f + 1) * p) by (nonlinear_arith)
                    requires
                        f == -w - 1,
                        w * p < s,
                        s < (w + 1) * p,
                ;
            }
        }
        assert(value.floor_is(f));
        law_block_coordinate_is_the_floor(value, f);
    }
    if -2147483648 <= floor && floor <= 2147483647 {
        Some(floor as i32)
    } else {
        None
    }
}

/// A number of large exponent has no floor among the block coordinates.
proof fn lemma_wide_has_no_coordinate(value: Double)
    requires
        value.exponent() > 1055,
    ensures
        forall|n: int| #[trigger] value.floor_is(n) ==> !(i32::MIN <= n <= i32::MAX),
{
    lemma2_to64();
    lemma2_to64_rest();
    let s = value.significand();
    assert(s >= 0x10_0000_0000_0000);
    assert forall|n: int| #[trigger] value.floor_is(n) implies !(i32::MIN <= n <= i32::MAX) by {
        if value.scale() >= 0 {
            let p = pow2(value.scale() as nat) as int;
            lemma_pow2_pos(value.scale() as nat);
            assert(s * p >= s) by (nonlinear_arith)
                requires
                    p >= 1,
                    s >= 0,
            ;
            assert((-s) * p <= -s) by (nonlinear_arith)
                requires
                    p >= 1,
                    s >= 0,
            ;
        } else {
            let k = (-value.scale()) as nat;
            let p = pow2(k) as int;
            lemma_pow2_pos(k);
            lemma_pow2_adds(k, (19 - k) as nat);
            lemma_pow2_pos((19 - k) as nat);
            let q = pow2((19 - k) as nat) as int;
            assert(p <= 0x80000) by (nonlinear_arith)
                requires
                    p * q == 0x80000,
                    q >= 1,
                    p >= 1,
            ;
            if i32::MIN <= n <= i32::MAX {
                if value.negative() {
                    assert(n * p >= -2147483648 * 0x80000) by (nonlinear_arith)
                        requires
                            n >= -2147483648,
                            1 <= p <= 0x80000,
                    ;
                } else {
                    assert((n + 1) * p <= 2147483648 * 0x80000) by (nonlinear_arith)
                        requires
                            n + 1 <= 2147483648,
                            1 <= p <= 0x80000,
                    ;
                }
            }
        }
    }
}

/// The pattern of one in double precision.
pub const DOUBLE_ONE_BITS: u64 = 0x3FF0_0000_0000_0000;

/// The pattern of ninety in single precision.
pub const SINGLE_NINETY_BITS: u32 = 0x42B4_0000;

impl Double {
    /// Finite and at least one. Positive patterns are ordered like their numbers.
    pub open spec fn finite_at_least_one(self) -> bool {
        self.finite() && DOUBLE_ONE_BITS <= self.bits < 0x8000_0000_0000_0000
    }

    /// Between zero and one, both included; minus zero is zero.
    pub open spec fn unit_interval(self) -> bool {
        self.bits <= DOUBLE_ONE_BITS || self.bits == 0x8000_0000_0000_0000
    }

    /// Tells whether the number is finite and at least one.
    pub fn is_finite_at_least_one(&self) -> (r: bool)
        ensures
            r == self.finite_at_least_one(),
    {
        self.is_finite() && DOUBLE_ONE_BITS <= self.bits && self.bits < 0x8000_0000_0000_0000
    }

    /// Tells whether the number lies between zero and one.
    pub fn is_unit_interval(&self) -> (r: bool)
        ensures
            r == self.unit_interval(),
    {
        self.bits <= DOUBLE_ONE_BITS || self.bits == 0x8000_0000_0000_0000
    }
}

/// A single-precision number, held by its bit pattern.
#[derive(Clone, Copy, Debug, PartialEq, Eq, Structural)]
pub struct Single {
    pub bits: u32,
}

impl Single {
    /// Neither infinite nor a NaN.
    pub open spec fn finite(self) -> bool {
        (self.bits / 0x80_0000) % 256 != 255
    }

    /// Tells whether the number is finite.
    pub fn is_finite(&self) -> (r: bool)
        ensures
            r == self.finite(),
    {
        (self.bits / 0x80_0000) % 256 != 255
    }

    /// Finite and at most ninety away from zero: infinities and NaNs have
    /// larger patterns than every finite magnitude.
    pub open spec fn within_ninety(self) -> bool {
        self.bits % 0x8000_0000 <= SINGLE_NINETY_BITS
    }

    /// Tells whether the number is finite and within ninety of zero.
    pub fn is_within_ninety(&self) -> (r: bool)
        ensures
            r == self.within_ninety(),
    {
        self.bits % 0x8000_0000 <= SINGLE_NINETY_BITS
    }
}

/// Three doubles, one for each axis.
#[derive(Clone, Copy, Debug, PartialEq, Eq, Structural)]
pub struct Vec3Value {
    pub x: Double,
    pub y: Double,
    pub z: Double,
}

impl Vec3Value {
    pub open spec fn finite(self) -> bool {
        self.x.finite() && self.y.finite() && self.z.finite()
    }

    /// Tells whether every axis is finite.
    pub fn is_finite(&self) -> (r: bool)
        ensures
            r == self.finite(),
    {
        self.x.is_finite() && self.y.is_finite() && self.z.is_finite()
    }
}

/// A single is within ninety of zero exactly if it is so as a number: its
/// magnitude is its significand times two to the power of its exponent, and
/// ninety is 90 * 2^17 times two to the power of -17.
pub proof fn law_within_ninety_is_about_the_number(value: Single)
    ensures
        ({
            let exponent = (value.bits as int / 0x80_0000) % 256;
            let significand = 0x80_0000 + value.bits as int % 0x80_0000;
            value.within_ninety() <==> exponent < 133 || (exponent == 133 && significand <= 90
                * 131072)
        }),
{
    let b = value.bits as int;
    let q = b / 0x80_0000;
    assert(b == q * 0x80_0000 + b % 0x80_0000);
    assert(b % 0x8000_0000 == (q % 256) * 0x80_0000 + b % 0x80_0000);
}

/// A double is finite and at least one exactly if it is positive and its binary
/// exponent is not below zero, and none of the largest patterns; it is between
/// zero and one exactly if it is a positive number below one, one itself, or zero
/// of either sign.
pub proof fn law_policy_numbers_are_about_the_number(value: Double)
    ensures
        ({
            let negative = value.bits as int / 0x8000_0000_0000_0000 == 1;
            let exponent = (value.bits as int / 0x10_0000_0000_0000) % 2048;
            let fraction = value.bits as int % 0x10_0000_0000_0000;
            &&& value.finite_at_least_one() <==> !negative && 1023 <= exponent < 2047
            &&& value.unit_interval() <==> (!negative && (exponent < 1023 || (exponent == 1023
                && fraction == 0))) || (exponent == 0 && fraction == 0)
            &&& value.finite() <==> exponent < 2047
            &&& value.not_below_zero() <==> !negative || (exponent == 0 && fraction == 0)
        }),
{
    let b = value.bits as int;
    let q = b / 0x10_0000_0000_0000;
    assert(b == q * 0x10_0000_0000_0000 + b % 0x10_0000_0000_0000);
    assert(q / 2048 == b / 0x8000_0000_0000_0000);
    assert(q == 2048 * (q / 2048) + q % 2048);
}

/// A double has a finite single exactly if its magnitude is below the middle
/// between the largest single and what would come next: 2^128 - 2^103.
pub proof fn law_finite_singles_are_about_the_number(value: Double)
    ensures
        ({
            let exponent = (value.bits as int / 0x10_0000_0000_0000) % 2048;
            let significand = 0x10_0000_0000_0000 + value.bits as int % 0x10_0000_0000_0000;
            value.finite_as_single() <==> exponent < 1150 || (exponent == 1150 && significand
                < 0x1FF_FFFF * 0x1000_0000)
        }),
{
    let b = value.bits as int;
    let q = b / 0x10_0000_0000_0000;
    assert(b == q * 0x10_0000_0000_0000 + b % 0x10_0000_0000_0000);
    assert(b % 0x8000_0000_0000_0000 == (q % 2048) * 0x10_0000_0000_0000 + b
        % 0x10_0000_0000_0000);
}

/// A double is no number exactly if its pattern, without the sign, is one of the
/// largest.
pub proof fn law_what_is_no_number(value: Double)
    ensures
        value.finite() <==> value.magnitude() < 0x7FF0_0000_0000_0000,
        value.negative() <==> value.bits >= 0x8000_0000_0000_0000,
        value.magnitude() == (if value.bits >= 0x8000_0000_0000_0000 {
            value.bits - 0x8000_0000_0000_0000
        } else {
            value.bits as int
        }),
        value.not_below_zero() <==> value.bits <= 0x8000_0000_0000_0000,
{
}

/// The floor of a number is the integer just below it, for negative numbers too:
/// the number, which is its significand times a power of two, lies between the
/// floor and the next integer.
pub proof fn law_the_floor_is_just_below(value: Double, n: int)
    requires
        value.floor_is(n),
    ensures
        ({
            let exponent = (value.bits as int / 0x10_0000_0000_0000) % 2048;
            let fraction = value.bits as int % 0x10_0000_0000_0000;
            let significand = if exponent == 0 {
                fraction
            } else {
                0x10_0000_0000_0000 + fraction
            };
            let signed = if value.bits < 0x8000_0000_0000_0000 {
                significand
            } else {
                -significand
            };
            let scale = if exponent == 0 {
                -1074
            } else {
                exponent - 1075
            };
            &&& scale < 0 ==> n * pow2((-scale) as nat) <= signed
            &&& scale < 0 ==> signed < (n + 1) * pow2((-scale) as nat)
            &&& scale >= 0 ==> n == signed * pow2(scale as nat)
        }),
{
}

/// This many steps, and that number of them is even.
pub open spec fn even_steps(pattern: int, step: int, half: int) -> bool {
    pattern == step * (2 * half)
}

/// A number in the middle between two singles is rounded to the one whose
/// significand is even; any other to the one that is closer.
pub proof fn law_ties_are_rounded_to_even(value: Double)
    requires
        value.finite_as_single(),
        value.exponent() >= 874,
    ensures
        ({
            let step = value.single_step();
            let rest = value.significand() % step;
            let moved = value.rounded_magnitude() - value.magnitude();
            &&& 2 * rest < step ==> moved == -rest
            &&& 2 * rest > step ==> moved == step - rest
            &&& 2 * rest == step ==> exists|half: int| #[trigger]
                even_steps(value.significand() + moved, step, half)
        }),
        value.exponent() >= 897 ==> value.single_step() == 0x2000_0000,
{
    vstd::arithmetic::power2::lemma2_to64();
    let shift: u64 = if value.exponent() >= 897 {
        29
    } else {
        (926 - value.exponent()) as u64
    };
    lemma_step_bound(shift);
    let step = value.single_step();
    let significand = value.significand();
    let rest = significand % step;
    let whole = significand / step;
    vstd::arithmetic::div_mod::lemma_fundamental_div_mod(significand, step);
    if 2 * rest == step {
        let moved = value.rounded_magnitude() - value.magnitude();
        if whole % 2 == 0 {
            let half = whole / 2;
            assert(whole == 2 * half);
            assert(even_steps(significand + moved, step, half));
        } else {
            let half = (whole + 1) / 2;
            assert(whole + 1 == 2 * half);
            assert(step * whole + step == step * (whole + 1)) by (nonlinear_arith);
            assert(even_steps(significand + moved, step, half));
        }
    }
}

/// A number too small for any single but zero becomes zero, or the smallest single
/// if it is more than half of that; one too large for any single stays as it is.
pub proof fn law_the_ends_of_single_precision(value: Double)
    ensures
        value.exponent() < 874 && value.magnitude() > 0x3690_0000_0000_0000
            ==> value.rounded_magnitude() == 0x36A0_0000_0000_0000,
        value.exponent() < 874 && value.magnitude() <= 0x3690_0000_0000_0000
            ==> value.rounded_magnitude() == 0,
        value.magnitude() >= 0x47EF_FFFF_F000_0000 ==> value.single_rounded() == value,
{
}

/// A single is a number unless its pattern, without the sign, is one of the
/// largest; it is within ninety of zero up to the pattern of ninety.
pub proof fn law_which_singles_are_numbers(value: Single)
    ensures
        value.finite() <==> value.bits < 0x7F80_0000 || 0x8000_0000 <= value.bits && value.bits
            < 0xFF80_0000,
        value.within_ninety() <==> value.bits <= 0x42B4_0000 || 0x8000_0000 <= value.bits
            && value.bits <= 0xC2B4_0000,
        value.within_ninety() ==> value.finite(),
{
}

/// A number lies between zero and one up to the pattern of one; a negative zero
/// does too.
pub proof fn law_what_lies_between_zero_and_one(value: Double)
    ensures
        value.unit_interval() <==> value.bits <= 0x3FF0_0000_0000_0000 || value.bits
            == 0x8000_0000_0000_0000,
{
}

/// A number is at least one from the pattern of one on, as long as it is positive
/// and a number.
pub proof fn law_what_is_at_least_one(value: Double)
    ensures
        value.finite_at_least_one() <==> 0x3FF0_0000_0000_0000 <= value.bits && value.bits
            < 0x7FF0_0000_0000_0000,
{
}

} // verus!
