//! Fixed-point numbers with eight fractional bits, and pairs of coordinates.
//!
//! A `Number` stores a real value scaled by 256 in an `i32`. All arithmetic
//! wraps around at the width of the backing integer, so every operation is
//! total and gives the same result on every platform.
use vstd::prelude::*;

verus! {

/// Number of fractional bits of a `Number`.
pub const FRACTION_BITS: u32 = 8;

/// Scale between a `Number`'s raw representation and the value it stands for.
pub const SCALE: i32 = 256;

/// The integer `v` reduced into the range of `i32` as two's complement does it.
pub open spec fn wrap_i32(v: int) -> int {
    let m = v % 0x1_0000_0000;
    if m > 0x7fff_ffff {
        m - 0x1_0000_0000
    } else {
        m
    }
}

/// A value in the range of `i32` is left alone by wrapping.
pub proof fn lemma_wrap_in_range(v: int)
    requires
        i32::MIN <= v <= i32::MAX,
    ensures
        wrap_i32(v) == v,
{
    if v < 0 {
        assert((v + 0x1_0000_0000) % 0x1_0000_0000 == v % 0x1_0000_0000) by {
            vstd::arithmetic::div_mod::lemma_mod_add_multiples_vanish(v, 0x1_0000_0000);
        }
        vstd::arithmetic::div_mod::lemma_small_mod((v + 0x1_0000_0000) as nat, 0x1_0000_0000);
    } else {
        vstd::arithmetic::div_mod::lemma_small_mod(v as nat, 0x1_0000_0000);
    }
}

/// Wrapping always lands in the range of `i32`, on a value congruent to the
/// argument modulo 2^32.
pub proof fn lemma_wrap_range(v: int)
    ensures
        i32::MIN <= wrap_i32(v) <= i32::MAX,
        (wrap_i32(v) - v) % 0x1_0000_0000 == 0,
{
    let m = v % 0x1_0000_0000;
    vstd::arithmetic::div_mod::lemma_fundamental_div_mod(v, 0x1_0000_0000);
    let q = v / 0x1_0000_0000;
    assert(v == 0x1_0000_0000 * q + m);
    if m > 0x7fff_ffff {
        assert(wrap_i32(v) - v == 0x1_0000_0000 * (-q - 1 )) by (nonlinear_arith)
            requires v == 0x1_0000_0000 * q + m, wrap_i32(v) == m - 0x1_0000_0000;
        vstd::arithmetic::div_mod::lemma_mod_multiples_basic(-q - 1, 0x1_0000_0000);
        assert((0x1_0000_0000 * (-q - 1)) == ((-q - 1) * 0x1_0000_0000)) by (nonlinear_arith);
    } else {
        assert(wrap_i32(v) - v == 0x1_0000_0000 * (-q)) by (nonlinear_arith)
            requires v == 0x1_0000_0000 * q + m, wrap_i32(v) == m;
        vstd::arithmetic::div_mod::lemma_mod_multiples_basic(-q, 0x1_0000_0000);
        assert((0x1_0000_0000 * (-q)) == ((-q) * 0x1_0000_0000)) by (nonlinear_arith);
    }
}

/// Reduces a wide integer into the range of `i32` as two's complement does.
pub fn wrap_to_i32(v: i128) -> (r: i32)
    ensures
        r == wrap_i32(v as int),
{
    let low: u64 = if v >= 0 {
        ((v as u128) % 0x1_0000_0000) as u64
    } else {
        // -v - 1 is not negative; v and 2^32 - 1 - (-v - 1) % 2^32 are congruent.
        let below: u128 = (-(v + 1)) as u128;
        let rest: u64 = (below % 0x1_0000_0000) as u64;
        proof {
            let b = below as int;
            let q = b / 0x1_0000_0000;
            vstd::arithmetic::div_mod::lemma_fundamental_div_mod(b, 0x1_0000_0000);
            assert(v as int == 0x1_0000_0000 * (-q - 1) + (0xffff_ffff - rest)) by (nonlinear_arith)
                requires
                    b == 0x1_0000_0000 * q + rest,
                    b == -(v as int) - 1,
            ;
            vstd::arithmetic::div_mod::lemma_fundamental_div_mod_converse(
                v as int,
                0x1_0000_0000,
                -q - 1,
                0xffff_ffff - rest,
            );
        }
        0xffff_ffff - rest
    };
    assert(low == (v as int) % 0x1_0000_0000);
    if low > 0x7fff_ffff {
        (low as i64 - 0x1_0000_0000) as i32
    } else {
        low as i32
    }
}

/// A signed fixed-point number: 24 integer bits and 8 fractional bits.
///
/// `raw` is the value it stands for multiplied by 256.
#[derive(Clone, Copy, Debug, PartialEq, Eq, Structural)]
pub struct Number {
    pub raw: i32,
}

impl Number {
    /// The number whose raw representation is `raw`.
    pub fn from_raw(raw: i32) -> (n: Number)
        ensures
            n.raw == raw,
    {
        Number { raw }
    }

    /// The raw representation: the value times 256.
    pub fn to_raw(self) -> (raw: i32)
        ensures
            raw == self.raw,
    {
        self.raw
    }

    /// The fixed-point number that stands for the integer `value`.
    pub open spec fn new_spec(value: int) -> Number {
        Number { raw: wrap_i32(value * 256) as i32 }
    }

    /// Sum, wrapping around at the width of `i32`.
    pub open spec fn add_spec(self, rhs: Number) -> Number {
        Number { raw: wrap_i32(self.raw + rhs.raw) as i32 }
    }

    /// Difference, wrapping around at the width of `i32`.
    pub open spec fn sub_spec(self, rhs: Number) -> Number {
        Number { raw: wrap_i32(self.raw - rhs.raw) as i32 }
    }

    /// Negation, wrapping around at the width of `i32`.
    pub open spec fn neg_spec(self) -> Number {
        Number { raw: wrap_i32(-self.raw) as i32 }
    }

    /// Product with an integer scalar, wrapping around at the width of `i32`.
    pub open spec fn mul_int_spec(self, rhs: int) -> Number {
        Number { raw: wrap_i32(self.raw * rhs) as i32 }
    }

    /// Quotient by an integer scalar, rounded toward zero and wrapped.
    pub open spec fn div_int_spec(self, rhs: int) -> Number {
        Number { raw: wrap_i32(truncating_quotient(self.raw as int, rhs)) as i32 }
    }

    /// Sum, wrapping around at the width of `i32`.
    pub fn add(self, rhs: Number) -> (n: Number)
        ensures
            n == self.add_spec(rhs),
            n.raw == wrap_i32(self.raw + rhs.raw),
    {
        proof {
            let v = self.raw + rhs.raw;
            if v > i32::MAX {
                lemma_wrap_in_range(v - 0x1_0000_0000);
                vstd::arithmetic::div_mod::lemma_mod_sub_multiples_vanish(v, 0x1_0000_0000);
            } else if v < i32::MIN {
                lemma_wrap_in_range(v + 0x1_0000_0000);
                vstd::arithmetic::div_mod::lemma_mod_add_multiples_vanish(v, 0x1_0000_0000);
            } else {
                lemma_wrap_in_range(v);
            }
        }
        Number { raw: self.raw.wrapping_add(rhs.raw) }
    }

    /// The fixed-point number that stands for the integer `value`.
    ///
    /// Integers beyond 24 bits lose their upper bits, as a left shift does.
    pub fn new(value: i32) -> (n: Number)
        ensures
            n == Number::new_spec(value as int),
            n.raw == wrap_i32(value * 256),
            -0x80_0000 <= value < 0x80_0000 ==> n.raw == value * 256,
    {
        proof {
            if -0x80_0000 <= value < 0x80_0000 {
                lemma_wrap_in_range(value * 256);
            }
        }
        Number { raw: value.wrapping_mul(SCALE) }
    }

    /// Difference, wrapping around at the width of `i32`.
    pub fn sub(self, rhs: Number) -> (n: Number)
        ensures
            n == self.sub_spec(rhs),
            n.raw == wrap_i32(self.raw - rhs.raw),
    {
        proof {
            let v = self.raw - rhs.raw;
            if v > i32::MAX {
                lemma_wrap_in_range(v - 0x1_0000_0000);
                vstd::arithmetic::div_mod::lemma_mod_sub_multiples_vanish(v, 0x1_0000_0000);
            } else if v < i32::MIN {
                lemma_wrap_in_range(v + 0x1_0000_0000);
                vstd::arithmetic::div_mod::lemma_mod_add_multiples_vanish(v, 0x1_0000_0000);
            } else {
                lemma_wrap_in_range(v);
            }
        }
        Number { raw: self.raw.wrapping_sub(rhs.raw) }
    }

    /// Negation, wrapping around at the width of `i32`: the most negative
    /// number is its own negation.
    pub fn neg(self) -> (n: Number)
        ensures
            n == self.neg_spec(),
            n.raw == wrap_i32(-self.raw),
    {
        Number::from_raw(0).sub(self)
    }

    /// Product with an integer scalar, wrapping around at the width of `i32`.
    pub fn mul_int(self, rhs: i32) -> (n: Number)
        ensures
            n == self.mul_int_spec(rhs as int),
            n.raw == wrap_i32(self.raw * rhs),
    {
        Number { raw: self.raw.wrapping_mul(rhs) }
    }

    /// Quotient by an integer scalar, rounded toward zero. Dividing the most
    /// negative number by -1 wraps around to the most negative number.
    pub fn div_int(self, rhs: i32) -> (n: Number)
        requires
            rhs != 0,
        ensures
            n == self.div_int_spec(rhs as int),
            n.raw == wrap_i32(truncating_quotient(self.raw as int, rhs as int)),
    {
        let a: i64 = self.raw as i64;
        let b: i64 = rhs as i64;
        let abs_a: i64 = if a < 0 { -a } else { a };
        let abs_b: i64 = if b < 0 { -b } else { b };
        let abs_q: i64 = abs_a / abs_b;
        assert(0 <= abs_q <= abs_a) by (nonlinear_arith)
            requires
                abs_q == abs_a / abs_b,
                abs_a >= 0,
                abs_b >= 1,
        ;
        let q: i64 = if (a < 0) != (b < 0) { -abs_q } else { abs_q };
        assert(q == truncating_quotient(self.raw as int, rhs as int));
        if q > 0x7fff_ffff {
            proof {
                lemma_wrap_in_range(q - 0x1_0000_0000);
                vstd::arithmetic::div_mod::lemma_mod_sub_multiples_vanish(q as int, 0x1_0000_0000);
            }
            Number { raw: i32::MIN }
        } else {
            proof {
                lemma_wrap_in_range(q as int);
            }
            Number { raw: q as i32 }
        }
    }

    /// Floor: the greatest integer not above the value.
    pub fn floor(self) -> (i: i32)
        ensures
            i == self.floor_spec(),
    {
        let raw: i32 = self.raw;
        assert(raw >> 8u32 == raw / 256) by (bit_vector);
        raw >> FRACTION_BITS
    }

    /// The greatest integer not above the value.
    pub open spec fn floor_spec(self) -> int {
        self.raw as int / 256
    }

    /// Whether `self` is less than `rhs`.
    pub fn lt(self, rhs: Number) -> (b: bool)
        ensures
            b == (self.raw < rhs.raw),
    {
        self.raw < rhs.raw
    }

    /// Whether `self` is at most `rhs`.
    pub fn le(self, rhs: Number) -> (b: bool)
        ensures
            b == (self.raw <= rhs.raw),
    {
        self.raw <= rhs.raw
    }
}

/// The quotient of `a` by `b` rounded toward zero.
pub open spec fn truncating_quotient(a: int, b: int) -> int {
    if a >= 0 {
        if b > 0 {
            a / b
        } else {
            -(a / (-b))
        }
    } else {
        if b > 0 {
            -((-a) / b)
        } else {
            (-a) / (-b)
        }
    }
}

/// A pair of coordinates.
#[derive(Debug, PartialEq, Eq, Structural)]
pub struct Vector2D<T> {
    pub x: T,
    pub y: T,
}

impl<T: Copy> Copy for Vector2D<T> {

}

impl<T: Copy> Clone for Vector2D<T> {
    fn clone(&self) -> (copy: Self)
        ensures
            copy == *self,
    {
        *self
    }
}

impl<T> Vector2D<T> {
    /// The pair `(x, y)`.
    pub fn new(x: T, y: T) -> (v: Vector2D<T>)
        ensures
            v.x == x,
            v.y == y,
    {
        Vector2D { x, y }
    }
}

impl Vector2D<Number> {
    /// The pair of fixed-point numbers that stand for the integers `x` and `y`.
    pub open spec fn from_ints_spec(x: int, y: int) -> Vector2D<Number> {
        Vector2D { x: Number::new_spec(x), y: Number::new_spec(y) }
    }

    /// The pair of fixed-point numbers that stand for the integers `x` and `y`.
    pub fn from_ints(x: i32, y: i32) -> (v: Vector2D<Number>)
        ensures
            v == Self::from_ints_spec(x as int, y as int),
            -0x80_0000 <= x < 0x80_0000 ==> v.x.raw == x * 256,
            -0x80_0000 <= y < 0x80_0000 ==> v.y.raw == y * 256,
    {
        Vector2D { x: Number::new(x), y: Number::new(y) }
    }

    /// Both coordinates rounded down to whole pixels.
    pub fn floor(self) -> (v: Vector2D<i32>)
        ensures
            v == self.floor_spec(),
    {
        Vector2D { x: self.x.floor(), y: self.y.floor() }
    }

    /// Both coordinates rounded down to whole pixels.
    pub open spec fn floor_spec(self) -> Vector2D<i32> {
        Vector2D { x: self.x.floor_spec() as i32, y: self.y.floor_spec() as i32 }
    }
}

} // verus!
