//! Fixed-point scalars: an `i32` holding the value times a power of two.
//!
//! `Fixed10` (ten fractional bits) holds positions and velocities; `Fixed8`
//! (eight fractional bits) holds angles, where one unit is a whole turn.
use vstd::prelude::*;

verus! {

/// Rust's truncating division by a positive divisor, as a mathematical function.
pub open spec fn trunc_div(a: int, b: int) -> int {
    if a >= 0 {
        a / b
    } else {
        -((-a) / b)
    }
}

/// Rust's truncating remainder: its sign follows the dividend.
pub open spec fn trunc_rem(a: int, b: int) -> int {
    if a >= 0 {
        a % b
    } else {
        -((-a) % b)
    }
}

/// A truncating remainder by a positive modulus lies strictly between
/// `-m` and `m`.
pub proof fn lemma_trunc_rem_bound(a: int, m: int)
    requires
        m > 0,
    ensures
        -m < trunc_rem(a, m) < m,
{
    if a >= 0 {
        vstd::arithmetic::div_mod::lemma_mod_bound(a, m);
    } else {
        vstd::arithmetic::div_mod::lemma_mod_bound(-a, m);
    }
}

/// Whether `v` fits in an `i32`.
pub open spec fn fits_i32(v: int) -> bool {
    i32::MIN <= v <= i32::MAX
}

/// Raw value of one whole unit at ten fractional bits.
pub const ONE10: i32 = 1024;

/// Raw value of one whole unit (a whole turn) at eight fractional bits.
pub const ONE8: i32 = 256;

/// The raw cosine that `agb_fixnum` gives for a raw angle at eight fractional
/// bits (one unit a whole turn), read from its lookup table.
pub uninterp spec fn cos_of(angle: int) -> int;

/// The raw sine of a raw angle: the cosine a quarter turn earlier.
pub open spec fn sin_of(angle: i32) -> int {
    cos_of(angle.wrapping_sub(QUARTER_TURN) as int)
}

/// The cosine of any angle is the sine a quarter turn later.
pub proof fn lemma_cos_is_sin_quarter_later(angle: i32)
    ensures
        cos_of(angle as int) == sin_of(angle.wrapping_add(QUARTER_TURN)),
{
    let later = angle.wrapping_add(QUARTER_TURN);
    assert(later.wrapping_sub(QUARTER_TURN) == angle) by (bit_vector)
        requires
            later == angle.wrapping_add(64i32),
    ;
}

/// Relies on `agb_fixnum::Num::<i32, 10>`'s `Mul`: the product of two values at
/// ten fractional bits is `(a * b) >> 10`, computed in pieces with wrapping
/// arithmetic, so it is exact whenever that result fits in an `i32`.
#[verifier::external_body]
fn num10_mul(a: i32, b: i32) -> (r: i32)
    requires
        fits_i32((a * b) / 1024),
    ensures
        r == (a * b) / 1024,
{
    (agb_fixnum::Num::<i32, 10>::from_raw(a) * agb_fixnum::Num::<i32, 10>::from_raw(b)).to_raw()
}

/// Relies on `agb_fixnum::Num::rem_euclid`: the remainder of the raw values
/// made non-negative, for a non-zero modulus.
#[verifier::external_body]
fn num10_rem_euclid(a: i32, m: i32) -> (r: i32)
    requires
        m > 0,
    ensures
        r == a % m,
{
    agb_fixnum::Num::<i32, 10>::from_raw(a).rem_euclid(agb_fixnum::Num::<i32, 10>::from_raw(m)).to_raw()
}

/// Relies on `agb_fixnum::Num::<i32, 8>::cos`: a lookup in a table of
/// `cos(x) * 2048` truncated to `i16`, shifted down to eight fractional bits,
/// so the result lies within one unit either way.
#[verifier::external_body]
fn num8_cos(angle: i32) -> (r: i32)
    ensures
        r == cos_of(angle as int),
        -ONE8 <= r <= ONE8,
{
    agb_fixnum::Num::<i32, 8>::from_raw(angle).cos().to_raw()
}

/// Raw value of a quarter turn at eight fractional bits.
pub const QUARTER_TURN: i32 = 64;

/// A fixed-point number with ten fractional bits.
#[derive(Clone, Copy, Debug, PartialEq, Eq, Structural)]
pub struct Fixed10 {
    pub raw: i32,
}

/// A fixed-point number with eight fractional bits.
#[derive(Clone, Copy, Debug, PartialEq, Eq, Structural)]
pub struct Fixed8 {
    pub raw: i32,
}

impl Fixed10 {
    pub fn from_raw(raw: i32) -> (r: Self)
        ensures
            r.raw == raw,
    {
        Fixed10 { raw }
    }

    pub fn to_raw(self) -> (r: i32)
        ensures
            r == self.raw,
    {
        self.raw
    }

    /// The whole number `v`.
    pub fn from_int(v: i32) -> (r: Self)
        requires
            fits_i32(v * ONE10),
        ensures
            r.raw == v * ONE10,
    {
        Fixed10 { raw: v * ONE10 }
    }

    pub fn add(self, rhs: Self) -> (r: Self)
        requires
            fits_i32(self.raw + rhs.raw),
        ensures
            r.raw == self.raw + rhs.raw,
    {
        Fixed10 { raw: self.raw + rhs.raw }
    }

    pub fn sub(self, rhs: Self) -> (r: Self)
        requires
            fits_i32(self.raw - rhs.raw),
        ensures
            r.raw == self.raw - rhs.raw,
    {
        Fixed10 { raw: self.raw - rhs.raw }
    }

    pub fn neg(self) -> (r: Self)
        requires
            self.raw != i32::MIN,
        ensures
            r.raw == -self.raw,
    {
        Fixed10 { raw: -self.raw }
    }

    /// Multiplies by a plain integer.
    pub fn mul_int(self, k: i32) -> (r: Self)
        requires
            fits_i32(self.raw * k),
        ensures
            r.raw == self.raw * k,
    {
        Fixed10 { raw: self.raw * k }
    }

    /// Divides by a positive integer, truncating toward zero.
    pub fn div_int(self, k: i32) -> (r: Self)
        requires
            k > 0,
        ensures
            r.raw == trunc_div(self.raw as int, k as int),
    {
        Fixed10 { raw: self.raw / k }
    }

    /// Remainder by a positive modulus, with the sign of `self`.
    pub fn rem(self, m: Self) -> (r: Self)
        requires
            m.raw > 0,
        ensures
            r.raw == trunc_rem(self.raw as int, m.raw as int),
    {
        Fixed10 { raw: self.raw % m.raw }
    }

    /// The fixed-point product, rounded toward negative infinity.
    pub fn mul(self, rhs: Self) -> (r: Self)
        requires
            fits_i32((self.raw * rhs.raw) / 1024),
        ensures
            r.raw == (self.raw * rhs.raw) / 1024,
    {
        Fixed10 { raw: num10_mul(self.raw, rhs.raw) }
    }

    /// Euclidean remainder: the result lies in `[0, m)`.
    pub fn rem_euclid(self, m: Self) -> (r: Self)
        requires
            m.raw > 0,
        ensures
            r.raw == self.raw % m.raw,
            0 <= r.raw < m.raw,
    {
        Fixed10 { raw: num10_rem_euclid(self.raw, m.raw) }
    }

    /// The greatest whole number not above `self`.
    pub fn floor(self) -> (r: i32)
        ensures
            r == self.raw / 1024,
    {
        let x = self.raw;
        let r = x >> 10u32;
        assert(r == x / 1024) by (bit_vector)
            requires
                r == x >> 10u32,
        ;
        r
    }
}

impl Fixed8 {
    pub fn from_raw(raw: i32) -> (r: Self)
        ensures
            r.raw == raw,
    {
        Fixed8 { raw }
    }

    pub fn to_raw(self) -> (r: i32)
        ensures
            r == self.raw,
    {
        self.raw
    }

    /// The whole number `v`.
    pub fn from_int(v: i32) -> (r: Self)
        requires
            fits_i32(v * ONE8),
        ensures
            r.raw == v * ONE8,
    {
        Fixed8 { raw: v * ONE8 }
    }

    /// Adds modulo `2^32` on the raw value: angles are periodic, so an angle
    /// that runs past the range of `i32` keeps its direction.
    pub fn wrapping_add(self, rhs: Self) -> (r: Self)
        ensures
            r.raw == self.raw.wrapping_add(rhs.raw),
    {
        Fixed8 { raw: self.raw.wrapping_add(rhs.raw) }
    }

    /// Subtracts modulo `2^32` on the raw value.
    pub fn wrapping_sub(self, rhs: Self) -> (r: Self)
        ensures
            r.raw == self.raw.wrapping_sub(rhs.raw),
    {
        Fixed8 { raw: self.raw.wrapping_sub(rhs.raw) }
    }

    pub fn neg(self) -> (r: Self)
        requires
            self.raw != i32::MIN,
        ensures
            r.raw == -self.raw,
    {
        Fixed8 { raw: -self.raw }
    }

    /// Multiplies by a plain integer.
    pub fn mul_int(self, k: i32) -> (r: Self)
        requires
            fits_i32(self.raw * k),
        ensures
            r.raw == self.raw * k,
    {
        Fixed8 { raw: self.raw * k }
    }

    /// Divides by a positive integer, truncating toward zero.
    pub fn div_int(self, k: i32) -> (r: Self)
        requires
            k > 0,
        ensures
            r.raw == trunc_div(self.raw as int, k as int),
    {
        Fixed8 { raw: self.raw / k }
    }

    /// Remainder by a positive modulus, with the sign of `self`.
    pub fn rem(self, m: Self) -> (r: Self)
        requires
            m.raw > 0,
        ensures
            r.raw == trunc_rem(self.raw as int, m.raw as int),
    {
        Fixed8 { raw: self.raw % m.raw }
    }

    /// Cosine of the angle, in units of `ONE8`.
    pub fn cos(self) -> (r: Self)
        ensures
            r.raw == cos_of(self.raw as int),
            -ONE8 <= r.raw <= ONE8,
    {
        Fixed8 { raw: num8_cos(self.raw) }
    }

    /// Sine of the angle: the cosine a quarter turn earlier.
    pub fn sin(self) -> (r: Self)
        ensures
            r.raw == sin_of(self.raw),
            -ONE8 <= r.raw <= ONE8,
    {
        self.wrapping_sub(Fixed8 { raw: QUARTER_TURN }).cos()
    }

    /// The same value at ten fractional bits.
    pub fn change_base(self) -> (r: Fixed10)
        requires
            fits_i32(self.raw * 4),
        ensures
            r.raw == self.raw * 4,
    {
        Fixed10 { raw: self.raw * 4 }
    }
}

} // verus!
