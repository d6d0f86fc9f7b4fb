//! What the simulation hands to the display: screen coordinates and the
//! rotation matrices of affine sprites.
use vstd::prelude::*;
use crate::fixed::{Fixed10, Fixed8, cos_of, sin_of, trunc_div, ONE8};

verus! {

/// The four entries of a sprite's affine matrix, at eight fractional bits.
#[derive(Clone, Copy, Debug, PartialEq, Eq, Structural)]
pub struct RotationMatrix {
    pub p_a: i16,
    pub p_b: i16,
    pub p_c: i16,
    pub p_d: i16,
}

/// Where an affine sprite stands on screen and how it is turned.
#[derive(Clone, Copy, Debug, PartialEq, Eq, Structural)]
pub struct AffineSprite {
    pub x: u16,
    pub y: u16,
    pub matrix: RotationMatrix,
}

/// The matrix that turns a sprite by `angle`.
pub fn rotation_matrix(angle: Fixed8) -> (m: RotationMatrix)
    ensures
        m.p_a == cos_of(angle.raw as int),
        m.p_b == -sin_of(angle.raw),
        m.p_c == sin_of(angle.raw),
        m.p_d == cos_of(angle.raw as int),
{
    let c = angle.cos();
    let s = angle.sin();
    RotationMatrix { p_a: c.raw as i16, p_b: s.neg().raw as i16, p_c: s.raw as i16, p_d: c.raw as i16 }
}

/// The matrix that turns a sprite by `angle` and scales each entry by
/// `numerator / divisor`, truncating toward zero.
pub fn scaled_rotation_matrix(angle: Fixed8, numerator: i32, divisor: i32) -> (m: RotationMatrix)
    requires
        0 <= numerator <= 120,
        divisor > 0,
    ensures
        m.p_a == trunc_div(cos_of(angle.raw as int) * numerator, divisor as int),
        m.p_b == trunc_div(-sin_of(angle.raw) * numerator, divisor as int),
        m.p_c == trunc_div(sin_of(angle.raw) * numerator, divisor as int),
        m.p_d == trunc_div(cos_of(angle.raw as int) * numerator, divisor as int),
{
    let c = angle.cos();
    let s = angle.sin();
    proof {
        lemma_scaled_entry(c.raw as int, numerator as int, divisor as int);
        lemma_scaled_entry(-s.raw, numerator as int, divisor as int);
        lemma_scaled_entry(s.raw as int, numerator as int, divisor as int);
    }
    let p_a = c.mul_int(numerator).div_int(divisor).raw as i16;
    let p_b = s.neg().mul_int(numerator).div_int(divisor).raw as i16;
    let p_c = s.mul_int(numerator).div_int(divisor).raw as i16;
    RotationMatrix { p_a, p_b, p_c, p_d: p_a }
}

proof fn lemma_scaled_entry(v: int, k: int, d: int)
    requires
        -ONE8 <= v <= ONE8,
        0 <= k <= 120,
        d > 0,
    ensures
        -30720 <= v * k <= 30720,
        -30720 <= trunc_div(v * k, d) <= 30720,
{
    assert(-30720 <= v * k <= 30720) by (nonlinear_arith)
        requires
            -256 <= v <= 256,
            0 <= k <= 120,
    ;
    let x = v * k;
    if x >= 0 {
        vstd::arithmetic::div_mod::lemma_div_is_ordered_by_denominator(x, 1, d);
        vstd::arithmetic::div_mod::lemma_div_pos_is_pos(x, d);
    } else {
        vstd::arithmetic::div_mod::lemma_div_is_ordered_by_denominator(-x, 1, d);
        vstd::arithmetic::div_mod::lemma_div_pos_is_pos(-x, d);
    }
}

/// The screen coordinate of a sprite whose centre is at `c` and whose half
/// extent is `half` pixels: the whole part of `c` less `half`, kept to 16 bits.
pub fn screen_coordinate(c: Fixed10, half: i32) -> (r: u16)
    requires
        crate::fixed::fits_i32(c.raw / 1024 - half),
    ensures
        r == ((c.raw / 1024) - half) as u16,
{
    (c.floor() - half) as u16
}

} // verus!
