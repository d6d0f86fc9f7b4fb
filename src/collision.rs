//! Overlap tests between entities.
use vstd::prelude::*;
use vstd::arithmetic::div_mod::lemma_div_is_ordered;
use crate::fixed::{fits_i32, ONE10};
use crate::vector::Vector2D;

verus! {

/// The square of a raw value at ten fractional bits, as the fixed-point
/// product computes it: rounded toward negative infinity.
pub open spec fn square10(v: int) -> int {
    (v * v) / 1024
}

/// Whether offsets `dx`, `dy` (raw) lie strictly inside radius `r` (raw).
pub open spec fn circles_overlap(dx: int, dy: int, r: int) -> bool {
    square10(dx) + square10(dy) < square10(r)
}

/// Whether circles at `a` and `b` with combined radius `r` can be tested
/// without leaving the range of `i32`.
pub open spec fn collision_ok(a: Vector2D, b: Vector2D, r: int) -> bool {
    &&& fits_i32(a.x.raw - b.x.raw)
    &&& fits_i32(a.y.raw - b.y.raw)
    &&& fits_i32(square10(a.x.raw - b.x.raw) + square10(a.y.raw - b.y.raw))
    &&& fits_i32(square10(r))
}

proof fn lemma_square10_nonneg(v: int)
    ensures
        0 <= square10(v),
{
    assert(v * v >= 0) by (nonlinear_arith);
}

/// Whether two circles whose centres are `pos_a` and `pos_b` and whose radii
/// add up to `r` overlap: the squared distance is strictly below `r * r`.
pub fn circle_collision(pos_a: Vector2D, pos_b: Vector2D, r: crate::fixed::Fixed10) -> (c: bool)
    requires
        collision_ok(pos_a, pos_b, r.raw as int),
    ensures
        c == circles_overlap(pos_a.x.raw - pos_b.x.raw, pos_a.y.raw - pos_b.y.raw, r.raw as int),
{
    let x = pos_a.x.sub(pos_b.x);
    let y = pos_a.y.sub(pos_b.y);
    proof {
        lemma_square10_nonneg(x.raw as int);
        lemma_square10_nonneg(y.raw as int);
    }
    let xx = x.mul(x);
    let yy = y.mul(y);
    xx.add(yy).raw < r.mul(r).raw
}

/// Whether the boxes with corners `pos_a`, `pos_b` and extents `size_a`,
/// `size_b` overlap.
pub fn axis_aligned_bounding_box_check(
    pos_a: Vector2D,
    pos_b: Vector2D,
    size_a: Vector2D,
    size_b: Vector2D,
) -> (c: bool)
    requires
        fits_i32(pos_a.x.raw + size_a.x.raw),
        fits_i32(pos_a.y.raw + size_a.y.raw),
        fits_i32(pos_b.x.raw + size_b.x.raw),
        fits_i32(pos_b.y.raw + size_b.y.raw),
    ensures
        c == (pos_a.x.raw < pos_b.x.raw + size_b.x.raw && pos_a.x.raw + size_a.x.raw > pos_b.x.raw
            && pos_a.y.raw < pos_b.y.raw + size_b.y.raw && pos_a.y.raw + size_a.y.raw
            > pos_b.y.raw),
{
    pos_a.x.raw < pos_b.x.add(size_b.x).raw && pos_a.x.add(size_a.x).raw > pos_b.x.raw
        && pos_a.y.raw < pos_b.y.add(size_b.y).raw && pos_a.y.add(size_a.y).raw > pos_b.y.raw
}

/// Two circles of combined radius `r` (at least one whole unit) that lie on
/// one horizontal line collide exactly when their centres are closer than
/// `r`: at distance `r` they do not, one raw step closer they do.
pub proof fn lemma_collision_boundary(dx: int, r: int)
    requires
        r >= ONE10,
    ensures
        circles_overlap(dx, 0, r) <==> -r < dx < r,
{
    lemma_square10_nonneg(r);
    assert(square10(0) == 0);
    if -r < dx < r {
        assert(dx * dx + 1024 <= r * r) by (nonlinear_arith)
            requires
                -r < dx < r,
                r >= 1024,
        ;
        lemma_div_is_ordered(dx * dx + 1024, r * r, 1024);
        assert((dx * dx + 1024) / 1024 == dx * dx / 1024 + 1) by {
            vstd::arithmetic::div_mod::lemma_div_plus_one(dx * dx, 1024);
        }
    } else {
        assert(dx * dx >= r * r) by (nonlinear_arith)
            requires
                !(-r < dx < r),
                r >= 1024,
        ;
        lemma_div_is_ordered(r * r, dx * dx, 1024);
    }
}

} // verus!
