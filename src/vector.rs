//! Two-dimensional vectors of fine fixed-point values, and the toroidal wrap
//! that makes the playfield borderless.
use vstd::prelude::*;
use vstd::arithmetic::div_mod::{lemma_mod_twice, lemma_mod_bound};
use crate::fixed::{Fixed10, fits_i32, trunc_div, ONE10};

verus! {

/// A position or velocity.
#[derive(Clone, Copy, Debug, PartialEq, Eq, Structural)]
pub struct Vector2D {
    pub x: Fixed10,
    pub y: Fixed10,
}

/// Raw offset that centres an entity of `size` whole units: half its size,
/// truncated, at ten fractional bits.
pub open spec fn half_offset(size: int) -> int {
    trunc_div(size, 2) * ONE10
}

/// Raw period of the wrap along an axis whose extent is `bound` (raw) for an
/// entity of `size` whole units.
pub open spec fn wrap_period(size: int, bound: int) -> int {
    bound + size * ONE10
}

/// Whether one coordinate can be wrapped without leaving the range of `i32`.
pub open spec fn wrap_ok(p: int, size: int, bound: int) -> bool {
    &&& fits_i32(size * ONE10)
    &&& fits_i32(p + half_offset(size))
    &&& fits_i32(wrap_period(size, bound))
    &&& wrap_period(size, bound) > 0
}

/// One coordinate `p` (raw) wrapped into `[-half, bound + size - half)`.
pub open spec fn wrap_coord(p: int, size: int, bound: int) -> int {
    (p + half_offset(size)) % wrap_period(size, bound) - half_offset(size)
}

impl Vector2D {
    pub fn new(x: Fixed10, y: Fixed10) -> (r: Self)
        ensures
            r.x == x,
            r.y == y,
    {
        Vector2D { x, y }
    }

    /// The component-wise sum.
    pub fn add(self, rhs: Vector2D) -> (r: Vector2D)
        requires
            fits_i32(self.x.raw + rhs.x.raw),
            fits_i32(self.y.raw + rhs.y.raw),
        ensures
            r.x.raw == self.x.raw + rhs.x.raw,
            r.y.raw == self.y.raw + rhs.y.raw,
    {
        let mut c = self;
        c.add_assign(rhs);
        c
    }

    /// Adds `rhs` component-wise in place.
    pub fn add_assign(&mut self, rhs: Vector2D)
        requires
            fits_i32(old(self).x.raw + rhs.x.raw),
            fits_i32(old(self).y.raw + rhs.y.raw),
        ensures
            final(self).x.raw == old(self).x.raw + rhs.x.raw,
            final(self).y.raw == old(self).y.raw + rhs.y.raw,
    {
        self.x = self.x.add(rhs.x);
        self.y = self.y.add(rhs.y);
    }

    /// Moves the vector into the playfield extended by the entity's size on
    /// every side, treating opposite edges as one: each coordinate `c` becomes
    /// `(c + size / 2) rem_euclid (bound + size) - size / 2`.
    pub fn wrap_to_bounds(&mut self, size: i32, bounds: Vector2D)
        requires
            wrap_ok(old(self).x.raw as int, size as int, bounds.x.raw as int),
            wrap_ok(old(self).y.raw as int, size as int, bounds.y.raw as int),
        ensures
            final(self).x.raw == wrap_coord(old(self).x.raw as int, size as int, bounds.x.raw as int),
            final(self).y.raw == wrap_coord(old(self).y.raw as int, size as int, bounds.y.raw as int),
    {
        self.x = wrap_axis(self.x, size, bounds.x);
        self.y = wrap_axis(self.y, size, bounds.y);
    }
}

fn wrap_axis(p: Fixed10, size: i32, bound: Fixed10) -> (r: Fixed10)
    requires
        wrap_ok(p.raw as int, size as int, bound.raw as int),
    ensures
        r.raw == wrap_coord(p.raw as int, size as int, bound.raw as int),
{
    proof {
        lemma_mod_bound(p.raw + half_offset(size as int), wrap_period(size as int, bound.raw as int));
    }
    let size_num = Fixed10::from_int(size);
    let half = Fixed10::from_int(size / 2);
    p.add(half).rem_euclid(bound.add(size_num)).sub(half)
}

/// Wrapping is idempotent, and a wrapped coordinate lies in
/// `[-size / 2, bound + size - size / 2)`.
pub proof fn lemma_wrap_idempotent(p: int, size: int, bound: int)
    requires
        wrap_ok(p, size, bound),
    ensures
        wrap_ok(wrap_coord(p, size, bound), size, bound),
        wrap_coord(wrap_coord(p, size, bound), size, bound) == wrap_coord(p, size, bound),
        -half_offset(size) <= wrap_coord(p, size, bound),
        wrap_coord(p, size, bound) < wrap_period(size, bound) - half_offset(size),
{
    let m = wrap_period(size, bound);
    let h = half_offset(size);
    lemma_mod_bound(p + h, m);
    lemma_mod_twice(p + h, m);
    assert(wrap_coord(p, size, bound) + h == (p + h) % m);
}

} // verus!
