//! The player's ship: steering, thrust, drag and movement.
use vstd::prelude::*;
use crate::fixed::{Fixed10, Fixed8, cos_of, sin_of, trunc_div, fits_i32, ONE10, ONE8};
use crate::render::{AffineSprite, rotation_matrix, screen_coordinate};
use crate::vector::Vector2D;

verus! {

/// Width of the playfield in pixels.
pub const WIDTH: i32 = 240;

/// Height of the playfield in pixels.
pub const HEIGHT: i32 = 160;

/// Raw speed that a held thrust approaches on an axis and never reaches: the
/// speed at which drag (`* 120 / 121`) would cancel the per-frame impulse of
/// 25 (`ONE8 * 4 / 40`), that is `25 * 120`.
pub const TERMINAL_SPEED: i32 = 3000;

/// The raw impulse along x that thrust `acc` gives at `angle`.
pub open spec fn thrust_x(angle: i32, acc: int) -> int {
    (trunc_div(cos_of(angle as int) * 4, 40) * acc) / 1024
}

/// The raw impulse along y (screen y grows downward) that thrust `acc` gives at `angle`.
pub open spec fn thrust_y(angle: i32, acc: int) -> int {
    (trunc_div(-(sin_of(angle) * 4), 40) * acc) / 1024
}

/// A raw velocity after one frame of drag.
pub open spec fn drag(v: int) -> int {
    trunc_div(v * 120, 121)
}

/// Whether `accelerate` stays within the range of `i32` on one axis.
pub open spec fn axis_ok(p: int, v: int, t: int) -> bool {
    &&& fits_i32(v + t)
    &&& fits_i32((v + t) * 120)
    &&& fits_i32(p + drag(v + t))
}

/// The player's ship.
#[derive(Clone, Copy, Debug, PartialEq, Eq, Structural)]
pub struct Ship {
    pub position: Vector2D,
    pub velocity: Vector2D,
    pub angle: Fixed8,
}

/// The raw impulse `trunc(±c * 4 / 40)` is at most 25 either way.
proof fn lemma_impulse_bound(c: int)
    requires
        -ONE8 <= c <= ONE8,
    ensures
        -25 <= trunc_div(c * 4, 40) <= 25,
        -25 <= trunc_div(-(c * 4), 40) <= 25,
{
}

/// Thrust of zero or one whole unit gives an impulse of at most 25 either way.
proof fn lemma_thrust_bound(t: int, acc: int)
    requires
        -25 <= t <= 25,
        acc == 0 || acc == ONE10,
    ensures
        -25 <= (t * acc) / 1024 <= 25,
        (t * acc) / 1024 == if acc == 0 { 0 } else { t },
{
    if acc == ONE10 {
        vstd::arithmetic::div_mod::lemma_div_multiples_vanish(t, 1024);
        assert(t * acc == 1024 * t) by (nonlinear_arith)
            requires
                acc == 1024,
        ;
    }
}

/// While thrust adds at most 25 a frame, a speed below `TERMINAL_SPEED` on
/// an axis stays below it after drag.
pub proof fn lemma_drag_below_terminal(v: int, t: int)
    requires
        -TERMINAL_SPEED < v < TERMINAL_SPEED,
        -25 <= t <= 25,
    ensures
        -TERMINAL_SPEED < drag(v + t) < TERMINAL_SPEED,
{
    let x = (v + t) * 120;
    assert(-363000 < x < 363000);
    if x >= 0 {
        vstd::arithmetic::div_mod::lemma_div_is_ordered(x, 362999, 121);
    } else {
        vstd::arithmetic::div_mod::lemma_div_is_ordered(-x, 362999, 121);
    }
}

impl Ship {
    /// A ship at rest at the centre of the playfield, facing angle zero.
    pub fn new() -> (s: Ship)
        ensures
            s.position.x.raw == (WIDTH / 2) * ONE10,
            s.position.y.raw == (HEIGHT / 2) * ONE10,
            s.velocity.x.raw == 0,
            s.velocity.y.raw == 0,
            s.angle.raw == 0,
    {
        Ship {
            position: Vector2D::new(Fixed10::from_int(WIDTH / 2), Fixed10::from_int(HEIGHT / 2)),
            velocity: Vector2D::new(Fixed10::from_int(0), Fixed10::from_int(0)),
            angle: Fixed8::from_int(0),
        }
    }

    /// Turns the ship by `angle_diff`; the angle wraps round the range of
    /// `i32`, which keeps its direction since a whole turn divides it.
    pub fn update_angle(&mut self, angle_diff: Fixed8)
        ensures
            final(self).angle.raw == old(self).angle.raw.wrapping_add(angle_diff.raw),
            final(self).position == old(self).position,
            final(self).velocity == old(self).velocity,
    {
        self.angle = self.angle.wrapping_add(angle_diff);
    }

    /// Where the ship's sprite (16 by 16 pixels) is drawn and how it is turned.
    pub fn commit(&self) -> (r: AffineSprite)
        ensures
            r.x == ((self.position.x.raw / 1024) - 8) as u16,
            r.y == ((self.position.y.raw / 1024) - 8) as u16,
            r.matrix.p_a == cos_of(self.angle.raw as int),
            r.matrix.p_b == -sin_of(self.angle.raw),
            r.matrix.p_c == sin_of(self.angle.raw),
            r.matrix.p_d == cos_of(self.angle.raw as int),
    {
        AffineSprite {
            x: screen_coordinate(self.position.x, 8),
            y: screen_coordinate(self.position.y, 8),
            matrix: rotation_matrix(self.angle),
        }
    }

    /// One frame of flight: adds the impulse `acceleration / 40` along the
    /// heading, applies drag (`* 120 / 121`) and moves by the new velocity.
    pub fn accelerate(&mut self, acceleration: Fixed10)
        requires
            axis_ok(
                old(self).position.x.raw as int,
                old(self).velocity.x.raw as int,
                thrust_x(old(self).angle.raw, acceleration.raw as int),
            ),
            axis_ok(
                old(self).position.y.raw as int,
                old(self).velocity.y.raw as int,
                thrust_y(old(self).angle.raw, acceleration.raw as int),
            ),
        ensures
            final(self).velocity.x.raw == drag(
                old(self).velocity.x.raw + thrust_x(old(self).angle.raw, acceleration.raw as int),
            ),
            final(self).velocity.y.raw == drag(
                old(self).velocity.y.raw + thrust_y(old(self).angle.raw, acceleration.raw as int),
            ),
            final(self).position.x.raw == old(self).position.x.raw + final(self).velocity.x.raw,
            final(self).position.y.raw == old(self).position.y.raw + final(self).velocity.y.raw,
            final(self).angle == old(self).angle,
    {
        let c = self.angle.cos();
        let s = self.angle.sin();
        proof {
            lemma_impulse_bound(c.raw as int);
            lemma_impulse_bound(s.raw as int);
        }
        let ix = c.change_base().div_int(40);
        let iy = s.change_base().neg().div_int(40);
        proof {
            lemma_product_fits(ix.raw as int, acceleration.raw as int);
            lemma_product_fits(iy.raw as int, acceleration.raw as int);
        }
        self.velocity.x = self.velocity.x.add(ix.mul(acceleration));
        self.velocity.y = self.velocity.y.add(iy.mul(acceleration));

        self.velocity.x = self.velocity.x.mul_int(120).div_int(121);
        self.velocity.y = self.velocity.y.mul_int(120).div_int(121);

        self.position.x = self.position.x.add(self.velocity.x);
        self.position.y = self.position.y.add(self.velocity.y);
    }
}

/// With a speed below `TERMINAL_SPEED` on each axis, a position within a
/// million raw units of the origin, a thrust of zero or one whole unit and a
/// heading whose cosine and sine lie within one unit,
/// `accelerate` stays in range and the speed stays below `TERMINAL_SPEED`.
pub proof fn lemma_flight_in_range(s: Ship, acc: int)
    requires
        -TERMINAL_SPEED < s.velocity.x.raw < TERMINAL_SPEED,
        -TERMINAL_SPEED < s.velocity.y.raw < TERMINAL_SPEED,
        -1000000 < s.position.x.raw < 1000000,
        -1000000 < s.position.y.raw < 1000000,
        acc == 0 || acc == ONE10,
        -ONE8 <= cos_of(s.angle.raw as int) <= ONE8,
        -ONE8 <= sin_of(s.angle.raw) <= ONE8,
    ensures
        axis_ok(s.position.x.raw as int, s.velocity.x.raw as int, thrust_x(s.angle.raw, acc)),
        axis_ok(s.position.y.raw as int, s.velocity.y.raw as int, thrust_y(s.angle.raw, acc)),
        -TERMINAL_SPEED < drag(s.velocity.x.raw + thrust_x(s.angle.raw, acc)) < TERMINAL_SPEED,
        -TERMINAL_SPEED < drag(s.velocity.y.raw + thrust_y(s.angle.raw, acc)) < TERMINAL_SPEED,
{
    let c = cos_of(s.angle.raw as int);
    let sn = sin_of(s.angle.raw);
    lemma_impulse_bound(c);
    lemma_impulse_bound(sn);
    lemma_thrust_bound(trunc_div(c * 4, 40), acc);
    lemma_thrust_bound(trunc_div(-(sn * 4), 40), acc);
    lemma_drag_below_terminal(s.velocity.x.raw as int, thrust_x(s.angle.raw, acc));
    lemma_drag_below_terminal(s.velocity.y.raw as int, thrust_y(s.angle.raw, acc));
}

/// An impulse of at most 25 times any `i32`, scaled down by 1024, fits.
proof fn lemma_product_fits(t: int, acc: int)
    requires
        -25 <= t <= 25,
        fits_i32(acc),
    ensures
        fits_i32((t * acc) / 1024),
{
    assert(-25 * 2147483648 <= t * acc <= 25 * 2147483648) by (nonlinear_arith)
        requires
            -25 <= t <= 25,
            -2147483648 <= acc <= 2147483647,
    ;
    vstd::arithmetic::div_mod::lemma_div_is_ordered(-25 * 2147483648, t * acc, 1024);
    vstd::arithmetic::div_mod::lemma_div_is_ordered(t * acc, 25 * 2147483648int, 1024);
}

} // verus!
