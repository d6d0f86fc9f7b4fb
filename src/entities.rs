//! The projectile, the obstacles and the debris clusters, with their
//! per-frame movement.
use vstd::prelude::*;
use crate::fixed::{Fixed10, Fixed8, ONE10};
use crate::render::{AffineSprite, RotationMatrix, rotation_matrix, scaled_rotation_matrix, screen_coordinate};
use crate::ship::{WIDTH, HEIGHT};
use crate::vector::{Vector2D, half_offset, wrap_coord, wrap_period, lemma_wrap_idempotent};

verus! {

/// Side of the ship's and of an obstacle's sprite, in pixels.
pub const LARGE_SIZE: i32 = 16;

/// Side of the projectile's and of a debris fragment's sprite, in pixels.
pub const SMALL_SIZE: i32 = 8;

/// Frames a debris cluster lives.
pub const DUST_TTL: i32 = 120;

/// Fragments in a debris cluster.
pub const DUST_FRAGMENTS: usize = 4;

/// The playfield's extent as a raw vector.
pub open spec fn screen_bounds() -> Vector2D {
    Vector2D { x: Fixed10 { raw: (WIDTH * ONE10) as i32 }, y: Fixed10 { raw: (HEIGHT * ONE10) as i32 } }
}

/// The playfield's extent.
pub fn playfield() -> (b: Vector2D)
    ensures
        b == screen_bounds(),
{
    Vector2D::new(Fixed10::from_int(WIDTH), Fixed10::from_int(HEIGHT))
}

/// Whether `p` lies where wrapping puts an entity of `size` pixels.
pub open spec fn in_field(p: Vector2D, size: int) -> bool {
    &&& -half_offset(size) <= p.x.raw < wrap_period(size, WIDTH * ONE10) - half_offset(size)
    &&& -half_offset(size) <= p.y.raw < wrap_period(size, HEIGHT * ONE10) - half_offset(size)
}

/// Whether both components of `v` lie strictly between `-k` and `k` (raw).
pub open spec fn speed_below(v: Vector2D, k: int) -> bool {
    &&& -k < v.x.raw < k
    &&& -k < v.y.raw < k
}

/// Largest raw speed on an axis that any entity reaches.
pub const MAX_SPEED: i32 = 8192;

/// `p` moved by `v` and wrapped for an entity of `size` pixels.
pub open spec fn drift(p: Vector2D, v: Vector2D, size: int) -> Vector2D {
    Vector2D {
        x: Fixed10 { raw: wrap_coord(p.x.raw + v.x.raw, size, WIDTH * ONE10) as i32 },
        y: Fixed10 { raw: wrap_coord(p.y.raw + v.y.raw, size, HEIGHT * ONE10) as i32 },
    }
}

/// Moves `p` by `v` and wraps it round the playfield.
pub fn drift_in_place(p: &mut Vector2D, v: Vector2D, size: i32)
    requires
        size == LARGE_SIZE || size == SMALL_SIZE,
        in_field(*old(p), LARGE_SIZE as int),
        speed_below(v, MAX_SPEED as int),
    ensures
        *final(p) == drift(*old(p), v, size as int),
        in_field(*final(p), size as int),
        in_field(*final(p), LARGE_SIZE as int),
{
    p.add_assign(v);
    proof {
        lemma_wrap_idempotent(p.x.raw as int, size as int, WIDTH * ONE10);
        lemma_wrap_idempotent(p.y.raw as int, size as int, HEIGHT * ONE10);
    }
    p.wrap_to_bounds(size, playfield());
}

/// The single projectile; it is live while `present`.
#[derive(Clone, Copy, Debug, PartialEq, Eq, Structural)]
pub struct Bullet {
    pub position: Vector2D,
    pub velocity: Vector2D,
    pub present: bool,
}

impl Bullet {
    /// A projectile that is not live, at the origin.
    pub fn new() -> (b: Bullet)
        ensures
            !b.present,
            b.position.x.raw == 0 && b.position.y.raw == 0,
            b.velocity.x.raw == 0 && b.velocity.y.raw == 0,
    {
        let zero = Fixed10::from_int(0);
        Bullet { position: Vector2D::new(zero, zero), velocity: Vector2D::new(zero, zero), present: false }
    }

    /// Screen coordinates of the projectile's 8 by 8 sprite.
    pub fn sprite_position(&self) -> (r: (u16, u16))
        ensures
            r.0 == ((self.position.x.raw / 1024) - 4) as u16,
            r.1 == ((self.position.y.raw / 1024) - 4) as u16,
    {
        (screen_coordinate(self.position.x, 4), screen_coordinate(self.position.y, 4))
    }
}

/// An obstacle drifting and turning across the playfield.
#[derive(Clone, Copy, Debug, PartialEq, Eq, Structural)]
pub struct Asteroid {
    pub position: Vector2D,
    pub velocity: Vector2D,
    pub angle: Fixed8,
    pub angular_velocity: Fixed8,
    pub tile_id: u16,
}

/// An obstacle after one frame.
pub open spec fn asteroid_stepped(a: Asteroid) -> Asteroid {
    Asteroid {
        position: drift(a.position, a.velocity, LARGE_SIZE as int),
        angle: Fixed8 { raw: a.angle.raw.wrapping_add(a.angular_velocity.raw) },
        ..a
    }
}

/// Whether an obstacle's state stays in the ranges that the simulation keeps.
pub open spec fn asteroid_ok(a: Asteroid) -> bool {
    in_field(a.position, LARGE_SIZE as int) && speed_below(a.velocity, ONE10 as int)
}

impl Asteroid {
    /// Moves and turns the obstacle by one frame.
    pub fn update(&mut self)
        requires
            asteroid_ok(*old(self)),
        ensures
            *final(self) == asteroid_stepped(*old(self)),
            asteroid_ok(*final(self)),
    {
        drift_in_place(&mut self.position, self.velocity, LARGE_SIZE);
        self.angle = self.angle.wrapping_add(self.angular_velocity);
    }

    /// Where the obstacle's 16 by 16 sprite is drawn and how it is turned.
    pub fn sprite(&self) -> (r: AffineSprite)
        ensures
            r.x == ((self.position.x.raw / 1024) - 8) as u16,
            r.y == ((self.position.y.raw / 1024) - 8) as u16,
            r.matrix == rotation_matrix_of(self.angle),
    {
        AffineSprite {
            x: screen_coordinate(self.position.x, 8),
            y: screen_coordinate(self.position.y, 8),
            matrix: rotation_matrix(self.angle),
        }
    }
}

/// The matrix that `rotation_matrix` gives for `angle`.
pub open spec fn rotation_matrix_of(angle: Fixed8) -> RotationMatrix {
    RotationMatrix {
        p_a: crate::fixed::cos_of(angle.raw as int) as i16,
        p_b: (-crate::fixed::sin_of(angle.raw)) as i16,
        p_c: crate::fixed::sin_of(angle.raw) as i16,
        p_d: crate::fixed::cos_of(angle.raw as int) as i16,
    }
}

/// One fragment of a debris cluster.
#[derive(Clone, Copy, Debug, PartialEq, Eq, Structural)]
pub struct Dust {
    pub position: Vector2D,
    pub velocity: Vector2D,
    pub tile_id: u16,
}

impl Dust {
    /// Screen coordinates of the fragment's 8 by 8 sprite.
    pub fn sprite_position(&self) -> (r: (u16, u16))
        ensures
            r.0 == ((self.position.x.raw / 1024) - 4) as u16,
            r.1 == ((self.position.y.raw / 1024) - 4) as u16,
    {
        (screen_coordinate(self.position.x, 4), screen_coordinate(self.position.y, 4))
    }
}

/// A fragment after one frame.
pub open spec fn dust_stepped(d: Dust) -> Dust {
    Dust { position: drift(d.position, d.velocity, SMALL_SIZE as int), ..d }
}

/// Whether a fragment's state stays in the ranges that the simulation keeps.
pub open spec fn dust_ok(d: Dust) -> bool {
    in_field(d.position, LARGE_SIZE as int) && speed_below(d.velocity, 2 * ONE10)
}

/// A cluster of fragments that share one rotation and one time to live.
#[derive(Clone, Copy, Debug)]
pub struct DustParticles {
    pub dusts: [Dust; 4],
    pub angle: Fixed8,
    pub angular_velocity: Fixed8,
    pub ttl: i32,
}

/// Whether a live cluster's state stays in the ranges that the simulation keeps.
pub open spec fn dust_group_ok(g: DustParticles) -> bool {
    &&& 1 <= g.ttl <= DUST_TTL
    &&& forall|k: int| 0 <= k < DUST_FRAGMENTS ==> dust_ok(#[trigger] g.dusts@[k])
}

/// Whether `h` is cluster `g` after one frame: one frame less to live, turned
/// by its angular velocity, every fragment moved and wrapped.
pub open spec fn dust_group_stepped(g: DustParticles, h: DustParticles) -> bool {
    &&& h.ttl == g.ttl - 1
    &&& h.angle.raw == g.angle.raw.wrapping_add(g.angular_velocity.raw)
    &&& h.angular_velocity == g.angular_velocity
    &&& forall|k: int| 0 <= k < DUST_FRAGMENTS ==> #[trigger] h.dusts@[k] == dust_stepped(g.dusts@[k])
}

impl DustParticles {
    /// Ages the cluster by one frame, turns it and moves every fragment.
    pub fn update(&mut self)
        requires
            dust_group_ok(*old(self)),
        ensures
            dust_group_stepped(*old(self), *final(self)),
            0 <= final(self).ttl < DUST_TTL,
            final(self).ttl >= 1 ==> dust_group_ok(*final(self)),
    {
        self.ttl = self.ttl - 1;
        self.angle = self.angle.wrapping_add(self.angular_velocity);
        let mut k: usize = 0;
        while k < DUST_FRAGMENTS
            invariant
                k <= DUST_FRAGMENTS,
                self.ttl == old(self).ttl - 1,
                self.angle.raw == old(self).angle.raw.wrapping_add(old(self).angular_velocity.raw),
                self.angular_velocity == old(self).angular_velocity,
                dust_group_ok(*old(self)),
                forall|j: int| 0 <= j < k ==> #[trigger] self.dusts@[j] == dust_stepped(old(self).dusts@[j]),
                forall|j: int| k <= j < DUST_FRAGMENTS ==> #[trigger] self.dusts@[j] == old(self).dusts@[j],
                forall|j: int| 0 <= j < DUST_FRAGMENTS ==> dust_ok(#[trigger] self.dusts@[j]),
            decreases DUST_FRAGMENTS - k,
        {
            let mut d = self.dusts[k];
            assert(dust_ok(self.dusts@[k as int]));
            drift_in_place(&mut d.position, d.velocity, SMALL_SIZE);
            self.dusts[k] = d;
            k = k + 1;
        }
    }

    /// The cluster's matrix for the frame that brought its time to live to
    /// `ttl`: its rotation scaled by `DUST_TTL / (ttl + 1)`. The entries grow
    /// as the cluster ages, which on screen shrinks its fragments.
    pub fn matrix(&self) -> (m: RotationMatrix)
        requires
            0 <= self.ttl < i32::MAX,
        ensures
            m.p_a == crate::fixed::trunc_div(crate::fixed::cos_of(self.angle.raw as int) * DUST_TTL, self.ttl + 1),
            m.p_b == crate::fixed::trunc_div(-crate::fixed::sin_of(self.angle.raw) * DUST_TTL, self.ttl + 1),
            m.p_c == crate::fixed::trunc_div(crate::fixed::sin_of(self.angle.raw) * DUST_TTL, self.ttl + 1),
            m.p_d == crate::fixed::trunc_div(crate::fixed::cos_of(self.angle.raw as int) * DUST_TTL, self.ttl + 1),
    {
        scaled_rotation_matrix(self.angle, DUST_TTL, self.ttl + 1)
    }
}

} // verus!
