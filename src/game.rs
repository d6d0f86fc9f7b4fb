//! The game state and one frame of simulation.
use vstd::prelude::*;
use crate::collision::{circle_collision, circles_overlap, collision_ok, square10};
use crate::entities::{
    Asteroid, Bullet, Dust, DustParticles, asteroid_ok, asteroid_stepped, drift, drift_in_place,
    dust_group_ok, dust_ok, dust_stepped, in_field, speed_below, DUST_TTL,
    LARGE_SIZE, MAX_SPEED, SMALL_SIZE,
};
use crate::fixed::{Fixed10, Fixed8, cos_of, sin_of, trunc_div, trunc_rem, ONE10, ONE8};
use crate::pool::{Pool, allocated, is_full, is_first_free};
use crate::rng::{RandomNumberGenerator, draw, state_after, SEED};
use crate::score::{ScoreDisplay, digits, FRAMES_PER_POINT, SCORE_TILES};
use crate::vector::Vector2D;
use crate::ship::{Ship, drag, thrust_x, thrust_y, HEIGHT, TERMINAL_SPEED, WIDTH};

verus! {

/// Frames between two obstacle spawns.
pub const SPAWN_PERIOD: u32 = 256;

/// Slots in the obstacle pool and in the debris pool.
pub const POOL_CAPACITY: usize = 8;

/// Radius of an obstacle plus radius of the projectile, in pixels.
pub const HIT_RADIUS: i32 = 12;

/// Speed of a launched projectile relative to the ship, in whole units of the
/// heading vector.
pub const LAUNCH_SPEED: i32 = 2;

/// The state of a three-way directional input.
#[derive(Clone, Copy, Debug, PartialEq, Eq, Structural)]
pub enum Tri {
    Negative,
    Zero,
    Positive,
}

/// The input as -1, 0 or 1.
pub open spec fn tri_value(t: Tri) -> int {
    match t {
        Tri::Negative => -1,
        Tri::Zero => 0,
        Tri::Positive => 1,
    }
}

/// The input sampled for one frame.
#[derive(Clone, Copy, Debug, PartialEq, Eq, Structural)]
pub struct FrameInput {
    /// Steering: positive turns one way, negative the other.
    pub x: Tri,
    /// Whether thrust is held.
    pub thrust: bool,
    /// Whether fire was pressed since the last sample.
    pub fire: bool,
}

/// What happened in a frame that the display and the sound need to know.
#[derive(Clone, Copy, Debug, PartialEq, Eq, Structural)]
pub struct FrameEvents {
    /// The displayed score changed: redraw it.
    pub score_changed: bool,
    /// Thrust was on: draw the ship with its flame.
    pub thrusting: bool,
    /// A projectile was launched: play its sound and take one more input sample.
    pub fired: bool,
    /// An obstacle was destroyed: play its sound.
    pub exploded: bool,
}

/// The whole simulation state as the contracts see it.
pub struct World {
    pub ship: Ship,
    pub bullet: Bullet,
    pub asteroids: Seq<Option<Asteroid>>,
    pub dust: Seq<Option<DustParticles>>,
    pub rng: Seq<u32>,
    pub frame_count: u32,
    pub score: u32,
}

/// The raw turn a steering input gives in one frame: `-(ONE8 * x / 100)`.
pub open spec fn steer_delta(x: Tri) -> int {
    -trunc_div(ONE8 * tri_value(x), 100)
}

/// The thrust that an input gives: one whole unit while held.
pub open spec fn thrust_of(input: FrameInput) -> int {
    if input.thrust {
        ONE10 as int
    } else {
        0
    }
}

/// The ship after one frame of steering, thrust, drag and movement.
pub open spec fn ship_stepped(s: Ship, input: FrameInput) -> Ship {
    let angle = s.angle.raw.wrapping_add(steer_delta(input.x) as i32);
    let acc = thrust_of(input);
    let velocity = Vector2D {
        x: Fixed10 { raw: drag(s.velocity.x.raw + thrust_x(angle, acc)) as i32 },
        y: Fixed10 { raw: drag(s.velocity.y.raw + thrust_y(angle, acc)) as i32 },
    };
    Ship {
        position: drift(s.position, velocity, LARGE_SIZE as int),
        velocity,
        angle: Fixed8 { raw: angle },
    }
}

/// The velocity a projectile launched from ship `s` starts with: the ship's
/// own plus `LAUNCH_SPEED` along the heading.
pub open spec fn launch_velocity(s: Ship) -> Vector2D {
    Vector2D {
        x: Fixed10 { raw: (s.velocity.x.raw + cos_of(s.angle.raw as int) * 4 * LAUNCH_SPEED) as i32 },
        y: Fixed10 { raw: (s.velocity.y.raw + -(sin_of(s.angle.raw) * 4) * LAUNCH_SPEED) as i32 },
    }
}

/// Whether a fire input launches a projectile: only when none is live.
pub open spec fn fires(b: Bullet, fire: bool) -> bool {
    fire && !b.present
}

/// The projectile after the fire input: launched from ship `s` when it fires.
pub open spec fn bullet_after_fire(b: Bullet, s: Ship, fire: bool) -> Bullet {
    if fires(b, fire) {
        Bullet { position: s.position, velocity: launch_velocity(s), present: true }
    } else {
        b
    }
}

/// The projectile after one frame of flight; a projectile that is not live stays put.
pub open spec fn bullet_stepped(b: Bullet) -> Bullet {
    if b.present {
        Bullet { position: drift(b.position, b.velocity, SMALL_SIZE as int), ..b }
    } else {
        b
    }
}

/// Raw modulus of a random angular velocity: `ONE8 / 50`.
pub open spec fn spin_modulus() -> int {
    trunc_div(ONE8 as int, 50)
}

/// The obstacle spawned from generator state `s`, which it draws from five times.
pub open spec fn spawned_asteroid(s: Seq<u32>) -> Asteroid {
    Asteroid {
        position: Vector2D {
            x: Fixed10 { raw: ((WIDTH / 2) * ONE10) as i32 },
            y: Fixed10 { raw: ((HEIGHT / 2) * ONE10) as i32 },
        },
        velocity: Vector2D {
            x: Fixed10 { raw: trunc_rem(draw(s, 0) as int, ONE10 as int) as i32 },
            y: Fixed10 { raw: trunc_rem(draw(s, 1) as int, ONE10 as int) as i32 },
        },
        angular_velocity: Fixed8 { raw: trunc_rem(draw(s, 2) as int, spin_modulus()) as i32 },
        angle: Fixed8 { raw: trunc_rem(draw(s, 3) as int, ONE8 as int) as i32 },
        tile_id: if trunc_rem(draw(s, 4) as int, 2) == 0 {
            12
        } else {
            16
        },
    }
}

/// Whether an obstacle is due on frame `frame`.
pub open spec fn spawn_due(frame: u32) -> bool {
    frame % SPAWN_PERIOD == 0
}

/// The world after the spawn step: on a due frame one obstacle goes into the
/// first free slot, or is dropped when the pool is full.
#[verifier::opaque]
pub open spec fn after_spawn(w: World) -> World {
    if spawn_due(w.frame_count) {
        World { asteroids: allocated(w.asteroids, spawned_asteroid(w.rng)), rng: state_after(w.rng, 5), ..w }
    } else {
        w
    }
}

/// A slot of the obstacle pool after one frame.
pub open spec fn asteroid_slot_stepped(o: Option<Asteroid>) -> Option<Asteroid> {
    match o {
        Some(a) => Some(asteroid_stepped(a)),
        None => None,
    }
}

/// Whether projectile `b` overlaps the obstacle in slot `o`.
pub open spec fn hits(b: Bullet, o: Option<Asteroid>) -> bool {
    match o {
        Some(a) => circles_overlap(
            b.position.x.raw - a.position.x.raw,
            b.position.y.raw - a.position.y.raw,
            HIT_RADIUS * ONE10,
        ),
        None => false,
    }
}

/// Whether slot `i` holds the lowest-indexed obstacle that `b` overlaps.
pub open spec fn is_first_hit(b: Bullet, asts: Seq<Option<Asteroid>>, i: int) -> bool {
    &&& 0 <= i < asts.len()
    &&& hits(b, asts[i])
    &&& forall|j: int| 0 <= j < i ==> !hits(b, #[trigger] asts[j])
}

/// A debris fragment of obstacle `a`, drawn from generator state `s` three
/// times: its tile, then the jitter of its velocity along x and along y.
pub open spec fn debris_fragment(a: Asteroid, s: Seq<u32>) -> Dust {
    Dust {
        position: a.position,
        velocity: Vector2D {
            x: Fixed10 { raw: (a.velocity.x.raw + trunc_rem(draw(s, 1) as int, ONE10 as int)) as i32 },
            y: Fixed10 { raw: (a.velocity.y.raw + trunc_rem(draw(s, 2) as int, ONE10 as int)) as i32 },
        },
        tile_id: (20 + trunc_rem(draw(s, 0) as int, 4)) as u16,
    }
}

/// The debris cluster of obstacle `a`: four fragments from twelve draws, then
/// its angular velocity and angle from two more.
pub open spec fn debris_cluster(a: Asteroid, s: Seq<u32>) -> DustParticles {
    DustParticles {
        dusts: [
            debris_fragment(a, s),
            debris_fragment(a, state_after(s, 3)),
            debris_fragment(a, state_after(s, 6)),
            debris_fragment(a, state_after(s, 9)),
        ],
        angular_velocity: Fixed8 { raw: trunc_rem(draw(s, 12) as int, spin_modulus()) as i32 },
        angle: Fixed8 { raw: trunc_rem(draw(s, 13) as int, ONE8 as int) as i32 },
        ttl: DUST_TTL,
    }
}

/// The world after the collision step. A live projectile that overlaps an
/// obstacle destroys the lowest-indexed one and is spent; a debris cluster
/// takes the first free debris slot, or is dropped when there is none (its
/// fragments are drawn either way, its rotation only when it has a slot).
#[verifier::opaque]
pub open spec fn after_collision(w: World) -> World {
    if w.bullet.present && exists|i: int| is_first_hit(w.bullet, w.asteroids, i) {
        let i = choose|i: int| is_first_hit(w.bullet, w.asteroids, i);
        let a = w.asteroids[i]->0;
        World {
            bullet: Bullet { present: false, ..w.bullet },
            asteroids: w.asteroids.update(i, None),
            dust: allocated(w.dust, debris_cluster(a, w.rng)),
            rng: state_after(w.rng, if is_full(w.dust) { 12 } else { 14 }),
            ..w
        }
    } else {
        w
    }
}

/// A debris cluster after one frame: one frame less to live, turned, every
/// fragment moved.
pub open spec fn cluster_aged(g: DustParticles) -> DustParticles {
    DustParticles {
        dusts: [
            dust_stepped(g.dusts@[0]),
            dust_stepped(g.dusts@[1]),
            dust_stepped(g.dusts@[2]),
            dust_stepped(g.dusts@[3]),
        ],
        angle: Fixed8 { raw: g.angle.raw.wrapping_add(g.angular_velocity.raw) },
        angular_velocity: g.angular_velocity,
        ttl: (g.ttl - 1) as i32,
    }
}

/// A slot of the debris pool after one frame: a cluster whose time to live
/// reaches zero is removed on that very frame.
pub open spec fn dust_slot_stepped(o: Option<DustParticles>) -> Option<DustParticles> {
    match o {
        Some(g) => if g.ttl - 1 == 0 {
            None
        } else {
            Some(cluster_aged(g))
        },
        None => None,
    }
}

/// The world after the clock advances one frame and the score follows it.
#[verifier::opaque]
pub open spec fn clocked(w: World) -> World {
    let frame = w.frame_count.wrapping_add(1);
    World { frame_count: frame, score: frame / FRAMES_PER_POINT, ..w }
}

/// The world after the ship flies one frame and the projectile is launched
/// and moved.
#[verifier::opaque]
pub open spec fn piloted(w: World, input: FrameInput) -> World {
    let ship = ship_stepped(w.ship, input);
    World { ship, bullet: bullet_stepped(bullet_after_fire(w.bullet, ship, input.fire)), ..w }
}

/// The world after every obstacle moves one frame.
#[verifier::opaque]
pub open spec fn asteroids_moved(w: World) -> World {
    World { asteroids: w.asteroids.map_values(|o| asteroid_slot_stepped(o)), ..w }
}

/// The world after every debris cluster ages one frame.
#[verifier::opaque]
pub open spec fn dust_aged(w: World) -> World {
    World { dust: w.dust.map_values(|o| dust_slot_stepped(o)), ..w }
}

/// The world after the clock, the ship, the projectile, the spawn and the
/// obstacles' movement, before collisions.
pub open spec fn world_moved(w: World, input: FrameInput) -> World {
    asteroids_moved(after_spawn(piloted(clocked(w), input)))
}

/// The world after one whole frame.
pub open spec fn tick_spec(w: World, input: FrameInput) -> World {
    dust_aged(after_collision(world_moved(w, input)))
}

/// What one frame reports.
pub open spec fn tick_events(w: World, input: FrameInput) -> FrameEvents {
    let moved = world_moved(w, input);
    FrameEvents {
        score_changed: clocked(w).score != w.score,
        thrusting: input.thrust,
        fired: fires(w.bullet, input.fire),
        exploded: moved.bullet.present && !after_collision(moved).bullet.present,
    }
}

/// The ranges that the simulation keeps its state in.
pub open spec fn world_ok(w: World) -> bool {
    &&& in_field(w.ship.position, LARGE_SIZE as int)
    &&& speed_below(w.ship.velocity, TERMINAL_SPEED as int)
    &&& w.bullet.present ==> in_field(w.bullet.position, LARGE_SIZE as int) && speed_below(
        w.bullet.velocity,
        MAX_SPEED as int,
    )
    &&& w.asteroids.len() == POOL_CAPACITY
    &&& forall|i: int| 0 <= i < POOL_CAPACITY && #[trigger] w.asteroids[i] is Some ==> asteroid_ok(w.asteroids[i]->0)
    &&& w.dust.len() == POOL_CAPACITY
    &&& forall|i: int| 0 <= i < POOL_CAPACITY && #[trigger] w.dust[i] is Some ==> dust_group_ok(w.dust[i]->0)
    &&& w.rng.len() == 4
    &&& w.score == w.frame_count / FRAMES_PER_POINT
}

/// Whether the tiles of a score row show `n`, most significant digit first.
pub open spec fn shows(map: Seq<u16>, n: u32) -> bool {
    let d = digits(n as nat);
    &&& d.len() <= SCORE_TILES
    &&& forall|i: int| 0 <= i < d.len() ==> #[trigger] map[i] == d[d.len() - 1 - i] + 1
}

/// A debris fragment of obstacle `ast`: its position, its velocity plus a
/// random jitter below one unit on each axis, and one of four tiles.
pub fn create_dust_particle(ast: &Asteroid, rng: &mut RandomNumberGenerator) -> (d: Dust)
    requires
        asteroid_ok(*ast),
    ensures
        d == debris_fragment(*ast, old(rng).state@),
        final(rng).state@ == state_after(old(rng).state@, 3),
        dust_ok(d),
{
    let ghost s = rng.state@;
    let one10 = Fixed10::from_int(1);
    let tile = 20 + rng.next() % 4;
    let jx = Fixed10::from_raw(rng.next()).rem(one10);
    let jy = Fixed10::from_raw(rng.next()).rem(one10);
    proof {
        reveal_with_fuel(state_after, 4);
        crate::fixed::lemma_trunc_rem_bound(draw(s, 1) as int, ONE10 as int);
        crate::fixed::lemma_trunc_rem_bound(draw(s, 2) as int, ONE10 as int);
    }
    Dust { position: ast.position, velocity: ast.velocity.add(Vector2D::new(jx, jy)), tile_id: tile as u16 }
}

/// Without a live projectile nothing collides.
proof fn lemma_no_bullet_no_collision(w: World)
    requires
        !w.bullet.present,
    ensures
        after_collision(w) == w,
{
    reveal(after_collision);
}

/// Draws from `s` `a + b` times are `a` draws, then `b` more.
proof fn lemma_state_after_add(s: Seq<u32>, a: nat, b: nat)
    ensures
        state_after(state_after(s, a), b) == state_after(s, a + b),
    decreases b,
{
    if b > 0 {
        lemma_state_after_add(s, a, (b - 1) as nat);
    }
}

/// There is at most one lowest-indexed obstacle that a projectile overlaps.
proof fn lemma_first_hit_unique(b: Bullet, asts: Seq<Option<Asteroid>>, i: int)
    requires
        is_first_hit(b, asts, i),
    ensures
        (choose|k: int| is_first_hit(b, asts, k)) == i,
{
    assert forall|k: int| is_first_hit(b, asts, k) implies k == i by {
        if k < i {
            assert(!hits(b, asts[k]));
        } else if k > i {
            assert(!hits(b, asts[i]));
        }
    }
}

/// Offsets between two entities in range stay small enough for the
/// collision test.
proof fn lemma_collision_in_range(a: Vector2D, b: Vector2D)
    requires
        in_field(a, LARGE_SIZE as int),
        in_field(b, LARGE_SIZE as int),
    ensures
        collision_ok(a, b, HIT_RADIUS * ONE10),
{
    let dx = a.x.raw - b.x.raw;
    let dy = a.y.raw - b.y.raw;
    assert(square10(dx) <= 268435456) by {
        assert(dx * dx <= 274877906944) by (nonlinear_arith)
            requires
                -524288 <= dx <= 524288,
        ;
        vstd::arithmetic::div_mod::lemma_div_is_ordered(dx * dx, 274877906944, 1024);
    }
    assert(square10(dy) <= 268435456) by {
        assert(dy * dy <= 274877906944) by (nonlinear_arith)
            requires
                -524288 <= dy <= 524288,
        ;
        vstd::arithmetic::div_mod::lemma_div_is_ordered(dy * dy, 274877906944, 1024);
    }
    assert(0 <= square10(dx)) by {
        assert(dx * dx >= 0) by (nonlinear_arith);
    }
    assert(0 <= square10(dy)) by {
        assert(dy * dy >= 0) by (nonlinear_arith);
    }
    assert(square10(HIT_RADIUS * ONE10) == 147456);
}

/// A fire input while a projectile is live changes nothing: no second
/// projectile, and the live one keeps its state.
pub proof fn lemma_fire_while_armed_ignored(b: Bullet, s: Ship, fire: bool)
    requires
        b.present,
    ensures
        !fires(b, fire),
        bullet_after_fire(b, s, fire) == b,
{
}

/// A live projectile that hits the obstacle in slot `i` removes it and is
/// spent; when the debris pool has room, exactly one new cluster appears in
/// its first free slot, with the full time to live and four fragments at the
/// obstacle's position; otherwise the debris pool is unchanged.
pub proof fn lemma_hit_makes_one_cluster(w: World, i: int)
    requires
        w.bullet.present,
        is_first_hit(w.bullet, w.asteroids, i),
    ensures
        after_collision(w).asteroids == w.asteroids.update(i, None),
        !after_collision(w).bullet.present,
        is_full(w.dust) ==> after_collision(w).dust == w.dust,
        !is_full(w.dust) ==> exists|k: int|
            {
                &&& is_first_free(w.dust, k)
                &&& after_collision(w).dust == w.dust.update(k, Some(debris_cluster(w.asteroids[i]->0, w.rng)))
            },
        !is_full(w.dust) ==> crate::pool::live_count(after_collision(w).dust) == crate::pool::live_count(w.dust) + 1,
        debris_cluster(w.asteroids[i]->0, w.rng).ttl == DUST_TTL,
        forall|f: int| 0 <= f < 4 ==> (#[trigger] debris_cluster(w.asteroids[i]->0, w.rng).dusts@[f]).position
            == (w.asteroids[i]->0).position,
{
    reveal(after_collision);
    lemma_first_hit_unique(w.bullet, w.asteroids, i);
    let g = debris_cluster(w.asteroids[i]->0, w.rng);
    crate::pool::lemma_allocate_capacity(w.dust, g);
    if !is_full(w.dust) {
        let j = choose|j: int| 0 <= j < w.dust.len() && !(#[trigger] w.dust[j] is Some);
        crate::pool::lemma_first_free_exists(w.dust, j);
    }
}

/// A debris cluster with one frame left to live is gone after the frame in
/// which its time to live reaches zero; any other live cluster stays, one
/// frame older.
pub proof fn lemma_expired_cluster_removed(w: World, i: int)
    requires
        0 <= i < w.dust.len(),
        w.dust[i] is Some,
    ensures
        (w.dust[i]->0).ttl == 1 ==> dust_aged(w).dust[i] is None,
        (w.dust[i]->0).ttl != 1 ==> dust_aged(w).dust[i] == Some(cluster_aged(w.dust[i]->0)),
{
    reveal(dust_aged);
}

/// The simulation: the ship, the projectile, the obstacle and debris pools,
/// the generator, the frame counter and the score row.
pub struct Game {
    pub ship: Ship,
    pub bullet: Bullet,
    pub asteroids: Pool<Asteroid>,
    pub dust_particles: Pool<DustParticles>,
    pub rng: RandomNumberGenerator,
    pub frame_count: u32,
    pub score: u32,
    pub display: ScoreDisplay,
}

impl View for Game {
    type V = World;

    open spec fn view(&self) -> World {
        World {
            ship: self.ship,
            bullet: self.bullet,
            asteroids: self.asteroids.slots@,
            dust: self.dust_particles.slots@,
            rng: self.rng.state@,
            frame_count: self.frame_count,
            score: self.score,
        }
    }
}

impl Game {
    /// Whether the state is in range and the score row shows the score.
    pub open spec fn wf(&self) -> bool {
        world_ok(self@) && shows(self.display.map@, self.score)
    }

    /// A new session: the ship at rest at the centre, no projectile, empty
    /// pools, the generator at its seed, frame zero and a score of zero shown.
    pub fn new() -> (g: Game)
        ensures
            g.wf(),
            g.ship.position.x.raw == (WIDTH / 2) * ONE10,
            g.ship.position.y.raw == (HEIGHT / 2) * ONE10,
            g.ship.velocity.x.raw == 0 && g.ship.velocity.y.raw == 0,
            g.ship.angle.raw == 0,
            !g.bullet.present,
            forall|i: int| 0 <= i < POOL_CAPACITY ==> #[trigger] g@.asteroids[i] is None,
            forall|i: int| 0 <= i < POOL_CAPACITY ==> #[trigger] g@.dust[i] is None,
            g@.rng == SEED@,
            g.frame_count == 0,
            g.score == 0,
    {
        let mut display = ScoreDisplay::new();
        display.set_score(0);
        Game {
            ship: Ship::new(),
            bullet: Bullet::new(),
            asteroids: Pool::new(POOL_CAPACITY),
            dust_particles: Pool::new(POOL_CAPACITY),
            rng: RandomNumberGenerator::seeded(),
            frame_count: 0,
            score: 0,
            display,
        }
    }

    /// On a spawn frame, draws a new obstacle at the centre of the playfield
    /// and puts it in the first free slot, or drops it when the pool is full.
    fn spawn_asteroid(&mut self)
        requires
            world_ok(old(self)@),
        ensures
            final(self)@ == after_spawn(old(self)@),
            world_ok(final(self)@),
            final(self).display == old(self).display,
            final(self).score == old(self).score,
    {
        reveal(after_spawn);
        if self.frame_count % SPAWN_PERIOD == 0 {
            let ghost s = self.rng.state@;
            let one10 = Fixed10::from_int(1);
            let one8 = Fixed8::from_int(1);
            let spin = one8.div_int(50);
            let vx = Fixed10::from_raw(self.rng.next()).rem(one10);
            let vy = Fixed10::from_raw(self.rng.next()).rem(one10);
            let angular_velocity = Fixed8::from_raw(self.rng.next()).rem(spin);
            let angle = Fixed8::from_raw(self.rng.next()).rem(one8);
            let tile_id: u16 = if self.rng.next() % 2 == 0 { 12 } else { 16 };
            proof {
                reveal_with_fuel(state_after, 6);
                crate::fixed::lemma_trunc_rem_bound(draw(s, 0) as int, ONE10 as int);
                crate::fixed::lemma_trunc_rem_bound(draw(s, 1) as int, ONE10 as int);
            }
            let asteroid = Asteroid {
                position: Vector2D::new(Fixed10::from_int(WIDTH / 2), Fixed10::from_int(HEIGHT / 2)),
                velocity: Vector2D::new(vx, vy),
                angle,
                angular_velocity,
                tile_id,
            };
            assert(asteroid == spawned_asteroid(s));
            self.asteroids.allocate(asteroid);
            assert(self.rng.state@ == state_after(s, 5));
        }
    }

    /// Moves and turns every live obstacle by one frame.
    fn move_asteroids(&mut self)
        requires
            world_ok(old(self)@),
        ensures
            final(self)@ == asteroids_moved(old(self)@),
            world_ok(final(self)@),
            final(self).display == old(self).display,
            final(self).score == old(self).score,
    {
        reveal(asteroids_moved);
        let n = self.asteroids.capacity();
        let mut i: usize = 0;
        while i < n
            invariant
                n == POOL_CAPACITY,
                i <= n,
                world_ok(self@),
                self.asteroids.slots@.len() == n,
                forall|j: int| 0 <= j < i ==> #[trigger] self.asteroids.slots@[j] == asteroid_slot_stepped(old(self).asteroids.slots@[j]),
                forall|j: int| i <= j < n ==> #[trigger] self.asteroids.slots@[j] == old(self).asteroids.slots@[j],
                self@ == (World { asteroids: self.asteroids.slots@, ..old(self)@ }),
                self.display == old(self).display,
            decreases n - i,
        {
            match self.asteroids.get(i) {
                Some(a) => {
                    let mut a = a;
                    assert(asteroid_ok(a));
                    a.update();
                    self.asteroids.set(i, a);
                },
                None => {},
            }
            i = i + 1;
        }
        assert(self.asteroids.slots@ =~= old(self).asteroids.slots@.map_values(|o| asteroid_slot_stepped(o)));
    }

    /// Tests the live projectile against every live obstacle in slot order;
    /// the first one hit is destroyed and turned into debris, and the
    /// projectile is spent. Returns whether an obstacle was destroyed.
    fn collide(&mut self) -> (exploded: bool)
        requires
            world_ok(old(self)@),
        ensures
            final(self)@ == after_collision(old(self)@),
            world_ok(final(self)@),
            exploded == (old(self).bullet.present && !final(self).bullet.present),
            final(self).display == old(self).display,
            final(self).score == old(self).score,
    {
        proof {
            if !self.bullet.present {
                lemma_no_bullet_no_collision(self@);
            }
        }
        let n = self.asteroids.capacity();
        let mut exploded = false;
        let mut i: usize = 0;
        while i < n && self.bullet.present
            invariant
                n == POOL_CAPACITY,
                i <= n,
                world_ok(old(self)@),
                self.display == old(self).display,
                self.score == old(self).score,
                self.bullet.present ==> self@ == old(self)@ && !exploded && forall|j: int|
                    0 <= j < i ==> !hits(old(self).bullet, #[trigger] old(self)@.asteroids[j]),
                !self.bullet.present ==> self@ == after_collision(old(self)@) && world_ok(self@)
                    && exploded == old(self).bullet.present,
            decreases n - i,
        {
            match self.asteroids.get(i) {
                Some(a) => {
                    proof {
                        lemma_collision_in_range(self.bullet.position, a.position);
                    }
                    if circle_collision(self.bullet.position, a.position, Fixed10::from_int(HIT_RADIUS)) {
                        proof {
                            lemma_first_hit_unique(self.bullet, self@.asteroids, i as int);
                        }
                        self.explode(i, a);
                        exploded = true;
                    }
                },
                None => {},
            }
            i = i + 1;
        }
        proof {
            if self.bullet.present {
                reveal(after_collision);
                assert forall|k: int| !is_first_hit(old(self).bullet, old(self)@.asteroids, k) by {
                    if is_first_hit(old(self).bullet, old(self)@.asteroids, k) {
                        assert(!hits(old(self).bullet, old(self)@.asteroids[k]));
                    }
                }
            }
        }
        exploded
    }

    /// Destroys the obstacle `a` in slot `i`, spends the projectile and puts
    /// a debris cluster of `a` in the first free debris slot, if there is one.
    fn explode(&mut self, i: usize, a: Asteroid)
        requires
            world_ok(old(self)@),
            old(self).bullet.present,
            is_first_hit(old(self).bullet, old(self)@.asteroids, i as int),
            old(self)@.asteroids[i as int] == Some(a),
        ensures
            final(self)@ == after_collision(old(self)@),
            world_ok(final(self)@),
            final(self).display == old(self).display,
            final(self).score == old(self).score,
            !final(self).bullet.present,
    {
        reveal(after_collision);
        let ghost s = self.rng.state@;
        proof {
            lemma_first_hit_unique(self.bullet, self@.asteroids, i as int);
        }
        let d0 = create_dust_particle(&a, &mut self.rng);
        let d1 = create_dust_particle(&a, &mut self.rng);
        let d2 = create_dust_particle(&a, &mut self.rng);
        let d3 = create_dust_particle(&a, &mut self.rng);
        proof {
            lemma_state_after_add(s, 3, 3);
            lemma_state_after_add(s, 6, 3);
            lemma_state_after_add(s, 9, 3);
        }
        if self.dust_particles.has_free() {
            let one8 = Fixed8::from_int(1);
            let spin = one8.div_int(50);
            let angular_velocity = Fixed8::from_raw(self.rng.next()).rem(spin);
            let angle = Fixed8::from_raw(self.rng.next()).rem(one8);
            proof {
                reveal_with_fuel(state_after, 3);
                lemma_state_after_add(s, 12, 1);
                lemma_state_after_add(s, 12, 2);
                lemma_state_after_add(s, 13, 1);
            }
            let group = DustParticles { dusts: [d0, d1, d2, d3], angle, angular_velocity, ttl: DUST_TTL };
            assert(group.dusts =~= debris_cluster(a, s).dusts);
            assert(group == debris_cluster(a, s));
            self.dust_particles.allocate(group);
        }
        self.asteroids.free(i);
        self.bullet.present = false;
    }

    /// Ages every live debris cluster by one frame and removes each one whose
    /// time to live reaches zero.
    fn age_dust(&mut self)
        requires
            world_ok(old(self)@),
        ensures
            final(self)@ == dust_aged(old(self)@),
            world_ok(final(self)@),
            final(self).display == old(self).display,
            final(self).score == old(self).score,
            final(self).bullet == old(self).bullet,
    {
        reveal(dust_aged);
        let n = self.dust_particles.capacity();
        let mut i: usize = 0;
        while i < n
            invariant
                n == POOL_CAPACITY,
                i <= n,
                world_ok(self@),
                self.dust_particles.slots@.len() == n,
                forall|j: int| 0 <= j < i ==> #[trigger] self.dust_particles.slots@[j] == dust_slot_stepped(old(self).dust_particles.slots@[j]),
                forall|j: int| i <= j < n ==> #[trigger] self.dust_particles.slots@[j] == old(self).dust_particles.slots@[j],
                self@ == (World { dust: self.dust_particles.slots@, ..old(self)@ }),
                self.display == old(self).display,
            decreases n - i,
        {
            match self.dust_particles.get(i) {
                Some(g) => {
                    let mut g = g;
                    assert(dust_group_ok(g));
                    g.update();
                    assert(g.dusts =~= cluster_aged(old(self).dust_particles.slots@[i as int]->0).dusts);
                    if g.ttl == 0 {
                        self.dust_particles.free(i);
                    } else {
                        self.dust_particles.set(i, g);
                    }
                },
                None => {},
            }
            i = i + 1;
        }
        assert(self.dust_particles.slots@ =~= old(self).dust_particles.slots@.map_values(|o| dust_slot_stepped(o)));
    }

    /// Runs one frame: the clock and the score, the ship, the projectile, a
    /// due spawn, the obstacles, the collision test and the debris, in that
    /// order.
    pub fn tick(&mut self, input: FrameInput) -> (events: FrameEvents)
        requires
            old(self).wf(),
        ensures
            final(self).wf(),
            final(self)@ == tick_spec(old(self)@, input),
            events == tick_events(old(self)@, input),
            final(self).score == final(self).frame_count / FRAMES_PER_POINT,
            events.score_changed == (final(self).score != old(self).score),
            events.score_changed ==> shows(final(self).display.map@, final(self).score),
            !events.score_changed ==> final(self).display == old(self).display,
    {
        let score_changed = self.advance_clock();
        let fired = self.pilot(input);
        self.spawn_asteroid();
        self.move_asteroids();
        let exploded = self.collide();
        self.age_dust();
        FrameEvents { score_changed, thrusting: input.thrust, fired, exploded }
    }

    /// Counts one more frame; redraws the score row only when the score changes.
    fn advance_clock(&mut self) -> (changed: bool)
        requires
            old(self).wf(),
        ensures
            final(self)@ == clocked(old(self)@),
            shows(final(self).display.map@, final(self).score),
            changed == (final(self).score != old(self).score),
            !changed ==> final(self).display == old(self).display,
            final(self).bullet == old(self).bullet,
            world_ok(final(self)@),
    {
        reveal(clocked);
        self.frame_count = self.frame_count.wrapping_add(1);
        let score = self.frame_count / FRAMES_PER_POINT;
        let changed = score != self.score;
        if changed {
            self.score = score;
            self.display.set_score(score);
        }
        changed
    }

    /// Steers and flies the ship, launches a projectile on a fire input when
    /// none is live, and moves a live projectile. Returns whether it launched.
    fn pilot(&mut self, input: FrameInput) -> (fired: bool)
        requires
            world_ok(old(self)@),
        ensures
            final(self)@ == piloted(old(self)@, input),
            fired == fires(old(self).bullet, input.fire),
            final(self).display == old(self).display,
            final(self).score == old(self).score,
            world_ok(final(self)@),
    {
        reveal(piloted);
        let x: i32 = match input.x {
            Tri::Negative => -1,
            Tri::Zero => 0,
            Tri::Positive => 1,
        };
        let turn = Fixed8::from_int(1).mul_int(x).div_int(100);
        self.ship.update_angle(turn.neg());
        let c = self.ship.angle.cos();
        let s = self.ship.angle.sin();
        let acceleration = Fixed10::from_int(if input.thrust { 1 } else { 0 });
        proof {
            crate::ship::lemma_flight_in_range(self.ship, acceleration.raw as int);
        }
        self.ship.accelerate(acceleration);
        proof {
            crate::vector::lemma_wrap_idempotent(self.ship.position.x.raw as int, LARGE_SIZE as int, WIDTH * ONE10);
            crate::vector::lemma_wrap_idempotent(self.ship.position.y.raw as int, LARGE_SIZE as int, HEIGHT * ONE10);
        }
        self.ship.position.wrap_to_bounds(LARGE_SIZE, crate::entities::playfield());
        assert(self.ship == ship_stepped(old(self).ship, input));

        let fired = input.fire && !self.bullet.present;
        if fired {
            let mut velocity = self.ship.velocity;
            velocity.x = velocity.x.add(c.change_base().mul_int(LAUNCH_SPEED));
            velocity.y = velocity.y.add(s.change_base().neg().mul_int(LAUNCH_SPEED));
            self.bullet = Bullet { position: self.ship.position, velocity, present: true };
        }
        if self.bullet.present {
            drift_in_place(&mut self.bullet.position, self.bullet.velocity, SMALL_SIZE);
        }
        fired
    }
}

} // verus!
