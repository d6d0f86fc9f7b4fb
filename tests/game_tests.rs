use asteroids_core::entities::{Asteroid, Bullet, Dust, DustParticles, DUST_TTL};
use asteroids_core::fixed::{Fixed10, Fixed8};
use asteroids_core::game::{FrameInput, Game, Tri, POOL_CAPACITY};
use asteroids_core::ship::Ship;
use asteroids_core::vector::Vector2D;

fn v(x: i32, y: i32) -> Vector2D {
    Vector2D::new(Fixed10::from_raw(x), Fixed10::from_raw(y))
}

fn idle() -> FrameInput {
    FrameInput { x: Tri::Zero, thrust: false, fire: false }
}

const CENTRE_X: i32 = 120 * 1024;
const CENTRE_Y: i32 = 80 * 1024;

#[test]
fn ship_starts_at_centre_at_rest() {
    let s = Ship::new();
    assert_eq!(s.position, v(CENTRE_X, CENTRE_Y));
    assert_eq!(s.velocity, v(0, 0));
    assert_eq!(s.angle.raw, 0);
    let sprite = s.commit();
    assert_eq!((sprite.x, sprite.y), (112, 72));
    assert_eq!((sprite.matrix.p_a, sprite.matrix.p_b, sprite.matrix.p_c, sprite.matrix.p_d), (256, 0, 0, 256));
}

#[test]
fn ship_update_angle_and_accelerate() {
    let mut s = Ship::new();
    s.update_angle(Fixed8::from_raw(-2));
    assert_eq!(s.angle.raw, -2);
    s.update_angle(Fixed8::from_raw(2));
    s.accelerate(Fixed10::from_int(1));
    // impulse 1024 / 40 = 25, then drag 25 * 120 / 121 = 24
    assert_eq!(s.velocity, v(24, 0));
    assert_eq!(s.position, v(CENTRE_X + 24, CENTRE_Y));
    s.accelerate(Fixed10::from_int(0));
    assert_eq!(s.velocity, v(23, 0));
}

#[test]
fn ship_sprite_off_the_left_edge() {
    let mut s = Ship::new();
    s.position = v(-3 * 1024, 0);
    let sprite = s.commit();
    assert_eq!(sprite.x, (-11i32) as u16);
}

#[test]
fn thrust_approaches_terminal_speed() {
    let mut g = Game::new();
    let thrust = FrameInput { x: Tri::Zero, thrust: true, fire: false };
    let mut last_v = 0;
    let mut last_x = g.ship.position.x.raw;
    for _ in 0..2000 {
        let ev = g.tick(thrust);
        assert!(ev.thrusting);
        let vx = g.ship.velocity.x.raw;
        assert!(vx >= last_v && vx > 0 && vx < 3000);
        assert_eq!(g.ship.velocity.y.raw, 0);
        assert_eq!(g.ship.position.y.raw, CENTRE_Y);
        let x = g.ship.position.x.raw;
        let period = (240 + 16) * 1024;
        assert_eq!((x - last_x).rem_euclid(period), vx);
        last_v = vx;
        last_x = x;
    }
    assert_eq!(last_v, 2880);
}

#[test]
fn steering_turns_two_steps_per_frame() {
    let mut g = Game::new();
    g.tick(FrameInput { x: Tri::Positive, thrust: false, fire: false });
    assert_eq!(g.ship.angle.raw, -2);
    g.tick(FrameInput { x: Tri::Negative, thrust: false, fire: false });
    g.tick(FrameInput { x: Tri::Negative, thrust: false, fire: false });
    assert_eq!(g.ship.angle.raw, 2);
}

#[test]
fn fire_launches_from_ship_then_ignores_second_fire() {
    let mut g = Game::new();
    let fire = FrameInput { x: Tri::Zero, thrust: false, fire: true };
    let ev = g.tick(fire);
    assert!(ev.fired);
    assert!(g.bullet.present);
    // launched from the centre with 2 units along heading zero, then moved once
    assert_eq!(g.bullet.velocity, v(2048, 0));
    assert_eq!(g.bullet.position, v(CENTRE_X + 2048, CENTRE_Y));
    let ev = g.tick(fire);
    assert!(!ev.fired);
    assert!(g.bullet.present);
    assert_eq!(g.bullet.velocity, v(2048, 0));
    assert_eq!(g.bullet.position, v(CENTRE_X + 4096, CENTRE_Y));
    assert_eq!(g.bullet.sprite_position(), (120 + 4 - 4, 80 - 4));
}

#[test]
fn projectile_not_live_does_not_move() {
    let mut g = Game::new();
    g.bullet.velocity = v(500, 500);
    g.tick(idle());
    assert!(!g.bullet.present);
    assert_eq!(g.bullet.position, v(0, 0));
    assert_eq!(g.bullet.velocity, v(500, 500));
}

#[test]
fn obstacle_spawns_every_256_frames() {
    let mut g = Game::new();
    for _ in 0..255 {
        g.tick(idle());
    }
    assert!(g.asteroids.slots.iter().all(|s| s.is_none()));
    g.tick(idle());
    let a = g.asteroids.get(0).expect("spawned");
    assert_eq!(a.velocity, v(-309, 204));
    assert_eq!(a.angular_velocity.raw, -4);
    assert_eq!(a.tile_id, 16);
    // spawned at the centre, then moved and turned once in the same frame
    assert_eq!(a.position, v(CENTRE_X - 309, CENTRE_Y + 204));
    assert_eq!(a.angle.raw, 200);
    assert_eq!(g.rng.state, [4179909457, 3613595440, 2230575017, 1475700568]);
    assert!(g.asteroids.slots[1..].iter().all(|s| s.is_none()));
}

#[test]
fn spawn_into_full_pool_is_dropped() {
    let mut g = Game::new();
    let rock = Asteroid {
        position: v(10 * 1024, 10 * 1024),
        velocity: v(0, 0),
        angle: Fixed8::from_raw(0),
        angular_velocity: Fixed8::from_raw(0),
        tile_id: 12,
    };
    for i in 0..POOL_CAPACITY {
        g.asteroids.set(i, rock);
    }
    g.frame_count = 255;
    g.score = 255 / 60;
    g.tick(idle());
    for i in 0..POOL_CAPACITY {
        assert_eq!(g.asteroids.get(i), Some(rock));
    }
    // the draws are made even though the obstacle is dropped
    assert_eq!(g.rng.state, [4179909457, 3613595440, 2230575017, 1475700568]);
}

#[test]
fn hit_destroys_obstacle_and_makes_one_cluster() {
    let mut g = Game::new();
    let rock = Asteroid {
        position: v(CENTRE_X, CENTRE_Y),
        velocity: v(0, 0),
        angle: Fixed8::from_raw(0),
        angular_velocity: Fixed8::from_raw(0),
        tile_id: 12,
    };
    g.asteroids.set(0, rock);
    g.bullet = Bullet { position: v(CENTRE_X, CENTRE_Y), velocity: v(0, 0), present: true };
    let ev = g.tick(idle());
    assert!(ev.exploded);
    assert!(!g.bullet.present);
    assert_eq!(g.asteroids.get(0), None);
    let live: Vec<DustParticles> = g.dust_particles.slots.iter().flatten().copied().collect();
    assert_eq!(live.len(), 1);
    let cluster = g.dust_particles.get(0).expect("cluster");
    // created with the full time to live, then aged once in the same frame
    assert_eq!(cluster.ttl, DUST_TTL - 1);
    assert_eq!(cluster.angular_velocity.raw, 1);
    assert_eq!(cluster.angle.raw, 91);
    let expected = [(19, 204, -111), (20, -627, -536), (22, -121, -605), (20, -691, 641)];
    for (d, (tile, vx, vy)) in cluster.dusts.iter().zip(expected) {
        assert_eq!(d.tile_id, tile);
        assert_eq!(d.velocity, v(vx, vy));
        assert_eq!(d.position, v(CENTRE_X + vx, CENTRE_Y + vy));
    }
    assert_eq!(g.rng.state, [1519438921, 2309195864, 47301175, 2386413509]);
}

#[test]
fn first_obstacle_in_slot_order_wins() {
    let mut g = Game::new();
    let rock = |x: i32| Asteroid {
        position: v(x, CENTRE_Y),
        velocity: v(0, 0),
        angle: Fixed8::from_raw(0),
        angular_velocity: Fixed8::from_raw(0),
        tile_id: 12,
    };
    g.asteroids.set(2, rock(CENTRE_X + 1024));
    g.asteroids.set(5, rock(CENTRE_X - 1024));
    g.asteroids.set(6, rock(10 * 1024));
    g.bullet = Bullet { position: v(CENTRE_X, CENTRE_Y), velocity: v(0, 0), present: true };
    g.tick(idle());
    assert_eq!(g.asteroids.get(2), None);
    assert!(g.asteroids.get(5).is_some());
    assert!(g.asteroids.get(6).is_some());
    assert_eq!(g.dust_particles.slots.iter().flatten().count(), 1);
}

#[test]
fn projectile_misses_at_exact_distance() {
    let mut g = Game::new();
    g.asteroids.set(
        0,
        Asteroid {
            position: v(CENTRE_X + 12 * 1024, CENTRE_Y),
            velocity: v(0, 0),
            angle: Fixed8::from_raw(0),
            angular_velocity: Fixed8::from_raw(0),
            tile_id: 12,
        },
    );
    g.bullet = Bullet { position: v(CENTRE_X, CENTRE_Y), velocity: v(0, 0), present: true };
    let ev = g.tick(idle());
    assert!(!ev.exploded);
    assert!(g.bullet.present);
}

fn cluster(ttl: i32) -> DustParticles {
    let d = Dust { position: v(50 * 1024, 50 * 1024), velocity: v(100, -100), tile_id: 20 };
    DustParticles {
        dusts: [d; 4],
        angle: Fixed8::from_raw(10),
        angular_velocity: Fixed8::from_raw(3),
        ttl,
    }
}

#[test]
fn cluster_removed_on_the_frame_ttl_reaches_zero() {
    let mut g = Game::new();
    g.dust_particles.set(3, cluster(1));
    g.dust_particles.set(4, cluster(2));
    g.tick(idle());
    assert!(g.dust_particles.get(3).is_none());
    let older = g.dust_particles.get(4).expect("still live");
    assert_eq!(older.ttl, 1);
    assert_eq!(older.angle.raw, 13);
    assert_eq!(older.dusts[0].position, v(50 * 1024 + 100, 50 * 1024 - 100));
    g.tick(idle());
    assert!(g.dust_particles.slots.iter().all(|s| s.is_none()));
}

#[test]
fn cluster_matrix_shrinks_with_age() {
    let mut c = cluster(120);
    c.angle = Fixed8::from_raw(0);
    c.ttl = 119;
    let m = c.matrix();
    assert_eq!((m.p_a, m.p_b, m.p_c, m.p_d), (256, 0, 0, 256));
    c.ttl = 0;
    let m = c.matrix();
    assert_eq!((m.p_a, m.p_d), (256 * 120, 256 * 120));
    c.ttl = 59;
    assert_eq!(c.matrix().p_a, 512);
}

#[test]
fn score_redrawn_only_when_it_changes() {
    let mut g = Game::new();
    assert_eq!(g.display.map[0], 1);
    for frame in 1..=200u32 {
        let ev = g.tick(idle());
        assert_eq!(g.frame_count, frame);
        assert_eq!(g.score, frame / 60);
        assert_eq!(ev.score_changed, frame % 60 == 0);
    }
    assert_eq!(g.display.map[0], 4);
}

#[test]
fn score_row_shows_large_scores() {
    let mut g = Game::new();
    g.frame_count = 60 * 1234 - 1;
    g.score = 1233;
    let ev = g.tick(idle());
    assert!(ev.score_changed);
    assert_eq!(&g.display.map[..4], &[2, 3, 4, 5]);
}
