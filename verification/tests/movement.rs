use shmup_core::entity::{
    generated_velocity, Entity, EntityType, GeneratedKind, Input, Lifetime, Movement,
};
use shmup_core::geom::Rect;
use shmup_core::trig::{cos1k, sin1k};
use shmup_core::{ENEMY_BULLET_COOLDOWN, MICRO, PLAYER_BULLET_COOLDOWN};

fn no_input() -> Input {
    Input { left: false, right: false, up: false, down: false, shoot: false }
}

#[test]
fn static_movement_never_moves() {
    let mut e = Entity {
        entity_type: EntityType::Splat,
        movement: Movement::Static,
        x: 123_456_789,
        y: -987_654,
        ..Default::default()
    };
    for delta in [0u64, 1, 16, 17, 1000, 86_400_000] {
        e.update(delta, &no_input(), 1000, 800, 0);
    }
    assert_eq!(e.x, 123_456_789);
    assert_eq!(e.y, -987_654);
}

#[test]
fn linear_displacement_is_frame_size_independent() {
    // 100 px/s right and 50 px/s down, run over one second twice, divided
    // into frames differently; both runs land on exactly velocity * time.
    let start = Entity {
        entity_type: EntityType::EnemyBullet,
        movement: Movement::Linear(100_000, 50_000),
        lifetime: Lifetime::Forever,
        x: 0,
        y: 0,
        ..Default::default()
    };

    let mut a = start;
    for delta in [16u64, 17, 100, 867] {
        a.update(delta, &no_input(), 1000, 800, 0);
    }

    let mut b = start;
    for delta in [250u64, 250, 250, 250] {
        b.update(delta, &no_input(), 1000, 800, 0);
    }

    let expect_x = 100_000i64 * 1000;
    let expect_y = 50_000i64 * 1000;
    assert_eq!(a.x, expect_x);
    assert_eq!(a.y, expect_y);
    assert_eq!(b.x, expect_x);
    assert_eq!(b.y, expect_y);
}

#[test]
fn cooldown_counts_down_clamps_at_zero_and_stays() {
    // A spinning projectile never fires, so its cooldown is only ever
    // counted down: it reaches exactly zero and stays there.
    let mut e = Entity {
        entity_type: EntityType::PlayerBullet,
        bullet_cooldown: 300,
        ..Default::default()
    };
    e.update(200, &no_input(), 1000, 800, 0);
    assert_eq!(e.bullet_cooldown, 100);
    e.update(200, &no_input(), 1000, 800, 0);
    assert_eq!(e.bullet_cooldown, 0);
    e.update(500, &no_input(), 1000, 800, 0);
    assert_eq!(e.bullet_cooldown, 0);
    assert!(e.bullet_cooldown >= 0);
}

#[test]
fn enemy_fires_when_cooldown_runs_out_and_resets() {
    let mut e = Entity {
        entity_type: EntityType::Enemy,
        bounds: Rect { x: 0, y: 0, w: 44 * MICRO, h: 60 * MICRO },
        bullet_cooldown: 100,
        movement: Movement::Static,
        ..Default::default()
    };
    let spawned = e.update(100, &no_input(), 1000, 800, 0);
    assert_eq!(spawned.len(), 1);
    assert_eq!(e.bullet_cooldown, ENEMY_BULLET_COOLDOWN);
    // The single shot goes straight down the playfield.
    assert_eq!(spawned[0].entity_type, EntityType::EnemyBullet);
    assert_eq!(spawned[0].movement, Movement::Linear(0, 400_000));
    assert_eq!(spawned[0].lifetime, Lifetime::Milliseconds(8000));
}

#[test]
fn enemy_variant_fires_three_way_spread() {
    let mut e = Entity {
        entity_type: EntityType::EnemyBlueScreen,
        bounds: Rect { x: 0, y: 0, w: 44 * MICRO, h: 60 * MICRO },
        bullet_cooldown: 0,
        movement: Movement::Static,
        ..Default::default()
    };
    let spawned = e.update(5, &no_input(), 1000, 800, 0);
    assert_eq!(spawned.len(), 3);
    for b in &spawned {
        assert_eq!(b.entity_type, EntityType::EnemyBullet);
    }
    // The middle shot goes straight down; the outer two also drift down
    // but to either side.
    assert_eq!(spawned[1].movement, Movement::Linear(0, 400_000));
    match (spawned[0].movement, spawned[2].movement) {
        (Movement::Linear(lx, ly), Movement::Linear(rx, ry)) => {
            assert!(lx < 0 && ly > 0);
            assert!(rx > 0 && ry > 0);
        }
        _ => panic!("spread shots must be linear"),
    }
}

#[test]
fn boss_fires_four_bullet_ring() {
    let mut e = Entity {
        entity_type: EntityType::Boss,
        bounds: Rect { x: 30 * MICRO, y: 20 * MICRO, w: 140 * MICRO, h: 130 * MICRO },
        bullet_cooldown: 0,
        movement: Movement::Static,
        ..Default::default()
    };
    let spawned = e.update(5, &no_input(), 1000, 800, 0);
    assert_eq!(spawned.len(), 4);
    for b in &spawned {
        assert_eq!(b.entity_type, EntityType::EnemyBullet);
    }
    assert_eq!(e.bullet_cooldown, shmup_core::BOSS_BULLET_COOLDOWN);
}

#[test]
fn player_input_moves_and_clamps_to_playfield() {
    let mut e = Entity {
        entity_type: EntityType::Player,
        bounds: Rect { x: 0, y: 0, w: 10 * MICRO, h: 10 * MICRO },
        vel: 400_000,
        x: 0,
        y: 0,
        ..Default::default()
    };
    // Moving left from the left edge stays clamped at the edge.
    let left = Input { left: true, right: false, up: false, down: false, shoot: false };
    e.update(1000, &left, 1000, 800, 0);
    assert_eq!(e.x, 0);
    // Moving right for one second covers 400 px.
    let right = Input { left: false, right: true, up: false, down: false, shoot: false };
    e.update(1000, &right, 1000, 800, 0);
    assert_eq!(e.x, 400 * MICRO);
    // Opposing flags cancel.
    let both = Input { left: true, right: true, up: false, down: false, shoot: false };
    e.update(1000, &both, 1000, 800, 0);
    assert_eq!(e.x, 400 * MICRO);
}

#[test]
fn diagonal_speed_is_scaled() {
    let mut e = Entity {
        entity_type: EntityType::Player,
        bounds: Rect { x: 0, y: 0, w: 10 * MICRO, h: 10 * MICRO },
        vel: 400_000,
        x: 100 * MICRO,
        y: 700 * MICRO,
        ..Default::default()
    };
    let up_right = Input { left: false, right: true, up: true, down: false, shoot: false };
    e.update(1000, &up_right, 1000, 800, 0);
    // One second of diagonal motion covers vel * 707 / 1000 on each axis.
    assert_eq!(e.x, 100 * MICRO + 282_800_000);
    assert_eq!(e.y, 700 * MICRO - 282_800_000);
}

#[test]
fn triangle_sine_hits_quarter_turn_values() {
    assert_eq!(sin1k(0), 0);
    assert_eq!(sin1k(1571), 1000);
    assert_eq!(sin1k(3142), 0);
    assert_eq!(sin1k(4713), -1000);
    assert_eq!(sin1k(6284), 0);
    assert_eq!(cos1k(0), 1000);
    assert_eq!(cos1k(4713), 0);
    // Periodic and bounded.
    assert_eq!(sin1k(1571 + 6284), 1000);
    for a in [-10_000i64, -1, 17, 500_000] {
        let v = sin1k(a);
        assert!(-1000 <= v && v <= 1000);
    }
}

#[test]
fn boss_sweep_velocity_is_deterministic() {
    // The boss pattern takes no jitter: its velocity is a function of age
    // and seed alone, drifting down at a constant 20 px/s.
    let (vx, vy) = generated_velocity(GeneratedKind::BossSweep, 0, 0, 0);
    assert_eq!(vx, 0);
    assert_eq!(vy, 20_000);
    let (vx2, vy2) = generated_velocity(GeneratedKind::BossSweep, 1571, 0, 0);
    assert_eq!(vx2, 60_000);
    assert_eq!(vy2, 20_000);
}

#[test]
fn lifetime_counts_down_and_may_go_negative_before_cull() {
    let mut e = Entity {
        entity_type: EntityType::Splat,
        lifetime: Lifetime::Milliseconds(500),
        ..Default::default()
    };
    e.update(300, &no_input(), 1000, 800, 0);
    assert_eq!(e.lifetime, Lifetime::Milliseconds(200));
    e.update(300, &no_input(), 1000, 800, 0);
    assert_eq!(e.lifetime, Lifetime::Milliseconds(-100));
}

#[test]
fn translate_moves_by_the_given_displacement() {
    let mut e = Entity { x: 10, y: 10, ..Default::default() };
    e.translate(5, -3);
    assert_eq!(e.x, 15);
    assert_eq!(e.y, 7);
}

#[test]
fn default_entity_is_the_null_tag() {
    let e = Entity::default();
    assert_eq!(e.entity_type, EntityType::Empty);
    assert_eq!(e.hp, 1);
    assert_eq!(e.damage, 1);
    assert_eq!(e.lifetime, Lifetime::Forever);
    assert_eq!(e.movement, Movement::Static);
    assert_eq!(e.bullet_cooldown, 0);
    assert_eq!((e.x, e.y), (0, 0));
}

#[test]
fn player_cooldown_constant_matches_reset() {
    assert_eq!(PLAYER_BULLET_COOLDOWN, 200);
}

#[test]
fn enemy_drift_with_zero_jitter_is_deterministic() {
    // Procedural drift is a function of age, seed and the jitter draw; at
    // age zero with seed zero and no jitter the enemy pattern moves
    // straight down at 60 px/s.
    let (vx, vy) = generated_velocity(GeneratedKind::EnemySine, 0, 0, 0);
    assert_eq!(vx, 0);
    assert_eq!(vy, 60_000);
}
