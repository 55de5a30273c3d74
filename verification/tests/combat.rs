use shmup_core::collision::handle_collisions;
use shmup_core::entity::{Entity, EntityType, Lifetime};
use shmup_core::frame::cull_entities;
use shmup_core::geom::Rect;
use shmup_core::state::MainState;
use shmup_core::MICRO;

fn unit_box() -> Rect {
    Rect { x: 0, y: 0, w: 10 * MICRO, h: 10 * MICRO }
}

fn actor(kind: EntityType, x: i64, hp: i64, damage: i64) -> Entity {
    Entity {
        entity_type: kind,
        bounds: unit_box(),
        hp,
        damage,
        x,
        y: 0,
        lifetime: Lifetime::Forever,
        ..Default::default()
    }
}

fn state_with(entities: Vec<Entity>) -> MainState {
    let mut s = MainState::new(1000, 800);
    s.game_mode = shmup_core::state::GameMode::Game;
    s.entities = entities;
    s
}

#[test]
fn player_hit_by_enemy_without_shield() {
    // Player at 5 hit points, shield inactive, touching an enemy of
    // damage 1: the player drops to 4 and the enemy is set to expire.
    let player = actor(EntityType::Player, 0, 5, 0);
    let enemy = actor(EntityType::Enemy, 2 * MICRO, 1, 1);
    let mut s = state_with(vec![player, enemy]);
    handle_collisions(&mut s);
    assert_eq!(s.entities[0].hp, 4);
    assert_eq!(s.entities[1].lifetime, Lifetime::Milliseconds(0));
    assert!(!s.shield_active);
}

#[test]
fn shield_absorbs_an_enemy_projectile() {
    // Player with shield active hit by an enemy projectile of damage 1:
    // hit points stay at 5, the shield is consumed, the projectile dies.
    let player = actor(EntityType::Player, 0, 5, 0);
    let bullet = actor(EntityType::EnemyBullet, MICRO, 1, 1);
    let mut s = state_with(vec![player, bullet]);
    s.shield_active = true;
    handle_collisions(&mut s);
    assert_eq!(s.entities[0].hp, 5);
    assert!(!s.shield_active);
    assert_eq!(s.entities[1].lifetime, Lifetime::Milliseconds(0));
}

#[test]
fn boss_is_not_destroyed_by_contact() {
    let player = actor(EntityType::Player, 0, 5, 0);
    let boss = actor(EntityType::Boss, MICRO, 40, 1);
    let mut s = state_with(vec![player, boss]);
    handle_collisions(&mut s);
    assert_eq!(s.entities[0].hp, 4);
    assert_eq!(s.entities[1].lifetime, Lifetime::Forever);
    assert_eq!(s.entities[1].hp, 40);
}

#[test]
fn spent_projectile_does_not_damage_twice() {
    // One player projectile overlaps two enemies. Resolving the first
    // pair destroys the projectile; the already-destroyed threat produces
    // no further effect, so the second enemy is untouched.
    let enemy1 = actor(EntityType::Enemy, 0, 5, 1);
    let enemy2 = actor(EntityType::Enemy, MICRO, 5, 1);
    let bullet = actor(EntityType::PlayerBullet, 0, 1, 1);
    let mut s = state_with(vec![enemy1, enemy2, bullet]);
    handle_collisions(&mut s);
    assert_eq!(s.entities[0].hp, 4);
    assert_eq!(s.entities[1].hp, 5);
    assert_eq!(s.entities[2].lifetime, Lifetime::Milliseconds(0));
}

#[test]
fn expired_projectile_produces_no_effect() {
    let enemy = actor(EntityType::Enemy, 0, 5, 1);
    let mut bullet = actor(EntityType::PlayerBullet, 0, 1, 1);
    bullet.lifetime = Lifetime::Milliseconds(0);
    let mut s = state_with(vec![enemy, bullet]);
    handle_collisions(&mut s);
    assert_eq!(s.entities[0].hp, 5);
}

#[test]
fn projectile_kills_enemy_one_effect_one_score() {
    // A player projectile of damage 1 hits an enemy of 1 hit point: the
    // enemy's hit points reach zero, the end-of-frame cull marks it dying,
    // spawns exactly one death effect and awards its points exactly once.
    let player = actor(EntityType::Player, 500 * MICRO, 5, 0);
    let enemy = actor(EntityType::Enemy, 0, 1, 1);
    let bullet = actor(EntityType::PlayerBullet, MICRO, 1, 1);
    let mut s = state_with(vec![player, enemy, bullet]);
    handle_collisions(&mut s);
    assert_eq!(s.entities[1].hp, 0);
    assert_eq!(s.entities[2].lifetime, Lifetime::Milliseconds(0));
    cull_entities(&mut s);
    assert_eq!(s.score, 10);
    assert_eq!(s.entities.len(), 2);
    assert_eq!(s.entities[0].entity_type, EntityType::Player);
    assert_eq!(s.entities[1].entity_type, EntityType::Splat);
    let splats = s
        .entities
        .iter()
        .filter(|e| e.entity_type == EntityType::Splat)
        .count();
    assert_eq!(splats, 1);
}

#[test]
fn power_bomb_clears_hostiles_but_not_the_boss() {
    let player = actor(EntityType::Player, 0, 5, 0);
    let bomb = actor(EntityType::Powerbomb, MICRO, 1, 1);
    let enemy = actor(EntityType::Enemy, 300 * MICRO, 1, 1);
    let variant = actor(EntityType::EnemyBlueScreen, 400 * MICRO, 4, 1);
    let bullet = actor(EntityType::EnemyBullet, 500 * MICRO, 1, 1);
    let boss = actor(EntityType::Boss, 600 * MICRO, 40, 1);
    let mut s = state_with(vec![player, bomb, enemy, variant, bullet, boss]);
    handle_collisions(&mut s);
    assert_eq!(s.entities[1].lifetime, Lifetime::Milliseconds(0));
    assert_eq!(s.entities[2].hp, 0);
    assert_eq!(s.entities[2].lifetime, Lifetime::Milliseconds(0));
    assert_eq!(s.entities[3].hp, 0);
    assert_eq!(s.entities[4].hp, 0);
    assert_eq!(s.entities[5].hp, 40);
    assert_eq!(s.entities[5].lifetime, Lifetime::Forever);
}

#[test]
fn gun_upgrade_increments_and_caps() {
    let player = actor(EntityType::Player, 0, 5, 0);
    let upgrade = actor(EntityType::GunUpgrade, MICRO, 1, 1);
    let mut s = state_with(vec![player, upgrade]);
    s.gun_level = 3;
    handle_collisions(&mut s);
    assert_eq!(s.gun_level, 4);
    assert_eq!(s.entities[1].lifetime, Lifetime::Milliseconds(0));

    let upgrade2 = actor(EntityType::GunUpgrade, MICRO, 1, 1);
    let mut s2 = state_with(vec![player, upgrade2]);
    s2.gun_level = shmup_core::MAX_UPGRADE_LEVEL;
    handle_collisions(&mut s2);
    assert_eq!(s2.gun_level, shmup_core::MAX_UPGRADE_LEVEL);
}

#[test]
fn shield_powerup_activates_shield() {
    let player = actor(EntityType::Player, 0, 5, 0);
    let powerup = actor(EntityType::Shield, MICRO, 1, 1);
    let mut s = state_with(vec![player, powerup]);
    assert!(!s.shield_active);
    handle_collisions(&mut s);
    assert!(s.shield_active);
    assert_eq!(s.entities[1].lifetime, Lifetime::Milliseconds(0));
}

#[test]
fn enemy_on_enemy_contact_is_a_no_op() {
    let a = actor(EntityType::Enemy, 0, 5, 1);
    let b = actor(EntityType::Enemy, MICRO, 5, 1);
    let mut s = state_with(vec![a, b]);
    handle_collisions(&mut s);
    assert_eq!(s.entities[0].hp, 5);
    assert_eq!(s.entities[1].hp, 5);
    assert_eq!(s.entities[0].lifetime, Lifetime::Forever);
    assert_eq!(s.entities[1].lifetime, Lifetime::Forever);
}

#[test]
fn lifetime_expiry_scores_nothing() {
    // An entity dying only by lifetime keeps its points to itself.
    let mut enemy = actor(EntityType::Enemy, 0, 5, 1);
    enemy.lifetime = Lifetime::Milliseconds(0);
    let mut s = state_with(vec![enemy]);
    cull_entities(&mut s);
    assert_eq!(s.score, 0);
    // But it still leaves its death effect.
    assert_eq!(s.entities.len(), 1);
    assert_eq!(s.entities[0].entity_type, EntityType::Splat);
}

#[test]
fn offscreen_entities_are_culled() {
    let mut bullet = actor(EntityType::EnemyBullet, 0, 1, 1);
    bullet.y = 900 * MICRO;
    let keeper = actor(EntityType::Enemy, 0, 1, 1);
    let mut s = state_with(vec![bullet, keeper]);
    cull_entities(&mut s);
    assert_eq!(s.entities.len(), 1);
    assert_eq!(s.entities[0].entity_type, EntityType::Enemy);
    assert_eq!(s.score, 0);
}
