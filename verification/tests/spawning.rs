use shmup_core::entity::{Entity, EntityType, Lifetime, Movement, NameId};
use shmup_core::powerup::PowerupSpawner;
use shmup_core::spawner::{
    difficulty_milli, scaled_cooldown, EntitySpawner, ENEMY_COOLDOWN, ENEMY_COOLDOWN_BLUESCREEN,
    ENEMY_COOLDOWN_BOSS, POWERBOMB_COOLDOWN, SHIELD_COOLDOWN, UPGRADE_COOLDOWN,
};
use shmup_core::{ENEMY_LIFETIME, MICRO, SECONDS_UNTIL_MAX_DIFFICULTY};

#[test]
fn enemy_spawns_once_and_cooldown_resets_to_base() {
    // Base cooldown 1000 ms at difficulty factor 1.0, ticked by exactly
    // 1000 ms: exactly one enemy is emitted and the timer resets to 1000.
    let mut sp = EntitySpawner::new(800);
    assert_eq!(sp.cooldowns.enemy, 1000);
    let spawned = sp.update(0, 1000);
    let e = spawned.expect("the enemy timer ran out");
    assert_eq!(e.entity_type, EntityType::Enemy);
    assert_eq!(sp.cooldowns.enemy, 1000);
    // No second spawn happened: the other timers only counted down.
    assert_eq!(sp.cooldowns.bluescreen, ENEMY_COOLDOWN_BLUESCREEN - 1000);
    assert_eq!(sp.cooldowns.boss, ENEMY_COOLDOWN_BOSS - 1000);
    assert_eq!(sp.cooldowns.powerbomb, POWERBOMB_COOLDOWN - 1000);
    assert_eq!(sp.cooldowns.gunupgrade, UPGRADE_COOLDOWN - 1000);
    assert_eq!(sp.cooldowns.shield, SHIELD_COOLDOWN - 1000);
}

#[test]
fn max_difficulty_floors_the_reset_at_a_tenth() {
    // At the end of the ramp the factor floors at 0.1, so a 1000 ms base
    // cooldown resets to exactly 100 ms.
    let mut sp = EntitySpawner::new(800);
    let spawned = sp.update(SECONDS_UNTIL_MAX_DIFFICULTY * 1000, 1000);
    assert!(spawned.is_some());
    assert_eq!(sp.cooldowns.enemy, 100);
}

#[test]
fn difficulty_factor_ramps_linearly_to_its_floor() {
    assert_eq!(difficulty_milli(0), 1000);
    assert_eq!(difficulty_milli(240_000), 500);
    assert_eq!(difficulty_milli(480_000), 100);
    assert_eq!(difficulty_milli(10_000_000), 100);
    assert_eq!(scaled_cooldown(ENEMY_COOLDOWN, 0), 1000);
    assert_eq!(scaled_cooldown(ENEMY_COOLDOWN, 480_000), 100);
    assert_eq!(scaled_cooldown(6000, 240_000), 3000);
}

#[test]
fn no_spawn_before_any_timer_expires() {
    let mut sp = EntitySpawner::new(800);
    let spawned = sp.update(0, 999);
    assert!(spawned.is_none());
    assert_eq!(sp.cooldowns.enemy, 1);
}

#[test]
fn powerup_cooldowns_are_not_difficulty_scaled() {
    let mut sp = EntitySpawner::new(800);
    // Let only the power-bomb timer expire.
    sp.cooldowns.enemy = 1_000_000;
    sp.cooldowns.bluescreen = 1_000_000;
    sp.cooldowns.boss = 1_000_000;
    sp.cooldowns.powerbomb = 10;
    let spawned = sp.update(SECONDS_UNTIL_MAX_DIFFICULTY * 1000, 10);
    let e = spawned.expect("the power-bomb timer ran out");
    assert_eq!(e.entity_type, EntityType::Powerbomb);
    assert_eq!(sp.cooldowns.powerbomb, POWERBOMB_COOLDOWN);
}

#[test]
fn spawned_enemy_has_its_kind_traits() {
    let mut sp = EntitySpawner::new(800);
    let e = sp.update(0, 1000).unwrap();
    assert_eq!(e.hp, 1);
    assert_eq!(e.damage, 1);
    assert_eq!(e.lifetime, Lifetime::Milliseconds(ENEMY_LIFETIME));
    assert_eq!(e.y, -70 * MICRO);
    assert!(0 <= e.x && e.x < 800 * MICRO);
    assert!(-1000 <= e.seed && e.seed < 1000);
    match e.name {
        NameId::EnemyWord(i) => assert!(i < 7),
        other => panic!("an enemy draws its name from the list, got {:?}", other),
    }
    match e.movement {
        Movement::Generated(_) => {}
        other => panic!("enemies drift procedurally, got {:?}", other),
    }
}

#[test]
fn boss_spawns_centered_with_boss_traits() {
    let mut sp = EntitySpawner::new(800);
    sp.cooldowns.enemy = 1_000_000;
    sp.cooldowns.bluescreen = 1_000_000;
    sp.cooldowns.boss = 5;
    let e = sp.update(0, 5).unwrap();
    assert_eq!(e.entity_type, EntityType::Boss);
    assert_eq!(e.hp, 40);
    assert_eq!(e.name, NameId::AnsiC);
    assert_eq!(e.x, 400 * MICRO);
    assert_eq!(e.y, -200 * MICRO);
}

#[test]
fn tie_break_spawns_the_first_expired_kind_only() {
    // Two timers expire in the same frame; only the first in enumeration
    // order spawns, the other stays expired and fires next frame.
    let mut sp = EntitySpawner::new(800);
    sp.cooldowns.enemy = 10;
    sp.cooldowns.bluescreen = 10;
    let first = sp.update(0, 10).unwrap();
    assert_eq!(first.entity_type, EntityType::Enemy);
    assert_eq!(sp.cooldowns.bluescreen, 0);
    let second = sp.update(0, 0).unwrap();
    assert_eq!(second.entity_type, EntityType::EnemyBlueScreen);
}

#[test]
fn direct_constructors_build_each_kind() {
    let sp = EntitySpawner::new(800);
    let splat = sp.spawn_splat(5 * MICRO, 6 * MICRO);
    assert_eq!(splat.entity_type, EntityType::Splat);
    assert_eq!((splat.x, splat.y), (5 * MICRO, 6 * MICRO));
    assert_eq!(splat.damage, 0);

    let shutoff = sp.spawn_shutoff(0, 0);
    assert_eq!(shutoff.entity_type, EntityType::Shutoff);
    assert_eq!(shutoff.lifetime, Lifetime::Milliseconds(shmup_core::SHUTOFF_LIFETIME));

    let pb = sp.player_bullet_spawner(MICRO, 2 * MICRO);
    assert_eq!(pb.entity_type, EntityType::PlayerBullet);
    assert_eq!(pb.movement, Movement::Linear(0, -shmup_core::PLAYER_BULLET_SPEED));
    assert_eq!(pb.lifetime, Lifetime::Milliseconds(2000));

    let eb = sp.spawn_enemy_bullet(0, 0, 4713);
    assert_eq!(eb.entity_type, EntityType::EnemyBullet);
    assert_eq!(eb.movement, Movement::Linear(0, 400_000));

    let variant = sp.spawn_enemy(500, NameId::EnemyWord(2), EntityType::EnemyBlueScreen);
    assert_eq!(variant.entity_type, EntityType::EnemyBlueScreen);
    assert_eq!(variant.hp, 4);
    assert_eq!(variant.name, NameId::Bsod);
    assert_eq!(variant.seed, 500);

    let bomb = sp.spawn_powerbomb();
    assert_eq!(bomb.entity_type, EntityType::Powerbomb);
    assert_eq!(bomb.movement, Movement::Linear(0, 100_000));

    let upgrade = sp.spawn_gunupgrade();
    assert_eq!(upgrade.entity_type, EntityType::GunUpgrade);

    let shield = sp.spawn_shield();
    assert_eq!(shield.entity_type, EntityType::Shield);
}

#[test]
fn reset_restores_base_intervals() {
    let mut sp = EntitySpawner::new(800);
    sp.update(0, 900);
    sp.reset();
    assert_eq!(sp.cooldowns.enemy, ENEMY_COOLDOWN);
    assert_eq!(sp.cooldowns.boss, ENEMY_COOLDOWN_BOSS);
}

#[test]
fn powerup_spawner_emits_on_expiry_and_resets() {
    let mut p = PowerupSpawner::new(500);
    assert!(p.update(499).is_none());
    assert_eq!(p.current_cooldown, 1);
    let e = p.update(1).expect("the countdown ran out");
    assert_eq!(e.entity_type, EntityType::Powerup);
    assert_eq!(e.movement, Movement::Linear(0, 65_000_000));
    assert_eq!(p.current_cooldown, 500);

    let deep: Entity = p.update(10_000).expect("far past expiry still emits");
    assert_eq!(deep.entity_type, EntityType::Powerup);
    assert_eq!(p.current_cooldown, 500);
}
