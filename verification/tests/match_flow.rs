use shmup_core::entity::{Entity, EntityType, Lifetime};
use shmup_core::geom::Rect;
use shmup_core::state::{new_game, save_score, split_time, update_time, GameMode, MainState};
use shmup_core::{MICRO, SECONDS_UNTIL_MAX_DIFFICULTY};

fn far_player() -> Entity {
    Entity {
        entity_type: EntityType::Player,
        bounds: Rect { x: 0, y: 0, w: 10 * MICRO, h: 10 * MICRO },
        hp: 5,
        damage: 0,
        x: 100 * MICRO,
        y: 700 * MICRO,
        lifetime: Lifetime::Forever,
        ..Default::default()
    }
}

#[test]
fn menu_fire_starts_a_match() {
    let mut s = MainState::new(800, 600);
    assert_eq!(s.game_mode, GameMode::Menu);
    s.set_input(false, false, false, false, true);
    s.update();
    assert_eq!(s.game_mode, GameMode::Game);
    assert_eq!(s.entities.len(), 1);
    assert_eq!(s.entities[0].entity_type, EntityType::Player);
    assert_eq!(s.entities[0].hp, 5);
    assert_eq!(s.gun_level, 1);
    assert_eq!(s.score, 0);
    assert!(!s.shield_active);
    assert_eq!(s.elapsed_ms, 0);
}

#[test]
fn menu_without_fire_stays_in_menu() {
    let mut s = MainState::new(800, 600);
    s.update();
    assert_eq!(s.game_mode, GameMode::Menu);
    assert_eq!(s.entities.len(), 0);
}

#[test]
fn losing_the_player_returns_to_menu() {
    let mut s = MainState::new(800, 600);
    s.game_mode = GameMode::Game;
    s.entities = vec![Entity {
        entity_type: EntityType::Enemy,
        ..Default::default()
    }];
    s.update();
    assert_eq!(s.game_mode, GameMode::Menu);
}

#[test]
fn outlasting_the_clock_wins() {
    let mut s = MainState::new(800, 600);
    s.game_mode = GameMode::Game;
    s.entities = vec![far_player()];
    s.elapsed_ms = (SECONDS_UNTIL_MAX_DIFFICULTY + 6) * 1000;
    s.update();
    assert_eq!(s.game_mode, GameMode::Win);
}

#[test]
fn win_screen_changes_nothing() {
    let mut s = MainState::new(800, 600);
    s.game_mode = GameMode::Win;
    s.score = 77;
    s.update();
    assert_eq!(s.game_mode, GameMode::Win);
    assert_eq!(s.score, 77);
    assert_eq!(s.entities.len(), 0);
}

#[test]
fn a_running_frame_advances_entities() {
    let mut s = MainState::new(800, 600);
    s.game_mode = GameMode::Game;
    s.delta_ms = 100;
    let mut bullet = Entity {
        entity_type: EntityType::EnemyBullet,
        movement: shmup_core::entity::Movement::Linear(0, 100_000),
        lifetime: Lifetime::Milliseconds(8000),
        bounds: Rect { x: 0, y: 0, w: 10 * MICRO, h: 10 * MICRO },
        ..Default::default()
    };
    bullet.x = 10 * MICRO;
    bullet.y = 10 * MICRO;
    s.entities = vec![far_player(), bullet];
    s.update();
    assert_eq!(s.game_mode, GameMode::Game);
    // The bullet moved 100 ms at 100 px/s: down by ten pixels.
    assert_eq!(s.entities[1].y, 20 * MICRO);
    assert_eq!(s.entities[1].lifetime, Lifetime::Milliseconds(7900));
}

#[test]
fn player_fire_spawns_the_fan_and_resets_cooldown() {
    let mut s = MainState::new(800, 600);
    s.game_mode = GameMode::Game;
    s.delta_ms = 10;
    s.gun_level = 3;
    let mut p = far_player();
    p.bullet_cooldown = 10;
    s.entities = vec![p];
    s.set_input(false, false, false, false, true);
    s.update();
    // Cooldown hit zero this frame, so three bullets were fanned out.
    let bullets = s
        .entities
        .iter()
        .filter(|e| e.entity_type == EntityType::PlayerBullet)
        .count();
    assert_eq!(bullets, 3);
    assert_eq!(s.entities[0].bullet_cooldown, shmup_core::PLAYER_BULLET_COOLDOWN);
}

#[test]
fn first_clock_sample_gives_zero_delta() {
    let mut s = MainState::new(800, 600);
    update_time(&mut s, 5000);
    assert_eq!(s.delta_ms, 0);
    assert_eq!(s.elapsed_ms, 5000);
    update_time(&mut s, 5016);
    assert_eq!(s.delta_ms, 16);
    assert_eq!(s.elapsed_ms, 5016);
}

#[test]
fn split_time_yields_minutes_and_seconds() {
    assert_eq!(split_time(125_000), (2, 5));
    assert_eq!(split_time(0), (0, 0));
    assert_eq!(split_time(59_999), (0, 59));
    assert_eq!(split_time(3_600_000), (60, 0));
}

#[test]
fn save_score_records_the_current_score() {
    let mut s = MainState::new(800, 600);
    s.score = 42;
    save_score(&mut s, String::from("PLAYER"), String::from("02:05"));
    let rows = s.high_scores.get_scores();
    assert_eq!(rows.len(), 1);
    assert_eq!(rows[0].0, 42);
    assert_eq!(rows[0].1, "PLAYER");
    assert_eq!(rows[0].2, "02:05");
}

#[test]
fn new_game_resets_a_finished_match() {
    let mut s = MainState::new(800, 600);
    s.score = 99;
    s.gun_level = 7;
    s.shield_active = true;
    s.elapsed_ms = 123_456;
    new_game(&mut s);
    assert_eq!(s.score, 0);
    assert_eq!(s.gun_level, 1);
    assert!(!s.shield_active);
    assert_eq!(s.elapsed_ms, 0);
    assert_eq!(s.entities.len(), 1);
    assert_eq!(s.entities[0].entity_type, EntityType::Player);
}

#[test]
fn state_checks_pass_on_constructed_states() {
    let s = MainState::new(800, 600);
    assert!(s.check_wf());
    assert!(far_player().is_valid());
    let mut bad = far_player();
    bad.seed = 5000;
    assert!(!bad.is_valid());
}
