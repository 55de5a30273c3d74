//! The entity spawner: one countdown per spawnable kind, decremented every
//! frame; when one runs out, at most one entity is spawned per frame and
//! that countdown resets, scaled by the difficulty factor for hostile
//! kinds. Also the constructors for every spawnable entity.

use vstd::prelude::*;

verus! {

use crate::geom::Rect;
use crate::entity::{
    Entity, EntityType, Lifetime, Movement, GeneratedKind, NameId, ENEMY_NAME_COUNT,
    spec_default_entity, spec_enemy_bullet, enemy_bullet_at, spec_step_cooldown,
};
use crate::rng::random_in_range;
use crate::{
    MICRO, POS_LIMIT, DELTA_LIMIT, WINDOW_LIMIT, COOLDOWN_LIMIT, ENEMY_LIFETIME,
    PLAYER_BULLET_SPEED, SPLAT_LIFETIME, SHUTOFF_LIFETIME, SECONDS_UNTIL_MAX_DIFFICULTY,
};

/// Milliseconds between enemy spawns, before difficulty scaling.
pub const ENEMY_COOLDOWN: i64 = 1_000;

/// Milliseconds between enemy-variant spawns, before difficulty scaling.
pub const ENEMY_COOLDOWN_BLUESCREEN: i64 = 6_000;

/// Milliseconds between boss spawns, before difficulty scaling.
pub const ENEMY_COOLDOWN_BOSS: i64 = 60_000;

/// Milliseconds between power-bomb spawns (not difficulty scaled).
pub const POWERBOMB_COOLDOWN: i64 = 45_000;

/// Milliseconds between gun-upgrade spawns (not difficulty scaled).
pub const UPGRADE_COOLDOWN: i64 = 25_000;

/// Milliseconds between shield spawns (not difficulty scaled).
pub const SHIELD_COOLDOWN: i64 = 35_000;

/// One countdown timer per spawnable kind, in a fixed struct rather than a
/// map so the tie-break between simultaneously expired timers does not
/// depend on iteration order.
#[derive(Clone, Copy, PartialEq, Eq, Structural, Debug)]
pub struct Cooldowns {
    pub enemy: i64,
    pub bluescreen: i64,
    pub boss: i64,
    pub powerbomb: i64,
    pub gunupgrade: i64,
    pub shield: i64,
}

/// Owns the per-kind spawn cooldowns and the difficulty curve, and
/// constructs new entities of each spawnable kind.
#[derive(Clone, Copy, PartialEq, Eq, Structural, Debug)]
pub struct EntitySpawner {
    /// Playfield width in pixels; horizontal spawn positions are drawn
    /// across it.
    pub screen_width: u32,
    pub cooldowns: Cooldowns,
}

/// The cooldown struct with every timer at its base interval.
pub open spec fn spec_base_cooldowns() -> Cooldowns {
    Cooldowns {
        enemy: ENEMY_COOLDOWN as i64,
        bluescreen: ENEMY_COOLDOWN_BLUESCREEN as i64,
        boss: ENEMY_COOLDOWN_BOSS as i64,
        powerbomb: POWERBOMB_COOLDOWN as i64,
        gunupgrade: UPGRADE_COOLDOWN as i64,
        shield: SHIELD_COOLDOWN as i64,
    }
}

/// All six timers count down by the frame delta, clamping at zero.
pub open spec fn spec_dec_cooldowns(c: Cooldowns, delta: u64) -> Cooldowns {
    Cooldowns {
        enemy: spec_step_cooldown(c.enemy, delta),
        bluescreen: spec_step_cooldown(c.bluescreen, delta),
        boss: spec_step_cooldown(c.boss, delta),
        powerbomb: spec_step_cooldown(c.powerbomb, delta),
        gunupgrade: spec_step_cooldown(c.gunupgrade, delta),
        shield: spec_step_cooldown(c.shield, delta),
    }
}

/// The kind spawned this frame: the first expired timer in the fixed
/// enumeration order, or none. At most one entity spawns per frame; other
/// expired timers stay expired and fire on the following frames.
pub open spec fn spec_spawn_choice(c: Cooldowns) -> Option<EntityType> {
    if c.enemy <= 0 {
        Some(EntityType::Enemy)
    } else if c.bluescreen <= 0 {
        Some(EntityType::EnemyBlueScreen)
    } else if c.boss <= 0 {
        Some(EntityType::Boss)
    } else if c.powerbomb <= 0 {
        Some(EntityType::Powerbomb)
    } else if c.gunupgrade <= 0 {
        Some(EntityType::GunUpgrade)
    } else if c.shield <= 0 {
        Some(EntityType::Shield)
    } else {
        None
    }
}

/// The difficulty factor in milli-units: one thousand at the start of a
/// match, falling linearly to a floor of one hundred as elapsed time
/// approaches the ramp length, and flat at the floor thereafter.
pub open spec fn spec_difficulty_milli(elapsed_ms: u64) -> int {
    let s = elapsed_ms / 1000;
    if s >= SECONDS_UNTIL_MAX_DIFFICULTY {
        100
    } else {
        let f = (SECONDS_UNTIL_MAX_DIFFICULTY - s) * 1000 / (SECONDS_UNTIL_MAX_DIFFICULTY as int);
        if f < 100 {
            100
        } else {
            f
        }
    }
}

/// A hostile kind's base cooldown scaled by the difficulty factor, so
/// spawns grow more frequent down to a tenth of the base interval.
pub open spec fn spec_scaled_cooldown(base: i64, elapsed_ms: u64) -> i64 {
    (base * spec_difficulty_milli(elapsed_ms) / 1000) as i64
}

/// The difficulty factor in milli-units for a given elapsed match time.
pub fn difficulty_milli(elapsed_ms: u64) -> (f: u64)
    ensures
        f == spec_difficulty_milli(elapsed_ms),
        100 <= f <= 1000,
{
    let s = elapsed_ms / 1000;
    if s >= SECONDS_UNTIL_MAX_DIFFICULTY {
        100
    } else {
        let f = (SECONDS_UNTIL_MAX_DIFFICULTY - s) * 1000 / SECONDS_UNTIL_MAX_DIFFICULTY;
        proof {
            assert((SECONDS_UNTIL_MAX_DIFFICULTY - s) * 1000 <= 480_000) by (nonlinear_arith)
                requires
                    s < SECONDS_UNTIL_MAX_DIFFICULTY == 480,
            ;
        }
        if f < 100 {
            100
        } else {
            f
        }
    }
}

/// A hostile kind's cooldown after difficulty scaling.
pub fn scaled_cooldown(base: i64, elapsed_ms: u64) -> (c: i64)
    requires
        0 < base <= COOLDOWN_LIMIT,
    ensures
        c == spec_scaled_cooldown(base, elapsed_ms),
        0 <= c <= base,
{
    let f = difficulty_milli(elapsed_ms);
    proof {
        assert(base * f <= base * 1000 && 0 <= base * f && base * 1000 <= COOLDOWN_LIMIT
            * 1000) by (nonlinear_arith)
            requires
                0 < base <= COOLDOWN_LIMIT && 100 <= f <= 1000,
        ;
        vstd::arithmetic::div_mod::lemma_div_is_ordered(0, base * f, 1000);
        vstd::arithmetic::div_mod::lemma_div_is_ordered(base * f, base * 1000, 1000);
        assert(base * 1000 / 1000 == base) by (nonlinear_arith);
    }
    let c = (((base as u64) * f) / 1000) as i64;
    c
}

/// Where the spawner puts an otherwise fully constructed entity.
pub open spec fn spec_placed(e: Entity, x: int, y: int) -> Entity {
    Entity { x: x as i64, y: y as i64, ..e }
}

impl EntitySpawner {
    /// Cooldowns are nonnegative and bounded, and the playfield is usable.
    pub open spec fn valid(self) -> bool {
        &&& 1 <= self.screen_width <= WINDOW_LIMIT
        &&& 0 <= self.cooldowns.enemy <= COOLDOWN_LIMIT
        &&& 0 <= self.cooldowns.bluescreen <= COOLDOWN_LIMIT
        &&& 0 <= self.cooldowns.boss <= COOLDOWN_LIMIT
        &&& 0 <= self.cooldowns.powerbomb <= COOLDOWN_LIMIT
        &&& 0 <= self.cooldowns.gunupgrade <= COOLDOWN_LIMIT
        &&& 0 <= self.cooldowns.shield <= COOLDOWN_LIMIT
    }

    /// A new spawner for a playfield of the given width, every timer at its
    /// base interval.
    pub fn new(screen_width: u32) -> (s: EntitySpawner)
        requires
            1 <= screen_width <= WINDOW_LIMIT,
        ensures
            s.screen_width == screen_width,
            s.cooldowns == spec_base_cooldowns(),
            s.valid(),
    {
        EntitySpawner {
            screen_width,
            cooldowns: Cooldowns {
                enemy: ENEMY_COOLDOWN,
                bluescreen: ENEMY_COOLDOWN_BLUESCREEN,
                boss: ENEMY_COOLDOWN_BOSS,
                powerbomb: POWERBOMB_COOLDOWN,
                gunupgrade: UPGRADE_COOLDOWN,
                shield: SHIELD_COOLDOWN,
            },
        }
    }

    /// Put every timer back at its base interval, as at the start of a match.
    pub fn reset(&mut self)
        ensures
            final(self).screen_width == old(self).screen_width,
            final(self).cooldowns == spec_base_cooldowns(),
            old(self).valid() ==> final(self).valid(),
    {
        self.cooldowns = Cooldowns {
            enemy: ENEMY_COOLDOWN,
            bluescreen: ENEMY_COOLDOWN_BLUESCREEN,
            boss: ENEMY_COOLDOWN_BOSS,
            powerbomb: POWERBOMB_COOLDOWN,
            gunupgrade: UPGRADE_COOLDOWN,
            shield: SHIELD_COOLDOWN,
        };
    }

    /// A binary-splat death effect at a position.
    pub fn spawn_splat(&self, x: i64, y: i64) -> (e: Entity)
        requires
            -POS_LIMIT <= x <= POS_LIMIT,
            -POS_LIMIT <= y <= POS_LIMIT,
        ensures
            e == spec_spawn_splat(x as int, y as int),
            e.valid(),
    {
        Entity {
            bounds: Rect { x: 0, y: 0, w: 80 * MICRO, h: 80 * MICRO },
            damage: 0,
            entity_type: EntityType::Splat,
            lifetime: Lifetime::Milliseconds(SPLAT_LIFETIME),
            seed: 0,
            x,
            y,
            ..Entity::default()
        }
    }

    /// A screen-shutoff death effect at a position.
    pub fn spawn_shutoff(&self, x: i64, y: i64) -> (e: Entity)
        requires
            -POS_LIMIT <= x <= POS_LIMIT,
            -POS_LIMIT <= y <= POS_LIMIT,
        ensures
            e == spec_spawn_shutoff(x as int, y as int),
            e.valid(),
    {
        Entity {
            bounds: Rect { x: 0, y: 0, w: 80 * MICRO, h: 80 * MICRO },
            damage: 0,
            entity_type: EntityType::Shutoff,
            lifetime: Lifetime::Milliseconds(SHUTOFF_LIFETIME),
            seed: 0,
            x,
            y,
            ..Entity::default()
        }
    }

    /// A player projectile at a position, moving straight up; the caller
    /// may override the movement to fan shots around straight-up.
    pub fn player_bullet_spawner(&self, x: i64, y: i64) -> (e: Entity)
        requires
            -POS_LIMIT <= x <= POS_LIMIT,
            -POS_LIMIT <= y <= POS_LIMIT,
        ensures
            e == spec_player_bullet(x as int, y as int),
            e.valid(),
    {
        Entity {
            bounds: Rect { x: 0, y: 0, w: 50 * MICRO, h: 50 * MICRO },
            entity_type: EntityType::PlayerBullet,
            lifetime: Lifetime::Milliseconds(2_000),
            movement: Movement::Linear(0, -PLAYER_BULLET_SPEED),
            x,
            y,
            ..Entity::default()
        }
    }

    /// An enemy projectile at a position, aimed along an angle in
    /// milli-radians.
    pub fn spawn_enemy_bullet(&self, x: i64, y: i64, angle: i64) -> (e: Entity)
        requires
            -2_000_000_000_000_000 <= x <= 2_000_000_000_000_000,
            -2_000_000_000_000_000 <= y <= 2_000_000_000_000_000,
            0 <= angle <= 100_000,
        ensures
            e == spec_enemy_bullet(x as int, y as int, angle as int),
            e.valid(),
    {
        enemy_bullet_at(x, y, angle)
    }

    /// A hostile entity of the given kind (enemy, enemy variant or boss)
    /// with the kind's hit points, collision box, movement pattern and
    /// label; any other kind gets the plain enemy's traits. Position is
    /// left at the origin for the caller to place.
    pub fn spawn_enemy(&self, seed: i64, name: NameId, enemy_type: EntityType) -> (e: Entity)
        requires
            -1000 <= seed <= 1000,
            (match name {
                NameId::EnemyWord(i) => i < ENEMY_NAME_COUNT,
                _ => true,
            }),
        ensures
            e == spec_spawn_enemy(seed as int, name, enemy_type),
            e.valid(),
    {
        let mut e = Entity {
            bounds: Rect { x: 18 * MICRO, y: 5 * MICRO, w: 44 * MICRO, h: 60 * MICRO },
            entity_type: EntityType::Enemy,
            lifetime: Lifetime::Milliseconds(ENEMY_LIFETIME),
            movement: Movement::Generated(GeneratedKind::EnemySine),
            name,
            seed,
            ..Entity::default()
        };
        match enemy_type {
            EntityType::EnemyBlueScreen => {
                e.name = NameId::Bsod;
                e.entity_type = EntityType::EnemyBlueScreen;
                e.hp = 4;
                e.movement = Movement::Generated(GeneratedKind::BlueScreenSine);
            },
            EntityType::Boss => {
                e.name = NameId::AnsiC;
                e.entity_type = EntityType::Boss;
                e.hp = 40;
                e.movement = Movement::Generated(GeneratedKind::BossSweep);
                e.bounds = Rect { x: 30 * MICRO, y: 20 * MICRO, w: 140 * MICRO, h: 130 * MICRO };
            },
            _ => {},
        }
        e
    }

    /// A power bomb drifting straight down.
    pub fn spawn_powerbomb(&self) -> (e: Entity)
        ensures
            e == spec_spawn_powerup(EntityType::Powerbomb),
            e.valid(),
    {
        Entity {
            bounds: Rect { x: 0, y: 0, w: 64 * MICRO, h: 64 * MICRO },
            entity_type: EntityType::Powerbomb,
            lifetime: Lifetime::Milliseconds(100_000),
            movement: Movement::Linear(0, 100_000),
            seed: 0,
            vel: 10_000,
            ..Entity::default()
        }
    }

    /// A gun upgrade drifting straight down.
    pub fn spawn_gunupgrade(&self) -> (e: Entity)
        ensures
            e == spec_spawn_powerup(EntityType::GunUpgrade),
            e.valid(),
    {
        Entity {
            bounds: Rect { x: 0, y: 0, w: 64 * MICRO, h: 64 * MICRO },
            entity_type: EntityType::GunUpgrade,
            lifetime: Lifetime::Milliseconds(100_000),
            movement: Movement::Linear(0, 100_000),
            seed: 0,
            vel: 10_000,
            ..Entity::default()
        }
    }

    /// A shield powerup drifting straight down.
    pub fn spawn_shield(&self) -> (e: Entity)
        ensures
            e == spec_spawn_powerup(EntityType::Shield),
            e.valid(),
    {
        Entity {
            bounds: Rect { x: 0, y: 0, w: 64 * MICRO, h: 64 * MICRO },
            entity_type: EntityType::Shield,
            lifetime: Lifetime::Milliseconds(100_000),
            movement: Movement::Linear(0, 100_000),
            seed: 0,
            vel: 10_000,
            ..Entity::default()
        }
    }
}

/// The splat entity `spawn_splat` constructs.
pub open spec fn spec_spawn_splat(x: int, y: int) -> Entity {
    Entity {
        bounds: Rect { x: 0, y: 0, w: (80 * MICRO) as i64, h: (80 * MICRO) as i64 },
        damage: 0,
        entity_type: EntityType::Splat,
        lifetime: Lifetime::Milliseconds(SPLAT_LIFETIME as i64),
        seed: 0,
        x: x as i64,
        y: y as i64,
        ..spec_default_entity()
    }
}

/// The shutoff entity `spawn_shutoff` constructs.
pub open spec fn spec_spawn_shutoff(x: int, y: int) -> Entity {
    Entity {
        bounds: Rect { x: 0, y: 0, w: (80 * MICRO) as i64, h: (80 * MICRO) as i64 },
        damage: 0,
        entity_type: EntityType::Shutoff,
        lifetime: Lifetime::Milliseconds(SHUTOFF_LIFETIME as i64),
        seed: 0,
        x: x as i64,
        y: y as i64,
        ..spec_default_entity()
    }
}

/// The player projectile `player_bullet_spawner` constructs.
pub open spec fn spec_player_bullet(x: int, y: int) -> Entity {
    Entity {
        bounds: Rect { x: 0, y: 0, w: (50 * MICRO) as i64, h: (50 * MICRO) as i64 },
        entity_type: EntityType::PlayerBullet,
        lifetime: Lifetime::Milliseconds(2_000),
        movement: Movement::Linear(0, (-PLAYER_BULLET_SPEED) as i64),
        x: x as i64,
        y: y as i64,
        ..spec_default_entity()
    }
}

/// The hostile entity `spawn_enemy` constructs for a seed, label and kind.
pub open spec fn spec_spawn_enemy(seed: int, name: NameId, enemy_type: EntityType) -> Entity {
    let base = Entity {
        bounds: Rect {
            x: (18 * MICRO) as i64,
            y: (5 * MICRO) as i64,
            w: (44 * MICRO) as i64,
            h: (60 * MICRO) as i64,
        },
        entity_type: EntityType::Enemy,
        lifetime: Lifetime::Milliseconds(ENEMY_LIFETIME as i64),
        movement: Movement::Generated(GeneratedKind::EnemySine),
        name: name,
        seed: seed as i64,
        ..spec_default_entity()
    };
    if enemy_type == EntityType::EnemyBlueScreen {
        Entity {
            name: NameId::Bsod,
            entity_type: EntityType::EnemyBlueScreen,
            hp: 4,
            movement: Movement::Generated(GeneratedKind::BlueScreenSine),
            ..base
        }
    } else if enemy_type == EntityType::Boss {
        Entity {
            name: NameId::AnsiC,
            entity_type: EntityType::Boss,
            hp: 40,
            movement: Movement::Generated(GeneratedKind::BossSweep),
            bounds: Rect {
                x: (30 * MICRO) as i64,
                y: (20 * MICRO) as i64,
                w: (140 * MICRO) as i64,
                h: (130 * MICRO) as i64,
            },
            ..base
        }
    } else {
        base
    }
}

/// The powerup entity the spawner constructs for each powerup kind.
pub open spec fn spec_spawn_powerup(kind: EntityType) -> Entity {
    Entity {
        bounds: Rect { x: 0, y: 0, w: (64 * MICRO) as i64, h: (64 * MICRO) as i64 },
        entity_type: kind,
        lifetime: Lifetime::Milliseconds(100_000),
        movement: Movement::Linear(0, 100_000),
        seed: 0,
        vel: 10_000,
        ..spec_default_entity()
    }
}

/// A timer after one frame's decrement, clamped at zero.
fn step_cd(c: i64, delta: u64) -> (r: i64)
    requires
        0 <= c <= COOLDOWN_LIMIT,
        delta <= DELTA_LIMIT,
    ensures
        r == spec_step_cooldown(c, delta),
        0 <= r <= COOLDOWN_LIMIT,
{
    let n = c - delta as i64;
    if n < 0 {
        0
    } else {
        n
    }
}

/// The cooldowns after the frame's choice (if any) resets its timer:
/// hostile kinds reset to their difficulty-scaled interval, powerup kinds
/// to their base interval.
pub open spec fn spec_after_choice(
    dec: Cooldowns,
    choice: Option<EntityType>,
    elapsed_ms: u64,
) -> Cooldowns {
    match choice {
        Option::Some(EntityType::Enemy) => Cooldowns {
            enemy: spec_scaled_cooldown(ENEMY_COOLDOWN as i64, elapsed_ms),
            ..dec
        },
        Option::Some(EntityType::EnemyBlueScreen) => Cooldowns {
            bluescreen: spec_scaled_cooldown(ENEMY_COOLDOWN_BLUESCREEN as i64, elapsed_ms),
            ..dec
        },
        Option::Some(EntityType::Boss) => Cooldowns {
            boss: spec_scaled_cooldown(ENEMY_COOLDOWN_BOSS as i64, elapsed_ms),
            ..dec
        },
        Option::Some(EntityType::Powerbomb) => Cooldowns {
            powerbomb: POWERBOMB_COOLDOWN as i64,
            ..dec
        },
        Option::Some(EntityType::GunUpgrade) => Cooldowns {
            gunupgrade: UPGRADE_COOLDOWN as i64,
            ..dec
        },
        Option::Some(EntityType::Shield) => Cooldowns { shield: SHIELD_COOLDOWN as i64, ..dec },
        _ => dec,
    }
}

/// What a freshly spawned entity of a kind looks like: its deterministic
/// fields are exactly the kind's constructor's, while the seed, label word
/// and horizontal position come from bounded random draws. Hostiles spawn
/// just above the playfield; the boss spawns centered and higher.
pub open spec fn spec_spawned_matches(k: EntityType, e: Entity, width_px: int) -> bool {
    if k == EntityType::Enemy || k == EntityType::EnemyBlueScreen {
        exists|seed: int, nm: u8, x: int|
            -1000 <= seed < 1000 && nm < ENEMY_NAME_COUNT && 0 <= x < width_px * MICRO && e
                == #[trigger] spec_placed(
                spec_spawn_enemy(seed, NameId::EnemyWord(nm), k),
                x,
                -70 * MICRO,
            )
    } else if k == EntityType::Boss {
        exists|seed: int|
            -1000 <= seed < 1000 && e == spec_placed(
                spec_spawn_enemy(seed, NameId::AnsiC, k),
                width_px * MICRO / 2,
                -200 * MICRO,
            )
    } else {
        exists|x: int|
            0 <= x < width_px * MICRO && e == #[trigger] spec_placed(spec_spawn_powerup(k), x, -45 * MICRO)
    }
}

impl EntitySpawner {
    /// One frame of the spawner: every timer counts down by the delta; if
    /// any ran out, the first expired kind in the fixed enumeration order
    /// spawns one entity and its timer resets (difficulty-scaled for
    /// hostile kinds); the rest stay expired for the following frames. The
    /// spawned entity's deterministic fields are exact; its seed, label and
    /// horizontal position are bounded random draws.
    pub fn update(&mut self, elapsed_ms: u64, delta_ms: u64) -> (spawned: Option<Entity>)
        requires
            old(self).valid(),
            delta_ms <= DELTA_LIMIT,
        ensures
            final(self).valid(),
            final(self).screen_width == old(self).screen_width,
            final(self).cooldowns == spec_after_choice(
                spec_dec_cooldowns(old(self).cooldowns, delta_ms),
                spec_spawn_choice(spec_dec_cooldowns(old(self).cooldowns, delta_ms)),
                elapsed_ms,
            ),
            (match (
                spawned,
                spec_spawn_choice(spec_dec_cooldowns(old(self).cooldowns, delta_ms)),
            ) {
                (Option::Some(e), Option::Some(k)) => e.valid() && e.entity_type == k
                    && spec_spawned_matches(k, e, old(self).screen_width as int),
                (Option::None, Option::None) => true,
                _ => false,
            }),
    {
        let dec = Cooldowns {
            enemy: step_cd(self.cooldowns.enemy, delta_ms),
            bluescreen: step_cd(self.cooldowns.bluescreen, delta_ms),
            boss: step_cd(self.cooldowns.boss, delta_ms),
            powerbomb: step_cd(self.cooldowns.powerbomb, delta_ms),
            gunupgrade: step_cd(self.cooldowns.gunupgrade, delta_ms),
            shield: step_cd(self.cooldowns.shield, delta_ms),
        };
        self.cooldowns = dec;
        let width_upx = (self.screen_width as i64) * MICRO;
        if dec.enemy <= 0 {
            self.cooldowns.enemy = scaled_cooldown(ENEMY_COOLDOWN, elapsed_ms);
            let seed = random_in_range(-1000, 1000);
            let nm = random_in_range(0, ENEMY_NAME_COUNT as i64) as u8;
            let x = random_in_range(0, width_upx);
            let mut e = self.spawn_enemy(seed, NameId::EnemyWord(nm), EntityType::Enemy);
            e.x = x;
            e.y = -70 * MICRO;
            proof {
                assert(e == spec_placed(
                    spec_spawn_enemy(seed as int, NameId::EnemyWord(nm), EntityType::Enemy),
                    x as int,
                    -70 * MICRO,
                ));
            }
            Some(e)
        } else if dec.bluescreen <= 0 {
            self.cooldowns.bluescreen = scaled_cooldown(ENEMY_COOLDOWN_BLUESCREEN, elapsed_ms);
            let seed = random_in_range(-1000, 1000);
            let nm = random_in_range(0, ENEMY_NAME_COUNT as i64) as u8;
            let x = random_in_range(0, width_upx);
            let mut e = self.spawn_enemy(seed, NameId::EnemyWord(nm), EntityType::EnemyBlueScreen);
            e.x = x;
            e.y = -70 * MICRO;
            proof {
                assert(e == spec_placed(
                    spec_spawn_enemy(
                        seed as int,
                        NameId::EnemyWord(nm),
                        EntityType::EnemyBlueScreen,
                    ),
                    x as int,
                    -70 * MICRO,
                ));
            }
            Some(e)
        } else if dec.boss <= 0 {
            self.cooldowns.boss = scaled_cooldown(ENEMY_COOLDOWN_BOSS, elapsed_ms);
            let seed = random_in_range(-1000, 1000);
            let mut e = self.spawn_enemy(seed, NameId::AnsiC, EntityType::Boss);
            e.x = (((self.screen_width as u64) * (MICRO as u64)) / 2) as i64;
            e.y = -200 * MICRO;
            proof {
                assert(e == spec_placed(
                    spec_spawn_enemy(seed as int, NameId::AnsiC, EntityType::Boss),
                    (self.screen_width as int) * MICRO / 2,
                    -200 * MICRO,
                ));
            }
            Some(e)
        } else if dec.powerbomb <= 0 {
            self.cooldowns.powerbomb = POWERBOMB_COOLDOWN;
            let x = random_in_range(0, width_upx);
            let mut e = self.spawn_powerbomb();
            e.x = x;
            e.y = -45 * MICRO;
            proof {
                assert(e == spec_placed(
                    spec_spawn_powerup(EntityType::Powerbomb),
                    x as int,
                    -45 * MICRO,
                ));
            }
            Some(e)
        } else if dec.gunupgrade <= 0 {
            self.cooldowns.gunupgrade = UPGRADE_COOLDOWN;
            let x = random_in_range(0, width_upx);
            let mut e = self.spawn_gunupgrade();
            e.x = x;
            e.y = -45 * MICRO;
            proof {
                assert(e == spec_placed(
                    spec_spawn_powerup(EntityType::GunUpgrade),
                    x as int,
                    -45 * MICRO,
                ));
            }
            Some(e)
        } else if dec.shield <= 0 {
            self.cooldowns.shield = SHIELD_COOLDOWN;
            let x = random_in_range(0, width_upx);
            let mut e = self.spawn_shield();
            e.x = x;
            e.y = -45 * MICRO;
            proof {
                assert(e == spec_placed(
                    spec_spawn_powerup(EntityType::Shield),
                    x as int,
                    -45 * MICRO,
                ));
            }
            Some(e)
        } else {
            None
        }
    }
}

} // verus!
