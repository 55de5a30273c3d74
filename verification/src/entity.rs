//! The entity: the single mutable simulation unit. Its kind tag determines
//! update and collision behavior; its per-frame step advances age, lifetime
//! and fire cooldown, applies its movement rule, and (for armed kinds)
//! requests projectile spawns.

use vstd::prelude::*;

verus! {

use crate::geom::Rect;
use crate::trig::{spec_sin1k, spec_cos1k, sin1k, cos1k, TAU_MRAD, HALF_PI_MRAD};
use crate::util::{spec_clamp_pos, spec_scale_milli, scale_milli};
use crate::{
    MICRO, POS_LIMIT, VEL_LIMIT, DELTA_LIMIT, TIMER_CAP, HP_MIN, HP_LIMIT, DAMAGE_LIMIT,
    LIFETIME_MIN, LIFETIME_LIMIT, COOLDOWN_LIMIT, BOUNDS_LIMIT, WINDOW_LIMIT,
    BOSS_BULLET_COOLDOWN, BOSS_BULLET_NUMBER, ENEMY_BULLET_COOLDOWN, ENEMY_BULLET_SPEED,
};

/// The closed set of entity kinds; the tag fixes update and collision
/// behavior. `Empty` is the null tag used only by default construction.
#[derive(Clone, Copy, PartialEq, Eq, Structural, Debug, Hash)]
pub enum EntityType {
    Empty,
    Boss,
    EnemyBullet,
    PlayerBullet,
    Enemy,
    EnemyBlueScreen,
    Player,
    Powerup,
    Powerbomb,
    GunUpgrade,
    Shield,
    Splat,
    Shutoff,
}

/// How long an entity stays alive: forever, or a millisecond countdown
/// after which the end-of-frame cull removes it.
#[derive(Clone, Copy, PartialEq, Eq, Structural, Debug)]
pub enum Lifetime {
    Forever,
    Milliseconds(i64),
}

/// The named procedural motion patterns. Each maps (age, seed, jitter) to a
/// velocity; the jitter term is a fresh bounded random draw every frame.
#[derive(Clone, Copy, PartialEq, Eq, Structural, Debug)]
pub enum GeneratedKind {
    /// Lateral sine drift plus bounded jitter, drifting downward on a
    /// second sine; used by plain enemies.
    EnemySine,
    /// A two-sine lateral wobble with jittered downward drift; used by the
    /// tougher enemy variant.
    BlueScreenSine,
    /// A slow lateral sweep at constant downward speed; used by the boss.
    BossSweep,
}

/// An entity's movement rule: no motion, constant velocity in
/// milli-pixels per second, or one of the named procedural patterns.
#[derive(Clone, Copy, PartialEq, Eq, Structural, Debug)]
pub enum Movement {
    Static,
    Linear(i64, i64),
    Generated(GeneratedKind),
}

/// The display name attached to an entity. Enemies draw one of the seven
/// words of the fixed name list; the rest are fixed per kind. The
/// presentation layer maps the tag to text.
#[derive(Clone, Copy, PartialEq, Eq, Structural, Debug)]
pub enum NameId {
    /// No label is drawn for this entity.
    Anon,
    /// The player's name.
    Ferris,
    /// One of the seven words of the enemy name list, by index.
    EnemyWord(u8),
    /// The enemy variant's label.
    Bsod,
    /// The boss's label.
    AnsiC,
}

/// How many words the enemy name list holds.
pub const ENEMY_NAME_COUNT: u8 = 7;

/// The player's four directional flags plus the fire flag, snapshotted at
/// the top of each frame.
#[derive(Clone, Copy, PartialEq, Eq, Structural, Debug)]
pub struct Input {
    pub left: bool,
    pub right: bool,
    pub up: bool,
    pub down: bool,
    pub shoot: bool,
}

/// One simulated game object. Positions are micro-pixels, velocities
/// milli-pixels per second, angles milli-radians, times milliseconds.
#[derive(Clone, Copy, PartialEq, Eq, Structural, Debug)]
pub struct Entity {
    /// Facing angle in milli-radians, kept normalized to one turn.
    pub angle: i64,
    /// Collision box offset and size relative to `(x, y)`; fixed per kind.
    pub bounds: Rect,
    /// Milliseconds until this entity may fire again; never negative.
    pub bullet_cooldown: i64,
    /// Hit points subtracted from an opposing entity on collision.
    pub damage: i64,
    pub entity_type: EntityType,
    /// Destroyed at the end of a frame once this reaches zero or below.
    pub hp: i64,
    pub lifetime: Lifetime,
    pub movement: Movement,
    pub name: NameId,
    /// Per-entity constant in [-1000, 1000] milli-units, drawn at spawn,
    /// decorrelating procedural motion across siblings.
    pub seed: i64,
    /// Milliseconds since creation.
    pub timer: u64,
    /// Speed scale in milli-pixels per second; only the player reads it.
    pub vel: i64,
    pub x: i64,
    pub y: i64,
}

impl Entity {
    /// Every field is within the ranges the simulation maintains.
    pub open spec fn valid(self) -> bool {
        &&& 0 <= self.angle < TAU_MRAD
        &&& 0 <= self.bounds.x <= BOUNDS_LIMIT
        &&& 0 <= self.bounds.y <= BOUNDS_LIMIT
        &&& 0 <= self.bounds.w <= BOUNDS_LIMIT
        &&& 0 <= self.bounds.h <= BOUNDS_LIMIT
        &&& 0 <= self.bullet_cooldown <= COOLDOWN_LIMIT
        &&& 0 <= self.damage <= DAMAGE_LIMIT
        &&& HP_MIN <= self.hp <= HP_LIMIT
        &&& match self.lifetime {
            Lifetime::Forever => true,
            Lifetime::Milliseconds(r) => LIFETIME_MIN <= r <= LIFETIME_LIMIT,
        }
        &&& match self.movement {
            Movement::Linear(dx, dy) => -VEL_LIMIT <= dx <= VEL_LIMIT && -VEL_LIMIT <= dy
                <= VEL_LIMIT,
            _ => true,
        }
        &&& match self.name {
            NameId::EnemyWord(i) => i < ENEMY_NAME_COUNT,
            _ => true,
        }
        &&& -1000 <= self.seed <= 1000
        &&& self.timer <= TIMER_CAP
        &&& 0 <= self.vel <= VEL_LIMIT
        &&& -POS_LIMIT <= self.x <= POS_LIMIT
        &&& -POS_LIMIT <= self.y <= POS_LIMIT
    }

    /// Move the entity by a displacement in micro-pixels, saturating at the
    /// world position limit.
    pub fn translate(&mut self, dx: i64, dy: i64)
        requires
            -POS_LIMIT <= old(self).x <= POS_LIMIT,
            -POS_LIMIT <= old(self).y <= POS_LIMIT,
            -100_000_000_000_000_000 <= dx <= 100_000_000_000_000_000,
            -100_000_000_000_000_000 <= dy <= 100_000_000_000_000_000,
        ensures
            final(self).x == spec_clamp_pos(old(self).x + dx),
            final(self).y == spec_clamp_pos(old(self).y + dy),
            *final(self) == (Entity { x: final(self).x, y: final(self).y, ..*old(self) }),
    {
        let nx = self.x + dx;
        self.x = if nx < -POS_LIMIT {
            -POS_LIMIT
        } else if nx > POS_LIMIT {
            POS_LIMIT
        } else {
            nx
        };
        let ny = self.y + dy;
        self.y = if ny < -POS_LIMIT {
            -POS_LIMIT
        } else if ny > POS_LIMIT {
            POS_LIMIT
        } else {
            ny
        };
    }
}

impl Entity {
    /// One per-frame step: advance age, count lifetime and fire cooldown
    /// down, apply the movement rule, then the kind-specific behavior
    /// (player input motion and playfield clamping; enemy, variant and boss
    /// fire when their cooldown runs out; spinning projectiles advance
    /// their angle). Returns the projectiles spawned by firing. `jitter` is
    /// this frame's random draw for procedural movement; the caller draws
    /// it in the range the movement rule expects.
    #[verifier::rlimit(60)]
    pub fn update(
        &mut self,
        delta_ms: u64,
        input: &Input,
        window_width: u32,
        window_height: u32,
        jitter: i64,
    ) -> (spawned: Vec<Entity>)
        requires
            old(self).valid(),
            delta_ms <= DELTA_LIMIT,
            window_width <= WINDOW_LIMIT,
            window_height <= WINDOW_LIMIT,
            spec_jitter_ok(old(self).movement, jitter as int),
        ensures
            *final(self) == spec_entity_step(
                *old(self),
                delta_ms,
                *input,
                window_width,
                window_height,
                jitter as int,
            ),
            final(self).valid(),
            spawned@ =~= spec_fired(*old(self), delta_ms, jitter as int),
            forall|i: int| 0 <= i < spawned@.len() ==> (#[trigger] spawned@[i]).valid(),
    {
        let ghost e0 = *self;

        // Age, lifetime, fire cooldown.
        let t = self.timer + delta_ms;
        self.timer = if t > TIMER_CAP {
            TIMER_CAP
        } else {
            t
        };
        self.lifetime = match self.lifetime {
            Lifetime::Forever => Lifetime::Forever,
            Lifetime::Milliseconds(r) => {
                let nr = r - delta_ms as i64;
                Lifetime::Milliseconds(
                    if nr < LIFETIME_MIN {
                        LIFETIME_MIN
                    } else {
                        nr
                    },
                )
            },
        };
        let c = self.bullet_cooldown - delta_ms as i64;
        self.bullet_cooldown = if c < 0 {
            0
        } else {
            c
        };

        // Movement displacement.
        let (vx, vy) = match self.movement {
            Movement::Static => (0i64, 0i64),
            Movement::Linear(dx, dy) => (dx, dy),
            Movement::Generated(k) => generated_velocity(k, self.timer, self.seed, jitter),
        };
        assert(-VEL_LIMIT <= vx <= VEL_LIMIT && -VEL_LIMIT <= vy <= VEL_LIMIT);
        proof {
            assert(vx * delta_ms <= VEL_LIMIT * DELTA_LIMIT && vx * delta_ms >= -VEL_LIMIT
                * DELTA_LIMIT && vy * delta_ms <= VEL_LIMIT * DELTA_LIMIT && vy * delta_ms
                >= -VEL_LIMIT * DELTA_LIMIT) by (nonlinear_arith)
                requires
                    -VEL_LIMIT <= vx <= VEL_LIMIT,
                    -VEL_LIMIT <= vy <= VEL_LIMIT,
                    0 <= delta_ms <= DELTA_LIMIT,
            ;
        }
        self.translate(vx * delta_ms as i64, vy * delta_ms as i64);
        assert(*self == spec_after_motion(e0, delta_ms, jitter as int));

        // Kind-specific behavior.
        let mut spawned: Vec<Entity> = Vec::new();
        match self.entity_type {
            EntityType::Player => {
                self.player_step(delta_ms, input, window_width, window_height);
            },
            EntityType::Enemy => {
                if self.bullet_cooldown == 0 {
                    self.bullet_cooldown = ENEMY_BULLET_COOLDOWN;
                    spawned.push(
                        enemy_bullet_at(
                            self.x + self.bounds.x,
                            self.y + self.bounds.y + self.bounds.h,
                            ANGLE_DOWN_MRAD,
                        ),
                    );
                }
            },
            EntityType::EnemyBlueScreen => {
                if self.bullet_cooldown == 0 {
                    self.bullet_cooldown = ENEMY_BULLET_COOLDOWN;
                    let bx = self.x + self.bounds.x;
                    let by = self.y + self.bounds.y + self.bounds.h;
                    spawned.push(enemy_bullet_at(bx, by, ANGLE_DOWN_LEFT_MRAD));
                    spawned.push(enemy_bullet_at(bx, by, ANGLE_DOWN_MRAD));
                    spawned.push(enemy_bullet_at(bx, by, ANGLE_DOWN_RIGHT_MRAD));
                }
            },
            EntityType::Boss => {
                let ghost m = *self;
                if self.bullet_cooldown == 0 {
                    boss_ring(*self, &mut spawned);
                    self.bullet_cooldown = BOSS_BULLET_COOLDOWN;
                }
                self.angle = ((self.angle as u64 + (delta_ms * 5) / 3) % (TAU_MRAD as u64)) as i64;
                assert(*self == spec_boss_turn(m, delta_ms));
            },
            EntityType::PlayerBullet => {
                self.angle = ((self.angle as u64 + delta_ms * 10) % (TAU_MRAD as u64)) as i64;
            },
            _ => {},
        }
        spawned
    }
}


impl Entity {
    /// The player's kind-specific step: translate by the input direction
    /// (diagonals scaled so diagonal speed equals axis speed), then clamp
    /// the collision box into the playfield.
    fn player_step(&mut self, delta_ms: u64, input: &Input, window_width: u32, window_height: u32)
        requires
            -POS_LIMIT <= old(self).x <= POS_LIMIT,
            -POS_LIMIT <= old(self).y <= POS_LIMIT,
            0 <= old(self).vel <= VEL_LIMIT,
            0 <= old(self).bounds.x <= BOUNDS_LIMIT,
            0 <= old(self).bounds.y <= BOUNDS_LIMIT,
            0 <= old(self).bounds.w <= BOUNDS_LIMIT,
            0 <= old(self).bounds.h <= BOUNDS_LIMIT,
            delta_ms <= DELTA_LIMIT,
            window_width <= WINDOW_LIMIT,
            window_height <= WINDOW_LIMIT,
        ensures
            *final(self) == spec_player_move(
                *old(self),
                delta_ms,
                *input,
                window_width,
                window_height,
            ),
            -POS_LIMIT <= final(self).x <= POS_LIMIT,
            -POS_LIMIT <= final(self).y <= POS_LIMIT,
    {
        proof {
            assert(self.vel * delta_ms <= VEL_LIMIT * DELTA_LIMIT && 0 <= self.vel * delta_ms
                && self.vel * 707 <= VEL_LIMIT * 707 && 0 <= self.vel * 707) by (nonlinear_arith)
                requires
                    0 <= self.vel <= VEL_LIMIT,
                    0 <= delta_ms <= DELTA_LIMIT,
            ;
            let dg = self.vel * 707 / 1000;
            vstd::arithmetic::div_mod::lemma_div_is_ordered(0, self.vel * 707, 1000);
            vstd::arithmetic::div_mod::lemma_div_is_ordered(
                self.vel * 707,
                VEL_LIMIT as int * 707,
                1000,
            );
            assert(VEL_LIMIT as int * 707 / 1000 <= VEL_LIMIT);
            assert(dg * delta_ms <= VEL_LIMIT * DELTA_LIMIT && 0 <= dg * delta_ms)
                by (nonlinear_arith)
                requires
                    0 <= dg <= VEL_LIMIT,
                    0 <= delta_ms <= DELTA_LIMIT,
            ;
        }
        let axis = self.vel * delta_ms as i64;
        let diag = (((self.vel as u64) * 707 / 1000) as i64) * delta_ms as i64;
        let (dx, dy): (i64, i64) = if input.up && !input.right && !input.down && !input.left {
            (0, -axis)
        } else if input.up && input.right && !input.down && !input.left {
            (diag, -diag)
        } else if !input.up && input.right && !input.down && !input.left {
            (axis, 0)
        } else if !input.up && input.right && input.down && !input.left {
            (diag, diag)
        } else if !input.up && !input.right && input.down && !input.left {
            (0, axis)
        } else if !input.up && !input.right && input.down && input.left {
            (-diag, diag)
        } else if !input.up && !input.right && !input.down && input.left {
            (-axis, 0)
        } else if input.up && !input.right && !input.down && input.left {
            (-diag, -diag)
        } else {
            (0, 0)
        };
        self.translate(dx, dy);
        let limit_x = (window_width as i64) * MICRO;
        let limit_y = (window_height as i64) * MICRO;
        if self.x + self.bounds.x < 0 {
            self.x = -self.bounds.x;
        }
        if self.x + self.bounds.x + self.bounds.w > limit_x {
            self.x = limit_x - self.bounds.x - self.bounds.w;
        }
        if self.y + self.bounds.y < 0 {
            self.y = -self.bounds.y;
        }
        if self.y + self.bounds.y + self.bounds.h > limit_y {
            self.y = limit_y - self.bounds.y - self.bounds.h;
        }
    }
}

/// Append a boss's four-bullet radial ring to `spawned`: bullet `i` leaves
/// the ring around the boss's collision box at its facing angle plus `i`
/// quarter turns.
fn boss_ring(m: Entity, spawned: &mut Vec<Entity>)
    requires
        m.valid(),
    ensures
        final(spawned)@ =~= old(spawned)@ + Seq::new(
            BOSS_BULLET_NUMBER as nat,
            |j: int| spec_boss_bullet(m, j),
        ),
        forall|j: int|
            old(spawned)@.len() <= j < final(spawned)@.len()
                ==> (#[trigger] final(spawned)@[j]).valid(),
{
    let cx = m.x + m.bounds.x + ((m.bounds.w as u64 / 2) as i64);
    let cy = m.y + m.bounds.y + ((m.bounds.h as u64 / 2) as i64);
    let r = (((m.bounds.x * 2 + m.bounds.w) as u64) / 2) as i64;
    let mut i: i64 = 0;
    while i < BOSS_BULLET_NUMBER
        invariant
            0 <= i <= BOSS_BULLET_NUMBER,
            m.valid(),
            cx == m.x + m.bounds.x + m.bounds.w / 2,
            cy == m.y + m.bounds.y + m.bounds.h / 2,
            r == (m.bounds.x * 2 + m.bounds.w) / 2,
            spawned@ =~= old(spawned)@ + Seq::new(i as nat, |j: int| spec_boss_bullet(m, j)),
            forall|j: int|
                old(spawned)@.len() <= j < spawned@.len() ==> (#[trigger] spawned@[j]).valid(),
        decreases BOSS_BULLET_NUMBER - i,
    {
        let a = m.angle + HALF_PI_MRAD * i;
        let bullet = enemy_bullet_at(cx + scale_milli(r, cos1k(a)), cy - scale_milli(r, sin1k(a)), a);
        spawned.push(bullet);
        i = i + 1;
    }
}

impl Default for Entity {
    /// The null entity: an `Empty` tag with one hit point, a unit collision
    /// box, no motion and no label; constructors override the parts they
    /// care about.
    fn default() -> (e: Entity)
        ensures
            e == spec_default_entity(),
            e.valid(),
    {
        Entity {
            angle: 0,
            bounds: Rect { x: 0, y: 0, w: MICRO, h: MICRO },
            bullet_cooldown: 0,
            damage: 1,
            entity_type: EntityType::Empty,
            hp: 1,
            lifetime: Lifetime::Forever,
            movement: Movement::Static,
            name: NameId::Anon,
            seed: 1000,
            timer: 0,
            vel: 0,
            x: 0,
            y: 0,
        }
    }
}

/// Milli-radian angle pointing straight down the playfield (three quarter
/// turns; the sine there is exactly minus one, so a bullet fired at this
/// angle moves straight down).
pub const ANGLE_DOWN_MRAD: i64 = 4713;

/// Milli-radian angle of the enemy variant's left spread shot (five
/// eighths of a turn).
pub const ANGLE_DOWN_LEFT_MRAD: i64 = 3927;

/// Milli-radian angle of the enemy variant's right spread shot (seven
/// eighths of a turn).
pub const ANGLE_DOWN_RIGHT_MRAD: i64 = 5498;

/// The age counter advances by the frame delta, saturating at the cap.
pub open spec fn spec_step_timer(t: u64, delta: u64) -> u64 {
    if t + delta > TIMER_CAP {
        TIMER_CAP as u64
    } else {
        (t + delta) as u64
    }
}

/// A bounded lifetime counts down by the frame delta (saturating far below
/// zero); an unbounded one is unaffected. Expiry is only observed by the
/// end-of-frame cull, so the counter may go negative here.
pub open spec fn spec_step_lifetime(l: Lifetime, delta: u64) -> Lifetime {
    match l {
        Lifetime::Forever => Lifetime::Forever,
        Lifetime::Milliseconds(r) => Lifetime::Milliseconds(
            (if r - delta < LIFETIME_MIN {
                LIFETIME_MIN as int
            } else {
                r - delta
            }) as i64,
        ),
    }
}

/// A fire cooldown counts down by the frame delta and clamps at zero, so it
/// is never observed negative.
pub open spec fn spec_step_cooldown(c: i64, delta: u64) -> i64 {
    if c - delta < 0 {
        0
    } else {
        (c - delta) as i64
    }
}

/// The per-frame random jitter each procedural pattern expects.
pub open spec fn spec_kind_jitter_ok(k: GeneratedKind, j: int) -> bool {
    match k {
        GeneratedKind::EnemySine => -3000 <= j < 3000,
        GeneratedKind::BlueScreenSine => 100 <= j < 3000,
        GeneratedKind::BossSweep => j == 0,
    }
}

/// Movement rules other than a procedural pattern take no jitter.
pub open spec fn spec_jitter_ok(m: Movement, j: int) -> bool {
    match m {
        Movement::Generated(k) => spec_kind_jitter_ok(k, j),
        _ => j == 0,
    }
}

/// The velocity, in milli-pixels per second, a procedural pattern yields
/// for a given age, seed and jitter draw.
pub open spec fn spec_generated_velocity(k: GeneratedKind, timer: u64, seed: int, jitter: int) -> (
    int,
    int,
) {
    match k {
        GeneratedKind::EnemySine => (
            (spec_sin1k(timer + seed * 1000) + jitter) * 60,
            (1000 + spec_sin1k(timer * 10 / 9 + seed * 100)) * 60,
        ),
        GeneratedKind::BlueScreenSine => (
            (spec_sin1k(timer + seed * 300) + 2 * spec_sin1k(timer * 1000)) * 60,
            (1000 + spec_sin1k(timer * 10 / 9 + seed * 100) + jitter) * 20,
        ),
        GeneratedKind::BossSweep => (spec_sin1k(timer + seed * 1000) * 60, 20_000),
    }
}

/// The velocity a movement rule yields this frame.
pub open spec fn spec_move_velocity(m: Movement, timer: u64, seed: int, jitter: int) -> (int, int) {
    match m {
        Movement::Static => (0, 0),
        Movement::Linear(dx, dy) => (dx as int, dy as int),
        Movement::Generated(k) => spec_generated_velocity(k, timer, seed, jitter),
    }
}

/// The velocity, in milli-pixels per second, a procedural pattern yields.
pub fn generated_velocity(k: GeneratedKind, timer: u64, seed: i64, jitter: i64) -> (v: (i64, i64))
    requires
        timer <= TIMER_CAP,
        -1000 <= seed <= 1000,
        spec_kind_jitter_ok(k, jitter as int),
    ensures
        v.0 == spec_generated_velocity(k, timer, seed as int, jitter as int).0,
        v.1 == spec_generated_velocity(k, timer, seed as int, jitter as int).1,
        -VEL_LIMIT <= v.0 <= VEL_LIMIT,
        -VEL_LIMIT <= v.1 <= VEL_LIMIT,
{
    let t = timer as i64;
    match k {
        GeneratedKind::EnemySine => {
            let vx = (sin1k(t + seed * 1000) + jitter) * 60;
            let vy = (1000 + sin1k(((timer * 10) / 9) as i64 + seed * 100)) * 60;
            (vx, vy)
        },
        GeneratedKind::BlueScreenSine => {
            let vx = (sin1k(t + seed * 300) + 2 * sin1k(t * 1000)) * 60;
            let vy = (1000 + sin1k(((timer * 10) / 9) as i64 + seed * 100) + jitter) * 20;
            (vx, vy)
        },
        GeneratedKind::BossSweep => (sin1k(t + seed * 1000) * 60, 20_000),
    }
}

/// The entity after the kind-independent part of a frame: age, lifetime and
/// cooldown stepped, then the movement rule's displacement applied.
pub open spec fn spec_after_motion(e: Entity, delta: u64, jitter: int) -> Entity {
    let t = spec_step_timer(e.timer, delta);
    let v = spec_move_velocity(e.movement, t, e.seed as int, jitter);
    Entity {
        timer: t,
        lifetime: spec_step_lifetime(e.lifetime, delta),
        bullet_cooldown: spec_step_cooldown(e.bullet_cooldown, delta),
        x: spec_clamp_pos(e.x + v.0 * delta) as i64,
        y: spec_clamp_pos(e.y + v.1 * delta) as i64,
        ..e
    }
}

/// The displacement, in micro-pixels, the player's directional input flags
/// produce this frame. Opposing flags cancel; diagonals are scaled so that
/// diagonal speed equals axis speed.
pub open spec fn spec_player_disp(vel: int, delta: u64, input: Input) -> (int, int) {
    let a = vel * delta;
    let d = vel * 707 / 1000 * delta;
    if input.up && !input.right && !input.down && !input.left {
        (0, -a)
    } else if input.up && input.right && !input.down && !input.left {
        (d, -d)
    } else if !input.up && input.right && !input.down && !input.left {
        (a, 0)
    } else if !input.up && input.right && input.down && !input.left {
        (d, d)
    } else if !input.up && !input.right && input.down && !input.left {
        (0, a)
    } else if !input.up && !input.right && input.down && input.left {
        (-d, d)
    } else if !input.up && !input.right && !input.down && input.left {
        (-a, 0)
    } else if input.up && !input.right && !input.down && input.left {
        (-d, -d)
    } else {
        (0, 0)
    }
}

/// Clamp one axis of the player's position so its collision box stays
/// within `[0, limit]`; if the box is wider than the playfield the upper
/// clamp wins.
pub open spec fn spec_clamp_axis(p: int, off: int, size: int, limit: int) -> int {
    let low_clamped = if p + off < 0 {
        -off
    } else {
        p
    };
    if low_clamped + off + size > limit {
        limit - off - size
    } else {
        low_clamped
    }
}

/// Whether an armed kind's fire cooldown runs out this frame (in which
/// case it fires and the cooldown resets).
pub open spec fn spec_fires(e: Entity, delta: u64) -> bool {
    &&& (e.entity_type == EntityType::Enemy || e.entity_type == EntityType::EnemyBlueScreen
        || e.entity_type == EntityType::Boss)
    &&& spec_step_cooldown(e.bullet_cooldown, delta) == 0
}

/// One full per-frame step of a single entity, excluding the projectiles it
/// spawns (see `spec_fired`).
pub open spec fn spec_entity_step(
    e: Entity,
    delta: u64,
    input: Input,
    ww: u32,
    wh: u32,
    jitter: int,
) -> Entity {
    let m = spec_after_motion(e, delta, jitter);
    match e.entity_type {
        EntityType::Player => spec_player_move(m, delta, input, ww, wh),
        EntityType::Enemy | EntityType::EnemyBlueScreen => {
            if m.bullet_cooldown == 0 {
                Entity { bullet_cooldown: ENEMY_BULLET_COOLDOWN, ..m }
            } else {
                m
            }
        },
        EntityType::Boss => spec_boss_turn(m, delta),
        EntityType::PlayerBullet => Entity {
            angle: ((m.angle + delta * 10) % (TAU_MRAD as int)) as i64,
            ..m
        },
        _ => m,
    }
}

/// The player's kind-specific part of a frame: input displacement, then
/// clamping so the collision box stays within the playfield.
pub open spec fn spec_player_move(m: Entity, delta: u64, input: Input, ww: u32, wh: u32) -> Entity {
    let d = spec_player_disp(m.vel as int, delta, input);
    let px = spec_clamp_pos(m.x + d.0);
    let py = spec_clamp_pos(m.y + d.1);
    Entity {
        x: spec_clamp_axis(px, m.bounds.x as int, m.bounds.w as int, ww * MICRO) as i64,
        y: spec_clamp_axis(py, m.bounds.y as int, m.bounds.h as int, wh * MICRO) as i64,
        ..m
    }
}

/// The boss's kind-specific part of a frame: the cooldown resets if it ran
/// out, and the facing angle advances at a fixed angular rate, normalized
/// to one turn.
pub open spec fn spec_boss_turn(m: Entity, delta: u64) -> Entity {
    let m2 = if m.bullet_cooldown == 0 {
        Entity { bullet_cooldown: BOSS_BULLET_COOLDOWN, ..m }
    } else {
        m
    };
    Entity { angle: ((m2.angle + delta * 5 / 3) % (TAU_MRAD as int)) as i64, ..m2 }
}

/// An enemy projectile at a position, aimed along an angle: its linear
/// velocity is the enemy bullet speed scaled by the angle's cosine and
/// sine. Position saturates at the world limit.
pub open spec fn spec_enemy_bullet(x: int, y: int, angle: int) -> Entity {
    Entity {
        bounds: Rect { x: 0, y: 0, w: (25 * MICRO) as i64, h: (25 * MICRO) as i64 },
        entity_type: EntityType::EnemyBullet,
        lifetime: Lifetime::Milliseconds(8000),
        movement: Movement::Linear(
            spec_scale_milli(ENEMY_BULLET_SPEED as int, spec_cos1k(angle)) as i64,
            (-spec_scale_milli(ENEMY_BULLET_SPEED as int, spec_sin1k(angle))) as i64,
        ),
        x: spec_clamp_pos(x) as i64,
        y: spec_clamp_pos(y) as i64,
        ..spec_default_entity()
    }
}

/// One bullet of a boss's radial ring: bullet `i` leaves the ring around
/// the boss's collision box at the facing angle plus `i` quarter turns.
pub open spec fn spec_boss_bullet(m: Entity, i: int) -> Entity {
    let a = m.angle + 1571 * i;
    let cx = m.x + m.bounds.x + m.bounds.w / 2;
    let cy = m.y + m.bounds.y + m.bounds.h / 2;
    let r = (m.bounds.x * 2 + m.bounds.w) / 2;
    spec_enemy_bullet(
        cx + spec_scale_milli(r, spec_cos1k(a)),
        cy - spec_scale_milli(r, spec_sin1k(a)),
        a,
    )
}

/// The projectiles an entity spawns this frame: nothing unless an armed
/// kind's cooldown ran out; then one straight-down shot for an enemy, a
/// three-way spread for the enemy variant, and a four-bullet ring for the
/// boss, all positioned from the entity after its movement.
pub open spec fn spec_fired(e: Entity, delta: u64, jitter: int) -> Seq<Entity> {
    let m = spec_after_motion(e, delta, jitter);
    if !spec_fires(e, delta) {
        Seq::empty()
    } else if e.entity_type == EntityType::Enemy {
        seq![
            spec_enemy_bullet(
                m.x + m.bounds.x,
                m.y + m.bounds.y + m.bounds.h,
                ANGLE_DOWN_MRAD as int,
            ),
        ]
    } else if e.entity_type == EntityType::EnemyBlueScreen {
        seq![
            spec_enemy_bullet(
                m.x + m.bounds.x,
                m.y + m.bounds.y + m.bounds.h,
                ANGLE_DOWN_LEFT_MRAD as int,
            ),
            spec_enemy_bullet(
                m.x + m.bounds.x,
                m.y + m.bounds.y + m.bounds.h,
                ANGLE_DOWN_MRAD as int,
            ),
            spec_enemy_bullet(
                m.x + m.bounds.x,
                m.y + m.bounds.y + m.bounds.h,
                ANGLE_DOWN_RIGHT_MRAD as int,
            ),
        ]
    } else {
        Seq::new(BOSS_BULLET_NUMBER as nat, |i: int| spec_boss_bullet(m, i))
    }
}

/// An enemy projectile at `(x, y)` micro-pixels aimed along `angle`
/// milli-radians.
pub fn enemy_bullet_at(x: i64, y: i64, angle: i64) -> (e: Entity)
    requires
        -2_000_000_000_000_000 <= x <= 2_000_000_000_000_000,
        -2_000_000_000_000_000 <= y <= 2_000_000_000_000_000,
        0 <= angle <= 100_000,
    ensures
        e == spec_enemy_bullet(x as int, y as int, angle as int),
        e.valid(),
{
    let mut e = Entity::default();
    e.bounds = Rect { x: 0, y: 0, w: 25 * MICRO, h: 25 * MICRO };
    e.entity_type = EntityType::EnemyBullet;
    e.lifetime = Lifetime::Milliseconds(8000);
    e.movement = Movement::Linear(
        scale_milli(ENEMY_BULLET_SPEED, cos1k(angle)),
        -scale_milli(ENEMY_BULLET_SPEED, sin1k(angle)),
    );
    e.x = if x < -POS_LIMIT {
        -POS_LIMIT
    } else if x > POS_LIMIT {
        POS_LIMIT
    } else {
        x
    };
    e.y = if y < -POS_LIMIT {
        -POS_LIMIT
    } else if y > POS_LIMIT {
        POS_LIMIT
    } else {
        y
    };
    e
}

/// The value `Entity::default` returns.
pub open spec fn spec_default_entity() -> Entity {
    Entity {
        angle: 0,
        bounds: Rect { x: 0, y: 0, w: MICRO as i64, h: MICRO as i64 },
        bullet_cooldown: 0,
        damage: 1,
        entity_type: EntityType::Empty,
        hp: 1,
        lifetime: Lifetime::Forever,
        movement: Movement::Static,
        name: NameId::Anon,
        seed: 1000,
        timer: 0,
        vel: 0,
        x: 0,
        y: 0,
    }
}



/// The entity after a sequence of frames: each frame steps it with the
/// matching delta and procedural jitter, under fixed input and playfield.
pub open spec fn spec_steps(
    e: Entity,
    deltas: Seq<u64>,
    jitters: Seq<int>,
    input: Input,
    ww: u32,
    wh: u32,
) -> Entity
    decreases deltas.len(),
{
    if deltas.len() == 0 {
        e
    } else {
        spec_steps(
            spec_entity_step(e, deltas[0], input, ww, wh, jitters[0]),
            deltas.skip(1),
            jitters.skip(1),
            input,
            ww,
            wh,
        )
    }
}

/// The total time a sequence of frame deltas covers.
pub open spec fn spec_sum(deltas: Seq<u64>) -> int
    decreases deltas.len(),
{
    if deltas.len() == 0 {
        0
    } else {
        deltas[0] + spec_sum(deltas.skip(1))
    }
}

/// A sum of frame deltas is never negative.
pub proof fn lemma_sum_nonneg(deltas: Seq<u64>)
    ensures
        spec_sum(deltas) >= 0,
    decreases deltas.len(),
{
    if deltas.len() > 0 {
        lemma_sum_nonneg(deltas.skip(1));
    }
}

/// A Static movement rule never moves an entity: after any number of
/// frames of any size, a non-player entity with Static movement is at its
/// starting position. (The player is excluded because input, not its
/// movement rule, displaces it.)
pub proof fn lemma_static_position_unchanged(
    e: Entity,
    deltas: Seq<u64>,
    jitters: Seq<int>,
    input: Input,
    ww: u32,
    wh: u32,
)
    requires
        e.movement == Movement::Static,
        e.entity_type != EntityType::Player,
        -POS_LIMIT <= e.x <= POS_LIMIT,
        -POS_LIMIT <= e.y <= POS_LIMIT,
        jitters.len() >= deltas.len(),
    ensures
        spec_steps(e, deltas, jitters, input, ww, wh).x == e.x,
        spec_steps(e, deltas, jitters, input, ww, wh).y == e.y,
    decreases deltas.len(),
{
    if deltas.len() > 0 {
        let s1 = spec_entity_step(e, deltas[0], input, ww, wh, jitters[0]);
        assert(s1.x == e.x && s1.y == e.y && s1.movement == e.movement && s1.entity_type
            == e.entity_type);
        lemma_static_position_unchanged(s1, deltas.skip(1), jitters.skip(1), input, ww, wh);
    }
}

/// Linear motion is frame-size independent: however a stretch of time is
/// divided into frames, a non-player entity with Linear movement ends up
/// displaced by exactly its velocity times the total time (in micro-pixels:
/// `dx * spec_sum(deltas)`), provided the straight path stays within the
/// world position range so no clamping occurs.
pub proof fn lemma_linear_frame_independent(
    e: Entity,
    dx: i64,
    dy: i64,
    deltas: Seq<u64>,
    jitters: Seq<int>,
    input: Input,
    ww: u32,
    wh: u32,
)
    requires
        e.movement == Movement::Linear(dx, dy),
        e.entity_type != EntityType::Player,
        -POS_LIMIT <= e.x <= POS_LIMIT,
        -POS_LIMIT <= e.y <= POS_LIMIT,
        -POS_LIMIT <= e.x + dx * spec_sum(deltas) <= POS_LIMIT,
        -POS_LIMIT <= e.y + dy * spec_sum(deltas) <= POS_LIMIT,
        jitters.len() >= deltas.len(),
    ensures
        spec_steps(e, deltas, jitters, input, ww, wh).x == e.x + dx * spec_sum(deltas),
        spec_steps(e, deltas, jitters, input, ww, wh).y == e.y + dy * spec_sum(deltas),
    decreases deltas.len(),
{
    if deltas.len() == 0 {
        assert(dx * 0 == 0 && dy * 0 == 0) by (nonlinear_arith);
    } else {
        let d0 = deltas[0] as int;
        let rest = spec_sum(deltas.skip(1));
        lemma_sum_nonneg(deltas.skip(1));
        assert(spec_sum(deltas) == d0 + rest);
        assert(dx * (d0 + rest) == dx * d0 + dx * rest && dy * (d0 + rest) == dy * d0 + dy
            * rest) by (nonlinear_arith);
        assert((dx >= 0 ==> 0 <= dx * d0 <= dx * (d0 + rest)) && (dx < 0 ==> dx * (d0 + rest)
            <= dx * d0 <= 0) && (dy >= 0 ==> 0 <= dy * d0 <= dy * (d0 + rest)) && (dy < 0
            ==> dy * (d0 + rest) <= dy * d0 <= 0)) by (nonlinear_arith)
            requires
                0 <= d0,
                0 <= rest,
        ;
        let s1 = spec_entity_step(e, deltas[0], input, ww, wh, jitters[0]);
        assert(s1.x == e.x + dx * d0 && s1.y == e.y + dy * d0);
        assert(s1.movement == e.movement && s1.entity_type == e.entity_type);
        lemma_linear_frame_independent(
            s1,
            dx,
            dy,
            deltas.skip(1),
            jitters.skip(1),
            input,
            ww,
            wh,
        );
    }
}

/// A fire cooldown is never observed negative: a frame counts it down,
/// clamping at zero; once it is zero it stays zero until a fire resets it;
/// and a fire resets it to the firing kind's configured interval.
pub proof fn lemma_fire_cooldown(
    e: Entity,
    delta: u64,
    input: Input,
    ww: u32,
    wh: u32,
    jitter: int,
)
    requires
        0 <= e.bullet_cooldown,
    ensures
        spec_entity_step(e, delta, input, ww, wh, jitter).bullet_cooldown >= 0,
        !spec_fires(e, delta) ==> spec_entity_step(
            e,
            delta,
            input,
            ww,
            wh,
            jitter,
        ).bullet_cooldown == spec_step_cooldown(e.bullet_cooldown, delta),
        !spec_fires(e, delta) && e.bullet_cooldown <= delta ==> spec_entity_step(
            e,
            delta,
            input,
            ww,
            wh,
            jitter,
        ).bullet_cooldown == 0,
        spec_fires(e, delta) ==> spec_entity_step(e, delta, input, ww, wh, jitter).bullet_cooldown
            == if e.entity_type == EntityType::Boss {
            BOSS_BULLET_COOLDOWN as int
        } else {
            ENEMY_BULLET_COOLDOWN as int
        },
{
}

impl Entity {
    /// Runtime check of `valid`, for an embedding program that builds
    /// entities by hand and must test them before handing them to the
    /// verified simulation.
    pub fn is_valid(&self) -> (r: bool)
        ensures
            r == self.valid(),
    {
        let life_ok = match self.lifetime {
            Lifetime::Forever => true,
            Lifetime::Milliseconds(r) => LIFETIME_MIN <= r && r <= LIFETIME_LIMIT,
        };
        let move_ok = match self.movement {
            Movement::Linear(dx, dy) => -VEL_LIMIT <= dx && dx <= VEL_LIMIT && -VEL_LIMIT <= dy
                && dy <= VEL_LIMIT,
            _ => true,
        };
        let name_ok = match self.name {
            NameId::EnemyWord(i) => i < ENEMY_NAME_COUNT,
            _ => true,
        };
        0 <= self.angle && self.angle < TAU_MRAD && 0 <= self.bounds.x && self.bounds.x
            <= BOUNDS_LIMIT && 0 <= self.bounds.y && self.bounds.y <= BOUNDS_LIMIT && 0
            <= self.bounds.w && self.bounds.w <= BOUNDS_LIMIT && 0 <= self.bounds.h
            && self.bounds.h <= BOUNDS_LIMIT && 0 <= self.bullet_cooldown && self.bullet_cooldown
            <= COOLDOWN_LIMIT && 0 <= self.damage && self.damage <= DAMAGE_LIMIT && HP_MIN
            <= self.hp && self.hp <= HP_LIMIT && life_ok && move_ok && name_ok && -1000
            <= self.seed && self.seed <= 1000 && self.timer <= TIMER_CAP && 0 <= self.vel
            && self.vel <= VEL_LIMIT && -POS_LIMIT <= self.x && self.x <= POS_LIMIT && -POS_LIMIT
            <= self.y && self.y <= POS_LIMIT
    }
}

} // verus!
