//! The match state: the entity collection, timing, input snapshot, score
//! and powerup flags, plus starting a match and advancing the clock.

use vstd::prelude::*;

verus! {

use crate::entity::{Entity, EntityType, Input, NameId, spec_default_entity};
use crate::geom::Rect;
use crate::scores::{Scores, spec_insert_pos, MAX_SCORES};
use crate::spawner::{EntitySpawner, spec_base_cooldowns};
use crate::{
    MICRO, DELTA_LIMIT, ENTITY_CAP, MAX_UPGRADE_LEVEL, WINDOW_LIMIT, PLAYER_BULLET_COOLDOWN,
    COOLDOWN_LIMIT,
};

/// Whether the menu, the running match, or the win screen is active.
#[derive(Clone, Copy, PartialEq, Eq, Structural, Debug)]
pub enum GameMode {
    Menu,
    Game,
    Win,
}

/// Everything one match needs: the ordered entity collection, frame and
/// match clocks, the input snapshot, the spawner, score, powerup state and
/// the playfield dimensions (read-only configuration).
pub struct MainState {
    /// Time since the previous frame, in milliseconds.
    pub delta_ms: u64,
    /// Time since the start of the match, in milliseconds.
    pub elapsed_ms: u64,
    /// Every live entity, in spawn order.
    pub entities: Vec<Entity>,
    pub game_mode: GameMode,
    /// Recent high scores.
    pub high_scores: Scores,
    /// The player input snapshot read at the top of each frame.
    pub input: Input,
    /// Set when the player asks to leave; the embedding program acts on it.
    pub quit: bool,
    pub score: i32,
    /// Generates enemies, bosses and powerups on a cooldown schedule.
    pub spawner: EntitySpawner,
    /// Current gun level; the player fires this many bullets per shot.
    pub gun_level: u32,
    /// Whether a shield powerup is protecting the player.
    pub shield_active: bool,
    /// Playfield width in pixels, fixed at startup.
    pub window_width: u32,
    /// Playfield height in pixels, fixed at startup.
    pub window_height: u32,
}

/// The player entity a new match starts with: five hit points, centered
/// horizontally with its collision box resting on the bottom edge.
pub open spec fn spec_new_player(ww: u32, wh: u32) -> Entity {
    Entity {
        bounds: Rect {
            x: (60 * MICRO) as i64,
            y: (40 * MICRO) as i64,
            w: (10 * MICRO) as i64,
            h: (18 * MICRO) as i64,
        },
        bullet_cooldown: PLAYER_BULLET_COOLDOWN as i64,
        damage: 0,
        entity_type: EntityType::Player,
        hp: 5,
        name: NameId::Ferris,
        seed: 0,
        vel: 400_000,
        x: (ww * MICRO / 2 - 65 * MICRO) as i64,
        y: (wh * MICRO - 58 * MICRO) as i64,
        ..spec_default_entity()
    }
}

impl MainState {
    /// Frame delta bounded, entity collection capped with every entity
    /// valid, spawner consistent with the playfield, gun level within its
    /// maximum, playfield usable, score nonnegative.
    pub open spec fn wf(self) -> bool {
        &&& self.delta_ms <= DELTA_LIMIT
        &&& self.entities@.len() <= ENTITY_CAP
        &&& (forall|i: int|
            0 <= i < self.entities@.len() ==> (#[trigger] self.entities@[i]).valid())
        &&& self.spawner.valid()
        &&& self.spawner.screen_width == self.window_width
        &&& self.gun_level <= MAX_UPGRADE_LEVEL
        &&& 1 <= self.window_width <= WINDOW_LIMIT
        &&& 1 <= self.window_height <= WINDOW_LIMIT
        &&& 0 <= self.score
    }

    /// A fresh state in the menu, with no entities and an empty score list.
    pub fn new(window_width: u32, window_height: u32) -> (s: MainState)
        requires
            1 <= window_width <= WINDOW_LIMIT,
            1 <= window_height <= WINDOW_LIMIT,
        ensures
            s.delta_ms == 0,
            s.elapsed_ms == 0,
            s.entities@.len() == 0,
            s.game_mode == GameMode::Menu,
            s.high_scores@.len() == 0,
            s.high_scores.wf(),
            s.input == (Input { left: false, right: false, up: false, down: false, shoot: false }),
            !s.quit,
            s.score == 0,
            s.spawner.cooldowns == spec_base_cooldowns(),
            s.gun_level == 0,
            !s.shield_active,
            s.window_width == window_width,
            s.window_height == window_height,
            s.wf(),
    {
        MainState {
            delta_ms: 0,
            elapsed_ms: 0,
            entities: Vec::new(),
            game_mode: GameMode::Menu,
            high_scores: Scores::new(),
            input: Input { left: false, right: false, up: false, down: false, shoot: false },
            quit: false,
            score: 0,
            spawner: EntitySpawner::new(window_width),
            gun_level: 0,
            shield_active: false,
            window_width,
            window_height,
        }
    }

    /// Overwrite the input snapshot; nothing else changes.
    pub fn set_input(&mut self, left: bool, right: bool, up: bool, down: bool, shoot: bool)
        ensures
            final(self).input == (Input { left, right, up, down, shoot }),
            *final(self) == (MainState { input: final(self).input, ..*old(self) }),
    {
        self.input = Input { left, right, up, down, shoot };
    }

    /// Set the quit flag; nothing else changes.
    pub fn request_quit(&mut self)
        ensures
            final(self).quit,
            *final(self) == (MainState { quit: true, ..*old(self) }),
    {
        self.quit = true;
    }
}

/// Start a new match: clear the entities, reset clocks, spawner, score and
/// powerup state, and create a fresh player entity in the first slot.
pub fn new_game(state: &mut MainState)
    requires
        old(state).wf(),
    ensures
        final(state).wf(),
        final(state).entities@ =~= seq![
            spec_new_player(old(state).window_width, old(state).window_height),
        ],
        final(state).elapsed_ms == 0,
        final(state).spawner.cooldowns == spec_base_cooldowns(),
        final(state).spawner.screen_width == old(state).spawner.screen_width,
        final(state).score == 0,
        final(state).gun_level == 1,
        !final(state).shield_active,
        final(state).delta_ms == old(state).delta_ms,
        final(state).game_mode == old(state).game_mode,
        final(state).input == old(state).input,
        final(state).quit == old(state).quit,
        final(state).high_scores == old(state).high_scores,
        final(state).window_width == old(state).window_width,
        final(state).window_height == old(state).window_height,
{
    state.entities.clear();
    state.elapsed_ms = 0;
    state.spawner.reset();
    state.score = 0;
    state.gun_level = 1;
    state.shield_active = false;
    let player = Entity {
        bounds: Rect { x: 60 * MICRO, y: 40 * MICRO, w: 10 * MICRO, h: 18 * MICRO },
        bullet_cooldown: PLAYER_BULLET_COOLDOWN,
        damage: 0,
        entity_type: EntityType::Player,
        hp: 5,
        name: NameId::Ferris,
        seed: 0,
        vel: 400_000,
        x: (((state.window_width as u64) * 1_000_000) / 2) as i64 - 65 * MICRO,
        y: (state.window_height as i64) * MICRO - 58 * MICRO,
        ..Entity::default()
    };
    state.entities.push(player);
}

/// Advance the match clock to a new wall-clock sample. The first sample of
/// a match yields a zero delta (no spurious initial jump); later samples
/// yield the time since the previous one, capped at the frame delta limit
/// (a larger gap is a clock fault, not a frame). The clock must not move
/// backwards; the embedding program treats that as a fatal environment
/// error.
pub fn update_time(state: &mut MainState, current_ms: u64)
    requires
        current_ms >= old(state).elapsed_ms,
    ensures
        final(state).elapsed_ms == current_ms,
        final(state).delta_ms == (if old(state).elapsed_ms == 0 {
            0
        } else if current_ms - old(state).elapsed_ms > DELTA_LIMIT {
            DELTA_LIMIT as u64
        } else {
            (current_ms - old(state).elapsed_ms) as u64
        }),
        *final(state) == (MainState {
            delta_ms: final(state).delta_ms,
            elapsed_ms: current_ms,
            ..*old(state)
        }),
        old(state).wf() ==> final(state).wf(),
{
    let d = if state.elapsed_ms == 0 {
        0
    } else {
        current_ms - state.elapsed_ms
    };
    state.delta_ms = if d > DELTA_LIMIT {
        DELTA_LIMIT
    } else {
        d
    };
    state.elapsed_ms = current_ms;
}

/// The minutes and seconds of a match duration, for score records.
pub fn split_time(elapsed_ms: u64) -> (t: (u64, u64))
    ensures
        t.0 == elapsed_ms / 1000 / 60,
        t.1 == elapsed_ms / 1000 % 60,
{
    let total = elapsed_ms / 1000;
    (total / 60, total % 60)
}

/// Record the current score under a player name and a formatted match
/// time: the entry joins the high-score list in descending score order.
pub fn save_score(state: &mut MainState, user: String, time: String)
    requires
        old(state).high_scores.wf(),
    ensures
        final(state).high_scores.wf(),
        final(state).high_scores@ =~= old(state).high_scores@.insert(
            spec_insert_pos(old(state).high_scores@, old(state).score as int),
            (old(state).score, user, time),
        ).take(
            if old(state).high_scores@.len() + 1 <= MAX_SCORES {
                old(state).high_scores@.len() + 1int
            } else {
                MAX_SCORES as int
            },
        ),
        *final(state) == (MainState { high_scores: final(state).high_scores, ..*old(state) }),
{
    let number = state.score;
    state.high_scores.add_score(number, user, time);
}

impl MainState {
    /// Runtime check of `wf`, for an embedding program that must test the
    /// state before handing it to the verified frame update.
    pub fn check_wf(&self) -> (r: bool)
        ensures
            r == self.wf(),
    {
        let n = self.entities.len();
        if n > ENTITY_CAP {
            return false;
        }
        let mut i: usize = 0;
        while i < n
            invariant
                i <= n,
                n == self.entities@.len(),
                forall|k: int| 0 <= k < i ==> (#[trigger] self.entities@[k]).valid(),
            decreases n - i,
        {
            if !self.entities[i].is_valid() {
                return false;
            }
            i = i + 1;
        }
        let c = self.spawner.cooldowns;
        self.delta_ms <= DELTA_LIMIT && 1 <= self.spawner.screen_width
            && self.spawner.screen_width <= WINDOW_LIMIT && 0 <= c.enemy && c.enemy
            <= COOLDOWN_LIMIT && 0 <= c.bluescreen && c.bluescreen <= COOLDOWN_LIMIT && 0 <= c.boss
            && c.boss <= COOLDOWN_LIMIT && 0 <= c.powerbomb && c.powerbomb <= COOLDOWN_LIMIT && 0
            <= c.gunupgrade && c.gunupgrade <= COOLDOWN_LIMIT && 0 <= c.shield && c.shield
            <= COOLDOWN_LIMIT && self.spawner.screen_width == self.window_width && self.gun_level
            <= MAX_UPGRADE_LEVEL && 1 <= self.window_width && self.window_width <= WINDOW_LIMIT
            && 1 <= self.window_height && self.window_height <= WINDOW_LIMIT && 0 <= self.score
    }
}

} // verus!
