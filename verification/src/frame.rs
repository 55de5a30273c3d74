//! The per-frame pipeline around the entity collection: the end-of-frame
//! cull (dying entities scored, replaced by death effects and removed),
//! the player's fan of projectiles, and the per-entity update sweep.

use vstd::prelude::*;

verus! {

use crate::entity::{
    Entity, EntityType, Input, Lifetime, Movement, GeneratedKind, spec_entity_step, spec_fired,
    spec_jitter_ok,
};
use crate::collision::{spec_lifetime_expired, spec_resolve_all, CombatView, handle_collisions};
use crate::rng::random_in_range;
use crate::spawner::{
    spec_spawn_splat, spec_spawn_shutoff, spec_player_bullet, spec_dec_cooldowns,
    spec_spawn_choice, spec_after_choice, spec_spawned_matches,
};
use crate::state::{MainState, GameMode, new_game, spec_new_player};
use crate::trig::{spec_sin1k, spec_cos1k, sin1k, cos1k};
use crate::util::{spec_clamp_pos, spec_scale_milli, scale_milli};
use crate::{
    MICRO, ENTITY_CAP, POS_LIMIT, PLAYER_BULLET_SPEED, PLAYER_BULLET_COOLDOWN,
    SECONDS_UNTIL_MAX_DIFFICULTY,
};

/// Whether an entity dies this frame: its bounded lifetime has run out,
/// its hit points are at or below zero, or it has scrolled past the bottom
/// of the playfield.
pub open spec fn spec_dying(e: Entity, wh: u32) -> bool {
    spec_lifetime_expired(e) || e.hp <= 0 || e.y > wh * MICRO
}

/// Points awarded when an entity of a kind is destroyed by damage.
pub open spec fn spec_kill_points(k: EntityType) -> int {
    if k == EntityType::Enemy {
        10
    } else if k == EntityType::EnemyBlueScreen {
        30
    } else if k == EntityType::Boss {
        200
    } else {
        0
    }
}

/// The death effect a dying entity leaves at its position: a splat for an
/// enemy or the boss, a screen shutoff for the enemy variant, nothing for
/// anything else.
pub open spec fn spec_death_effect(e: Entity) -> Seq<Entity> {
    if e.entity_type == EntityType::Boss || e.entity_type == EntityType::Enemy {
        seq![spec_spawn_splat(e.x as int, e.y as int)]
    } else if e.entity_type == EntityType::EnemyBlueScreen {
        seq![spec_spawn_shutoff(e.x as int, e.y as int)]
    } else {
        Seq::empty()
    }
}

/// The entities after the dying ones are marked: every dying entity's hit
/// points are forced to exactly zero, so removal by hit points alone is
/// exhaustive.
pub open spec fn spec_cull_marked(es: Seq<Entity>, wh: u32) -> Seq<Entity> {
    Seq::new(
        es.len(),
        |i: int|
            if spec_dying(es[i], wh) {
                Entity { hp: 0, ..es[i] }
            } else {
                es[i]
            },
    )
}

/// The death effects of the first `k` entities, in order.
pub open spec fn spec_cull_effects_upto(es: Seq<Entity>, wh: u32, k: int) -> Seq<Entity>
    decreases k,
{
    if k <= 0 {
        Seq::empty()
    } else {
        spec_cull_effects_upto(es, wh, k - 1) + (if spec_dying(es[k - 1], wh) {
            spec_death_effect(es[k - 1])
        } else {
            Seq::empty()
        })
    }
}

/// The points awarded for the first `k` entities: each entity at or below
/// zero hit points scores its kind's kill points. Deaths by mere lifetime
/// expiry or scrolling offscreen score nothing.
pub open spec fn spec_cull_score_upto(es: Seq<Entity>, k: int) -> int
    decreases k,
{
    if k <= 0 {
        0
    } else {
        spec_cull_score_upto(es, k - 1) + (if es[k - 1].hp <= 0 {
            spec_kill_points(es[k - 1].entity_type)
        } else {
            0
        })
    }
}

/// The survivors among the first `k` marked entities: those with positive
/// hit points, in order.
pub open spec fn spec_cull_kept_upto(ms: Seq<Entity>, k: int) -> Seq<Entity>
    decreases k,
{
    if k <= 0 {
        Seq::empty()
    } else {
        spec_cull_kept_upto(ms, k - 1) + (if ms[k - 1].hp > 0 {
            seq![ms[k - 1]]
        } else {
            Seq::empty()
        })
    }
}

/// The whole collection after the cull: the surviving entities in their
/// order, followed by the death effects in their order.
pub open spec fn spec_cull_survivors(es: Seq<Entity>, wh: u32) -> Seq<Entity> {
    spec_cull_kept_upto(spec_cull_marked(es, wh), es.len() as int)
        + spec_cull_effects_upto(es, wh, es.len() as int)
}

/// The score after adding a cull's points, saturating at the maximum.
pub open spec fn spec_score_after(score: i32, delta: int) -> i32 {
    if score + delta > i32::MAX {
        i32::MAX
    } else {
        (score + delta) as i32
    }
}

/// Kill points are never negative and never more than the boss's.
pub proof fn lemma_cull_score_bounds(es: Seq<Entity>, k: int)
    requires
        0 <= k <= es.len(),
    ensures
        0 <= spec_cull_score_upto(es, k) <= 200 * k,
    decreases k,
{
    if k > 0 {
        lemma_cull_score_bounds(es, k - 1);
    }
}

/// Each entity contributes either one survivor or at most one death
/// effect, never both, so the cull never grows the collection.
pub proof fn lemma_cull_len(es: Seq<Entity>, wh: u32, k: int)
    requires
        0 <= k <= es.len(),
    ensures
        spec_cull_kept_upto(spec_cull_marked(es, wh), k).len() + spec_cull_effects_upto(
            es,
            wh,
            k,
        ).len() <= k,
    decreases k,
{
    if k > 0 {
        lemma_cull_len(es, wh, k - 1);
    }
}

/// The end-of-frame cull: every dying entity (lifetime run out, hit points
/// at or below zero, or scrolled past the playfield's bottom) has its hit
/// points forced to zero and is removed; each dying enemy ship leaves its
/// death effect; each entity destroyed by damage scores its kind's points,
/// saturating at the score type's maximum.
pub fn cull_entities(state: &mut MainState)
    requires
        old(state).wf(),
    ensures
        final(state).wf(),
        final(state).entities@ =~= spec_cull_survivors(
            old(state).entities@,
            old(state).window_height,
        ),
        final(state).score == spec_score_after(
            old(state).score,
            spec_cull_score_upto(old(state).entities@, old(state).entities@.len() as int),
        ),
        final(state).delta_ms == old(state).delta_ms,
        final(state).elapsed_ms == old(state).elapsed_ms,
        final(state).game_mode == old(state).game_mode,
        final(state).high_scores == old(state).high_scores,
        final(state).input == old(state).input,
        final(state).quit == old(state).quit,
        final(state).spawner == old(state).spawner,
        final(state).gun_level == old(state).gun_level,
        final(state).shield_active == old(state).shield_active,
        final(state).window_width == old(state).window_width,
        final(state).window_height == old(state).window_height,
{
    let ghost es0 = state.entities@;
    let wh = state.window_height;
    let n = state.entities.len();
    let height_upx = (wh as i64) * MICRO;
    let mut effects: Vec<Entity> = Vec::new();
    let mut delta: i64 = 0;
    let mut idx: usize = 0;
    while idx < n
        invariant
            idx <= n,
            n == state.entities@.len(),
            n == es0.len(),
            n <= ENTITY_CAP,
            state.wf(),
            wh == state.window_height,
            height_upx == wh * MICRO,
            forall|m: int|
                0 <= m < idx ==> state.entities@[m] == spec_cull_marked(es0, wh)[m],
            forall|m: int| idx <= m < n ==> #[trigger] state.entities@[m] == es0[m],
            effects@ =~= spec_cull_effects_upto(es0, wh, idx as int),
            forall|m: int| 0 <= m < effects@.len() ==> (#[trigger] effects@[m]).valid(),
            delta == spec_cull_score_upto(es0, idx as int),
            0 <= delta <= 200 * idx,
            state.delta_ms == old(state).delta_ms,
            state.elapsed_ms == old(state).elapsed_ms,
            state.game_mode == old(state).game_mode,
            state.high_scores == old(state).high_scores,
            state.input == old(state).input,
            state.quit == old(state).quit,
            state.score == old(state).score,
            state.spawner == old(state).spawner,
            state.gun_level == old(state).gun_level,
            state.shield_active == old(state).shield_active,
            state.window_width == old(state).window_width,
            state.window_height == old(state).window_height,
        decreases n - idx,
    {
        let e = state.entities[idx];
        let expired = match e.lifetime {
            Lifetime::Forever => false,
            Lifetime::Milliseconds(r) => r <= 0,
        };
        let dying = expired || e.hp <= 0 || e.y > height_upx;
        if dying {
            if e.hp <= 0 {
                if e.entity_type == EntityType::Enemy {
                    delta = delta + 10;
                } else if e.entity_type == EntityType::EnemyBlueScreen {
                    delta = delta + 30;
                } else if e.entity_type == EntityType::Boss {
                    delta = delta + 200;
                }
            }
            if e.entity_type == EntityType::Boss || e.entity_type == EntityType::Enemy {
                effects.push(state.spawner.spawn_splat(e.x, e.y));
            } else if e.entity_type == EntityType::EnemyBlueScreen {
                effects.push(state.spawner.spawn_shutoff(e.x, e.y));
            }
            state.entities[idx] = (Entity { hp: 0, ..e });
        }
        idx = idx + 1;
    }
    proof {
        lemma_cull_len(es0, wh, n as int);
        assert(state.entities@ =~= spec_cull_marked(es0, wh));
    }
    let ghost marked = spec_cull_marked(es0, wh);
    let mut kept: Vec<Entity> = Vec::new();
    let mut idx2: usize = 0;
    while idx2 < n
        invariant
            idx2 <= n,
            n == state.entities@.len(),
            state.entities@ =~= marked,
            kept@ =~= spec_cull_kept_upto(marked, idx2 as int),
            forall|m: int| 0 <= m < kept@.len() ==> (#[trigger] kept@[m]).valid(),
            state.wf(),
        decreases n - idx2,
    {
        let e = state.entities[idx2];
        if e.hp > 0 {
            kept.push(e);
        }
        idx2 = idx2 + 1;
    }
    let mut out = kept;
    out.append(&mut effects);
    state.entities = out;
    let sum = state.score as i64 + delta;
    state.score = if sum > i32::MAX as i64 {
        i32::MAX
    } else {
        sum as i32
    };
    proof {
        lemma_cull_score_bounds(es0, n as int);
        assert(state.entities@ =~= spec_cull_survivors(es0, wh));
    }
}

/// The index of the first player entity, if any (meaningful only when
/// `spec_has_player` holds).
pub open spec fn spec_first_player(es: Seq<Entity>) -> int
    decreases es.len(),
{
    if es.len() == 0 {
        0
    } else if es[0].entity_type == EntityType::Player {
        0
    } else {
        1 + spec_first_player(es.skip(1))
    }
}

/// Whether any entity is the player; its absence is the game-over
/// condition.
pub open spec fn spec_has_player(es: Seq<Entity>) -> bool {
    exists|i: int| 0 <= i < es.len() && (#[trigger] es[i]).entity_type == EntityType::Player
}

/// One bullet of the player's fan: bullet `i` of `gun` leaves the rim of
/// the player's collision box at an angle stepped evenly around
/// straight-up, moving at the player bullet speed along that angle.
pub open spec fn spec_fan_bullet(p: Entity, gun: u32, i: int) -> Entity {
    let a = 1571 + (2 * i - gun + 1) * 98;
    let r = p.bounds.w / 2;
    let bx = spec_clamp_pos(p.x + spec_scale_milli(r, spec_cos1k(a)));
    let by = spec_clamp_pos(p.y - spec_scale_milli(r, spec_sin1k(a)));
    Entity {
        movement: Movement::Linear(
            spec_scale_milli(PLAYER_BULLET_SPEED as int, spec_cos1k(a)) as i64,
            (-spec_scale_milli(PLAYER_BULLET_SPEED as int, spec_sin1k(a))) as i64,
        ),
        ..spec_player_bullet(bx, by)
    }
}

/// The player's whole fan: one bullet per gun level, fanned evenly around
/// straight-up.
pub open spec fn spec_player_fan(p: Entity, gun: u32) -> Seq<Entity> {
    Seq::new(gun as nat, |i: int| spec_fan_bullet(p, gun, i))
}

/// Whether the player fires this frame: the fire flag is down and the
/// player's cooldown has reached zero.
pub open spec fn spec_player_fires(es: Seq<Entity>, shoot: bool) -> bool {
    shoot && spec_has_player(es) && es[spec_first_player(es)].bullet_cooldown == 0
}

/// The collection after the player's fire step: if the player fires, its
/// cooldown resets and its fan is appended (dropped past the entity cap);
/// otherwise nothing changes.
pub open spec fn spec_fire_phase(es: Seq<Entity>, gun: u32, shoot: bool) -> Seq<Entity> {
    if !spec_player_fires(es, shoot) {
        es
    } else {
        let pi = spec_first_player(es);
        let p = es[pi];
        let es1 = es.update(pi, Entity { bullet_cooldown: PLAYER_BULLET_COOLDOWN as i64, ..p });
        let room = if es.len() + gun <= ENTITY_CAP {
            gun as int
        } else {
            ENTITY_CAP - es.len()
        };
        es1 + spec_player_fan(p, gun).take(room)
    }
}

/// The player's fire step: if the fire flag is down and the first player
/// entity's cooldown is zero, reset the cooldown and append one projectile
/// per gun level, fanned evenly around straight-up from the rim of the
/// player's collision box.
pub fn fire_player(state: &mut MainState)
    requires
        old(state).wf(),
    ensures
        final(state).wf(),
        final(state).entities@ =~= spec_fire_phase(
            old(state).entities@,
            old(state).gun_level,
            old(state).input.shoot,
        ),
        final(state).delta_ms == old(state).delta_ms,
        final(state).elapsed_ms == old(state).elapsed_ms,
        final(state).game_mode == old(state).game_mode,
        final(state).high_scores == old(state).high_scores,
        final(state).input == old(state).input,
        final(state).quit == old(state).quit,
        final(state).score == old(state).score,
        final(state).spawner == old(state).spawner,
        final(state).gun_level == old(state).gun_level,
        final(state).shield_active == old(state).shield_active,
        final(state).window_width == old(state).window_width,
        final(state).window_height == old(state).window_height,
{
    let ghost es0 = state.entities@;
    if !state.input.shoot {
        return ;
    }
    let n = state.entities.len();
    let mut pi: usize = 0;
    proof {
        assert(es0.skip(0) =~= es0);
    }
    while pi < n && state.entities[pi].entity_type != EntityType::Player
        invariant
            pi <= n,
            n == state.entities@.len(),
            state.entities@ == es0,
            forall|k: int| 0 <= k < pi ==> (#[trigger] es0[k]).entity_type != EntityType::Player,
            spec_first_player(es0.skip(pi as int)) + pi == spec_first_player(es0),
        decreases n - pi,
    {
        proof {
            assert(es0.skip(pi as int)[0] == es0[pi as int]);
            assert(es0.skip(pi as int).skip(1) =~= es0.skip(pi + 1));
        }
        pi = pi + 1;
    }
    if pi == n {
        proof {
            assert(!spec_has_player(es0));
        }
        return ;
    }
    proof {
        assert(es0.skip(pi as int)[0] == es0[pi as int]);
        assert(spec_first_player(es0) == pi as int);
        assert(spec_has_player(es0));
    }
    let p = state.entities[pi];
    if p.bullet_cooldown != 0 {
        return ;
    }
    state.entities[pi] = (Entity { bullet_cooldown: PLAYER_BULLET_COOLDOWN, ..p });
    let ghost es1 = state.entities@;
    let gun = state.gun_level;
    let r = ((p.bounds.w as u64) / 2) as i64;
    let mut i: u32 = 0;
    while i < gun
        invariant
            i <= gun,
            gun == state.gun_level,
            p == es0[spec_first_player(es0)],
            p.valid(),
            r == p.bounds.w / 2,
            es0.len() == n,
            n <= ENTITY_CAP,
            es1 == es0.update(
                spec_first_player(es0),
                Entity { bullet_cooldown: PLAYER_BULLET_COOLDOWN as i64, ..p },
            ),
            es1.len() == n,
            state.entities@ =~= es1 + spec_player_fan(p, gun).take(
                if n + i <= ENTITY_CAP {
                    i as int
                } else {
                    ENTITY_CAP - n
                },
            ),
            state.wf(),
            state.delta_ms == old(state).delta_ms,
            state.elapsed_ms == old(state).elapsed_ms,
            state.game_mode == old(state).game_mode,
            state.high_scores == old(state).high_scores,
            state.input == old(state).input,
            state.quit == old(state).quit,
            state.score == old(state).score,
            state.spawner == old(state).spawner,
            state.shield_active == old(state).shield_active,
            state.window_width == old(state).window_width,
            state.window_height == old(state).window_height,
        decreases gun - i,
    {
        let a = (2 * (i as i64) - (gun as i64) + 1) * 98 + 1571;
        let c = cos1k(a);
        let sn = sin1k(a);
        let off_x = scale_milli(r, c);
        let off_y = scale_milli(r, sn);
        let bx0 = p.x + off_x;
        let bx = if bx0 < -POS_LIMIT {
            -POS_LIMIT
        } else if bx0 > POS_LIMIT {
            POS_LIMIT
        } else {
            bx0
        };
        let by0 = p.y - off_y;
        let by = if by0 < -POS_LIMIT {
            -POS_LIMIT
        } else if by0 > POS_LIMIT {
            POS_LIMIT
        } else {
            by0
        };
        let mut b = state.spawner.player_bullet_spawner(bx, by);
        b.movement = Movement::Linear(
            scale_milli(PLAYER_BULLET_SPEED, c),
            -scale_milli(PLAYER_BULLET_SPEED, sn),
        );
        proof {
            assert(b == spec_fan_bullet(p, gun, i as int));
            assert(b.valid());
        }
        if state.entities.len() < ENTITY_CAP {
            state.entities.push(b);
        }
        i = i + 1;
    }
}

/// One jitter draw per entity, each in the range its movement rule expects.
pub open spec fn spec_jitters_ok(es: Seq<Entity>, js: Seq<int>) -> bool {
    &&& js.len() == es.len()
    &&& forall|i: int|
        0 <= i < es.len() ==> spec_jitter_ok((#[trigger] es[i]).movement, js[i])
}

/// Every entity stepped one frame, in place.
pub open spec fn spec_stepped(
    es: Seq<Entity>,
    delta: u64,
    input: crate::entity::Input,
    ww: u32,
    wh: u32,
    js: Seq<int>,
) -> Seq<Entity> {
    Seq::new(es.len(), |i: int| spec_entity_step(es[i], delta, input, ww, wh, js[i]))
}

/// Everything the first `k` entities fire this frame, in order.
pub open spec fn spec_all_fired_upto(es: Seq<Entity>, delta: u64, js: Seq<int>, k: int) -> Seq<
    Entity,
>
    decreases k,
{
    if k <= 0 {
        Seq::empty()
    } else {
        spec_all_fired_upto(es, delta, js, k - 1) + spec_fired(es[k - 1], delta, js[k - 1])
    }
}

/// What the first `k` entities fire depends only on the first `k` jitters.
proof fn lemma_all_fired_prefix(
    es: Seq<Entity>,
    delta: u64,
    js1: Seq<int>,
    js2: Seq<int>,
    k: int,
)
    requires
        forall|m: int| 0 <= m < k ==> js1[m] == js2[m],
    ensures
        spec_all_fired_upto(es, delta, js1, k) == spec_all_fired_upto(es, delta, js2, k),
    decreases k,
{
    if k > 0 {
        lemma_all_fired_prefix(es, delta, js1, js2, k - 1);
    }
}

/// The collection after the per-entity sweep: every entity stepped in
/// place, then everything fired this frame appended in firing order
/// (dropped past the entity cap). Nothing appended is stepped this frame.
pub open spec fn spec_update_phase(
    es: Seq<Entity>,
    delta: u64,
    input: crate::entity::Input,
    ww: u32,
    wh: u32,
    js: Seq<int>,
) -> Seq<Entity> {
    let fired = spec_all_fired_upto(es, delta, js, es.len() as int);
    let room = if es.len() + fired.len() <= ENTITY_CAP {
        fired.len() as int
    } else {
        ENTITY_CAP - es.len()
    };
    spec_stepped(es, delta, input, ww, wh, js) + fired.take(room)
}


/// Step the single entity at index `i` one frame: draw the jitter its
/// movement rule expects, step it in place, and append what it fired.
fn step_entity_at(state: &mut MainState, i: usize, fired: &mut Vec<Entity>) -> (j: i64)
    requires
        old(state).wf(),
        i < old(state).entities@.len(),
    ensures
        final(state).wf(),
        spec_jitter_ok(old(state).entities@[i as int].movement, j as int),
        final(state).entities@ == old(state).entities@.update(
            i as int,
            spec_entity_step(
                old(state).entities@[i as int],
                old(state).delta_ms,
                old(state).input,
                old(state).window_width,
                old(state).window_height,
                j as int,
            ),
        ),
        final(fired)@ =~= old(fired)@ + spec_fired(
            old(state).entities@[i as int],
            old(state).delta_ms,
            j as int,
        ),
        forall|m: int|
            old(fired)@.len() <= m < final(fired)@.len()
                ==> (#[trigger] final(fired)@[m]).valid(),
        *final(state) == (MainState { entities: final(state).entities, ..*old(state) }),
{
    let e = state.entities[i];
    let jitter: i64 = match e.movement {
        Movement::Generated(GeneratedKind::EnemySine) => random_in_range(-3000, 3000),
        Movement::Generated(GeneratedKind::BlueScreenSine) => random_in_range(100, 3000),
        _ => 0,
    };
    let mut e2 = e;
    let mut sp = e2.update(
        state.delta_ms,
        &state.input,
        state.window_width,
        state.window_height,
        jitter,
    );
    state.entities[i] = e2;
    fired.append(&mut sp);
    jitter
}

/// The per-entity sweep: each entity is stepped one frame in collection
/// order (drawing the bounded random jitter its movement rule expects),
/// and the projectiles fired this frame are appended afterwards, so none
/// of them is updated twice in its first frame. The jitter draws are the
/// frame's only randomness: the result is exactly `spec_update_phase` for
/// some in-range jitter sequence.
#[verifier::rlimit(100)]
pub fn update_entities(state: &mut MainState)
    requires
        old(state).wf(),
    ensures
        final(state).wf(),
        exists|js: Seq<int>|
            spec_jitters_ok(old(state).entities@, js) && final(state).entities@
                =~= #[trigger] spec_update_phase(
                old(state).entities@,
                old(state).delta_ms,
                old(state).input,
                old(state).window_width,
                old(state).window_height,
                js,
            ),
        final(state).delta_ms == old(state).delta_ms,
        final(state).elapsed_ms == old(state).elapsed_ms,
        final(state).game_mode == old(state).game_mode,
        final(state).high_scores == old(state).high_scores,
        final(state).input == old(state).input,
        final(state).quit == old(state).quit,
        final(state).score == old(state).score,
        final(state).spawner == old(state).spawner,
        final(state).gun_level == old(state).gun_level,
        final(state).shield_active == old(state).shield_active,
        final(state).window_width == old(state).window_width,
        final(state).window_height == old(state).window_height,
{
    let ghost es0 = state.entities@;
    let n = state.entities.len();
    let delta = state.delta_ms;
    let input = state.input;
    let ww = state.window_width;
    let wh = state.window_height;
    let mut fired: Vec<Entity> = Vec::new();
    let ghost mut js: Seq<int> = Seq::empty();
    let mut i: usize = 0;
    while i < n
        invariant
            i <= n,
            n == es0.len(),
            n == state.entities@.len(),
            n <= ENTITY_CAP,
            js.len() == i,
            delta == state.delta_ms,
            input == state.input,
            ww == state.window_width,
            wh == state.window_height,
            delta <= crate::DELTA_LIMIT,
            ww <= crate::WINDOW_LIMIT,
            wh <= crate::WINDOW_LIMIT,
            forall|k: int|
                0 <= k < i ==> spec_jitter_ok((#[trigger] es0[k]).movement, js[k]),
            forall|k: int|
                0 <= k < i ==> state.entities@[k] == spec_entity_step(
                    #[trigger] es0[k],
                    delta,
                    input,
                    ww,
                    wh,
                    js[k],
                ),
            forall|k: int| i <= k < n ==> #[trigger] state.entities@[k] == es0[k],
            fired@ =~= spec_all_fired_upto(es0, delta, js, i as int),
            forall|m: int| 0 <= m < fired@.len() ==> (#[trigger] fired@[m]).valid(),
            state.wf(),
            state.delta_ms == old(state).delta_ms,
            state.elapsed_ms == old(state).elapsed_ms,
            state.game_mode == old(state).game_mode,
            state.high_scores == old(state).high_scores,
            state.input == old(state).input,
            state.quit == old(state).quit,
            state.score == old(state).score,
            state.spawner == old(state).spawner,
            state.gun_level == old(state).gun_level,
            state.shield_active == old(state).shield_active,
            state.window_width == old(state).window_width,
            state.window_height == old(state).window_height,
        decreases n - i,
    {
        let jitter = step_entity_at(state, i, &mut fired);
        proof {
            let js_old = js;
            js = js.push(jitter as int);
            lemma_all_fired_prefix(es0, delta, js_old, js, i as int);
            assert(fired@ =~= spec_all_fired_upto(es0, delta, js, i + 1));
        }
        i = i + 1;
    }
    let ghost stepped = spec_stepped(es0, delta, input, ww, wh, js);
    proof {
        assert(state.entities@ =~= stepped);
    }
    let m = fired.len();
    let ghost firedv = fired@;
    let mut k: usize = 0;
    while k < m
        invariant
            k <= m,
            m == firedv.len(),
            fired@ == firedv,
            n == stepped.len(),
            n <= ENTITY_CAP,
            forall|q: int| 0 <= q < firedv.len() ==> (#[trigger] firedv[q]).valid(),
            state.entities@ =~= stepped + firedv.take(
                if n + k <= ENTITY_CAP {
                    k as int
                } else {
                    ENTITY_CAP - n
                },
            ),
            state.wf(),
            state.delta_ms == old(state).delta_ms,
            state.elapsed_ms == old(state).elapsed_ms,
            state.game_mode == old(state).game_mode,
            state.high_scores == old(state).high_scores,
            state.input == old(state).input,
            state.quit == old(state).quit,
            state.score == old(state).score,
            state.spawner == old(state).spawner,
            state.gun_level == old(state).gun_level,
            state.shield_active == old(state).shield_active,
            state.window_width == old(state).window_width,
            state.window_height == old(state).window_height,
        decreases m - k,
    {
        if state.entities.len() < ENTITY_CAP {
            state.entities.push(fired[k]);
        }
        k = k + 1;
    }
    proof {
        assert(spec_jitters_ok(es0, js));
        assert(state.entities@ =~= spec_update_phase(es0, delta, input, ww, wh, js));
    }
}

/// Whether any live entity is the player.
pub fn has_live_player(state: &MainState) -> (r: bool)
    ensures
        r == spec_has_player(state.entities@),
{
    let n = state.entities.len();
    let mut i: usize = 0;
    while i < n
        invariant
            i <= n,
            n == state.entities@.len(),
            forall|k: int|
                0 <= k < i ==> (#[trigger] state.entities@[k]).entity_type
                    != EntityType::Player,
        decreases n - i,
    {
        if state.entities[i].entity_type == EntityType::Player {
            return true;
        }
        i = i + 1;
    }
    false
}

/// The entity collection and score delta one continuing frame produces,
/// given the frame's random draws: the spawner's entity (if any) appended,
/// every entity stepped with its fired projectiles appended, the player's
/// fan appended, and finally the cull.
pub open spec fn spec_frame_entities(
    w1: CombatView,
    spawned: Option<Entity>,
    js: Seq<int>,
    delta: u64,
    input: Input,
    ww: u32,
    wh: u32,
) -> Seq<Entity> {
    let es_sp = match spawned {
        Option::Some(e) => if w1.entities.len() < ENTITY_CAP {
            w1.entities.push(e)
        } else {
            w1.entities
        },
        Option::None => w1.entities,
    };
    let es_up = spec_update_phase(es_sp, delta, input, ww, wh, js);
    spec_fire_phase(es_up, w1.gun_level, input.shoot)
}

/// The spawner draw and jitter draws are admissible for this frame.
pub open spec fn spec_frame_draws_ok(
    w1: CombatView,
    cooldowns_before: crate::spawner::Cooldowns,
    delta: u64,
    elapsed: u64,
    width: u32,
    spawned: Option<Entity>,
    js: Seq<int>,
) -> bool {
    let choice = spec_spawn_choice(spec_dec_cooldowns(cooldowns_before, delta));
    &&& (match (spawned, choice) {
        (Option::Some(e), Option::Some(k)) => e.valid() && e.entity_type == k
            && spec_spawned_matches(k, e, width as int),
        (Option::None, Option::None) => true,
        _ => false,
    })
    &&& (match spawned {
        Option::Some(e) => spec_jitters_ok(
            if w1.entities.len() < ENTITY_CAP {
                w1.entities.push(e)
            } else {
                w1.entities
            },
            js,
        ),
        Option::None => spec_jitters_ok(w1.entities, js),
    })
}

impl MainState {
    /// One frame of the game. In the menu, a fire press starts a new
    /// match. In a running match: resolve collisions; if no player is
    /// left, fall back to the menu (game over); if the match time limit
    /// has passed, move to the win state; otherwise run the spawner, step
    /// every entity (appending what they fire), fire the player's fan if
    /// its cooldown allows, and cull the dying. The shield, gun level and
    /// spawner bookkeeping are exact; the entity collection and the score
    /// are exactly what the pipeline yields for the frame's bounded random
    /// draws. The win screen changes nothing; the embedding program reads
    /// the mode, score and quit flag.
    pub fn update(&mut self)
        requires
            old(self).wf(),
        ensures
            final(self).wf(),
            final(self).quit == old(self).quit,
            final(self).input == old(self).input,
            final(self).delta_ms == old(self).delta_ms,
            final(self).high_scores == old(self).high_scores,
            final(self).window_width == old(self).window_width,
            final(self).window_height == old(self).window_height,
            old(self).game_mode == GameMode::Menu && !old(self).input.shoot ==> *final(self)
                == *old(self),
            old(self).game_mode == GameMode::Menu && old(self).input.shoot ==> ({
                &&& final(self).game_mode == GameMode::Game
                &&& final(self).entities@ =~= seq![
                    spec_new_player(old(self).window_width, old(self).window_height),
                ]
                &&& final(self).elapsed_ms == 0
                &&& final(self).spawner.cooldowns
                    == crate::spawner::spec_base_cooldowns()
                &&& final(self).score == 0
                &&& final(self).gun_level == 1
                &&& !final(self).shield_active
            }),
            old(self).game_mode == GameMode::Win ==> *final(self) == *old(self),
            old(self).game_mode == GameMode::Game ==> ({
                let w1 = spec_resolve_all(old(self).combat_view());
                if !spec_has_player(w1.entities) {
                    &&& final(self).game_mode == GameMode::Menu
                    &&& final(self).entities@ == w1.entities
                    &&& final(self).shield_active == w1.shield_active
                    &&& final(self).gun_level == w1.gun_level
                    &&& final(self).score == old(self).score
                    &&& final(self).spawner == old(self).spawner
                    &&& final(self).elapsed_ms == old(self).elapsed_ms
                } else if old(self).elapsed_ms / 1000 > SECONDS_UNTIL_MAX_DIFFICULTY + 5 {
                    &&& final(self).game_mode == GameMode::Win
                    &&& final(self).entities@ == w1.entities
                    &&& final(self).shield_active == w1.shield_active
                    &&& final(self).gun_level == w1.gun_level
                    &&& final(self).score == old(self).score
                    &&& final(self).spawner == old(self).spawner
                    &&& final(self).elapsed_ms == old(self).elapsed_ms
                } else {
                    &&& final(self).game_mode == GameMode::Game
                    &&& final(self).shield_active == w1.shield_active
                    &&& final(self).gun_level == w1.gun_level
                    &&& final(self).elapsed_ms == old(self).elapsed_ms
                    &&& final(self).spawner.screen_width == old(self).spawner.screen_width
                    &&& final(self).spawner.cooldowns == spec_after_choice(
                        spec_dec_cooldowns(old(self).spawner.cooldowns, old(self).delta_ms),
                        spec_spawn_choice(
                            spec_dec_cooldowns(old(self).spawner.cooldowns, old(self).delta_ms),
                        ),
                        old(self).elapsed_ms,
                    )
                    &&& final(self).score >= old(self).score
                    &&& exists|sp: Option<Entity>, js: Seq<int>|
                        {
                            let es_fire = #[trigger] spec_frame_entities(
                                w1,
                                sp,
                                js,
                                old(self).delta_ms,
                                old(self).input,
                                old(self).window_width,
                                old(self).window_height,
                            );
                            &&& spec_frame_draws_ok(
                                w1,
                                old(self).spawner.cooldowns,
                                old(self).delta_ms,
                                old(self).elapsed_ms,
                                old(self).window_width,
                                sp,
                                js,
                            )
                            &&& final(self).entities@ =~= spec_cull_survivors(
                                es_fire,
                                old(self).window_height,
                            )
                            &&& final(self).score == spec_score_after(
                                old(self).score,
                                spec_cull_score_upto(es_fire, es_fire.len() as int),
                            )
                        }
                }
            }),
    {
        let mode = self.game_mode;
        if mode == GameMode::Menu {
            if self.input.shoot {
                self.game_mode = GameMode::Game;
                new_game(self);
            }
            return ;
        }
        if mode == GameMode::Win {
            return ;
        }
        handle_collisions(self);
        let ghost w1 = self.combat_view();
        if !has_live_player(self) {
            self.game_mode = GameMode::Menu;
            return ;
        }
        if self.elapsed_ms / 1000 > SECONDS_UNTIL_MAX_DIFFICULTY + 5 {
            self.game_mode = GameMode::Win;
            return ;
        }
        let el = self.elapsed_ms;
        let dl = self.delta_ms;
        let spawned = self.spawner.update(el, dl);
        let ghost spg = spawned;
        match spawned {
            Option::Some(e) => {
                if self.entities.len() < ENTITY_CAP {
                    self.entities.push(e);
                }
            },
            Option::None => {},
        }
        let ghost es_sp = self.entities@;
        update_entities(self);
        let ghost es_up = self.entities@;
        let ghost js = choose|js: Seq<int>|
            spec_jitters_ok(es_sp, js) && es_up =~= #[trigger] spec_update_phase(
                es_sp,
                dl,
                old(self).input,
                old(self).window_width,
                old(self).window_height,
                js,
            );
        fire_player(self);
        let ghost es_fire = self.entities@;
        cull_entities(self);
        proof {
            let es_fr = spec_frame_entities(
                w1,
                spg,
                js,
                old(self).delta_ms,
                old(self).input,
                old(self).window_width,
                old(self).window_height,
            );
            assert(es_fire =~= es_fr);
            lemma_cull_score_bounds(es_fire, es_fire.len() as int);
            assert(spec_frame_draws_ok(
                w1,
                old(self).spawner.cooldowns,
                old(self).delta_ms,
                old(self).elapsed_ms,
                old(self).window_width,
                spg,
                js,
            ));
        }
    }
}

} // verus!
