//! Collision detection and combat resolution: once per frame, every
//! ordered (subject, threat) pair of live entities is tested for overlap
//! and resolved by a rule keyed on the pair's kinds. A threat that is
//! already destroyed produces no further effect in the same pass, so
//! destructive effects are idempotent per pair per frame.

use vstd::prelude::*;

verus! {

use crate::entity::{Entity, EntityType, Lifetime};
use crate::geom::spec_overlap;
use crate::state::MainState;
use crate::{HP_MIN, MAX_UPGRADE_LEVEL};

/// Two entities' collision boxes (bounds offset by position) overlap.
pub open spec fn spec_entity_overlap(a: Entity, b: Entity) -> bool {
    spec_overlap(
        a.x + a.bounds.x,
        a.y + a.bounds.y,
        a.bounds.w as int,
        a.bounds.h as int,
        b.x + b.bounds.x,
        b.y + b.bounds.y,
        b.bounds.w as int,
        b.bounds.h as int,
    )
}

/// An entity whose bounded lifetime has run out. A destroyed threat is
/// expired and takes no further part in the pass.
pub open spec fn spec_lifetime_expired(e: Entity) -> bool {
    match e.lifetime {
        Lifetime::Forever => false,
        Lifetime::Milliseconds(r) => r <= 0,
    }
}

/// The entity with its lifetime forced to expire this frame.
pub open spec fn spec_destroyed(e: Entity) -> Entity {
    Entity { lifetime: Lifetime::Milliseconds(0), ..e }
}

/// The entity after taking damage; hit points saturate far below zero and
/// are not clamped at zero here — dying is only observed by the cull.
pub open spec fn spec_damaged(e: Entity, dam: int) -> Entity {
    Entity {
        hp: (if e.hp - dam < HP_MIN {
            HP_MIN as int
        } else {
            e.hp - dam
        }) as i64,
        ..e
    }
}

/// The enemy ships: the kinds that hurt the player on contact and are hurt
/// by player projectiles.
pub open spec fn spec_is_hostile_ship(k: EntityType) -> bool {
    k == EntityType::Enemy || k == EntityType::EnemyBlueScreen || k == EntityType::Boss
}

/// What a power bomb does to one entity: enemy ships other than the boss
/// and enemy projectiles are destroyed outright (hit points and lifetime
/// both zeroed); everything else is untouched.
pub open spec fn spec_bombed(e: Entity) -> Entity {
    if e.entity_type == EntityType::Enemy || e.entity_type == EntityType::EnemyBlueScreen
        || e.entity_type == EntityType::EnemyBullet {
        Entity { hp: 0, lifetime: Lifetime::Milliseconds(0), ..e }
    } else {
        e
    }
}

/// The combat-relevant part of the match state: the entities and the
/// player's shield and gun level.
#[verifier::ext_equal]
pub ghost struct CombatView {
    pub entities: Seq<Entity>,
    pub shield_active: bool,
    pub gun_level: u32,
}

/// Resolve one ordered (subject, threat) pair. Nothing happens unless the
/// boxes overlap and the threat is still alive. A hostile ship or enemy
/// projectile hitting the player consumes the shield if active and
/// otherwise damages the player; non-boss threats are destroyed. Powerups
/// touching the player apply their effect and are destroyed. A player
/// projectile hitting a hostile ship damages it and is destroyed. All
/// other pairs are no-ops.
pub open spec fn spec_resolve_pair(w: CombatView, i: int, j: int) -> CombatView {
    let s = w.entities[i];
    let t = w.entities[j];
    if !spec_entity_overlap(s, t) || spec_lifetime_expired(t) {
        w
    } else if s.entity_type == EntityType::Player && spec_is_hostile_ship(t.entity_type) {
        let w1 = if w.shield_active {
            CombatView { shield_active: false, ..w }
        } else {
            CombatView { entities: w.entities.update(i, spec_damaged(s, t.damage as int)), ..w }
        };
        if t.entity_type != EntityType::Boss {
            CombatView {
                entities: w1.entities.update(j, spec_destroyed(w1.entities[j])),
                ..w1
            }
        } else {
            w1
        }
    } else if s.entity_type == EntityType::Player && t.entity_type == EntityType::EnemyBullet {
        let w1 = if w.shield_active {
            CombatView { shield_active: false, ..w }
        } else {
            CombatView { entities: w.entities.update(i, spec_damaged(s, t.damage as int)), ..w }
        };
        CombatView { entities: w1.entities.update(j, spec_destroyed(w1.entities[j])), ..w1 }
    } else if s.entity_type == EntityType::Player && t.entity_type == EntityType::Powerbomb {
        let bombed = Seq::new(w.entities.len(), |k: int| spec_bombed(w.entities[k]));
        CombatView { entities: bombed.update(j, spec_destroyed(bombed[j])), ..w }
    } else if s.entity_type == EntityType::Player && t.entity_type == EntityType::GunUpgrade {
        let g = if w.gun_level < MAX_UPGRADE_LEVEL {
            (w.gun_level + 1) as u32
        } else {
            w.gun_level
        };
        CombatView {
            entities: w.entities.update(j, spec_destroyed(t)),
            gun_level: g,
            ..w
        }
    } else if s.entity_type == EntityType::Player && t.entity_type == EntityType::Shield {
        CombatView {
            entities: w.entities.update(j, spec_destroyed(t)),
            shield_active: true,
            ..w
        }
    } else if spec_is_hostile_ship(s.entity_type) && t.entity_type == EntityType::PlayerBullet {
        CombatView {
            entities: w.entities.update(i, spec_damaged(s, t.damage as int)).update(
                j,
                spec_destroyed(t),
            ),
            ..w
        }
    } else {
        w
    }
}

/// The view after subject `i` has been resolved against threats `0..j`.
pub open spec fn spec_resolve_threats(w: CombatView, i: int, j: int) -> CombatView
    decreases j,
{
    if j <= 0 {
        w
    } else {
        spec_resolve_pair(spec_resolve_threats(w, i, j - 1), i, j - 1)
    }
}

/// The view after subjects `0..i` have each been resolved against every
/// threat, in order.
pub open spec fn spec_resolve_subjects(w: CombatView, i: int, n: int) -> CombatView
    decreases i,
{
    if i <= 0 {
        w
    } else {
        spec_resolve_threats(spec_resolve_subjects(w, i - 1, n), i - 1, n)
    }
}

/// One full collision pass over every ordered pair.
pub open spec fn spec_resolve_all(w: CombatView) -> CombatView {
    spec_resolve_subjects(w, w.entities.len() as int, w.entities.len() as int)
}

impl MainState {
    /// The combat-relevant part of this state.
    pub open spec fn combat_view(self) -> CombatView {
        CombatView {
            entities: self.entities@,
            shield_active: self.shield_active,
            gun_level: self.gun_level,
        }
    }
}

/// Whether the collision boxes of entities `a` and `b` overlap; boxes are
/// the `bounds` rectangles offset by the entities' positions.
pub fn colliding(state: &MainState, a: usize, b: usize) -> (r: bool)
    requires
        state.wf(),
        a < state.entities@.len(),
        b < state.entities@.len(),
    ensures
        r == spec_entity_overlap(state.entities@[a as int], state.entities@[b as int]),
{
    let e1_x = state.entities[a].x + state.entities[a].bounds.x;
    let e1_w = state.entities[a].bounds.w;
    let e1_y = state.entities[a].y + state.entities[a].bounds.y;
    let e1_h = state.entities[a].bounds.h;
    let e2_x = state.entities[b].x + state.entities[b].bounds.x;
    let e2_w = state.entities[b].bounds.w;
    let e2_y = state.entities[b].y + state.entities[b].bounds.y;
    let e2_h = state.entities[b].bounds.h;
    e1_x < e2_x + e2_w && e1_x + e1_w > e2_x && e1_y < e2_y + e2_h && e1_h + e1_y > e2_y
}

/// One collision pass over the whole match state: every ordered
/// (subject, threat) pair is tested and resolved in index order, exactly
/// as `spec_resolve_all` folds `spec_resolve_pair`. Only the entities, the
/// shield flag and the gun level can change.
pub fn handle_collisions(state: &mut MainState)
    requires
        old(state).wf(),
    ensures
        final(state).wf(),
        final(state).combat_view() == spec_resolve_all(old(state).combat_view()),
        final(state).entities@.len() == old(state).entities@.len(),
        final(state).delta_ms == old(state).delta_ms,
        final(state).elapsed_ms == old(state).elapsed_ms,
        final(state).game_mode == old(state).game_mode,
        final(state).high_scores == old(state).high_scores,
        final(state).input == old(state).input,
        final(state).quit == old(state).quit,
        final(state).score == old(state).score,
        final(state).spawner == old(state).spawner,
        final(state).window_width == old(state).window_width,
        final(state).window_height == old(state).window_height,
{
    let ghost w0 = old(state).combat_view();
    let n = state.entities.len();
    let mut i: usize = 0;
    while i < n
        invariant
            i <= n,
            n == state.entities@.len(),
            n == w0.entities.len(),
            n <= crate::ENTITY_CAP,
            state.wf(),
            state.combat_view() == spec_resolve_subjects(w0, i as int, n as int),
            state.delta_ms == old(state).delta_ms,
            state.elapsed_ms == old(state).elapsed_ms,
            state.game_mode == old(state).game_mode,
            state.high_scores == old(state).high_scores,
            state.input == old(state).input,
            state.quit == old(state).quit,
            state.score == old(state).score,
            state.spawner == old(state).spawner,
            state.window_width == old(state).window_width,
            state.window_height == old(state).window_height,
        decreases n - i,
    {
        let ghost wi = spec_resolve_subjects(w0, i as int, n as int);
        let mut j: usize = 0;
        while j < n
            invariant
                j <= n,
                i < n,
                n == state.entities@.len(),
                n == w0.entities.len(),
                n <= crate::ENTITY_CAP,
                state.wf(),
                wi == spec_resolve_subjects(w0, i as int, n as int),
                state.combat_view() == spec_resolve_threats(wi, i as int, j as int),
                state.delta_ms == old(state).delta_ms,
                state.elapsed_ms == old(state).elapsed_ms,
                state.game_mode == old(state).game_mode,
                state.high_scores == old(state).high_scores,
                state.input == old(state).input,
                state.quit == old(state).quit,
                state.score == old(state).score,
                state.spawner == old(state).spawner,
                state.window_width == old(state).window_width,
                state.window_height == old(state).window_height,
            decreases n - j,
        {
            let ghost wprev = state.combat_view();
            resolve_pair(state, i, j, n);
            proof {
                assert(state.combat_view() == spec_resolve_pair(wprev, i as int, j as int));
                assert(state.combat_view() == spec_resolve_threats(wi, i as int, j + 1));
            }
            j = j + 1;
        }
        i = i + 1;
    }
    proof {
        assert(state.combat_view() == spec_resolve_all(w0));
    }
}

/// Resolve the single ordered pair (subject `i`, threat `j`) in place.
fn resolve_pair(state: &mut MainState, i: usize, j: usize, n: usize)
    requires
        old(state).wf(),
        n == old(state).entities@.len(),
        i < n,
        j < n,
    ensures
        final(state).wf(),
        final(state).combat_view() == spec_resolve_pair(old(state).combat_view(), i as int, j as int),
        final(state).entities@.len() == n,
        final(state).delta_ms == old(state).delta_ms,
        final(state).elapsed_ms == old(state).elapsed_ms,
        final(state).game_mode == old(state).game_mode,
        final(state).high_scores == old(state).high_scores,
        final(state).input == old(state).input,
        final(state).quit == old(state).quit,
        final(state).score == old(state).score,
        final(state).spawner == old(state).spawner,
        final(state).window_width == old(state).window_width,
        final(state).window_height == old(state).window_height,
{
    let ghost wprev = state.combat_view();
    let skind = state.entities[i].entity_type;
    let tkind = state.entities[j].entity_type;
    let texpired = match state.entities[j].lifetime {
        Lifetime::Forever => false,
        Lifetime::Milliseconds(r) => r <= 0,
    };
    let hit = colliding(state, i, j) && !texpired;
    if !hit {
        proof {
            assert(state.combat_view() =~= spec_resolve_pair(wprev, i as int, j as int));
        }
        return ;
    }
    if skind == EntityType::Player && (tkind == EntityType::Enemy || tkind
        == EntityType::EnemyBlueScreen || tkind == EntityType::Boss) {
        if state.shield_active {
            state.shield_active = false;
        } else {
            damage_entity(state, i, j);
        }
        if tkind != EntityType::Boss {
            destroy_entity(state, j);
        }
        proof {
            assert(state.combat_view() =~= spec_resolve_pair(wprev, i as int, j as int));
        }
    } else if skind == EntityType::Player && tkind == EntityType::EnemyBullet {
        if state.shield_active {
            state.shield_active = false;
        } else {
            damage_entity(state, i, j);
        }
        destroy_entity(state, j);
        proof {
            assert(state.combat_view() =~= spec_resolve_pair(wprev, i as int, j as int));
        }
    } else if skind == EntityType::Player && tkind == EntityType::Powerbomb {
        let mut k: usize = 0;
        while k < n
            invariant
                k <= n,
                n == state.entities@.len(),
                i < n,
                j < n,
                state.wf(),
                forall|m: int|
                    0 <= m < k ==> state.entities@[m] == spec_bombed(#[trigger] wprev.entities[m]),
                forall|m: int|
                    k <= m < n ==> #[trigger] state.entities@[m] == wprev.entities[m],
                state.shield_active == wprev.shield_active,
                state.gun_level == wprev.gun_level,
                state.delta_ms == old(state).delta_ms,
                state.elapsed_ms == old(state).elapsed_ms,
                state.game_mode == old(state).game_mode,
                state.high_scores == old(state).high_scores,
                state.input == old(state).input,
                state.quit == old(state).quit,
                state.score == old(state).score,
                state.spawner == old(state).spawner,
                state.window_width == old(state).window_width,
                state.window_height == old(state).window_height,
            decreases n - k,
        {
            let e = state.entities[k];
            if e.entity_type == EntityType::Enemy || e.entity_type == EntityType::EnemyBlueScreen
                || e.entity_type == EntityType::EnemyBullet {
                state.entities[k] =
                (Entity { hp: 0, lifetime: Lifetime::Milliseconds(0), ..e });
            }
            k = k + 1;
        }
        destroy_entity(state, j);
        proof {
            let bombed = Seq::new(wprev.entities.len(), |m: int| spec_bombed(wprev.entities[m]));
            assert(state.entities@ =~= bombed.update(j as int, spec_destroyed(bombed[j as int])));
            assert(state.combat_view() =~= spec_resolve_pair(wprev, i as int, j as int));
        }
    } else if skind == EntityType::Player && tkind == EntityType::GunUpgrade {
        if state.gun_level < MAX_UPGRADE_LEVEL {
            state.gun_level = state.gun_level + 1;
        }
        destroy_entity(state, j);
        proof {
            assert(state.combat_view() =~= spec_resolve_pair(wprev, i as int, j as int));
        }
    } else if skind == EntityType::Player && tkind == EntityType::Shield {
        state.shield_active = true;
        destroy_entity(state, j);
        proof {
            assert(state.combat_view() =~= spec_resolve_pair(wprev, i as int, j as int));
        }
    } else if (skind == EntityType::Enemy || skind == EntityType::EnemyBlueScreen || skind
        == EntityType::Boss) && tkind == EntityType::PlayerBullet {
        damage_entity(state, i, j);
        destroy_entity(state, j);
        proof {
            assert(state.combat_view() =~= spec_resolve_pair(wprev, i as int, j as int));
        }
    } else {
        proof {
            assert(state.combat_view() =~= spec_resolve_pair(wprev, i as int, j as int));
        }
    }
}

/// Subtract threat `j`'s damage from subject `i`'s hit points, saturating
/// at the floor.
fn damage_entity(state: &mut MainState, i: usize, j: usize)
    requires
        old(state).wf(),
        i < old(state).entities@.len(),
        j < old(state).entities@.len(),
    ensures
        final(state).wf(),
        final(state).entities@ == old(state).entities@.update(
            i as int,
            spec_damaged(old(state).entities@[i as int], old(state).entities@[j as int].damage as int),
        ),
        *final(state) == (MainState { entities: final(state).entities, ..*old(state) }),
{
    let dam = state.entities[j].damage;
    let e = state.entities[i];
    let nh = e.hp - dam;
    let nh = if nh < HP_MIN {
        HP_MIN
    } else {
        nh
    };
    state.entities[i] = (Entity { hp: nh, ..e });
}

/// Force entity `j`'s lifetime to expire this frame.
fn destroy_entity(state: &mut MainState, j: usize)
    requires
        old(state).wf(),
        j < old(state).entities@.len(),
    ensures
        final(state).wf(),
        final(state).entities@ == old(state).entities@.update(
            j as int,
            spec_destroyed(old(state).entities@[j as int]),
        ),
        *final(state) == (MainState { entities: final(state).entities, ..*old(state) }),
{
    let e = state.entities[j];
    state.entities[j] = (Entity { lifetime: Lifetime::Milliseconds(0), ..e });
}

/// A threat that is already destroyed produces no effect: resolving a pair
/// whose threat's lifetime has expired leaves the state unchanged.
pub proof fn lemma_expired_threat_noop(w: CombatView, i: int, j: int)
    requires
        0 <= i < w.entities.len(),
        0 <= j < w.entities.len(),
        spec_lifetime_expired(w.entities[j]),
    ensures
        spec_resolve_pair(w, i, j) == w,
{
}

/// Destructive effects are idempotent per ordered pair per pass: for every
/// threat but the boss (which contact never destroys), resolving the same
/// pair twice is the same as resolving it once, because the first
/// resolution that has any effect destroys the threat and a destroyed
/// threat produces no further effect. In particular no pair can deal its
/// damage twice in one pass.
pub proof fn lemma_resolve_pair_idempotent(w: CombatView, i: int, j: int)
    requires
        0 <= i < w.entities.len(),
        0 <= j < w.entities.len(),
        w.entities[j].entity_type != EntityType::Boss,
    ensures
        spec_resolve_pair(spec_resolve_pair(w, i, j), i, j) == spec_resolve_pair(w, i, j),
{
    let r = spec_resolve_pair(w, i, j);
    if !spec_entity_overlap(w.entities[i], w.entities[j]) || spec_lifetime_expired(
        w.entities[j],
    ) {
        assert(r == w);
    } else {
        let s = w.entities[i];
        let t = w.entities[j];
        let fires = (s.entity_type == EntityType::Player && (spec_is_hostile_ship(t.entity_type)
            || t.entity_type == EntityType::EnemyBullet || t.entity_type == EntityType::Powerbomb
            || t.entity_type == EntityType::GunUpgrade || t.entity_type == EntityType::Shield))
            || (spec_is_hostile_ship(s.entity_type) && t.entity_type == EntityType::PlayerBullet);
        if fires {
            assert(spec_lifetime_expired(r.entities[j]));
            lemma_expired_threat_noop(r, i, j);
        } else {
            assert(r == w);
        }
    }
}

} // verus!
