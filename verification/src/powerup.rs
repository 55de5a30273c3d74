//! A single-kind powerup spawner: one countdown that emits a falling
//! powerup entity each time it runs out.

use vstd::prelude::*;

verus! {

use crate::geom::Rect;
use crate::entity::{Entity, EntityType, Lifetime, Movement, spec_default_entity};
use crate::{MICRO, COOLDOWN_LIMIT, DELTA_LIMIT};

/// Owns one spawn countdown and emits a powerup when it expires.
#[derive(Clone, Copy, PartialEq, Eq, Structural, Debug)]
pub struct PowerupSpawner {
    /// The interval the countdown resets to, in milliseconds.
    pub max_cooldown: i64,
    /// Milliseconds until the next powerup.
    pub current_cooldown: i64,
}

/// The entity a powerup spawner emits: a small box falling straight down,
/// harmless on contact, placed by the caller.
pub open spec fn spec_powerup_entity() -> Entity {
    Entity {
        bounds: Rect { x: 0, y: 0, w: (32 * MICRO) as i64, h: (32 * MICRO) as i64 },
        damage: 0,
        entity_type: EntityType::Powerup,
        movement: Movement::Linear(0, 65_000_000),
        seed: 0,
        ..spec_default_entity()
    }
}

impl PowerupSpawner {
    /// The countdown stays within the cooldown range.
    pub open spec fn wf(self) -> bool {
        &&& 0 <= self.max_cooldown <= COOLDOWN_LIMIT
        &&& 0 <= self.current_cooldown <= COOLDOWN_LIMIT
    }

    /// A spawner that first fires after the given interval and then once
    /// per interval.
    pub fn new(cooldown: i64) -> (p: PowerupSpawner)
        requires
            0 <= cooldown <= COOLDOWN_LIMIT,
        ensures
            p.max_cooldown == cooldown,
            p.current_cooldown == cooldown,
            p.wf(),
    {
        PowerupSpawner { max_cooldown: cooldown, current_cooldown: cooldown }
    }

    /// One frame: the countdown drops by the delta; if it ran out, a
    /// powerup is emitted and the countdown resets to its interval.
    pub fn update(&mut self, delta_ms: u64) -> (spawned: Option<Entity>)
        requires
            old(self).wf(),
            delta_ms <= DELTA_LIMIT,
        ensures
            final(self).wf(),
            final(self).max_cooldown == old(self).max_cooldown,
            old(self).current_cooldown - delta_ms <= 0 ==> final(self).current_cooldown == old(
                self,
            ).max_cooldown && spawned == Some(spec_powerup_entity()),
            old(self).current_cooldown - delta_ms > 0 ==> final(self).current_cooldown == old(
                self,
            ).current_cooldown - delta_ms && spawned is None,
    {
        let dec = self.current_cooldown - delta_ms as i64;
        if dec <= 0 {
            self.current_cooldown = self.max_cooldown;
            let e = Entity {
                bounds: Rect { x: 0, y: 0, w: 32 * MICRO, h: 32 * MICRO },
                damage: 0,
                entity_type: EntityType::Powerup,
                movement: Movement::Linear(0, 65_000_000),
                seed: 0,
                ..Entity::default()
            };
            Some(e)
        } else {
            self.current_cooldown = dec;
            None
        }
    }
}

} // verus!
