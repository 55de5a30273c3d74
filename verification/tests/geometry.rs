use shmup_core::collision::colliding;
use shmup_core::entity::{Entity, EntityType};
use shmup_core::geom::Rect;
use shmup_core::state::MainState;
use shmup_core::MICRO;

fn boxed(x: i64, y: i64, w: i64, h: i64) -> Entity {
    Entity {
        entity_type: EntityType::Splat,
        bounds: Rect { x: 0, y: 0, w, h },
        x,
        y,
        ..Default::default()
    }
}

fn state_with(entities: Vec<Entity>) -> MainState {
    let mut s = MainState::new(1000, 800);
    s.entities = entities;
    s
}

#[test]
fn overlap_is_symmetric() {
    let a = boxed(0, 0, 10 * MICRO, 10 * MICRO);
    let b = boxed(5 * MICRO, 3 * MICRO, 10 * MICRO, 10 * MICRO);
    let s = state_with(vec![a, b]);
    assert_eq!(colliding(&s, 0, 1), colliding(&s, 1, 0));
    assert!(colliding(&s, 0, 1));

    let c = boxed(500 * MICRO, 500 * MICRO, 4 * MICRO, 4 * MICRO);
    let s2 = state_with(vec![a, c]);
    assert_eq!(colliding(&s2, 0, 1), colliding(&s2, 1, 0));
    assert!(!colliding(&s2, 0, 1));
}

#[test]
fn disjoint_boxes_never_collide() {
    // Disjoint on the x axis only.
    let a = boxed(0, 0, 10 * MICRO, 10 * MICRO);
    let b = boxed(20 * MICRO, 0, 10 * MICRO, 10 * MICRO);
    let s = state_with(vec![a, b]);
    assert!(!colliding(&s, 0, 1));

    // Disjoint on the y axis only.
    let c = boxed(0, 30 * MICRO, 10 * MICRO, 10 * MICRO);
    let s2 = state_with(vec![a, c]);
    assert!(!colliding(&s2, 0, 1));
}

#[test]
fn touching_edges_do_not_collide() {
    // Boxes are closed-open: a shared edge is not an overlap.
    let a = boxed(0, 0, 10 * MICRO, 10 * MICRO);
    let b = boxed(10 * MICRO, 0, 10 * MICRO, 10 * MICRO);
    let s = state_with(vec![a, b]);
    assert!(!colliding(&s, 0, 1));
    assert!(!colliding(&s, 1, 0));
}

#[test]
fn identical_boxes_always_collide() {
    let a = boxed(7 * MICRO, 9 * MICRO, 12 * MICRO, 34 * MICRO);
    let s = state_with(vec![a, a]);
    assert!(colliding(&s, 0, 1));
    assert!(colliding(&s, 1, 0));
    assert!(colliding(&s, 0, 0));
}

#[test]
fn bounds_offset_positions_the_box() {
    // Same positions, but offsets move the boxes apart.
    let mut a = boxed(0, 0, 10 * MICRO, 10 * MICRO);
    a.bounds.x = 50 * MICRO;
    let b = boxed(0, 0, 10 * MICRO, 10 * MICRO);
    let s = state_with(vec![a, b]);
    assert!(!colliding(&s, 0, 1));
}
