use rts_controls::entities::{belongs_to, EntityCollisionLayers};
use rts_controls::picking::{HitData, PointerHits, PointerTarget, WorldPoint};

const GROUND: u32 = 1;
const INTERACTION: u32 = 2;
const SELECTABLE: u32 = 4;

fn at(x: i64, z: i64) -> Option<WorldPoint> {
    Some(WorldPoint { x, z })
}

fn pick(entity: u64, position: Option<WorldPoint>, layers: Option<u32>) -> HitData {
    HitData { entity, position, layers }
}

#[test]
fn layer_bits_follow_declaration_order() {
    assert_eq!(EntityCollisionLayers::Ground.to_bits(), 1);
    assert_eq!(EntityCollisionLayers::Interaction.to_bits(), 2);
    assert_eq!(EntityCollisionLayers::Selectable.to_bits(), 4);
}

#[test]
fn membership_needs_the_layer_bit() {
    assert!(belongs_to(0b101, EntityCollisionLayers::Ground));
    assert!(belongs_to(0b101, EntityCollisionLayers::Selectable));
    assert!(!belongs_to(0b101, EntityCollisionLayers::Interaction));
    assert!(!belongs_to(0, EntityCollisionLayers::Ground));
    assert!(belongs_to(u32::MAX, EntityCollisionLayers::Interaction));
}

#[test]
fn nothing_is_under_the_cursor_without_picks() {
    let hits = PointerHits { picks: Vec::new() };
    assert_eq!(hits.target(), PointerTarget::Nothing);
    assert_eq!(hits.ground(), None);
}

#[test]
fn an_entity_without_category_is_ignored() {
    let hits = PointerHits { picks: vec![pick(3, at(1, 2), None), pick(4, at(1, 2), Some(SELECTABLE))] };
    assert_eq!(hits.target(), PointerTarget::Nothing);
    assert_eq!(hits.target().under_cursor(), None);
}

#[test]
fn ground_needs_a_position_to_anchor_a_drag() {
    let hits = PointerHits { picks: vec![pick(3, at(1, -2), Some(GROUND))] };
    assert_eq!(hits.target(), PointerTarget::Ground { entity: 3, point: WorldPoint { x: 1, z: -2 } });
    assert_eq!(hits.ground(), at(1, -2));

    let hits = PointerHits { picks: vec![pick(3, None, Some(GROUND))] };
    assert_eq!(hits.target(), PointerTarget::Other { entity: 3 });
    assert_eq!(hits.ground(), None);
}

#[test]
fn ground_wins_over_selectable_on_the_same_entity() {
    let hits = PointerHits { picks: vec![pick(3, at(0, 0), Some(GROUND | SELECTABLE))] };
    assert_eq!(hits.target(), PointerTarget::Ground { entity: 3, point: WorldPoint { x: 0, z: 0 } });
}

#[test]
fn selectable_and_other_targets() {
    let hits = PointerHits { picks: vec![pick(8, None, Some(SELECTABLE | INTERACTION))] };
    assert_eq!(hits.target(), PointerTarget::Selectable { entity: 8 });
    assert_eq!(hits.target().under_cursor(), Some(8));

    let hits = PointerHits { picks: vec![pick(9, at(1, 1), Some(INTERACTION))] };
    assert_eq!(hits.target(), PointerTarget::Other { entity: 9 });
    assert_eq!(hits.target().under_cursor(), Some(9));

    let hits = PointerHits { picks: vec![pick(9, at(1, 1), Some(0))] };
    assert_eq!(hits.target(), PointerTarget::Other { entity: 9 });
}

#[test]
fn only_the_nearest_pick_decides_the_target() {
    let front = pick(8, at(5, 5), Some(SELECTABLE));
    let one = PointerHits { picks: vec![front, pick(1, at(5, 6), Some(GROUND))] };
    let two = PointerHits { picks: vec![front, pick(9, at(5, 5), Some(SELECTABLE)), pick(2, None, None)] };
    let alone = PointerHits { picks: vec![front] };
    assert_eq!(one.target(), PointerTarget::Selectable { entity: 8 });
    assert_eq!(two.target(), one.target());
    assert_eq!(alone.target(), one.target());
}

#[test]
fn the_ground_is_found_behind_what_stands_on_it() {
    let hits = PointerHits {
        picks: vec![
            pick(8, at(5, 5), Some(SELECTABLE)),
            pick(7, None, None),
            pick(6, None, Some(GROUND)),
            pick(1, at(5, 6), Some(GROUND)),
            pick(2, at(9, 9), Some(GROUND)),
        ],
    };
    assert_eq!(hits.ground(), at(5, 6));
}

#[test]
fn no_ground_among_the_picks() {
    let hits = PointerHits {
        picks: vec![pick(8, at(5, 5), Some(SELECTABLE)), pick(6, None, Some(GROUND)), pick(7, at(1, 1), None)],
    };
    assert_eq!(hits.ground(), None);
}
