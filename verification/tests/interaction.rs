use card_drag::geometry::{Point, Size};
use card_drag::scene::Scene;

fn card_scene() -> Scene {
    let mut s = Scene::new();
    s.spawn(
        Point { x: 0, y: 0 },
        Size { width: 40, height: 60 },
        true,
        true,
    );
    s
}

#[test]
fn new_scene_is_empty_with_pointer_at_origin() {
    let s = Scene::new();
    assert_eq!(s.entities.len(), 0);
    assert_eq!(s.pointer.position, Point { x: 0, y: 0 });
}

#[test]
fn spawn_assigns_sequential_ids() {
    let mut s = Scene::new();
    let a = s.spawn(Point { x: 1, y: 2 }, Size { width: 3, height: 4 }, true, false);
    let b = s.spawn(Point { x: 5, y: 6 }, Size { width: 7, height: 8 }, false, true);
    assert_eq!(a, 0);
    assert_eq!(b, 1);
    assert_eq!(s.entities[0].id, 0);
    assert_eq!(s.entities[1].id, 1);
    assert!(s.entities[0].draggable && !s.entities[0].hoverable);
    assert!(!s.entities[1].draggable && s.entities[1].hoverable);
    assert!(!s.entities[0].hovered && !s.entities[0].dragged);
}

#[test]
fn hover_inside_then_outside() {
    // Entity at (0,0) with extents (40,60): (10,20) is strictly inside
    // (|10| < 20 and |20| < 30), (25,20) is not (|25| < 20 fails).
    let mut s = card_scene();
    s.frame_step(Some(Point { x: 10, y: 20 }), false, false);
    assert!(s.entities[0].hovered);
    s.frame_step(Some(Point { x: 25, y: 20 }), false, false);
    assert!(!s.entities[0].hovered);
}

#[test]
fn hover_boundary_is_strict() {
    let mut s = card_scene();
    s.frame_step(Some(Point { x: 20, y: 0 }), false, false);
    assert!(!s.entities[0].hovered);
    s.frame_step(Some(Point { x: 19, y: 0 }), false, false);
    assert!(s.entities[0].hovered);
    s.frame_step(Some(Point { x: 0, y: 30 }), false, false);
    assert!(!s.entities[0].hovered);
    s.frame_step(Some(Point { x: 0, y: -29 }), false, false);
    assert!(s.entities[0].hovered);
}

#[test]
fn odd_extents_lose_nothing_to_halving() {
    let mut s = Scene::new();
    s.spawn(Point { x: 0, y: 0 }, Size { width: 5, height: 5 }, false, true);
    s.frame_step(Some(Point { x: 2, y: 0 }), false, false);
    assert!(s.entities[0].hovered);
    s.frame_step(Some(Point { x: 3, y: 0 }), false, false);
    assert!(!s.entities[0].hovered);
}

#[test]
fn absent_pointer_keeps_previous_position() {
    let mut s = card_scene();
    s.frame_step(Some(Point { x: 10, y: 20 }), false, false);
    assert_eq!(s.pointer.position, Point { x: 10, y: 20 });
    s.frame_step(None, false, false);
    assert_eq!(s.pointer.position, Point { x: 10, y: 20 });
    assert!(s.entities[0].hovered);
}

#[test]
fn drag_follows_pointer_until_release() {
    // Hovered entity, press: dragged. Pointer moves to (100,100): the
    // entity follows exactly. Release: drag ends, position stays.
    let mut s = card_scene();
    s.frame_step(Some(Point { x: 10, y: 20 }), false, false);
    assert!(s.entities[0].hovered);
    s.frame_step(None, true, false);
    assert!(s.entities[0].dragged);
    s.frame_step(Some(Point { x: 100, y: 100 }), false, false);
    assert_eq!(s.entities[0].position, Point { x: 100, y: 100 });
    assert!(s.entities[0].dragged);
    s.frame_step(Some(Point { x: 100, y: 100 }), false, true);
    assert!(!s.entities[0].dragged);
    assert_eq!(s.entities[0].position, Point { x: 100, y: 100 });
}

#[test]
fn drag_follows_over_many_frames() {
    let mut s = card_scene();
    s.frame_step(Some(Point { x: 0, y: 0 }), true, false);
    for step in 1..5i64 {
        let target = Point { x: step * 13, y: -step * 7 };
        s.frame_step(Some(target), false, false);
        assert_eq!(s.entities[0].position, target);
        assert!(s.entities[0].dragged);
    }
}

#[test]
fn press_picks_first_of_two_overlapping() {
    // Two overlapping draggable+hoverable entities, both hovered: a press
    // drags exactly the first in store order; the other stays hovered only.
    let mut s = Scene::new();
    s.spawn(Point { x: 0, y: 0 }, Size { width: 40, height: 60 }, true, true);
    s.spawn(Point { x: 5, y: 5 }, Size { width: 40, height: 60 }, true, true);
    s.frame_step(Some(Point { x: 3, y: 3 }), false, false);
    assert!(s.entities[0].hovered && s.entities[1].hovered);
    s.frame_step(None, true, false);
    assert!(s.entities[0].dragged);
    assert!(!s.entities[1].dragged);
    assert!(s.entities[1].hovered);
}

#[test]
fn press_skips_hovered_but_undraggable() {
    let mut s = Scene::new();
    s.spawn(Point { x: 0, y: 0 }, Size { width: 40, height: 60 }, false, true);
    s.spawn(Point { x: 0, y: 0 }, Size { width: 40, height: 60 }, true, true);
    s.frame_step(Some(Point { x: 0, y: 0 }), true, false);
    assert!(!s.entities[0].dragged);
    assert!(s.entities[1].dragged);
}

#[test]
fn release_with_nothing_dragged_changes_nothing() {
    let mut s = card_scene();
    s.frame_step(Some(Point { x: 10, y: 20 }), false, false);
    let before = s.entities.clone();
    let pointer = s.pointer;
    s.frame_step(None, false, true);
    assert_eq!(s.entities, before);
    assert_eq!(s.pointer, pointer);
}

#[test]
fn press_with_nothing_hovered_drags_nothing() {
    let mut s = card_scene();
    s.frame_step(Some(Point { x: 500, y: 500 }), false, false);
    let before = s.entities.clone();
    s.frame_step(None, true, false);
    assert_eq!(s.entities, before);
    assert!(!s.entities[0].dragged);
}

#[test]
fn press_and_release_in_one_frame_ends_undragged() {
    let mut s = card_scene();
    s.frame_step(Some(Point { x: 0, y: 0 }), false, false);
    assert!(s.entities[0].hovered);
    s.frame_step(None, true, true);
    assert!(!s.entities[0].dragged);
}

#[test]
fn non_hoverable_entity_is_never_hovered() {
    let mut s = Scene::new();
    s.spawn(Point { x: 0, y: 0 }, Size { width: 40, height: 60 }, true, false);
    s.frame_step(Some(Point { x: 0, y: 0 }), false, false);
    assert!(!s.entities[0].hovered);
    s.frame_step(None, true, false);
    assert!(!s.entities[0].dragged);
}

#[test]
fn hover_works_at_negative_coordinates() {
    let mut s = Scene::new();
    s.spawn(
        Point { x: -100, y: -200 },
        Size { width: 10, height: 10 },
        false,
        true,
    );
    s.frame_step(Some(Point { x: -96, y: -199 }), false, false);
    assert!(s.entities[0].hovered);
    s.frame_step(Some(Point { x: -105, y: -199 }), false, false);
    assert!(!s.entities[0].hovered);
}
