use card_drag::geometry::{hit_test, Point, Size};
use card_drag::scene::Scene;

#[test]
fn add_cards_builds_the_demo_pair() {
    let mut s = Scene::new();
    s.add_cards();
    assert_eq!(s.entities.len(), 2);

    let left = s.entities[0];
    assert_eq!(left.id, 0);
    assert_eq!(left.position, Point { x: -42, y: 0 });
    assert_eq!(left.size, Size { width: 40, height: 60 });
    assert!(!left.draggable && !left.hoverable);
    assert!(!left.hovered && !left.dragged);

    let right = s.entities[1];
    assert_eq!(right.id, 1);
    assert_eq!(right.position, Point { x: 42, y: 0 });
    assert_eq!(right.size, Size { width: 40, height: 60 });
    assert!(right.draggable && right.hoverable);
    assert!(!right.hovered && !right.dragged);
}

#[test]
fn only_the_right_card_reacts() {
    let mut s = Scene::new();
    s.add_cards();
    s.frame_step(Some(Point { x: -42, y: 0 }), false, false);
    assert!(!s.entities[0].hovered);
    s.frame_step(Some(Point { x: 42, y: 0 }), true, false);
    assert!(s.entities[1].hovered && s.entities[1].dragged);
    assert!(!s.entities[0].dragged);
}

#[test]
fn hit_test_matches_the_strict_box() {
    let size = Size { width: 40, height: 60 };
    let center = Point { x: 0, y: 0 };
    assert!(hit_test(Point { x: 10, y: 20 }, center, size));
    assert!(!hit_test(Point { x: 25, y: 20 }, center, size));
    assert!(!hit_test(Point { x: 20, y: 0 }, center, size));
    assert!(!hit_test(Point { x: 0, y: 30 }, center, size));
    assert!(hit_test(Point { x: -19, y: -29 }, center, size));
}

#[test]
fn hit_test_handles_extreme_coordinates() {
    let size = Size { width: 40, height: 60 };
    let far = Point { x: i64::MAX, y: i64::MIN };
    assert!(!hit_test(Point { x: 0, y: 0 }, far, size));
    assert!(hit_test(far, far, size));
    assert!(!hit_test(
        Point { x: i64::MIN, y: i64::MAX },
        far,
        size
    ));
}

#[test]
fn zero_extent_box_contains_nothing() {
    let size = Size { width: 0, height: 0 };
    let center = Point { x: 7, y: 7 };
    assert!(!hit_test(center, center, size));
}
