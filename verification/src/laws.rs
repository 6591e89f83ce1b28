//! Properties of the frame pipeline, stated and proved over the spec-level
//! model of `scene`.

use crate::geometry::Point;
use crate::scene::{
    drag_all, follow_all, follow_entity, frame_all, hover_all, hover_entity, ids_ok, inside,
    lemma_press_target_unique, press_all, press_target, release_all, track_pointer, with_dragged,
    Entity,
};
use vstd::prelude::*;

verus! {

/// At most one entity of the store is dragged.
pub open spec fn at_most_one_dragged(s: Seq<Entity>) -> bool {
    forall|i: int, j: int|
        0 <= i < s.len() && 0 <= j < s.len() && s[i].dragged && s[j].dragged ==> i == j
}

/// No entity of the store is dragged.
pub open spec fn no_dragged(s: Seq<Entity>) -> bool {
    forall|i: int| 0 <= i < s.len() ==> !s[i].dragged
}

/// Every dragged entity still carries the `hovered` flag it was picked
/// with: hover detection leaves dragged entities untouched, and only a
/// hovered entity is ever picked.
pub open spec fn dragged_are_hovered(s: Seq<Entity>) -> bool {
    forall|i: int| 0 <= i < s.len() && s[i].dragged ==> s[i].hovered
}

/// Every dragged entity of the store sits exactly at `q`.
pub open spec fn dragged_at(s: Seq<Entity>, q: Point) -> bool {
    forall|i: int| 0 <= i < s.len() && s[i].dragged ==> s[i].position == q
}

/// No entity of the store is both hovered and draggable, so a press edge
/// has nothing to pick.
pub open spec fn no_drag_candidate(s: Seq<Entity>) -> bool {
    forall|i: int| 0 <= i < s.len() ==> !(s[i].hovered && s[i].draggable)
}

/// Spawning keeps every drag invariant: a fresh entity is neither hovered
/// nor dragged, so appending it can break none of them. Together with the
/// frame lemmas below this covers every reachable scene: scenes start
/// empty, and only spawning and frame steps change them.
pub proof fn lemma_spawn_preserves_invariants(s: Seq<Entity>, e: Entity)
    requires
        !e.dragged,
    ensures
        at_most_one_dragged(s) ==> at_most_one_dragged(s.push(e)),
        dragged_are_hovered(s) ==> dragged_are_hovered(s.push(e)),
        no_dragged(s) ==> no_dragged(s.push(e)),
{
    assert forall|i: int| 0 <= i < s.push(e).len() implies s.push(e)[i] == (if i < s.len() {
        s[i]
    } else {
        e
    }) by {}
}

/// Hover detection changes nothing but `hovered` flags: length, `dragged`
/// flags and all other fields carry over index by index.
pub proof fn lemma_hover_all_fields(p: Point, s: Seq<Entity>)
    ensures
        hover_all(p, s).len() == s.len(),
        forall|i: int|
            0 <= i < s.len() ==> {
                let e = #[trigger] hover_all(p, s)[i];
                e.id == s[i].id && e.position == s[i].position && e.size == s[i].size
                    && e.draggable == s[i].draggable && e.hoverable == s[i].hoverable
                    && e.dragged == s[i].dragged
            },
{
}

/// Drag exclusivity: a frame never ends with two dragged entities, provided
/// it begins with at most one, and a press edge without a simultaneous
/// release only arrives while nothing is dragged (a genuine press edge
/// follows a release edge, and the release cleared every drag).
pub proof fn lemma_at_most_one_dragged(
    s: Seq<Entity>,
    p: Point,
    cursor: Option<Point>,
    pressed: bool,
    released: bool,
)
    requires
        at_most_one_dragged(s),
        pressed && !released ==> no_dragged(s),
    ensures
        at_most_one_dragged(frame_all(s, p, cursor, pressed, released)),
{
    let q = track_pointer(p, cursor);
    let s1 = hover_all(q, s);
    let s2 = drag_all(s1, pressed, released);
    let s3 = follow_all(q, s2);
    lemma_hover_all_fields(q, s);
    if released {
        assert forall|i: int| 0 <= i < s2.len() implies !s2[i].dragged by {}
    } else if pressed {
        if exists|i: int| press_target(s1, i) {
            let t = choose|i: int| press_target(s1, i);
            assert(s2 == s1.update(t, with_dragged(s1[t], true)));
            assert forall|i: int, j: int|
                0 <= i < s2.len() && 0 <= j < s2.len() && s2[i].dragged && s2[j].dragged implies i
                == j by {
                if i != t {
                    assert(s2[i] == s1[i]);
                    assert(!s1[i].dragged);
                }
                if j != t {
                    assert(s2[j] == s1[j]);
                    assert(!s1[j].dragged);
                }
            }
        }
    }
    assert forall|i: int, j: int|
        0 <= i < s3.len() && 0 <= j < s3.len() && s3[i].dragged && s3[j].dragged implies i == j by {
        assert(s3[i].dragged == s2[i].dragged);
        assert(s3[j].dragged == s2[j].dragged);
    }
}

/// Exact following: at the end of every frame, a dragged entity sits
/// exactly at the frame's pointer position. As long as an entity stays
/// dragged this holds again after each further frame, until its release.
pub proof fn lemma_dragged_follow_pointer(
    s: Seq<Entity>,
    p: Point,
    cursor: Option<Point>,
    pressed: bool,
    released: bool,
)
    ensures
        dragged_at(frame_all(s, p, cursor, pressed, released), track_pointer(p, cursor)),
{
    let q = track_pointer(p, cursor);
    let s2 = drag_all(hover_all(q, s), pressed, released);
    let s3 = follow_all(q, s2);
    assert forall|i: int| 0 <= i < s3.len() && s3[i].dragged implies s3[i].position == q by {
        assert(s3[i] == follow_entity(q, s2[i]));
    }
}

/// Dragged entities keep their `hovered` flag across a frame: the flag was
/// true when the entity was picked, and hover detection skips dragged
/// entities from then on.
pub proof fn lemma_dragged_stay_hovered(
    s: Seq<Entity>,
    p: Point,
    cursor: Option<Point>,
    pressed: bool,
    released: bool,
)
    requires
        dragged_are_hovered(s),
    ensures
        dragged_are_hovered(frame_all(s, p, cursor, pressed, released)),
{
    let q = track_pointer(p, cursor);
    let s1 = hover_all(q, s);
    let s2 = drag_all(s1, pressed, released);
    let s3 = follow_all(q, s2);
    lemma_hover_all_fields(q, s);
    assert forall|i: int| 0 <= i < s3.len() && s3[i].dragged implies s3[i].hovered by {
        assert(s3[i].dragged == s2[i].dragged && s3[i].hovered == s2[i].hovered);
        if !released {
            if pressed && exists|k: int| press_target(s1, k) {
                let t = choose|k: int| press_target(s1, k);
                if i != t {
                    assert(s2[i] == s1[i]);
                }
            }
            if s1[i].dragged {
                assert(s[i].dragged && s1[i] == hover_all(q, s)[i]);
                assert(s1[i].hovered == s[i].hovered);
            }
        }
    }
}

/// Drag control changes nothing but `dragged` flags: length and all other
/// fields carry over index by index.
pub proof fn lemma_drag_all_fields(s: Seq<Entity>, pressed: bool, released: bool)
    ensures
        drag_all(s, pressed, released).len() == s.len(),
        forall|i: int|
            0 <= i < s.len() ==> {
                let e = #[trigger] drag_all(s, pressed, released)[i];
                e.id == s[i].id && e.position == s[i].position && e.size == s[i].size
                    && e.draggable == s[i].draggable && e.hoverable == s[i].hoverable
                    && e.hovered == s[i].hovered
            },
{
    if pressed && exists|k: int| press_target(s, k) {
        let t = choose|k: int| press_target(s, k);
        assert(0 <= t < s.len());
        assert forall|i: int| 0 <= i < s.len() && i != t implies press_all(s)[i] == s[i] by {}
    }
}

/// Which entities end a drag-control step dragged: none after a release;
/// otherwise those already dragged, joined by the press target if a press
/// edge arrived and one exists.
pub proof fn lemma_drag_all_dragged(s: Seq<Entity>, pressed: bool, released: bool, i: int)
    requires
        0 <= i < s.len(),
    ensures
        drag_all(s, pressed, released)[i].dragged == (!released && (s[i].dragged || (pressed
            && press_target(s, i)))),
{
    if pressed {
        if exists|k: int| press_target(s, k) {
            let t = choose|k: int| press_target(s, k);
            if press_target(s, i) {
                lemma_press_target_unique(s, t, i);
            }
            if i != t {
                assert(press_all(s)[i] == s[i]);
            }
        } else {
            assert(!press_target(s, i));
        }
    }
}

/// A frame never adds or removes entities, and never changes an entity's
/// identifier, extents, or capability flags; in particular identifiers stay
/// matched to store indices.
pub proof fn lemma_frame_fixed_fields(
    s: Seq<Entity>,
    p: Point,
    cursor: Option<Point>,
    pressed: bool,
    released: bool,
)
    ensures
        frame_all(s, p, cursor, pressed, released).len() == s.len(),
        forall|i: int|
            0 <= i < s.len() ==> {
                let e = #[trigger] frame_all(s, p, cursor, pressed, released)[i];
                e.id == s[i].id && e.size == s[i].size && e.draggable == s[i].draggable
                    && e.hoverable == s[i].hoverable
            },
        ids_ok(s) ==> ids_ok(frame_all(s, p, cursor, pressed, released)),
{
    let q = track_pointer(p, cursor);
    let s1 = hover_all(q, s);
    let s2 = drag_all(s1, pressed, released);
    let s3 = follow_all(q, s2);
    lemma_hover_all_fields(q, s);
    lemma_drag_all_fields(s1, pressed, released);
    assert forall|i: int| 0 <= i < s.len() implies {
        let e = #[trigger] s3[i];
        e.id == s[i].id && e.size == s[i].size && e.draggable == s[i].draggable && e.hoverable
            == s[i].hoverable
    } by {
        assert(s3[i] == follow_entity(q, s2[i]));
    }
    if ids_ok(s) {
        assert forall|i: int| 0 <= i < s3.len() implies s3[i].id == i as u64 by {
            assert(s3[i].id == s[i].id);
        }
    }
}

/// Hover freshness: at the end of every frame, a hoverable entity of
/// positive extents is marked hovered exactly when the frame's pointer
/// position lies strictly inside its bounding box. The one exception is an
/// entity whose drag this very frame's release edge ended: its flag was
/// frozen while it was dragged and is recomputed on the next frame.
pub proof fn lemma_hover_fresh(
    s: Seq<Entity>,
    p: Point,
    cursor: Option<Point>,
    pressed: bool,
    released: bool,
)
    requires
        dragged_are_hovered(s),
    ensures
        forall|i: int|
            0 <= i < s.len() && s[i].hoverable && s[i].size.width > 0 && s[i].size.height > 0 && !(
            s[i].dragged && released) ==> {
                let e = #[trigger] frame_all(s, p, cursor, pressed, released)[i];
                e.hovered <==> inside(track_pointer(p, cursor), e)
            },
{
    let q = track_pointer(p, cursor);
    let s1 = hover_all(q, s);
    let s2 = drag_all(s1, pressed, released);
    let s3 = follow_all(q, s2);
    lemma_hover_all_fields(q, s);
    lemma_drag_all_fields(s1, pressed, released);
    assert forall|i: int|
        0 <= i < s.len() && s[i].hoverable && s[i].size.width > 0 && s[i].size.height > 0 && !(
        s[i].dragged && released) implies {
        let e = #[trigger] s3[i];
        e.hovered <==> inside(q, e)
    } by {
        lemma_drag_all_dragged(s1, pressed, released, i);
        assert(s1[i] == hover_entity(q, s[i]));
        assert(s3[i] == follow_entity(q, s2[i]));
        assert(s2[i].hovered == s1[i].hovered);
        if s2[i].dragged {
            assert(s3[i].position == q && s3[i].size == s[i].size);
            if s[i].dragged {
                assert(s1[i] == s[i]);
                assert(s2[i].hovered);
            } else {
                assert(press_target(s1, i));
                assert(s2[i].hovered);
            }
        } else {
            assert(s3[i] == s2[i]);
            assert(s3[i].position == s[i].position && s3[i].size == s[i].size);
            if s[i].dragged {
                assert(!released && s1[i].dragged);
                assert(false);
            } else {
                assert(s1[i].hovered == inside(q, s[i]));
            }
        }
    }
}

/// A release edge with nothing dragged is a no-op: drag control returns the
/// store unchanged, and the whole frame equals the same frame without the
/// release event.
pub proof fn lemma_release_noop(s: Seq<Entity>, p: Point, cursor: Option<Point>)
    requires
        no_dragged(s),
    ensures
        drag_all(s, false, true) == s,
        frame_all(s, p, cursor, false, true) == frame_all(s, p, cursor, false, false),
{
    let q = track_pointer(p, cursor);
    let s1 = hover_all(q, s);
    lemma_hover_all_fields(q, s);
    assert(release_all(s) =~= s);
    assert(release_all(s1) =~= s1);
}

/// A press edge with no hovered, draggable entity is a no-op: drag control
/// returns the store unchanged.
pub proof fn lemma_press_noop(s: Seq<Entity>)
    requires
        no_drag_candidate(s),
    ensures
        drag_all(s, true, false) == s,
{
    assert forall|i: int| !press_target(s, i) by {
        if 0 <= i < s.len() {
            assert(!(s[i].hovered && s[i].draggable));
        }
    }
}

/// The frame-level reading: when hover detection leaves no entity both
/// hovered and draggable, a frame with a press edge equals the same frame
/// without it — no entity becomes dragged.
pub proof fn lemma_press_noop_frame(s: Seq<Entity>, p: Point, cursor: Option<Point>)
    requires
        no_drag_candidate(hover_all(track_pointer(p, cursor), s)),
    ensures
        frame_all(s, p, cursor, true, false) == frame_all(s, p, cursor, false, false),
{
    lemma_press_noop(hover_all(track_pointer(p, cursor), s));
}

} // verus!
