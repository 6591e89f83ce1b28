//! The entity store and the four per-frame stages: pointer tracking, hover
//! detection, drag control, and position update.
//!
//! A frame runs the stages in a fixed order. Pointer tracking records the
//! pointer's world position (or keeps the previous one when the pointer is
//! absent). Hover detection recomputes each hoverable, non-dragged entity's
//! `hovered` flag from a strict bounding-box test. Drag control reacts to
//! edge-triggered press and release events of the primary button: a press
//! picks the first hovered, draggable entity in store order and marks it
//! dragged; a release clears the `dragged` flag of every entity that carries
//! it at that point, the one a simultaneous press just picked included.
//! The position update then moves every dragged entity to the pointer.

use crate::geometry::{hit_test, in_box, origin, Point, Size};
use vstd::prelude::*;

verus! {

/// One card record: a rectangle of fixed extents centered at a mutable
/// position, with its interaction capabilities and per-frame flags.
#[derive(Clone, Copy, PartialEq, Eq, Structural, Debug)]
pub struct Entity {
    /// Stable identifier, unique per entity, assigned at creation.
    pub id: u64,
    /// Center of the entity's rectangle, in world space.
    pub position: Point,
    /// Extents of the rectangle; fixed after creation.
    pub size: Size,
    /// Whether the entity may be dragged.
    pub draggable: bool,
    /// Whether the entity takes part in hover detection.
    pub hoverable: bool,
    /// Set each frame by hover detection; left untouched while dragged.
    pub hovered: bool,
    /// Set on a press edge over the entity, cleared on a release edge.
    pub dragged: bool,
}

/// The last-known world-space pointer position.
#[derive(Clone, Copy, PartialEq, Eq, Structural, Debug)]
pub struct PointerState {
    pub position: Point,
}

/// Whether `p` lies strictly inside `e`'s bounding box.
pub open spec fn inside(p: Point, e: Entity) -> bool {
    in_box(p, e.position, e.size)
}

/// A fresh entity record: flags clear, everything else as given.
pub open spec fn new_entity(
    id: u64,
    position: Point,
    size: Size,
    draggable: bool,
    hoverable: bool,
) -> Entity {
    Entity { id, position, size, draggable, hoverable, hovered: false, dragged: false }
}

/// `e` with its `hovered` flag set to `h`.
pub open spec fn with_hovered(e: Entity, h: bool) -> Entity {
    Entity {
        id: e.id,
        position: e.position,
        size: e.size,
        draggable: e.draggable,
        hoverable: e.hoverable,
        hovered: h,
        dragged: e.dragged,
    }
}

/// `e` with its `dragged` flag set to `d`.
pub open spec fn with_dragged(e: Entity, d: bool) -> Entity {
    Entity {
        id: e.id,
        position: e.position,
        size: e.size,
        draggable: e.draggable,
        hoverable: e.hoverable,
        hovered: e.hovered,
        dragged: d,
    }
}

/// `e` moved to position `p`.
pub open spec fn with_position(e: Entity, p: Point) -> Entity {
    Entity {
        id: e.id,
        position: p,
        size: e.size,
        draggable: e.draggable,
        hoverable: e.hoverable,
        hovered: e.hovered,
        dragged: e.dragged,
    }
}

/// The pointer position after pointer tracking: the new world position when
/// the pointer is present this frame, the previous one otherwise.
pub open spec fn track_pointer(p: Point, cursor: Option<Point>) -> Point {
    match cursor {
        Option::Some(c) => c,
        Option::None => p,
    }
}

/// One entity after hover detection at pointer position `p`: hoverable,
/// non-dragged entities get their `hovered` flag recomputed from the strict
/// bounding-box test; every other entity is left untouched.
pub open spec fn hover_entity(p: Point, e: Entity) -> Entity {
    if e.hoverable && !e.dragged {
        with_hovered(e, inside(p, e))
    } else {
        e
    }
}

/// The whole store after hover detection at pointer position `p`.
pub open spec fn hover_all(p: Point, s: Seq<Entity>) -> Seq<Entity> {
    Seq::new(s.len(), |i: int| hover_entity(p, s[i]))
}

/// `i` is the index a press edge picks: the first entity in store order that
/// is both hovered and draggable.
pub open spec fn press_target(s: Seq<Entity>, i: int) -> bool {
    &&& 0 <= i < s.len()
    &&& s[i].hovered && s[i].draggable
    &&& forall|j: int| 0 <= j < i ==> !(s[j].hovered && s[j].draggable)
}

/// The store after a press edge: the press target, when one exists, becomes
/// dragged; with no hovered, draggable entity the press is a no-op.
pub open spec fn press_all(s: Seq<Entity>) -> Seq<Entity> {
    if exists|i: int| press_target(s, i) {
        let t = choose|i: int| press_target(s, i);
        s.update(t, with_dragged(s[t], true))
    } else {
        s
    }
}

/// The store after a release edge: every `dragged` flag is cleared.
pub open spec fn release_all(s: Seq<Entity>) -> Seq<Entity> {
    Seq::new(s.len(), |i: int| with_dragged(s[i], false))
}

/// The store after drag control: the press edge is handled first, then the
/// release edge, so a frame that carries both ends with nothing dragged.
pub open spec fn drag_all(s: Seq<Entity>, pressed: bool, released: bool) -> Seq<Entity> {
    let after_press = if pressed {
        press_all(s)
    } else {
        s
    };
    if released {
        release_all(after_press)
    } else {
        after_press
    }
}

/// One entity after the position update at pointer position `p`: dragged
/// entities move to `p`, all others stay.
pub open spec fn follow_entity(p: Point, e: Entity) -> Entity {
    if e.dragged {
        with_position(e, p)
    } else {
        e
    }
}

/// The whole store after the position update at pointer position `p`.
pub open spec fn follow_all(p: Point, s: Seq<Entity>) -> Seq<Entity> {
    Seq::new(s.len(), |i: int| follow_entity(p, s[i]))
}

/// The entity store after one whole frame: pointer tracking, hover
/// detection, drag control, position update, in that order.
pub open spec fn frame_all(
    s: Seq<Entity>,
    p: Point,
    cursor: Option<Point>,
    pressed: bool,
    released: bool,
) -> Seq<Entity> {
    follow_all(
        track_pointer(p, cursor),
        drag_all(hover_all(track_pointer(p, cursor), s), pressed, released),
    )
}

/// Every entity's identifier equals its index in the store, so identifiers
/// are unique and stable: entities are only ever appended.
pub open spec fn ids_ok(s: Seq<Entity>) -> bool {
    forall|i: int| 0 <= i < s.len() ==> s[i].id == i as u64
}

/// Width of a card's rectangle, in world units.
pub const CARD_WIDTH: i64 = 40;

/// Height of a card's rectangle, in world units.
pub const CARD_HEIGHT: i64 = 60;

/// Horizontal gap between the demo cards and the vertical axis.
pub const CARD_GAP: i64 = 2;

/// The inert demo card, left of the origin: neither hoverable nor draggable.
pub open spec fn left_card(id: u64) -> Entity {
    new_entity(
        id,
        Point { x: (-CARD_WIDTH - CARD_GAP) as i64, y: 0 },
        Size { width: CARD_WIDTH, height: CARD_HEIGHT },
        false,
        false,
    )
}

/// The interactive demo card, right of the origin: hoverable and draggable.
pub open spec fn right_card(id: u64) -> Entity {
    new_entity(
        id,
        Point { x: (CARD_WIDTH + CARD_GAP) as i64, y: 0 },
        Size { width: CARD_WIDTH, height: CARD_HEIGHT },
        true,
        true,
    )
}

/// Two press targets of the same store are the same index: the target is the
/// first hovered, draggable entity.
pub proof fn lemma_press_target_unique(s: Seq<Entity>, i: int, j: int)
    requires
        press_target(s, i),
        press_target(s, j),
    ensures
        i == j,
{
    if i < j {
        assert(!(s[i].hovered && s[i].draggable));
    }
    if j < i {
        assert(!(s[j].hovered && s[j].draggable));
    }
}

/// Hover detection over a whole store, building the updated store.
fn hover_pass(p: Point, entities: &Vec<Entity>) -> (out: Vec<Entity>)
    ensures
        out@ == hover_all(p, entities@),
{
    let n: usize = entities.len();
    let mut out: Vec<Entity> = Vec::new();
    let mut i: usize = 0;
    while i < n
        invariant
            n == entities@.len(),
            i <= n,
            out@.len() == i,
            forall|j: int| 0 <= j < i ==> out@[j] == hover_entity(p, entities@[j]),
        decreases n - i,
    {
        let e = entities[i];
        if e.hoverable && !e.dragged {
            let h = hit_test(p, e.position, e.size);
            out.push(Entity { hovered: h, ..e });
        } else {
            out.push(e);
        }
        i = i + 1;
    }
    proof {
        assert(out@ =~= hover_all(p, entities@));
    }
    out
}

/// The index a press edge picks: the first hovered, draggable entity in
/// store order, if any.
fn find_press_target(entities: &Vec<Entity>) -> (r: Option<usize>)
    ensures
        match r {
            Option::Some(i) => press_target(entities@, i as int),
            Option::None => !exists|i: int| press_target(entities@, i),
        },
{
    let n: usize = entities.len();
    let mut i: usize = 0;
    while i < n
        invariant
            n == entities@.len(),
            i <= n,
            forall|j: int| 0 <= j < i ==> !(entities@[j].hovered && entities@[j].draggable),
        decreases n - i,
    {
        let e = entities[i];
        if e.hovered && e.draggable {
            return Some(i);
        }
        i = i + 1;
    }
    proof {
        assert forall|k: int| !press_target(entities@, k) by {
            if 0 <= k < entities@.len() {
                assert(!(entities@[k].hovered && entities@[k].draggable));
            }
        }
    }
    None
}

/// A release edge over a whole store: every `dragged` flag cleared.
fn release_pass(entities: &Vec<Entity>) -> (out: Vec<Entity>)
    ensures
        out@ == release_all(entities@),
{
    let n: usize = entities.len();
    let mut out: Vec<Entity> = Vec::new();
    let mut i: usize = 0;
    while i < n
        invariant
            n == entities@.len(),
            i <= n,
            out@.len() == i,
            forall|j: int| 0 <= j < i ==> out@[j] == with_dragged(entities@[j], false),
        decreases n - i,
    {
        let e = entities[i];
        out.push(Entity { dragged: false, ..e });
        i = i + 1;
    }
    proof {
        assert(out@ =~= release_all(entities@));
    }
    out
}

/// The position update over a whole store: dragged entities move to `p`.
fn follow_pass(p: Point, entities: &Vec<Entity>) -> (out: Vec<Entity>)
    ensures
        out@ == follow_all(p, entities@),
{
    let n: usize = entities.len();
    let mut out: Vec<Entity> = Vec::new();
    let mut i: usize = 0;
    while i < n
        invariant
            n == entities@.len(),
            i <= n,
            out@.len() == i,
            forall|j: int| 0 <= j < i ==> out@[j] == follow_entity(p, entities@[j]),
        decreases n - i,
    {
        let e = entities[i];
        if e.dragged {
            out.push(Entity { position: p, ..e });
        } else {
            out.push(e);
        }
        i = i + 1;
    }
    proof {
        assert(out@ =~= follow_all(p, entities@));
    }
    out
}

/// The scene: the entity store and the pointer, owned by the frame
/// scheduler and threaded through each frame step explicitly.
#[derive(Debug)]
pub struct Scene {
    pub entities: Vec<Entity>,
    pub pointer: PointerState,
}

impl Scene {
    /// Identifiers match store indices; constructors establish this and
    /// every stage preserves it.
    pub open spec fn wf(self) -> bool {
        ids_ok(self.entities@)
    }

    /// An empty scene with the pointer at the origin.
    pub fn new() -> (s: Scene)
        ensures
            s.entities@ == Seq::<Entity>::empty(),
            s.pointer.position == origin(),
            s.wf(),
    {
        Scene { entities: Vec::new(), pointer: PointerState { position: Point { x: 0, y: 0 } } }
    }

    /// Appends one entity with clear flags and returns its identifier, the
    /// next unused one.
    pub fn spawn(&mut self, position: Point, size: Size, draggable: bool, hoverable: bool) -> (id:
        u64)
        ensures
            id == old(self).entities@.len() as u64,
            final(self).entities@ == old(self).entities@.push(
                new_entity(id, position, size, draggable, hoverable),
            ),
            final(self).pointer == old(self).pointer,
            old(self).wf() ==> final(self).wf(),
    {
        let id: u64 = self.entities.len() as u64;
        self.entities.push(
            Entity {
                id,
                position,
                size,
                draggable,
                hoverable,
                hovered: false,
                dragged: false,
            },
        );
        id
    }

    /// Adds the two demo cards, side by side: the inert one to the left of
    /// the origin, the hoverable and draggable one to the right.
    pub fn add_cards(&mut self)
        ensures
            final(self).entities@ == old(self).entities@.push(
                left_card(old(self).entities@.len() as u64),
            ).push(right_card((old(self).entities@.len() + 1) as u64)),
            final(self).pointer == old(self).pointer,
            old(self).wf() ==> final(self).wf(),
    {
        let left_x: i64 = -CARD_WIDTH - CARD_GAP;
        let right_x: i64 = CARD_WIDTH + CARD_GAP;
        self.spawn(
            Point { x: left_x, y: 0 },
            Size { width: CARD_WIDTH, height: CARD_HEIGHT },
            false,
            false,
        );
        self.spawn(
            Point { x: right_x, y: 0 },
            Size { width: CARD_WIDTH, height: CARD_HEIGHT },
            true,
            true,
        );
    }

    /// Pointer tracking: records the pointer's current world position, or
    /// keeps the previous one when no pointer is present this frame. The
    /// entity store is untouched.
    pub fn update_pointer(&mut self, cursor: Option<Point>)
        ensures
            final(self).pointer.position == track_pointer(old(self).pointer.position, cursor),
            final(self).entities@ == old(self).entities@,
    {
        match cursor {
            Some(c) => {
                self.pointer.position = c;
            },
            None => {},
        }
    }

    /// Hover detection: recomputes the `hovered` flag of every hoverable,
    /// non-dragged entity from the strict bounding-box test against the
    /// current pointer position; dragged entities keep their flag.
    pub fn update_hover(&mut self)
        ensures
            final(self).entities@ == hover_all(old(self).pointer.position, old(self).entities@),
            final(self).pointer == old(self).pointer,
    {
        let out = hover_pass(self.pointer.position, &self.entities);
        self.entities = out;
    }

    /// Drag control for one frame's edge events: a press marks the first
    /// hovered, draggable entity dragged; a release then clears every
    /// `dragged` flag. Either event without a match is a no-op.
    pub fn update_drag(&mut self, pressed: bool, released: bool)
        ensures
            final(self).entities@ == drag_all(old(self).entities@, pressed, released),
            final(self).pointer == old(self).pointer,
    {
        if pressed {
            let ghost before = self.entities@;
            match find_press_target(&self.entities) {
                Some(i) => {
                    let e = self.entities[i];
                    self.entities[i] = Entity { dragged: true, ..e };
                    proof {
                        let t = choose|k: int| press_target(before, k);
                        lemma_press_target_unique(before, t, i as int);
                        assert(self.entities@ == press_all(before));
                    }
                },
                None => {
                    proof {
                        assert(self.entities@ == press_all(before));
                    }
                },
            }
        }
        if released {
            let out = release_pass(&self.entities);
            self.entities = out;
        }
    }

    /// Position update: moves every dragged entity to the current pointer
    /// position; everything else stays.
    pub fn update_positions(&mut self)
        ensures
            final(self).entities@ == follow_all(old(self).pointer.position, old(self).entities@),
            final(self).pointer == old(self).pointer,
    {
        let out = follow_pass(self.pointer.position, &self.entities);
        self.entities = out;
    }

    /// One whole frame: pointer tracking, hover detection, drag control,
    /// and the position update, in that fixed order.
    pub fn frame_step(&mut self, cursor: Option<Point>, pressed: bool, released: bool)
        ensures
            final(self).pointer.position == track_pointer(old(self).pointer.position, cursor),
            final(self).entities@ == frame_all(
                old(self).entities@,
                old(self).pointer.position,
                cursor,
                pressed,
                released,
            ),
    {
        self.update_pointer(cursor);
        self.update_hover();
        self.update_drag(pressed, released);
        self.update_positions();
    }
}

} // verus!
