//! The playfield: its shapes, the drags that hold them, the turning
//! gestures and the zoom camera.

use vstd::prelude::*;
use crate::components::{Draggable, Padlock, BodyKind, TouchRotate, ZoomCamera};
use crate::geometry::{Arena, Point};
use crate::search::{any_where, first_where, is_first_where, lemma_first_where_is, lemma_first_where_means, lemma_first_where_none};
use crate::source::DragSource;

verus! {

/// The shape with the given identity.
pub open spec fn with_entity(entity: u64) -> spec_fn(Draggable) -> bool {
    |d: Draggable| d.entity == entity
}

/// A shape that `source` holds.
pub open spec fn held_by(source: DragSource) -> spec_fn(Draggable) -> bool {
    |d: Draggable| d.is_held_by(source)
}

/// A shape that a touch holds.
pub open spec fn held_by_touch() -> spec_fn(Draggable) -> bool {
    |d: Draggable| d.is_held_by_touch()
}

/// A shape that a drag holds.
pub open spec fn held() -> spec_fn(Draggable) -> bool {
    |d: Draggable| d.is_held()
}

/// A locked shape.
pub open spec fn locked() -> spec_fn(Draggable) -> bool {
    |d: Draggable| d.locked
}

/// A turning gesture of the touch with the given number.
pub open spec fn of_touch(id: u64) -> spec_fn(TouchRotate) -> bool {
    |g: TouchRotate| g.touch_id == id
}

/// The mark over a shape, if it has one.
pub open spec fn padlock_of() -> spec_fn(Draggable) -> Option<Padlock> {
    |d: Draggable| d.padlock()
}

/// The identity of a shape, if the shape is held.
pub open spec fn held_entity() -> spec_fn(Draggable) -> Option<u64> {
    |d: Draggable|
        if d.is_held() {
            Some(d.entity)
        } else {
            None
        }
}

/// A turning gesture of any touch but the one with the given number.
pub open spec fn not_of_touch(id: u64) -> spec_fn(TouchRotate) -> bool {
    |g: TouchRotate| g.touch_id != id
}

/// What a playfield holds.
pub struct StageView {
    /// The shapes, in the order in which they were added.
    pub shapes: Seq<Draggable>,
    /// The turning gestures, oldest first.
    pub touch_rotates: Seq<TouchRotate>,
    /// The zoom camera.
    pub camera: ZoomCamera,
    /// The bounds that dragged shapes are kept in.
    pub arena: Arena,
}

impl StageView {
    /// No two shapes share an identity.
    pub open spec fn entities_distinct(self) -> bool {
        forall|i: int, j: int|
            0 <= i < j < self.shapes.len() ==> (#[trigger] self.shapes[i]).entity != (
            #[trigger] self.shapes[j]).entity
    }

    /// No source holds two shapes. That no shape is held twice is in the
    /// data: a shape has room for one drag.
    pub open spec fn sources_distinct(self) -> bool {
        forall|i: int, j: int|
            0 <= i < j < self.shapes.len() && (#[trigger] self.shapes[i]).is_held() && (
            #[trigger] self.shapes[j]).is_held() ==> self.shapes[i].dragged.unwrap().drag_source
                != self.shapes[j].dragged.unwrap().drag_source
    }

    /// At most one shape is locked.
    pub open spec fn one_lock(self) -> bool {
        forall|i: int, j: int|
            0 <= i < j < self.shapes.len() ==> !((#[trigger] self.shapes[i]).locked && (
            #[trigger] self.shapes[j]).locked)
    }

    /// The playfield is in order: identities and holding sources are
    /// distinct, each shape's body agrees with its lock and its drag, at most
    /// one shape is locked, and the zoom camera renders whenever a touch
    /// holds a shape and only while some shape is held.
    pub open spec fn wf(self) -> bool {
        &&& self.entities_distinct()
        &&& self.sources_distinct()
        &&& self.one_lock()
        &&& forall|i: int| 0 <= i < self.shapes.len() ==> (#[trigger] self.shapes[i]).consistent()
        &&& any_where(self.shapes, held_by_touch()) ==> self.camera.active
        &&& self.camera.active ==> any_where(self.shapes, held())
        &&& self.camera.scale <= 1000
    }

    /// Whether some shape is locked.
    pub open spec fn any_locked(self) -> bool {
        any_where(self.shapes, locked())
    }

    /// Whether some shape is held.
    pub open spec fn any_dragged(self) -> bool {
        any_where(self.shapes, held())
    }

    /// Whether `source` holds a shape.
    pub open spec fn source_busy(self, source: DragSource) -> bool {
        any_where(self.shapes, held_by(source))
    }

    /// The shape with the given identity, if the playfield has it.
    pub open spec fn shape(self, entity: u64) -> Option<Draggable> {
        match first_where(self.shapes, with_entity(entity)) {
            Some(i) => Some(self.shapes[i]),
            None => None,
        }
    }

    /// The mark over each locked shape, in the order of the shapes.
    pub open spec fn padlocks(self) -> Seq<Padlock> {
        self.shapes.filter_map(padlock_of())
    }

    /// The shapes that are held, each by its identity, in the order of the
    /// shapes. They are the ones that a rotation turns.
    pub open spec fn held_entities(self) -> Seq<u64> {
        self.shapes.filter_map(held_entity())
    }
}

/// The playfield.
pub struct Stage {
    shapes: Vec<Draggable>,
    touch_rotates: Vec<TouchRotate>,
    camera: ZoomCamera,
    arena: Arena,
}

impl View for Stage {
    type V = StageView;

    closed spec fn view(&self) -> StageView {
        StageView {
            shapes: self.shapes@,
            touch_rotates: self.touch_rotates@,
            camera: self.camera,
            arena: self.arena,
        }
    }
}

impl Stage {
    /// An empty playfield with the given bounds. The zoom camera is off and
    /// shows `camera_scale` thousandths of the playfield, at most all of it.
    pub fn new(arena: Arena, camera_scale: u16) -> (r: Stage)
        ensures
            r@.wf(),
            r@.shapes.len() == 0,
            r@.touch_rotates.len() == 0,
            r@.arena == arena,
            r@.camera == (ZoomCamera {
                active: false,
                scale: if camera_scale <= 1000 { camera_scale } else { 1000 },
                translation: Point { x: 0, y: 0 },
            }),
    {
        let scale: u16 = if camera_scale <= 1000 { camera_scale } else { 1000 };
        Stage {
            shapes: Vec::new(),
            touch_rotates: Vec::new(),
            camera: ZoomCamera { active: false, scale, translation: Point { x: 0, y: 0 } },
            arena,
        }
    }

    /// Puts a new shape on the playfield, simulated and free. Does nothing
    /// and returns `false` where a shape with that identity is there already.
    pub fn add_shape(&mut self, entity: u64, translation: Point) -> (added: bool)
        requires
            old(self)@.wf(),
        ensures
            final(self)@.wf(),
            added == !any_where(old(self)@.shapes, with_entity(entity)),
            added ==> final(self)@ == (StageView {
                shapes: old(self)@.shapes.push(Draggable::fresh(entity, translation)),
                ..old(self)@
            }),
            !added ==> final(self)@ == old(self)@,
    {
        proof {
            lemma_first_where_means(self@.shapes, with_entity(entity));
        }
        if self.find_entity(entity).is_some() {
            return false;
        }
        let ghost before = self@;
        self.shapes.push(
            Draggable {
                entity,
                translation,
                rotation: 0,
                body: BodyKind::Dynamic,
                locked: false,
                dragged: None,
            },
        );
        proof {
            let after = self@;
            let last = before.shapes.len() as int;
            assert(after.shapes[last] == Draggable::fresh(entity, translation));
            assert forall|i: int| 0 <= i < last implies after.shapes[i] == before.shapes[i] by {}
            assert(after.entities_distinct()) by {
                assert forall|i: int, j: int| 0 <= i < j < after.shapes.len() implies (
                #[trigger] after.shapes[i]).entity != (#[trigger] after.shapes[j]).entity by {
                    if j == last {
                        assert(!with_entity(entity)(before.shapes[i]));
                    }
                }
            }
            assert(after.sources_distinct());
            assert(after.one_lock());
            if any_where(after.shapes, held_by_touch()) {
                let k = choose|k: int|
                    0 <= k < after.shapes.len() && held_by_touch()(#[trigger] after.shapes[k]);
                assert(held_by_touch()(before.shapes[k]));
            }
            if after.camera.active {
                let k = choose|k: int|
                    0 <= k < before.shapes.len() && held()(#[trigger] before.shapes[k]);
                assert(held()(after.shapes[k]));
            }
        }
        true
    }

    /// Empties the playfield for the next level: no shape, no gesture, the
    /// zoom camera off.
    pub fn clear(&mut self)
        requires
            old(self)@.wf(),
        ensures
            final(self)@.wf(),
            final(self)@ == (StageView {
                shapes: Seq::empty(),
                touch_rotates: Seq::empty(),
                camera: ZoomCamera { active: false, ..old(self)@.camera },
                arena: old(self)@.arena,
            }),
    {
        self.shapes = Vec::new();
        self.touch_rotates = Vec::new();
        self.camera = ZoomCamera { active: false, scale: self.camera.scale, translation: self.camera.translation };
        proof {
            assert(self@.shapes =~= Seq::empty());
            assert(self@.touch_rotates =~= Seq::empty());
        }
    }

    /// The number of shapes.
    pub fn len(&self) -> (r: usize)
        ensures
            r == self@.shapes.len(),
    {
        self.shapes.len()
    }

    /// The shape at place `i`, counting in the order in which shapes were
    /// added.
    pub fn shape_at(&self, i: usize) -> (r: Draggable)
        requires
            i < self@.shapes.len(),
        ensures
            r == self@.shapes[i as int],
    {
        self.shapes[i]
    }

    /// The shape with the given identity.
    pub fn shape(&self, entity: u64) -> (r: Option<Draggable>)
        ensures
            r == self@.shape(entity),
    {
        match self.find_entity(entity) {
            Some(i) => Some(self.shapes[i]),
            None => None,
        }
    }

    /// The number of turning gestures.
    pub fn gesture_count(&self) -> (r: usize)
        ensures
            r == self@.touch_rotates.len(),
    {
        self.touch_rotates.len()
    }

    /// The turning gesture at place `i`, the oldest at 0.
    pub fn gesture_at(&self, i: usize) -> (r: TouchRotate)
        requires
            i < self@.touch_rotates.len(),
        ensures
            r == self@.touch_rotates[i as int],
    {
        self.touch_rotates[i]
    }

    /// The zoom camera.
    pub fn camera(&self) -> (r: ZoomCamera)
        ensures
            r == self@.camera,
    {
        self.camera
    }

    /// The bounds that dragged shapes are kept in.
    pub fn arena(&self) -> (r: Arena)
        ensures
            r == self@.arena,
    {
        self.arena
    }

    /// Whether some shape is locked.
    pub fn any_locked(&self) -> (r: bool)
        ensures
            r == self@.any_locked(),
    {
        let mut i: usize = 0;
        while i < self.shapes.len()
            invariant
                i <= self.shapes.len(),
                forall|j: int| 0 <= j < i ==> !locked()(#[trigger] self.shapes@[j]),
            decreases self.shapes.len() - i,
        {
            if self.shapes[i].locked {
                assert(locked()(self@.shapes[i as int]));
                return true;
            }
            i += 1;
        }
        false
    }

    /// Whether some shape is held.
    pub fn any_dragged(&self) -> (r: bool)
        ensures
            r == self@.any_dragged(),
    {
        let mut i: usize = 0;
        while i < self.shapes.len()
            invariant
                i <= self.shapes.len(),
                forall|j: int| 0 <= j < i ==> !held()(#[trigger] self.shapes@[j]),
            decreases self.shapes.len() - i,
        {
            if self.shapes[i].dragged.is_some() {
                assert(held()(self@.shapes[i as int]));
                return true;
            }
            i += 1;
        }
        false
    }

    /// The padlocks to draw: one over each locked shape.
    pub fn padlocks(&self) -> (marks: Vec<Padlock>)
        ensures
            marks@ == self@.padlocks(),
    {
        let mut marks: Vec<Padlock> = Vec::new();
        let mut i: usize = 0;
        while i < self.shapes.len()
            invariant
                i <= self.shapes.len(),
                marks@ == self.shapes@.take(i as int).filter_map(padlock_of()),
            decreases self.shapes.len() - i,
        {
            proof {
                self.shapes@.lemma_filter_map_take_succ(padlock_of(), i as int);
            }
            match self.shapes[i].add_padlock() {
                Some(mark) => {
                    marks.push(mark);
                },
                None => {},
            }
            i += 1;
        }
        proof {
            assert(self.shapes@.take(i as int) == self.shapes@);
        }
        marks
    }

    /// The shapes that a rotation turns: the held ones, each by its
    /// identity.
    pub fn rotation_targets(&self) -> (targets: Vec<u64>)
        ensures
            targets@ == self@.held_entities(),
    {
        let mut targets: Vec<u64> = Vec::new();
        let mut i: usize = 0;
        while i < self.shapes.len()
            invariant
                i <= self.shapes.len(),
                targets@ == self.shapes@.take(i as int).filter_map(held_entity()),
            decreases self.shapes.len() - i,
        {
            proof {
                self.shapes@.lemma_filter_map_take_succ(held_entity(), i as int);
            }
            if self.shapes[i].is_dragged() {
                targets.push(self.shapes[i].entity);
            }
            i += 1;
        }
        proof {
            assert(self.shapes@.take(i as int) == self.shapes@);
        }
        targets
    }

    /// The place of the shape with the given identity.
    pub fn find_entity(&self, entity: u64) -> (r: Option<usize>)
        ensures
            r matches Some(i) ==> first_where(self@.shapes, with_entity(entity)) == Some(i as int),
            r is None ==> first_where(self@.shapes, with_entity(entity)) is None,
    {
        let mut i: usize = 0;
        while i < self.shapes.len()
            invariant
                i <= self.shapes.len(),
                forall|j: int| 0 <= j < i ==> !with_entity(entity)(#[trigger] self.shapes@[j]),
            decreases self.shapes.len() - i,
        {
            if self.shapes[i].entity == entity {
                proof {
                    assert(is_first_where(self@.shapes, with_entity(entity), i as int));
                    lemma_first_where_is(self@.shapes, with_entity(entity), i as int);
                }
                return Some(i);
            }
            i += 1;
        }
        proof {
            lemma_first_where_none(self@.shapes, with_entity(entity));
        }
        None
    }

    /// The place of the shape that `source` holds.
    pub fn find_holder(&self, source: DragSource) -> (r: Option<usize>)
        ensures
            r matches Some(i) ==> first_where(self@.shapes, held_by(source)) == Some(i as int),
            r is None ==> first_where(self@.shapes, held_by(source)) is None,
    {
        let mut i: usize = 0;
        while i < self.shapes.len()
            invariant
                i <= self.shapes.len(),
                forall|j: int| 0 <= j < i ==> !held_by(source)(#[trigger] self.shapes@[j]),
            decreases self.shapes.len() - i,
        {
            let held: bool = match self.shapes[i].dragged {
                Some(d) => d.drag_source == source,
                None => false,
            };
            if held {
                proof {
                    assert(is_first_where(self@.shapes, held_by(source), i as int));
                    lemma_first_where_is(self@.shapes, held_by(source), i as int);
                }
                return Some(i);
            }
            i += 1;
        }
        proof {
            lemma_first_where_none(self@.shapes, held_by(source));
        }
        None
    }

    /// The place of the first shape that a touch holds.
    pub fn find_touch_held(&self) -> (r: Option<usize>)
        ensures
            r matches Some(i) ==> first_where(self@.shapes, held_by_touch()) == Some(i as int),
            r is None ==> first_where(self@.shapes, held_by_touch()) is None,
    {
        let mut i: usize = 0;
        while i < self.shapes.len()
            invariant
                i <= self.shapes.len(),
                forall|j: int| 0 <= j < i ==> !held_by_touch()(#[trigger] self.shapes@[j]),
            decreases self.shapes.len() - i,
        {
            let held: bool = match self.shapes[i].dragged {
                Some(d) => d.drag_source.is_touch(),
                None => false,
            };
            if held {
                proof {
                    assert(is_first_where(self@.shapes, held_by_touch(), i as int));
                    lemma_first_where_is(self@.shapes, held_by_touch(), i as int);
                }
                return Some(i);
            }
            i += 1;
        }
        proof {
            lemma_first_where_none(self@.shapes, held_by_touch());
        }
        None
    }

    /// The place of the oldest turning gesture of the touch numbered `id`.
    pub fn find_gesture(&self, id: u64) -> (r: Option<usize>)
        ensures
            r matches Some(i) ==> first_where(self@.touch_rotates, of_touch(id)) == Some(i as int),
            r is None ==> first_where(self@.touch_rotates, of_touch(id)) is None,
    {
        let mut i: usize = 0;
        while i < self.touch_rotates.len()
            invariant
                i <= self.touch_rotates.len(),
                forall|j: int| 0 <= j < i ==> !of_touch(id)(#[trigger] self.touch_rotates@[j]),
            decreases self.touch_rotates.len() - i,
        {
            if self.touch_rotates[i].touch_id == id {
                proof {
                    assert(is_first_where(self@.touch_rotates, of_touch(id), i as int));
                    lemma_first_where_is(self@.touch_rotates, of_touch(id), i as int);
                }
                return Some(i);
            }
            i += 1;
        }
        proof {
            lemma_first_where_none(self@.touch_rotates, of_touch(id));
        }
        None
    }

    /// Replaces the shape at place `i`.
    pub(crate) fn put_shape(&mut self, i: usize, shape: Draggable)
        requires
            i < old(self)@.shapes.len(),
        ensures
            final(self)@ == (StageView {
                shapes: old(self)@.shapes.update(i as int, shape),
                ..old(self)@
            }),
    {
        self.shapes.set(i, shape);
    }

    /// Adds a turning gesture, as the newest.
    pub(crate) fn push_gesture(&mut self, gesture: TouchRotate)
        ensures
            final(self)@ == (StageView {
                touch_rotates: old(self)@.touch_rotates.push(gesture),
                ..old(self)@
            }),
    {
        self.touch_rotates.push(gesture);
    }

    /// Replaces the turning gesture at place `i`.
    pub(crate) fn put_gesture(&mut self, i: usize, gesture: TouchRotate)
        requires
            i < old(self)@.touch_rotates.len(),
        ensures
            final(self)@ == (StageView {
                touch_rotates: old(self)@.touch_rotates.update(i as int, gesture),
                ..old(self)@
            }),
    {
        self.touch_rotates.set(i, gesture);
    }

    /// Takes out the turning gesture at place `i`.
    pub(crate) fn remove_gesture(&mut self, i: usize)
        requires
            i < old(self)@.touch_rotates.len(),
        ensures
            final(self)@ == (StageView {
                touch_rotates: old(self)@.touch_rotates.remove(i as int),
                ..old(self)@
            }),
    {
        self.touch_rotates.remove(i);
    }

    /// Takes out every turning gesture of the touch numbered `id`.
    pub(crate) fn drop_gestures_of(&mut self, id: u64)
        ensures
            final(self)@ == (StageView {
                touch_rotates: old(self)@.touch_rotates.filter(not_of_touch(id)),
                ..old(self)@
            }),
    {
        let mut kept: Vec<TouchRotate> = Vec::new();
        let mut i: usize = 0;
        proof {
            reveal(Seq::filter);
            assert(self.touch_rotates@.take(0).len() == 0);
        }
        while i < self.touch_rotates.len()
            invariant
                i <= self.touch_rotates.len(),
                *self == *old(self),
                kept@ == self.touch_rotates@.take(i as int).filter(not_of_touch(id)),
            decreases self.touch_rotates.len() - i,
        {
            let gesture: TouchRotate = self.touch_rotates[i];
            proof {
                reveal(Seq::filter);
                assert(self.touch_rotates@.take(i as int + 1).drop_last() == self.touch_rotates@.take(
                    i as int,
                ));
                assert(self.touch_rotates@.take(i as int + 1).last() == gesture);
            }
            if gesture.touch_id != id {
                kept.push(gesture);
            }
            i += 1;
        }
        proof {
            assert(self.touch_rotates@.take(i as int) == self.touch_rotates@);
        }
        self.touch_rotates = kept;
    }

    /// Replaces the zoom camera.
    pub(crate) fn put_camera(&mut self, camera: ZoomCamera)
        ensures
            final(self)@ == (StageView { camera, ..old(self)@ }),
    {
        self.camera = camera;
    }
}

} // verus!
