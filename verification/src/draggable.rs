//! The drag rules: how shapes are grabbed, moved and released.

use vstd::prelude::*;
use crate::components::{Dragged, Draggable, Padlock, BodyKind, TouchRotate, ZoomCamera};
use crate::events::{
    DragEndEvent, DragMoveEvent, DragStartEvent, EndOutcome, Hit, MoveOutcome, RotateEvent, StartOutcome,
};
use crate::rotation::{round_z, snapped, turn, turned};
use crate::lock::{release, release_rule};
use crate::source::DragSource;
use crate::search::{any_where, first_where, is_first_where, lemma_first_where_is, lemma_first_where_means, lemma_first_where_none};
use crate::stage::{held, held_by, held_by_touch, locked, not_of_touch, of_touch, with_entity, Stage, StageView};

verus! {

/// A hit on a shape of the playfield that no drag holds.
pub open spec fn free_in(shapes: Seq<Draggable>) -> spec_fn(Hit) -> bool {
    |h: Hit|
        first_where(shapes, with_entity(h.entity)) matches Some(i) && !shapes[i].is_held()
}

/// The shape as it is once `event` has grabbed it through `hit`: held where
/// and as the hit found it, kinematic, its lock gone.
pub open spec fn grabbed(shape: Draggable, hit: Hit, event: DragStartEvent) -> Draggable {
    Draggable {
        entity: shape.entity,
        translation: hit.translation,
        rotation: hit.rotation,
        body: BodyKind::KinematicPositionBased,
        locked: false,
        dragged: Some(
            Dragged {
                origin: hit.translation,
                offset: hit.translation.minus(event.position),
                drag_source: event.drag_source,
                was_locked: shape.locked,
            },
        ),
    }
}

/// Whether a drag start is passed over: a touch once a mouse start was seen
/// in the same pass, or a source that holds a shape already.
pub open spec fn start_ignored(s: StageView, mouse_seen: bool, event: DragStartEvent) -> bool {
    (event.drag_source is Touch && mouse_seen) || s.source_busy(event.drag_source)
}

/// The playfield after one drag start, and what the start led to.
///
/// An event that is not passed over grabs the shape of the first hit that is
/// free. Where no hit is free, a touch begins a turning gesture about the
/// first shape that a touch holds, if there is one.
pub open spec fn start_step(s: StageView, mouse_seen: bool, event: DragStartEvent, hits: Seq<Hit>) -> (
    StageView,
    StartOutcome,
) {
    if start_ignored(s, mouse_seen, event) {
        (s, StartOutcome::Ignored)
    } else {
        match first_where(hits, free_in(s.shapes)) {
            Some(k) => {
                let i = first_where(s.shapes, with_entity(hits[k].entity)).unwrap();
                (
                    StageView {
                        shapes: s.shapes.update(i, grabbed(s.shapes[i], hits[k], event)),
                        camera: ZoomCamera {
                            active: s.camera.active || event.drag_source is Touch,
                            ..s.camera
                        },
                        ..s
                    },
                    StartOutcome::Grabbed { entity: hits[k].entity, unlocked: s.shapes[i].locked },
                )
            },
            None => {
                if event.drag_source is Touch && first_where(s.shapes, held_by_touch()) is Some {
                    let i = first_where(s.shapes, held_by_touch()).unwrap();
                    (
                        StageView {
                            touch_rotates: s.touch_rotates.push(
                                TouchRotate {
                                    previous: event.position,
                                    centre: s.shapes[i].translation,
                                    touch_id: event.drag_source->id,
                                },
                            ),
                            ..s
                        },
                        StartOutcome::Gesture,
                    )
                } else {
                    (s, StartOutcome::Missed)
                }
            },
        }
    }
}

/// A grab keeps the playfield in order.
pub proof fn lemma_grab_keeps_order(s: StageView, event: DragStartEvent, hit: Hit, i: int)
    requires
        s.wf(),
        !s.source_busy(event.drag_source),
        0 <= i < s.shapes.len(),
        !s.shapes[i].is_held(),
    ensures
        (StageView {
            shapes: s.shapes.update(i, grabbed(s.shapes[i], hit, event)),
            camera: ZoomCamera { active: s.camera.active || event.drag_source is Touch, ..s.camera },
            ..s
        }).wf(),
{
    let t = StageView {
        shapes: s.shapes.update(i, grabbed(s.shapes[i], hit, event)),
        camera: ZoomCamera { active: s.camera.active || event.drag_source is Touch, ..s.camera },
        ..s
    };
    assert forall|a: int, b: int|
        0 <= a < b < t.shapes.len() && (#[trigger] t.shapes[a]).is_held() && (
        #[trigger] t.shapes[b]).is_held() implies t.shapes[a].dragged.unwrap().drag_source
        != t.shapes[b].dragged.unwrap().drag_source by {
        if a == i {
            assert(!held_by(event.drag_source)(s.shapes[b]));
        } else if b == i {
            assert(!held_by(event.drag_source)(s.shapes[a]));
        }
    }
    assert(t.entities_distinct());
    assert(t.one_lock());
    assert(held()(t.shapes[i]));
    if any_where(t.shapes, held_by_touch()) && !(event.drag_source is Touch) {
        let k = choose|k: int| 0 <= k < t.shapes.len() && held_by_touch()(#[trigger] t.shapes[k]);
        assert(held_by_touch()(s.shapes[k]));
    }
}

/// Handles one drag start. `mouse_seen` says whether a mouse start came
/// earlier in the same pass; `hits` is what the physics engine found under
/// the event's position, in its order.
pub fn on_drag_start(stage: &mut Stage, mouse_seen: bool, event: &DragStartEvent, hits: &Vec<Hit>) -> (outcome:
    StartOutcome)
    requires
        old(stage)@.wf(),
    ensures
        final(stage)@.wf(),
        (final(stage)@, outcome) == start_step(old(stage)@, mouse_seen, *event, hits@),
{
    proof {
        lemma_first_where_means(stage@.shapes, held_by(event.drag_source));
    }
    if event.drag_source.is_touch() && mouse_seen {
        return StartOutcome::Ignored;
    }
    if stage.find_holder(event.drag_source).is_some() {
        return StartOutcome::Ignored;
    }
    let mut k: usize = 0;
    while k < hits.len()
        invariant
            k <= hits.len(),
            stage@ == old(stage)@,
            stage@.wf(),
            !stage@.source_busy(event.drag_source),
            !(event.drag_source is Touch && mouse_seen),
            forall|j: int| 0 <= j < k ==> !free_in(stage@.shapes)(#[trigger] hits@[j]),
        decreases hits.len() - k,
    {
        let hit: Hit = hits[k];
        match stage.find_entity(hit.entity) {
            Some(i) => {
                proof {
                    lemma_first_where_means(stage@.shapes, with_entity(hit.entity));
                }
                let shape: Draggable = stage.shape_at(i);
                if !shape.is_dragged() {
                    proof {
                        assert(free_in(stage@.shapes)(hits@[k as int]));
                        assert(is_first_where(hits@, free_in(stage@.shapes), k as int));
                        lemma_first_where_is(hits@, free_in(stage@.shapes), k as int);
                        lemma_grab_keeps_order(stage@, *event, hit, i as int);
                    }
                    let camera: ZoomCamera = stage.camera();
                    stage.put_shape(
                        i,
                        Draggable {
                            entity: shape.entity,
                            translation: hit.translation,
                            rotation: hit.rotation,
                            body: BodyKind::KinematicPositionBased,
                            locked: false,
                            dragged: Some(
                                Dragged {
                                    origin: hit.translation,
                                    offset: hit.translation.offset_from(event.position),
                                    drag_source: event.drag_source,
                                    was_locked: shape.locked,
                                },
                            ),
                        },
                    );
                    stage.put_camera(
                        ZoomCamera {
                            active: camera.active || event.drag_source.is_touch(),
                            scale: camera.scale,
                            translation: camera.translation,
                        },
                    );
                    proof {
                        let want = start_step(old(stage)@, mouse_seen, *event, hits@).0;
                        assert(stage@.shapes =~= want.shapes);
                        assert(stage@.touch_rotates =~= want.touch_rotates);
                        assert(stage@.camera == want.camera);
                    }
                    return StartOutcome::Grabbed { entity: hit.entity, unlocked: shape.locked };
                }
            },
            None => {},
        }
        k += 1;
    }
    proof {
        lemma_first_where_none(hits@, free_in(stage@.shapes));
    }
    match event.drag_source {
        DragSource::Touch { id } => {
            match stage.find_touch_held() {
                Some(i) => {
                    let centre = stage.shape_at(i).translation;
                    stage.push_gesture(TouchRotate { previous: event.position, centre, touch_id: id });
                    StartOutcome::Gesture
                },
                None => StartOutcome::Missed,
            }
        },
        DragSource::Mouse => StartOutcome::Missed,
    }
}

/// The playfield after one drag move, and what the move led to.
///
/// The shape that the source holds goes to its offset from the event's
/// position, the position first brought into the arena; for a touch the zoom
/// camera follows, looking at the target reduced by what the camera shows.
/// A touch that holds nothing but has a turning gesture turns: the gesture
/// remembers the new position. A gesture found while no touch holds a shape
/// has outlived its drag and is taken out.
pub open spec fn move_step(s: StageView, event: DragMoveEvent) -> (StageView, MoveOutcome) {
    match first_where(s.shapes, held_by(event.drag_source)) {
        Some(i) => {
            let target = s.shapes[i].dragged.unwrap().offset.plus(s.arena.clamped(event.new_position));
            (
                StageView {
                    shapes: s.shapes.update(i, Draggable { translation: target, ..s.shapes[i] }),
                    camera: if event.drag_source is Touch {
                        ZoomCamera { translation: target.reduced(1000 - s.camera.scale), ..s.camera }
                    } else {
                        s.camera
                    },
                    ..s
                },
                MoveOutcome::Moved { entity: s.shapes[i].entity, target },
            )
        },
        None => {
            if event.drag_source is Touch && first_where(s.touch_rotates, of_touch(event.drag_source->id))
                is Some {
                let g = first_where(s.touch_rotates, of_touch(event.drag_source->id)).unwrap();
                if any_where(s.shapes, held_by_touch()) {
                    (
                        StageView {
                            touch_rotates: s.touch_rotates.update(
                                g,
                                TouchRotate { previous: event.new_position, ..s.touch_rotates[g] },
                            ),
                            ..s
                        },
                        MoveOutcome::Twist {
                            centre: s.touch_rotates[g].centre,
                            previous: s.touch_rotates[g].previous,
                            current: event.new_position,
                        },
                    )
                } else {
                    (
                        StageView { touch_rotates: s.touch_rotates.remove(g), ..s },
                        MoveOutcome::Stale,
                    )
                }
            } else {
                (s, MoveOutcome::Unmatched)
            }
        },
    }
}

/// Handles one drag move.
pub fn on_drag_move(stage: &mut Stage, event: &DragMoveEvent) -> (outcome: MoveOutcome)
    requires
        old(stage)@.wf(),
    ensures
        final(stage)@.wf(),
        (final(stage)@, outcome) == move_step(old(stage)@, *event),
{
    proof {
        lemma_first_where_means(stage@.shapes, held_by(event.drag_source));
        lemma_first_where_means(stage@.shapes, held_by_touch());
    }
    match stage.find_holder(event.drag_source) {
        Some(i) => {
            let shape: Draggable = stage.shape_at(i);
            let arena = stage.arena();
            let camera: ZoomCamera = stage.camera();
            let target = match shape.dragged {
                Some(d) => d.offset.moved_by(arena.clamp(event.new_position)),
                None => shape.translation,
            };
            stage.put_shape(
                i,
                Draggable {
                    entity: shape.entity,
                    translation: target,
                    rotation: shape.rotation,
                    body: shape.body,
                    locked: shape.locked,
                    dragged: shape.dragged,
                },
            );
            if event.drag_source.is_touch() {
                stage.put_camera(
                    ZoomCamera {
                        active: camera.active,
                        scale: camera.scale,
                        translation: target.scaled_per_mille(1000 - camera.scale),
                    },
                );
            }
            proof {
                let before = old(stage)@;
                let after = stage@;
                assert(after.shapes =~= move_step(before, *event).0.shapes);
                assert forall|a: int| 0 <= a < after.shapes.len() implies (
                #[trigger] after.shapes[a]).dragged == before.shapes[a].dragged
                    && after.shapes[a].entity == before.shapes[a].entity && after.shapes[a].locked
                    == before.shapes[a].locked && after.shapes[a].body == before.shapes[a].body by {}
                assert(after.entities_distinct());
                assert(after.sources_distinct());
                assert(after.one_lock());
                if any_where(after.shapes, held_by_touch()) {
                    let k = choose|k: int|
                        0 <= k < after.shapes.len() && held_by_touch()(#[trigger] after.shapes[k]);
                    assert(held_by_touch()(before.shapes[k]));
                }
                if after.camera.active {
                    let k = choose|k: int|
                        0 <= k < before.shapes.len() && held()(#[trigger] before.shapes[k]);
                    assert(held()(after.shapes[k]));
                }
            }
            MoveOutcome::Moved { entity: shape.entity, target }
        },
        None => {
            match event.drag_source {
                DragSource::Touch { id } => {
                    match stage.find_gesture(id) {
                        Some(g) => {
                            let gesture: TouchRotate = stage.gesture_at(g);
                            if stage.find_touch_held().is_some() {
                                stage.put_gesture(
                                    g,
                                    TouchRotate {
                                        previous: event.new_position,
                                        centre: gesture.centre,
                                        touch_id: gesture.touch_id,
                                    },
                                );
                                MoveOutcome::Twist {
                                    centre: gesture.centre,
                                    previous: gesture.previous,
                                    current: event.new_position,
                                }
                            } else {
                                stage.remove_gesture(g);
                                MoveOutcome::Stale
                            }
                        },
                        None => MoveOutcome::Unmatched,
                    }
                },
                DragSource::Mouse => MoveOutcome::Unmatched,
            }
        },
    }
}

/// The shape as it is once released: no longer held, its body what the
/// release rule gives, locked exactly where that body is fixed.
pub open spec fn released(shape: Draggable, any_locked: bool) -> Draggable {
    let body = release_rule(any_locked, shape.dragged.unwrap().was_locked);
    Draggable { body, locked: body == BodyKind::Fixed, dragged: None, ..shape }
}

/// The playfield after one drag end, and what the end led to.
///
/// The shape that the source holds is released. For a touch, its turning
/// gestures go. Where no shape is held any longer, the zoom camera goes off.
pub open spec fn end_step(s: StageView, event: DragEndEvent) -> (StageView, EndOutcome) {
    let shapes = match first_where(s.shapes, held_by(event.drag_source)) {
        Some(i) => s.shapes.update(i, released(s.shapes[i], s.any_locked())),
        None => s.shapes,
    };
    let outcome = match first_where(s.shapes, held_by(event.drag_source)) {
        Some(i) => EndOutcome::Released {
            entity: s.shapes[i].entity,
            body: released(s.shapes[i], s.any_locked()).body,
        },
        None => EndOutcome::Unmatched,
    };
    (
        StageView {
            shapes,
            touch_rotates: if event.drag_source is Touch {
                s.touch_rotates.filter(not_of_touch(event.drag_source->id))
            } else {
                s.touch_rotates
            },
            camera: ZoomCamera { active: s.camera.active && any_where(shapes, held()), ..s.camera },
            arena: s.arena,
        },
        outcome,
    )
}

/// A release keeps the playfield in order.
pub proof fn lemma_release_keeps_order(s: StageView, i: int, gestures: Seq<TouchRotate>)
    requires
        s.wf(),
        0 <= i < s.shapes.len(),
        s.shapes[i].is_held(),
    ensures
        ({
            let shapes = s.shapes.update(i, released(s.shapes[i], s.any_locked()));
            (StageView {
                shapes,
                touch_rotates: gestures,
                camera: ZoomCamera { active: s.camera.active && any_where(shapes, held()), ..s.camera },
                arena: s.arena,
            }).wf()
        }),
{
    let shapes = s.shapes.update(i, released(s.shapes[i], s.any_locked()));
    let t = StageView {
        shapes,
        touch_rotates: gestures,
        camera: ZoomCamera { active: s.camera.active && any_where(shapes, held()), ..s.camera },
        arena: s.arena,
    };
    assert(t.entities_distinct());
    assert(t.sources_distinct());
    assert(t.one_lock()) by {
        assert forall|a: int, b: int| 0 <= a < b < t.shapes.len() implies !((
        #[trigger] t.shapes[a]).locked && (#[trigger] t.shapes[b]).locked) by {
            if a == i && t.shapes[a].locked {
                assert(!locked()(s.shapes[b]));
            } else if b == i && t.shapes[b].locked {
                assert(!locked()(s.shapes[a]));
            }
        }
    }
    if any_where(t.shapes, held_by_touch()) {
        let k = choose|k: int| 0 <= k < t.shapes.len() && held_by_touch()(#[trigger] t.shapes[k]);
        assert(held_by_touch()(s.shapes[k]));
        assert(held()(t.shapes[k]));
    }
}

/// Handles one drag end.
pub fn on_drag_end(stage: &mut Stage, event: &DragEndEvent) -> (outcome: EndOutcome)
    requires
        old(stage)@.wf(),
    ensures
        final(stage)@.wf(),
        (final(stage)@, outcome) == end_step(old(stage)@, *event),
{
    let any_locked = stage.any_locked();
    let outcome = match stage.find_holder(event.drag_source) {
        Some(i) => {
            let shape: Draggable = stage.shape_at(i);
            proof {
                lemma_first_where_means(stage@.shapes, held_by(event.drag_source));
            }
            let was_locked = match shape.dragged {
                Some(d) => d.was_locked,
                None => false,
            };
            let body = release(any_locked, was_locked);
            let now_locked = match body {
                BodyKind::Fixed => true,
                _ => false,
            };
            stage.put_shape(
                i,
                Draggable {
                    entity: shape.entity,
                    translation: shape.translation,
                    rotation: shape.rotation,
                    body,
                    locked: now_locked,
                    dragged: None,
                },
            );
            EndOutcome::Released { entity: shape.entity, body }
        },
        None => EndOutcome::Unmatched,
    };
    match event.drag_source {
        DragSource::Touch { id } => {
            stage.drop_gestures_of(id);
        },
        DragSource::Mouse => {},
    }
    let camera: ZoomCamera = stage.camera();
    let still_held = stage.any_dragged();
    stage.put_camera(
        ZoomCamera { active: camera.active && still_held, scale: camera.scale, translation: camera.translation },
    );
    proof {
        let before = old(stage)@;
        let want = end_step(before, *event).0;
        assert(stage@.shapes =~= want.shapes);
        assert(stage@.touch_rotates =~= want.touch_rotates);
        match first_where(before.shapes, held_by(event.drag_source)) {
            Some(i) => {
                lemma_first_where_means(before.shapes, held_by(event.drag_source));
                lemma_release_keeps_order(before, i, want.touch_rotates);
            },
            None => {
                if any_where(want.shapes, held_by_touch()) {
                    assert(any_where(want.shapes, held())) by {
                        let k = choose|k: int|
                            0 <= k < want.shapes.len() && held_by_touch()(#[trigger] want.shapes[k]);
                        assert(held()(want.shapes[k]));
                    }
                }
            },
        }
    }
    outcome
}

/// The orientation that a rotation leaves a shape in that was in
/// `rotation`: turned by the angle, then snapped where a resolution is given.
pub open spec fn turned_by(rotation: i32, event: RotateEvent) -> i32 {
    match event.snap_resolution {
        Some(resolution) => snapped(turned(rotation, event.angle), resolution),
        None => turned(rotation, event.angle),
    }
}

/// The shape after a rotation: turned if it is held, as it was if not.
pub open spec fn rotated(event: RotateEvent) -> spec_fn(Draggable) -> Draggable {
    |shape: Draggable|
        if shape.is_held() {
            Draggable { rotation: turned_by(shape.rotation, event), ..shape }
        } else {
            shape
        }
}

/// The playfield after one rotation: every held shape is turned, and
/// nothing else changes.
pub open spec fn rotate_step(s: StageView, event: RotateEvent) -> StageView {
    StageView { shapes: s.shapes.map_values(rotated(event)), ..s }
}

/// The playfield after a pass of rotations, taken in order.
pub open spec fn rotate_pass(s: StageView, events: Seq<RotateEvent>) -> StageView
    decreases events.len(),
{
    if events.len() == 0 {
        s
    } else {
        rotate_step(rotate_pass(s, events.drop_last()), events.last())
    }
}

/// A playfield whose shapes differ from those of one in order by their
/// orientations alone is in order.
pub proof fn lemma_turning_keeps_order(s: StageView, t: StageView)
    requires
        s.wf(),
        t.shapes.len() == s.shapes.len(),
        forall|i: int|
            0 <= i < s.shapes.len() ==> #[trigger] t.shapes[i] == (Draggable {
                rotation: t.shapes[i].rotation,
                ..s.shapes[i]
            }),
        t.camera == s.camera,
    ensures
        t.wf(),
{
    assert(t.entities_distinct());
    assert(t.sources_distinct());
    assert(t.one_lock());
    if any_where(t.shapes, held_by_touch()) {
        let k = choose|k: int| 0 <= k < t.shapes.len() && held_by_touch()(#[trigger] t.shapes[k]);
        assert(held_by_touch()(s.shapes[k]));
    }
    if t.camera.active {
        let k = choose|k: int| 0 <= k < s.shapes.len() && held()(#[trigger] s.shapes[k]);
        assert(held()(t.shapes[k]));
    }
}

/// Handles one rotation: turns the held shapes.
pub fn on_rotate(stage: &mut Stage, event: &RotateEvent)
    requires
        old(stage)@.wf(),
    ensures
        final(stage)@.wf(),
        final(stage)@ == rotate_step(old(stage)@, *event),
{
    let mut i: usize = 0;
    while i < stage.len()
        invariant
            i <= stage@.shapes.len(),
            stage@.shapes.len() == old(stage)@.shapes.len(),
            stage@.touch_rotates == old(stage)@.touch_rotates,
            stage@.camera == old(stage)@.camera,
            stage@.arena == old(stage)@.arena,
            forall|j: int| 0 <= j < i ==> #[trigger] stage@.shapes[j] == rotated(*event)(old(stage)@.shapes[j]),
            forall|j: int| i <= j < stage@.shapes.len() ==> #[trigger] stage@.shapes[j] == old(stage)@.shapes[j],
        decreases stage@.shapes.len() - i,
    {
        let shape: Draggable = stage.shape_at(i);
        if shape.is_dragged() {
            let turned = turn(shape.rotation, event.angle);
            let rotation = match event.snap_resolution {
                Some(resolution) => round_z(turned, resolution),
                None => turned,
            };
            stage.put_shape(
                i,
                Draggable {
                    entity: shape.entity,
                    translation: shape.translation,
                    rotation,
                    body: shape.body,
                    locked: shape.locked,
                    dragged: shape.dragged,
                },
            );
        }
        i += 1;
    }
    proof {
        assert(stage@.shapes =~= rotate_step(old(stage)@, *event).shapes);
        lemma_turning_keeps_order(old(stage)@, stage@);
    }
}

/// Handles the rotations of one pass, in order.
pub fn handle_rotate_events(stage: &mut Stage, events: &Vec<RotateEvent>)
    requires
        old(stage)@.wf(),
    ensures
        final(stage)@.wf(),
        final(stage)@ == rotate_pass(old(stage)@, events@),
{
    let mut k: usize = 0;
    proof {
        assert(events@.take(0) =~= Seq::empty());
    }
    while k < events.len()
        invariant
            k <= events.len(),
            stage@.wf(),
            stage@ == rotate_pass(old(stage)@, events@.take(k as int)),
        decreases events.len() - k,
    {
        let event: RotateEvent = events[k];
        proof {
            let upto = events@.take(k as int + 1);
            assert(upto.drop_last() =~= events@.take(k as int));
            assert(upto.last() == event);
        }
        on_rotate(stage, &event);
        k += 1;
    }
    proof {
        assert(events@.take(k as int) =~= events@);
    }
}

/// Whether one of the events comes from the mouse.
pub open spec fn mouse_among(events: Seq<DragStartEvent>) -> bool {
    exists|i: int| 0 <= i < events.len() && (#[trigger] events[i]).drag_source is Mouse
}

/// What was found under the event at place `k`: nothing where the list of
/// findings is too short.
pub open spec fn hits_of(hits: Seq<Vec<Hit>>, k: int) -> Seq<Hit> {
    if 0 <= k < hits.len() {
        hits[k]@
    } else {
        Seq::empty()
    }
}

/// The playfield after a pass of drag starts, taken in order, and what each
/// led to. A touch is passed over once a mouse start has come in the pass.
pub open spec fn start_pass(s: StageView, events: Seq<DragStartEvent>, hits: Seq<Vec<Hit>>) -> (
    StageView,
    Seq<StartOutcome>,
)
    decreases events.len(),
{
    if events.len() == 0 {
        (s, Seq::empty())
    } else {
        let before = start_pass(s, events.drop_last(), hits);
        let step = start_step(
            before.0,
            mouse_among(events.drop_last()),
            events.last(),
            hits_of(hits, events.len() - 1),
        );
        (step.0, before.1.push(step.1))
    }
}

/// The playfield after a pass of drag moves, taken in order, and what each
/// led to.
pub open spec fn move_pass(s: StageView, events: Seq<DragMoveEvent>) -> (StageView, Seq<MoveOutcome>)
    decreases events.len(),
{
    if events.len() == 0 {
        (s, Seq::empty())
    } else {
        let before = move_pass(s, events.drop_last());
        let step = move_step(before.0, events.last());
        (step.0, before.1.push(step.1))
    }
}

/// The playfield after a pass of drag ends, taken in order, and what each
/// led to.
pub open spec fn end_pass(s: StageView, events: Seq<DragEndEvent>) -> (StageView, Seq<EndOutcome>)
    decreases events.len(),
{
    if events.len() == 0 {
        (s, Seq::empty())
    } else {
        let before = end_pass(s, events.drop_last());
        let step = end_step(before.0, events.last());
        (step.0, before.1.push(step.1))
    }
}

/// Handles the drag starts of one pass, in order. `hits` holds, for each
/// event, what the physics engine found under its position.
pub fn drag_start(stage: &mut Stage, events: &Vec<DragStartEvent>, hits: &Vec<Vec<Hit>>) -> (outcomes: Vec<
    StartOutcome,
>)
    requires
        old(stage)@.wf(),
    ensures
        final(stage)@.wf(),
        (final(stage)@, outcomes@) == start_pass(old(stage)@, events@, hits@),
        outcomes@.len() == events@.len(),
{
    let nothing: Vec<Hit> = Vec::new();
    let mut outcomes: Vec<StartOutcome> = Vec::new();
    let mut mouse_seen = false;
    let mut k: usize = 0;
    proof {
        assert(events@.take(0) =~= Seq::empty());
    }
    while k < events.len()
        invariant
            k <= events.len(),
            stage@.wf(),
            nothing@.len() == 0,
            mouse_seen == mouse_among(events@.take(k as int)),
            (stage@, outcomes@) == start_pass(old(stage)@, events@.take(k as int), hits@),
            outcomes@.len() == k,
        decreases events.len() - k,
    {
        let event: DragStartEvent = events[k];
        let found: &Vec<Hit> = if k < hits.len() {
            &hits[k]
        } else {
            &nothing
        };
        proof {
            let upto = events@.take(k as int + 1);
            assert(upto.drop_last() =~= events@.take(k as int));
            assert(upto.last() == event);
            assert(found@ =~= hits_of(hits@, k as int));
            if mouse_among(events@.take(k as int)) {
                let i = choose|i: int|
                    0 <= i < k && (#[trigger] events@.take(k as int)[i]).drag_source is Mouse;
                assert(upto[i].drag_source is Mouse);
            }
            if event.drag_source is Mouse {
                assert(upto[k as int].drag_source is Mouse);
            }
            if mouse_among(upto) {
                let i = choose|i: int| 0 <= i < upto.len() && (#[trigger] upto[i]).drag_source is Mouse;
                if i < k {
                    assert(events@.take(k as int)[i].drag_source is Mouse);
                }
            }
        }
        let outcome = on_drag_start(stage, mouse_seen, &event, found);
        outcomes.push(outcome);
        if !event.drag_source.is_touch() {
            mouse_seen = true;
        }
        k += 1;
    }
    proof {
        assert(events@.take(k as int) =~= events@);
    }
    outcomes
}

/// Handles the drag moves of one pass, in order.
pub fn drag_move(stage: &mut Stage, events: &Vec<DragMoveEvent>) -> (outcomes: Vec<MoveOutcome>)
    requires
        old(stage)@.wf(),
    ensures
        final(stage)@.wf(),
        (final(stage)@, outcomes@) == move_pass(old(stage)@, events@),
        outcomes@.len() == events@.len(),
{
    let mut outcomes: Vec<MoveOutcome> = Vec::new();
    let mut k: usize = 0;
    proof {
        assert(events@.take(0) =~= Seq::empty());
    }
    while k < events.len()
        invariant
            k <= events.len(),
            stage@.wf(),
            (stage@, outcomes@) == move_pass(old(stage)@, events@.take(k as int)),
            outcomes@.len() == k,
        decreases events.len() - k,
    {
        let event: DragMoveEvent = events[k];
        proof {
            let upto = events@.take(k as int + 1);
            assert(upto.drop_last() =~= events@.take(k as int));
            assert(upto.last() == event);
        }
        let outcome = on_drag_move(stage, &event);
        outcomes.push(outcome);
        k += 1;
    }
    proof {
        assert(events@.take(k as int) =~= events@);
    }
    outcomes
}

/// Handles the drag ends of one pass, in order. Each release among the
/// outcomes is one notice that a drag has ended.
pub fn drag_end(stage: &mut Stage, events: &Vec<DragEndEvent>) -> (outcomes: Vec<EndOutcome>)
    requires
        old(stage)@.wf(),
    ensures
        final(stage)@.wf(),
        (final(stage)@, outcomes@) == end_pass(old(stage)@, events@),
        outcomes@.len() == events@.len(),
{
    let mut outcomes: Vec<EndOutcome> = Vec::new();
    let mut k: usize = 0;
    proof {
        assert(events@.take(0) =~= Seq::empty());
    }
    while k < events.len()
        invariant
            k <= events.len(),
            stage@.wf(),
            (stage@, outcomes@) == end_pass(old(stage)@, events@.take(k as int)),
            outcomes@.len() == k,
        decreases events.len() - k,
    {
        let event: DragEndEvent = events[k];
        proof {
            let upto = events@.take(k as int + 1);
            assert(upto.drop_last() =~= events@.take(k as int));
            assert(upto.last() == event);
        }
        let outcome = on_drag_end(stage, &event);
        outcomes.push(outcome);
        k += 1;
    }
    proof {
        assert(events@.take(k as int) =~= events@);
    }
    outcomes
}

/// The padlock that a drag end calls for: one over the shape that the end
/// has locked, none for any other outcome.
pub open spec fn lock_mark(s: StageView) -> spec_fn(EndOutcome) -> Option<Padlock> {
    |outcome: EndOutcome|
        match outcome {
            EndOutcome::Released { entity, body: BodyKind::Fixed } => match s.shape(entity) {
                Some(shape) => shape.padlock(),
                None => None,
            },
            _ => None,
        }
}

/// Whether a drag start has taken a lock away.
pub open spec fn took_lock(outcome: StartOutcome) -> bool {
    outcome matches StartOutcome::Grabbed { unlocked, .. } && unlocked
}

/// The padlocks to draw after a pass of drag ends: one over each shape
/// that the pass has locked and that is still locked.
pub fn add_padlock(stage: &Stage, outcomes: &Vec<EndOutcome>) -> (marks: Vec<Padlock>)
    ensures
        marks@ == outcomes@.filter_map(lock_mark(stage@)),
{
    let mut marks: Vec<Padlock> = Vec::new();
    let mut k: usize = 0;
    while k < outcomes.len()
        invariant
            k <= outcomes.len(),
            marks@ == outcomes@.take(k as int).filter_map(lock_mark(stage@)),
        decreases outcomes.len() - k,
    {
        proof {
            outcomes@.lemma_filter_map_take_succ(lock_mark(stage@), k as int);
        }
        match outcomes[k] {
            EndOutcome::Released { entity, body: BodyKind::Fixed } => {
                match stage.shape(entity) {
                    Some(shape) => {
                        match shape.add_padlock() {
                            Some(mark) => {
                                marks.push(mark);
                            },
                            None => {},
                        }
                    },
                    None => {},
                }
            },
            _ => {},
        }
        k += 1;
    }
    proof {
        assert(outcomes@.take(k as int) == outcomes@);
    }
    marks
}

/// Whether the padlocks have to go after a pass of drag starts: they do
/// once a start has taken a lock away.
pub fn remove_padlock(outcomes: &Vec<StartOutcome>) -> (remove: bool)
    ensures
        remove == exists|k: int| 0 <= k < outcomes@.len() && took_lock(#[trigger] outcomes@[k]),
{
    let mut k: usize = 0;
    while k < outcomes.len()
        invariant
            k <= outcomes.len(),
            forall|j: int| 0 <= j < k ==> !took_lock(#[trigger] outcomes@[j]),
        decreases outcomes.len() - k,
    {
        match outcomes[k] {
            StartOutcome::Grabbed { entity: _, unlocked } => {
                if unlocked {
                    return true;
                }
            },
            _ => {},
        }
        k += 1;
    }
    false
}

} // verus!
