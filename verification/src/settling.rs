//! What holds of grabs, moves, turns and releases across the settling of a
//! level.

use vstd::prelude::*;
use crate::components::{Draggable, Padlock, BodyKind};
use crate::draggable::{
    end_pass, end_step, free_in, lemma_grab_keeps_order, lemma_release_keeps_order,
    lemma_turning_keeps_order, move_pass, move_step, rotate_step, rotated, start_ignored, start_step,
    turned_by,
};
use crate::events::{DragEndEvent, DragMoveEvent, DragStartEvent, EndOutcome, Hit, RotateEvent};
use crate::rotation::law_snapping_is_idempotent;
use crate::search::{any_where, first_where, is_first_where, lemma_first_where_is, lemma_first_where_means};
use crate::source::DragSource;
use crate::stage::{held, held_by, held_by_touch, locked, with_entity, StageView};

verus! {

/// A drag start leaves the playfield in order: afterwards, as before, no
/// source holds two shapes. A shape that was held is untouched by the start,
/// so no second source comes to hold it.
pub proof fn law_start_keeps_holders(s: StageView, mouse_seen: bool, event: DragStartEvent, hits: Seq<Hit>)
    requires
        s.wf(),
    ensures
        start_step(s, mouse_seen, event, hits).0.wf(),
        start_step(s, mouse_seen, event, hits).0.shapes.len() == s.shapes.len(),
        forall|i: int|
            0 <= i < s.shapes.len() && (#[trigger] s.shapes[i]).is_held() ==> start_step(
                s,
                mouse_seen,
                event,
                hits,
            ).0.shapes[i] == s.shapes[i],
{
    if !start_ignored(s, mouse_seen, event) {
        lemma_first_where_means(hits, free_in(s.shapes));
        match first_where(hits, free_in(s.shapes)) {
            Some(k) => {
                lemma_first_where_means(s.shapes, with_entity(hits[k].entity));
                let i = first_where(s.shapes, with_entity(hits[k].entity)).unwrap();
                lemma_grab_keeps_order(s, event, hits[k], i);
            },
            None => {},
        }
    }
}

/// A drag move leaves the playfield in order, and changes neither who holds
/// which shape nor what is locked.
pub proof fn law_move_keeps_holders(s: StageView, event: DragMoveEvent)
    requires
        s.wf(),
    ensures
        move_step(s, event).0.wf(),
        move_step(s, event).0.shapes.len() == s.shapes.len(),
        forall|i: int|
            0 <= i < s.shapes.len() ==> (#[trigger] move_step(s, event).0.shapes[i]).dragged
                == s.shapes[i].dragged && move_step(s, event).0.shapes[i].locked == s.shapes[i].locked
                && move_step(s, event).0.shapes[i].body == s.shapes[i].body && move_step(
                s,
                event,
            ).0.shapes[i].entity == s.shapes[i].entity,
{
    let t = move_step(s, event).0;
    lemma_first_where_means(s.shapes, held_by(event.drag_source));
    assert forall|i: int| 0 <= i < s.shapes.len() implies (#[trigger] t.shapes[i]).dragged
        == s.shapes[i].dragged && t.shapes[i].locked == s.shapes[i].locked && t.shapes[i].body
        == s.shapes[i].body && t.shapes[i].entity == s.shapes[i].entity by {}
    assert(t.entities_distinct());
    assert(t.sources_distinct());
    assert(t.one_lock());
    if any_where(t.shapes, held_by_touch()) {
        let k = choose|k: int| 0 <= k < t.shapes.len() && held_by_touch()(#[trigger] t.shapes[k]);
        assert(held_by_touch()(s.shapes[k]));
    }
    if t.camera.active {
        let k = choose|k: int| 0 <= k < s.shapes.len() && held()(#[trigger] s.shapes[k]);
        assert(held()(t.shapes[k]));
    }
}

/// A drag end leaves the playfield in order.
pub proof fn law_end_keeps_order(s: StageView, event: DragEndEvent)
    requires
        s.wf(),
    ensures
        end_step(s, event).0.wf(),
        end_step(s, event).0.shapes.len() == s.shapes.len(),
{
    let t = end_step(s, event).0;
    lemma_first_where_means(s.shapes, held_by(event.drag_source));
    match first_where(s.shapes, held_by(event.drag_source)) {
        Some(i) => {
            lemma_release_keeps_order(s, i, t.touch_rotates);
        },
        None => {
            if any_where(t.shapes, held_by_touch()) {
                let k = choose|k: int|
                    0 <= k < t.shapes.len() && held_by_touch()(#[trigger] t.shapes[k]);
                assert(held()(t.shapes[k]));
            }
        },
    }
}

/// A pass of drag moves leaves the playfield in order, and changes neither
/// who holds which shape nor what is locked.
pub proof fn law_moves_keep_holders(s: StageView, moves: Seq<DragMoveEvent>)
    requires
        s.wf(),
    ensures
        move_pass(s, moves).0.wf(),
        move_pass(s, moves).0.shapes.len() == s.shapes.len(),
        forall|i: int|
            0 <= i < s.shapes.len() ==> (#[trigger] move_pass(s, moves).0.shapes[i]).dragged
                == s.shapes[i].dragged && move_pass(s, moves).0.shapes[i].locked == s.shapes[i].locked
                && move_pass(s, moves).0.shapes[i].body == s.shapes[i].body && move_pass(
                s,
                moves,
            ).0.shapes[i].entity == s.shapes[i].entity,
    decreases moves.len(),
{
    if moves.len() > 0 {
        law_moves_keep_holders(s, moves.drop_last());
        law_move_keeps_holders(move_pass(s, moves.drop_last()).0, moves.last());
    }
}

/// The first release locks. Where no shape is locked and a drag start grabs
/// a shape, the end of that drag, whatever moves come in between, leaves the
/// shape locked: fixed, no longer held, and with a padlock drawn where the
/// shape is.
pub proof fn law_first_release_locks(
    s: StageView,
    mouse_seen: bool,
    event: DragStartEvent,
    hits: Seq<Hit>,
    moves: Seq<DragMoveEvent>,
)
    requires
        s.wf(),
        !s.any_locked(),
        start_step(s, mouse_seen, event, hits).1 is Grabbed,
    ensures
        ({
            let entity = start_step(s, mouse_seen, event, hits).1->entity;
            let held = start_step(s, mouse_seen, event, hits).0;
            let moved = move_pass(held, moves).0;
            let end = end_step(moved, DragEndEvent { drag_source: event.drag_source });
            &&& end.1 == (EndOutcome::Released { entity, body: BodyKind::Fixed })
            &&& end.0.shape(entity) matches Some(d) && d.locked && d.body == BodyKind::Fixed
                && !d.is_held() && d.padlock() == Some(Padlock { shape: entity, translation: d.translation })
        }),
{
    let entity = start_step(s, mouse_seen, event, hits).1->entity;
    let t = start_step(s, mouse_seen, event, hits).0;
    let source = event.drag_source;
    lemma_first_where_means(hits, free_in(s.shapes));
    let k = first_where(hits, free_in(s.shapes)).unwrap();
    lemma_first_where_means(s.shapes, with_entity(hits[k].entity));
    let i = first_where(s.shapes, with_entity(hits[k].entity)).unwrap();
    law_start_keeps_holders(s, mouse_seen, event, hits);
    let m = move_pass(t, moves).0;
    law_moves_keep_holders(t, moves);
    // The grabbed shape is the one that the source holds.
    assert(m.shapes[i].dragged == t.shapes[i].dragged);
    lemma_holder_is_first(m, source, i);
    // Nothing is locked while it is held.
    assert forall|j: int| 0 <= j < m.shapes.len() implies !locked()(#[trigger] m.shapes[j]) by {
        assert(m.shapes[j].locked == t.shapes[j].locked);
        assert(!locked()(s.shapes[j]));
    }
    assert(!m.any_locked());
    let u = end_step(m, DragEndEvent { drag_source: source }).0;
    assert(u.shapes[i].entity == entity);
    assert forall|j: int| 0 <= j < i implies !with_entity(entity)(#[trigger] u.shapes[j]) by {
        assert(m.shapes[j].entity == t.shapes[j].entity);
        assert(!with_entity(entity)(s.shapes[j]));
    }
    assert(is_first_where(u.shapes, with_entity(entity), i));
    lemma_first_where_is(u.shapes, with_entity(entity), i);
}

/// A shape that was locked when it was grabbed is simulated again once it
/// is released, whatever else is locked.
pub proof fn law_release_of_once_locked(s: StageView, event: DragEndEvent, i: int)
    requires
        s.wf(),
        0 <= i < s.shapes.len(),
        s.shapes[i].is_held_by(event.drag_source),
        s.shapes[i].dragged.unwrap().was_locked,
    ensures
        end_step(s, event).1 == (EndOutcome::Released {
            entity: s.shapes[i].entity,
            body: BodyKind::Dynamic,
        }),
        end_step(s, event).0.shapes[i].body == BodyKind::Dynamic,
        !end_step(s, event).0.shapes[i].locked,
{
    lemma_holder_is_first(s, event.drag_source, i);
}

/// While some shape is locked no release locks: the released shape is
/// simulated again.
pub proof fn law_no_lock_beside_a_lock(s: StageView, event: DragEndEvent)
    requires
        s.wf(),
        s.any_locked(),
    ensures
        end_step(s, event).1 matches EndOutcome::Released { body, .. } ==> body == BodyKind::Dynamic,
        end_step(s, event).0.any_locked(),
{
    lemma_first_where_means(s.shapes, held_by(event.drag_source));
    let k = choose|k: int| 0 <= k < s.shapes.len() && locked()(#[trigger] s.shapes[k]);
    let t = end_step(s, event).0;
    assert(locked()(t.shapes[k]));
}

/// A release that locks leaves a lock behind.
pub proof fn law_lock_is_seen(s: StageView, event: DragEndEvent)
    requires
        s.wf(),
        end_step(s, event).1 matches EndOutcome::Released { body, .. } && body == BodyKind::Fixed,
    ensures
        end_step(s, event).0.any_locked(),
{
    lemma_first_where_means(s.shapes, held_by(event.drag_source));
    let i = first_where(s.shapes, held_by(event.drag_source)).unwrap();
    let t = end_step(s, event).0;
    assert(locked()(t.shapes[i]));
}

/// The number of releases among `outcomes` that lock.
pub open spec fn locks_among(outcomes: Seq<EndOutcome>) -> nat
    decreases outcomes.len(),
{
    if outcomes.len() == 0 {
        0
    } else {
        let before = locks_among(outcomes.drop_last());
        if outcomes.last() matches EndOutcome::Released { body, .. } && body == BodyKind::Fixed {
            before + 1
        } else {
            before
        }
    }
}

/// One pass of drag ends locks at most one shape, and none where a shape is
/// locked when the pass begins.
pub proof fn law_one_lock_per_pass(s: StageView, events: Seq<DragEndEvent>)
    requires
        s.wf(),
    ensures
        end_pass(s, events).0.wf(),
        locks_among(end_pass(s, events).1) <= 1,
        s.any_locked() ==> locks_among(end_pass(s, events).1) == 0,
        locks_among(end_pass(s, events).1) == 1 ==> end_pass(s, events).0.any_locked(),
        s.any_locked() ==> end_pass(s, events).0.any_locked(),
    decreases events.len(),
{
    if events.len() > 0 {
        law_one_lock_per_pass(s, events.drop_last());
        let before = end_pass(s, events.drop_last());
        law_end_keeps_order(before.0, events.last());
        let outcomes = end_pass(s, events).1;
        assert(outcomes.drop_last() =~= before.1);
        assert(outcomes.last() == end_step(before.0, events.last()).1);
        if before.0.any_locked() {
            law_no_lock_beside_a_lock(before.0, events.last());
        } else {
            assert(locks_among(before.1) == 0);
            if outcomes.last() matches EndOutcome::Released { body, .. } && body == BodyKind::Fixed {
                law_lock_is_seen(before.0, events.last());
            }
        }
    }
}

/// A rotation turns the held shapes and nothing else: a shape that is not
/// held stays as it is, a held one changes its orientation alone, and the
/// playfield stays in order.
pub proof fn law_rotation_turns_held_shapes_only(s: StageView, event: RotateEvent)
    requires
        s.wf(),
    ensures
        rotate_step(s, event).wf(),
        rotate_step(s, event).shapes.len() == s.shapes.len(),
        forall|i: int|
            0 <= i < s.shapes.len() && !(#[trigger] s.shapes[i]).is_held() ==> rotate_step(
                s,
                event,
            ).shapes[i] == s.shapes[i],
        forall|i: int|
            0 <= i < s.shapes.len() && (#[trigger] s.shapes[i]).is_held() ==> rotate_step(
                s,
                event,
            ).shapes[i] == (Draggable { rotation: turned_by(s.shapes[i].rotation, event), ..s.shapes[i] }),
        rotate_step(s, event).touch_rotates == s.touch_rotates,
        rotate_step(s, event).camera == s.camera,
        rotate_step(s, event).arena == s.arena,
{
    lemma_turning_keeps_order(s, rotate_step(s, event));
}

/// Snapping the held shapes a second time to the same resolution changes
/// nothing, for every resolution that divides half a turn.
pub proof fn law_snapping_twice_changes_nothing(s: StageView, resolution: u32)
    requires
        resolution == 0 || 0x8000_0000int % (resolution as int) == 0,
    ensures
        ({
            let snap = RotateEvent { angle: 0, snap_resolution: Some(resolution) };
            rotate_step(rotate_step(s, snap), snap) == rotate_step(s, snap)
        }),
{
    let snap = RotateEvent { angle: 0, snap_resolution: Some(resolution) };
    let once = rotate_step(s, snap);
    let twice = rotate_step(once, snap);
    assert forall|i: int| 0 <= i < s.shapes.len() implies twice.shapes[i] == once.shapes[i] by {
        let shape = s.shapes[i];
        if shape.is_held() {
            assert(once.shapes[i] == rotated(snap)(shape));
            assert(twice.shapes[i] == rotated(snap)(once.shapes[i]));
            law_snapping_is_idempotent(shape.rotation, resolution);
        }
    }
    assert(twice.shapes =~= once.shapes);
}

/// In a playfield in order, the shape that a source holds is the first and
/// only one that it holds.
pub proof fn lemma_holder_is_first(s: StageView, source: DragSource, i: int)
    requires
        s.wf(),
        0 <= i < s.shapes.len(),
        s.shapes[i].is_held_by(source),
    ensures
        first_where(s.shapes, held_by(source)) == Some(i),
{
    assert forall|j: int| 0 <= j < i implies !held_by(source)(#[trigger] s.shapes[j]) by {
        if held_by(source)(s.shapes[j]) {
            assert(s.shapes[j].is_held() && s.shapes[i].is_held());
        }
    }
    assert(held_by(source)(s.shapes[i]));
    assert(is_first_where(s.shapes, held_by(source), i));
    lemma_first_where_is(s.shapes, held_by(source), i);
}

} // verus!
