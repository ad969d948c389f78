//! What holds of the selection whatever the input.

use crate::controls::selection::{
    changes_of, changes_of_event, click_requests, click_toggles, deselected, eligible, incoming,
    lemma_push_distinct, lemma_without, outside, reconciles, resolution, selected,
    selection_after, selection_after_event, toggle, toggles, under_cursor, without, Selectable,
    SelectionChange, SelectionEvent, SelectionPolicy, SelectionVolume,
};
use crate::controls::frame::{
    consistent, initial_model, lemma_frame_keeps_consistent, next_model, volume_command,
    ControlModel,
};
use crate::picking::{target_of, HitData, PointerTarget};
use crate::ui::cursor::{
    mode_changes, requested_mode, CursorMode, CursorModeChangeEvent, InputSnapshot, WindowSize,
};
use avian3d::collision::CollidingEntities;
use vstd::prelude::*;

verus! {

/// The change that toggling `id` makes to a selection in the given order.
pub open spec fn toggled(order: Seq<u64>, id: u64) -> SelectionChange {
    if order.contains(id) {
        SelectionChange::EntityDeselected(id)
    } else {
        SelectionChange::EntitySelected(id)
    }
}

/// Toggling distinct entities one after the other flips the membership of
/// each of them and of no other entity, and reports one change per entity:
/// out if it was selected at the outset, in if it was not.
pub proof fn lemma_toggle_each(order: Seq<u64>, ids: Seq<u64>)
    requires
        ids.no_duplicates(),
    ensures
        forall|x: u64| #[trigger]
            selection_after(order, toggles(ids)).contains(x) <==> (order.contains(x) != ids.contains(x)),
        order.no_duplicates() ==> selection_after(order, toggles(ids)).no_duplicates(),
        changes_of(order, toggles(ids)) == Seq::new(ids.len(), |i: int| toggled(order, ids[i])),
    decreases ids.len(),
{
    let events = toggles(ids);
    if ids.len() == 0 {
        assert(changes_of(order, events) =~= Seq::new(ids.len(), |i: int| toggled(order, ids[i])));
        assert forall|x: u64| #[trigger]
            selection_after(order, events).contains(x) <==> (order.contains(x) != ids.contains(x)) by {
            assert(!ids.contains(x));
        }
    } else {
        let earlier = ids.drop_last();
        let last = ids.last();
        lemma_toggle_each(order, earlier);
        assert(events.drop_last() =~= toggles(earlier));
        assert(events.last() == toggle(last));
        let before = selection_after(order, toggles(earlier));
        assert(!earlier.contains(last)) by {
            if earlier.contains(last) {
                let i = choose|i: int| 0 <= i < earlier.len() && earlier[i] == last;
                assert(ids[i] == ids[ids.len() - 1]);
            }
        }
        assert(before.contains(last) == order.contains(last));
        lemma_without(before, last);
        let after = selection_after_event(before, toggle(last));
        assert(selection_after(order, events) == after);
        assert forall|x: u64| #[trigger] after.contains(x) <==> (order.contains(x) != ids.contains(x)) by {
            assert(ids =~= earlier.push(last));
            vstd::seq_lib::lemma_seq_contains_after_push(earlier, last, x);
            vstd::seq_lib::lemma_seq_contains_after_push(before, last, x);
        }
        if order.no_duplicates() {
            if !before.contains(last) {
                lemma_push_distinct(before, last);
            }
        }
        assert(changes_of_event(before, toggle(last)) =~= seq![toggled(order, last)]);
        assert(changes_of(order, events) =~= Seq::new(ids.len(), |i: int| toggled(order, ids[i])));
    }
}

/// The entities that a replacing drag takes out of the selection are the
/// selected entities outside the overlap, each once.
pub proof fn lemma_outside(order: Seq<u64>, overlap: Seq<u64>)
    ensures
        forall|x: u64| #[trigger]
            outside(order, overlap).contains(x) <==> (order.contains(x) && !overlap.contains(x)),
        order.no_duplicates() ==> outside(order, overlap).no_duplicates(),
    decreases order.len(),
{
    if order.len() > 0 {
        let earlier = order.drop_last();
        let last = order.last();
        lemma_outside(earlier, overlap);
        assert(order =~= earlier.push(last));
        assert forall|x: u64| #[trigger]
            outside(order, overlap).contains(x) <==> (order.contains(x) && !overlap.contains(x)) by {
            vstd::seq_lib::lemma_seq_contains_after_push(earlier, last, x);
            vstd::seq_lib::lemma_seq_contains_after_push(outside(earlier, overlap), last, x);
        }
        if order.no_duplicates() {
            assert(earlier.no_duplicates());
            assert(!earlier.contains(last)) by {
                if earlier.contains(last) {
                    let i = choose|i: int| 0 <= i < earlier.len() && earlier[i] == last;
                    assert(order[i] == order[order.len() - 1]);
                }
            }
            if !overlap.contains(last) {
                lemma_push_distinct(outside(earlier, overlap), last);
            }
        }
    }
}

/// The entities that a drag brings into the selection are the eligible
/// entities of the overlap that are not selected, each once.
pub proof fn lemma_incoming(order: Seq<u64>, eligible: Set<u64>, overlap: Seq<u64>)
    ensures
        forall|x: u64| #[trigger]
            incoming(order, eligible, overlap).contains(x) <==> (overlap.contains(x) && eligible.contains(x)
                && !order.contains(x)),
        incoming(order, eligible, overlap).no_duplicates(),
    decreases overlap.len(),
{
    if overlap.len() > 0 {
        let earlier = overlap.drop_last();
        let last = overlap.last();
        lemma_incoming(order, eligible, earlier);
        assert(overlap =~= earlier.push(last));
        assert forall|x: u64| #[trigger]
            incoming(order, eligible, overlap).contains(x) <==> (overlap.contains(x) && eligible.contains(x)
                && !order.contains(x)) by {
            vstd::seq_lib::lemma_seq_contains_after_push(earlier, last, x);
            vstd::seq_lib::lemma_seq_contains_after_push(incoming(order, eligible, earlier), last, x);
        }
        if eligible.contains(last) && !order.contains(last) && !earlier.contains(last) {
            lemma_push_distinct(incoming(order, eligible, earlier), last);
        }
    }
}

/// Reconciling a selection with an overlap.
///
/// Afterwards an entity is selected if and only if it was selected and
/// stays, or is an eligible entity of the overlap. Without the multi-select
/// modifier the selected entities inside the overlap stay; with it, all do.
/// Each entity that leaves is reported once as deselected, each that enters
/// once as selected, and nothing is reported of any other.
pub proof fn lemma_resolution(order: Seq<u64>, eligible: Set<u64>, overlap: Seq<u64>, multi: bool)
    requires
        order.no_duplicates(),
    ensures
        forall|x: u64| #[trigger]
            selection_after(order, resolution(order, eligible, overlap, multi)).contains(x) <==> ((
            order.contains(x) && (multi || overlap.contains(x))) || (overlap.contains(x)
                && eligible.contains(x))),
        selection_after(order, resolution(order, eligible, overlap, multi)).no_duplicates(),
        changes_of(order, resolution(order, eligible, overlap, multi)) == deselected(
            if multi {
                Seq::empty()
            } else {
                outside(order, overlap)
            },
        ) + selected(incoming(order, eligible, overlap)),
{
    let leaving = if multi {
        Seq::<u64>::empty()
    } else {
        outside(order, overlap)
    };
    let entering = incoming(order, eligible, overlap);
    let ids = leaving + entering;
    lemma_outside(order, overlap);
    lemma_incoming(order, eligible, overlap);
    assert forall|i: int, j: int| 0 <= i < leaving.len() && 0 <= j < entering.len() implies leaving[i]
        != entering[j] by {
        assert(leaving.contains(leaving[i]));
        assert(entering.contains(entering[j]));
    }
    vstd::seq_lib::lemma_no_dup_in_concat(leaving, entering);
    assert(resolution(order, eligible, overlap, multi) =~= toggles(ids));
    lemma_toggle_each(order, ids);
    let after = selection_after(order, toggles(ids));
    assert forall|x: u64| #[trigger]
        after.contains(x) <==> ((order.contains(x) && (multi || overlap.contains(x))) || (
        overlap.contains(x) && eligible.contains(x))) by {
        vstd::seq_lib::lemma_seq_concat_contains_all_elements(leaving, entering, x);
    }
    assert(changes_of(order, toggles(ids)) =~= deselected(leaving) + selected(entering)) by {
        assert forall|i: int| 0 <= i < ids.len() implies toggled(order, ids[i]) == (deselected(leaving)
            + selected(entering))[i] by {
            if i < leaving.len() {
                assert(leaving.contains(leaving[i]));
            } else {
                assert(entering.contains(entering[i - leaving.len()]));
            }
        }
    }
}

/// Reconciling settles: once the requests were carried out, reconciling
/// with the same overlap asks for nothing more, whether or not the
/// multi-select modifier is still held. A drag that rests therefore leaves
/// the selection at rest.
pub proof fn lemma_resolution_settles(
    order: Seq<u64>,
    eligible: Set<u64>,
    overlap: Seq<u64>,
    multi: bool,
    again: bool,
)
    requires
        order.no_duplicates(),
        multi ==> again,
    ensures
        resolution(
            selection_after(order, resolution(order, eligible, overlap, multi)),
            eligible,
            overlap,
            again,
        ) == Seq::<SelectionEvent>::empty(),
{
    let after = selection_after(order, resolution(order, eligible, overlap, multi));
    lemma_resolution(order, eligible, overlap, multi);
    lemma_outside(after, overlap);
    lemma_incoming(after, eligible, overlap);
    let leaving = outside(after, overlap);
    let entering = incoming(after, eligible, overlap);
    if entering.len() > 0 {
        assert(entering.contains(entering[0]));
    }
    if !again && leaving.len() > 0 {
        assert(leaving.contains(leaving[0]));
    }
    assert(resolution(after, eligible, overlap, again) =~= Seq::<SelectionEvent>::empty());
}

/// Replace semantics: reconciling without the multi-select modifier.
///
/// The selection becomes the selected entities inside the overlap together
/// with the eligible entities of the overlap; if only eligible entities were
/// selected, that is the eligible part of the overlap and nothing else. An
/// entity is reported as deselected exactly if it was selected and lies
/// outside the overlap, as selected exactly if it is an eligible entity of
/// the overlap that was not selected, and no entity is reported twice.
pub proof fn lemma_replace(order: Seq<u64>, eligible: Set<u64>, overlap: Seq<u64>)
    requires
        order.no_duplicates(),
    ensures
        selection_after(order, resolution(order, eligible, overlap, false)).to_set()
            == order.to_set().intersect(overlap.to_set()).union(overlap.to_set().intersect(eligible)),
        order.to_set().subset_of(eligible) ==> selection_after(
            order,
            resolution(order, eligible, overlap, false),
        ).to_set() == overlap.to_set().intersect(eligible),
        changes_of(order, resolution(order, eligible, overlap, false)).no_duplicates(),
        forall|x: u64| #[trigger]
            changes_of(order, resolution(order, eligible, overlap, false)).contains(
                SelectionChange::EntityDeselected(x),
            ) <==> (order.contains(x) && !overlap.contains(x)),
        forall|x: u64| #[trigger]
            changes_of(order, resolution(order, eligible, overlap, false)).contains(
                SelectionChange::EntitySelected(x),
            ) <==> (overlap.contains(x) && eligible.contains(x) && !order.contains(x)),
{
    lemma_resolution(order, eligible, overlap, false);
    lemma_changes(order, eligible, overlap, false);
    let after = selection_after(order, resolution(order, eligible, overlap, false));
    assert(after.to_set() =~= order.to_set().intersect(overlap.to_set()).union(
        overlap.to_set().intersect(eligible),
    ));
    if order.to_set().subset_of(eligible) {
        assert forall|x: u64| order.contains(x) implies eligible.contains(x) by {
            assert(order.to_set().contains(x));
        }
        assert(after.to_set() =~= overlap.to_set().intersect(eligible));
    }
}

/// Additive semantics: reconciling with the multi-select modifier held.
///
/// The selection grows by the eligible entities of the overlap and loses
/// nothing. No entity is reported as deselected; an entity is reported as
/// selected exactly if it is an eligible entity of the overlap that was not
/// selected, and none is reported twice.
pub proof fn lemma_additive(order: Seq<u64>, eligible: Set<u64>, overlap: Seq<u64>)
    requires
        order.no_duplicates(),
    ensures
        selection_after(order, resolution(order, eligible, overlap, true)).to_set() == order.to_set().union(
            overlap.to_set().intersect(eligible),
        ),
        changes_of(order, resolution(order, eligible, overlap, true)).no_duplicates(),
        forall|x: u64|
            !(#[trigger] changes_of(order, resolution(order, eligible, overlap, true)).contains(
                SelectionChange::EntityDeselected(x),
            )),
        forall|x: u64| #[trigger]
            changes_of(order, resolution(order, eligible, overlap, true)).contains(
                SelectionChange::EntitySelected(x),
            ) <==> (overlap.contains(x) && eligible.contains(x) && !order.contains(x)),
{
    lemma_resolution(order, eligible, overlap, true);
    lemma_changes(order, eligible, overlap, true);
    let after = selection_after(order, resolution(order, eligible, overlap, true));
    assert(after.to_set() =~= order.to_set().union(overlap.to_set().intersect(eligible)));
}

/// The changes that reconciling reports hold each entity at most once: a
/// deselection for exactly the entities that leave, a selection for exactly
/// those that enter.
proof fn lemma_changes(order: Seq<u64>, eligible: Set<u64>, overlap: Seq<u64>, multi: bool)
    requires
        order.no_duplicates(),
    ensures
        changes_of(order, resolution(order, eligible, overlap, multi)).no_duplicates(),
        forall|x: u64| #[trigger]
            changes_of(order, resolution(order, eligible, overlap, multi)).contains(
                SelectionChange::EntityDeselected(x),
            ) <==> (!multi && order.contains(x) && !overlap.contains(x)),
        forall|x: u64| #[trigger]
            changes_of(order, resolution(order, eligible, overlap, multi)).contains(
                SelectionChange::EntitySelected(x),
            ) <==> (overlap.contains(x) && eligible.contains(x) && !order.contains(x)),
{
    lemma_resolution(order, eligible, overlap, multi);
    lemma_outside(order, overlap);
    lemma_incoming(order, eligible, overlap);
    let leaving = if multi {
        Seq::<u64>::empty()
    } else {
        outside(order, overlap)
    };
    let entering = incoming(order, eligible, overlap);
    let out = deselected(leaving);
    let into = selected(entering);
    let changes = out + into;
    assert forall|i: int, j: int| 0 <= i < changes.len() && 0 <= j < changes.len() && i != j implies changes[i]
        != changes[j] by {
        if i < out.len() && j < out.len() {
            assert(leaving[i] != leaving[j]);
        } else if i >= out.len() && j >= out.len() {
            assert(entering[i - out.len()] != entering[j - out.len()]);
        }
    }
    assert forall|x: u64| #[trigger]
        changes.contains(SelectionChange::EntityDeselected(x)) <==> (!multi && order.contains(x)
            && !overlap.contains(x)) by {
        if changes.contains(SelectionChange::EntityDeselected(x)) {
            let i = choose|i: int| 0 <= i < changes.len() && changes[i] == SelectionChange::EntityDeselected(x);
            assert(i < out.len());
            assert(leaving[i] == x);
            assert(leaving.contains(x));
        }
        if !multi && order.contains(x) && !overlap.contains(x) {
            assert(leaving.contains(x));
            let i = choose|i: int| 0 <= i < leaving.len() && leaving[i] == x;
            assert(changes[i] == SelectionChange::EntityDeselected(x));
        }
    }
    assert forall|x: u64| #[trigger]
        changes.contains(SelectionChange::EntitySelected(x)) <==> (overlap.contains(x) && eligible.contains(x)
            && !order.contains(x)) by {
        if changes.contains(SelectionChange::EntitySelected(x)) {
            let i = choose|i: int| 0 <= i < changes.len() && changes[i] == SelectionChange::EntitySelected(x);
            assert(i >= out.len());
            assert(entering[i - out.len()] == x);
            assert(entering.contains(x));
        }
        if overlap.contains(x) && eligible.contains(x) && !order.contains(x) {
            assert(entering.contains(x));
            let i = choose|i: int| 0 <= i < entering.len() && entering[i] == x;
            assert(changes[out.len() + i] == SelectionChange::EntitySelected(x));
        }
    }
}

/// The selections on which a drag that never left its start and a click
/// on the entity there come to the same.
///
/// Where the click toggles the entity and a drag may select it, they agree
/// if the entity is not selected yet and, unless the multi-select modifier
/// is held, nothing else is selected either. Where the policy keeps the
/// entity from being selected at all, the click does nothing, and the drag
/// does nothing if the modifier is held or nothing else is selected.
pub open spec fn drag_matches_click(
    order: Seq<u64>,
    selectables: Map<u64, Selectable>,
    policy: SelectionPolicy,
    entity: u64,
    multi: bool,
) -> bool {
    let target = PointerTarget::Selectable { entity };
    if eligible(selectables, policy).contains(entity) {
        !order.contains(entity) && (multi || order.len() == 0)
    } else {
        !click_toggles(target, selectables, policy) && (multi || forall|x: u64|
            order.contains(x) ==> x == entity)
    }
}

/// A drag that never left its start selects what a click on the entity
/// there selects.
///
/// This holds on the selections that `drag_matches_click` describes, and on
/// no others: everywhere else the two results differ.
pub proof fn lemma_zero_extent_drag_is_click(
    drag: Seq<SelectionEvent>,
    order: Seq<u64>,
    selectables: Map<u64, Selectable>,
    policy: SelectionPolicy,
    volume: SelectionVolume,
    report: &CollidingEntities,
    entity: u64,
    multi: bool,
)
    requires
        order.no_duplicates(),
        volume.is_degenerate(),
        reconciles(
            drag,
            order,
            selectables,
            policy,
            Some(volume),
            Some(report),
            PointerTarget::Selectable { entity },
            multi,
        ),
    ensures
        drag_matches_click(order, selectables, policy, entity, multi) <==> selection_after(
            order,
            drag,
        ).to_set() == selection_after(
            order,
            click_requests(PointerTarget::Selectable { entity }, selectables, policy),
        ).to_set(),
{
    let target = PointerTarget::Selectable { entity };
    let chosen = eligible(selectables, policy);
    let overlap = under_cursor(target);
    let click = click_requests(target, selectables, policy);
    let dragged = selection_after(order, drag);
    let clicked = selection_after(order, click);
    assert(overlap =~= seq![entity]);
    assert forall|x: u64| overlap.contains(x) <==> x == entity by {
        if x == entity {
            assert(overlap[0] == x);
        }
    }
    lemma_resolution(order, chosen, overlap, multi);
    lemma_without(order, entity);
    assert forall|x: u64| #[trigger]
        clicked.contains(x) <==> (if click_toggles(target, selectables, policy) {
            order.contains(x) != (x == entity)
        } else {
            order.contains(x)
        }) by {
        if click_toggles(target, selectables, policy) {
            assert(click =~= seq![toggle(entity)]);
            assert(click.drop_last() =~= Seq::<SelectionEvent>::empty());
            assert(selection_after(order, click.drop_last()) == order);
            assert(clicked == selection_after_event(order, toggle(entity)));
            vstd::seq_lib::lemma_seq_contains_after_push(order, entity, x);
        }
    }
    if drag_matches_click(order, selectables, policy, entity, multi) {
        assert forall|x: u64| dragged.contains(x) <==> clicked.contains(x) by {
            if order.len() == 0 {
                assert(!order.contains(x));
            }
        }
        assert(dragged.to_set() =~= clicked.to_set());
    } else {
        // Name an entity that one result holds and the other lacks.
        let witness = if chosen.contains(entity) {
            if order.contains(entity) {
                entity
            } else {
                order[0]
            }
        } else if click_toggles(target, selectables, policy) {
            if !multi && !order.contains(entity) && order.len() > 0 {
                order[0]
            } else {
                entity
            }
        } else {
            choose|x: u64| order.contains(x) && x != entity
        };
        if order.len() > 0 {
            assert(order.contains(order[0]));
        }
        assert(dragged.contains(witness) != clicked.contains(witness));
        assert(dragged.to_set().contains(witness) != clicked.to_set().contains(witness));
    }
}

/// Toggling an entity twice leaves the selection as it was: the second
/// toggle undoes the first.
pub proof fn lemma_toggle_twice(order: Seq<u64>, entity: u64)
    ensures
        selection_after_event(selection_after_event(order, toggle(entity)), toggle(entity)).to_set()
            == order.to_set(),
        selection_after_event(order, toggle(entity)).contains(entity) != order.contains(entity),
{
    let once = selection_after_event(order, toggle(entity));
    lemma_without(order, entity);
    lemma_without(once, entity);
    let twice = selection_after_event(once, toggle(entity));
    assert forall|x: u64| twice.contains(x) <==> order.contains(x) by {
        vstd::seq_lib::lemma_seq_contains_after_push(order, entity, x);
        vstd::seq_lib::lemma_seq_contains_after_push(once, entity, x);
    }
    assert(once.contains(entity) != order.contains(entity)) by {
        vstd::seq_lib::lemma_seq_contains_after_push(order, entity, entity);
    }
    assert(twice.to_set() =~= order.to_set());
}

/// Clicking the same entity twice returns the selection to what it was:
/// an entity that was selected is deselected by the first click and
/// selected again by the second, and no other entity is touched.
pub proof fn lemma_click_twice(
    order: Seq<u64>,
    target: PointerTarget,
    selectables: Map<u64, Selectable>,
    policy: SelectionPolicy,
)
    ensures
        selection_after(
            selection_after(order, click_requests(target, selectables, policy)),
            click_requests(target, selectables, policy),
        ).to_set() == order.to_set(),
        click_toggles(target, selectables, policy) ==> selection_after(
            order,
            click_requests(target, selectables, policy),
        ).contains(target->Selectable_entity) != order.contains(target->Selectable_entity),
{
    let click = click_requests(target, selectables, policy);
    if click_toggles(target, selectables, policy) {
        let entity = target->Selectable_entity;
        assert(click =~= seq![toggle(entity)]);
        assert(click.drop_last() =~= Seq::<SelectionEvent>::empty());
        let once = selection_after_event(order, toggle(entity));
        assert(selection_after(order, click.drop_last()) == order);
        assert(selection_after(order, click) == once);
        assert(selection_after(once, click.drop_last()) == once);
        assert(selection_after(once, click) == selection_after_event(once, toggle(entity)));
        lemma_toggle_twice(order, entity);
    } else {
        assert(click =~= Seq::<SelectionEvent>::empty());
    }
}

/// Only the nearest pick counts for a click: whatever lies behind it, the
/// target is the same, and the click changes the selection state of no
/// entity but the nearest.
pub proof fn lemma_nearest_hit_only(
    nearest: HitData,
    behind: Seq<HitData>,
    other: Seq<HitData>,
    order: Seq<u64>,
    selectables: Map<u64, Selectable>,
    policy: SelectionPolicy,
)
    ensures
        target_of(seq![nearest] + behind) == target_of(seq![nearest] + other),
        forall|x: u64|
            x != nearest.entity ==> (#[trigger] selection_after(
                order,
                click_requests(target_of(seq![nearest] + behind), selectables, policy),
            ).contains(x) <==> order.contains(x)),
{
    let picks = seq![nearest] + behind;
    assert(picks[0] == nearest);
    assert((seq![nearest] + other)[0] == nearest);
    let requests = click_requests(target_of(picks), selectables, policy);
    assert forall|x: u64| x != nearest.entity implies (#[trigger] selection_after(order, requests).contains(x)
        <==> order.contains(x)) by {
        if requests.len() > 0 {
            assert(requests =~= seq![toggle(nearest.entity)]);
            assert(requests.drop_last() =~= Seq::<SelectionEvent>::empty());
            assert(selection_after(order, requests.drop_last()) == order);
            assert(selection_after(order, requests) == selection_after_event(order, toggle(nearest.entity)));
            lemma_without(order, nearest.entity);
            vstd::seq_lib::lemma_seq_contains_after_push(order, nearest.entity, x);
        }
    }
}

/// The cursor is in exactly one mode, and a frame either leaves the mode as
/// it was or puts the cursor in the one mode that was asked for.
pub proof fn lemma_mode_exclusive(model: ControlModel, input: InputSnapshot, picks: Seq<HitData>)
    ensures
        (if model.cursor.mode is Idle { 1int } else { 0int }) + (if model.cursor.mode is Selecting { 1int } else { 0int })
            + (if model.cursor.mode is CameraControl { 1int } else { 0int }) + (if model.cursor.mode is Locked {
            1int
        } else {
            0int
        }) == 1,
        match requested_mode(model.cursor.mode, input, target_of(picks)) {
            Some(mode) => next_model(model, input, picks).cursor.mode == mode,
            None => next_model(model, input, picks).cursor.mode == model.cursor.mode,
        },
        model.cursor.mode is Locked ==> next_model(model, input, picks).cursor.mode is Locked,
{
    let events = mode_changes(model.cursor.mode, input, target_of(picks));
    match requested_mode(model.cursor.mode, input, target_of(picks)) {
        Some(mode) => {
            assert(events.last().0 == mode);
        },
        None => {},
    }
}

/// The controls after a run of frames, each given by its input and its
/// picks.
pub open spec fn run(model: ControlModel, frames: Seq<(InputSnapshot, Seq<HitData>)>) -> ControlModel
    decreases frames.len(),
{
    if frames.len() == 0 {
        model
    } else {
        next_model(run(model, frames.drop_last()), frames.last().0, frames.last().1)
    }
}

/// The life of the selection volume.
///
/// After any run of frames from the start there is a selection volume if
/// and only if the cursor is selecting, and never more than one. The frame
/// that follows creates the volume exactly if it asks for selecting, which
/// takes the cursor into selecting, and destroys it exactly if it asks a
/// selecting cursor for another mode, which takes the cursor out.
pub proof fn lemma_volume_lifecycle(
    window: WindowSize,
    frames: Seq<(InputSnapshot, Seq<HitData>)>,
    input: InputSnapshot,
    picks: Seq<HitData>,
)
    ensures
        consistent(run(initial_model(window), frames)),
        run(initial_model(window), frames).volume.is_some() == (run(
            initial_model(window),
            frames,
        ).cursor.mode == CursorMode::Selecting),
        ({
            let now = run(initial_model(window), frames);
            let next = next_model(now, input, picks);
            let command = volume_command(now.volume, next.volume);
            let asked = mode_changes(now.cursor.mode, input, target_of(picks));
            &&& command is Spawn <==> asked == seq![CursorModeChangeEvent(CursorMode::Selecting)]
            &&& command is Spawn <==> (now.cursor.mode != CursorMode::Selecting && next.cursor.mode
                == CursorMode::Selecting)
            &&& command is Despawn <==> (now.cursor.mode == CursorMode::Selecting && asked.len() == 1)
            &&& command is Despawn <==> (now.cursor.mode == CursorMode::Selecting && next.cursor.mode
                != CursorMode::Selecting)
            &&& command is Resize ==> (now.cursor.mode == CursorMode::Selecting && next.cursor.mode
                == CursorMode::Selecting)
        }),
    decreases frames.len(),
{
    if frames.len() > 0 {
        lemma_volume_lifecycle(window, frames.drop_last(), frames.last().0, frames.last().1);
        lemma_frame_keeps_consistent(
            run(initial_model(window), frames.drop_last()),
            frames.last().0,
            frames.last().1,
        );
    }
    lemma_frame_keeps_consistent(run(initial_model(window), frames), input, picks);
    let now = run(initial_model(window), frames);
    let asked = mode_changes(now.cursor.mode, input, target_of(picks));
    if asked.len() > 0 {
        assert(asked[0] == asked.last());
    }
    if asked == seq![CursorModeChangeEvent(CursorMode::Selecting)] {
        assert(asked.len() == 1);
        assert(asked.last() == seq![CursorModeChangeEvent(CursorMode::Selecting)][0]);
    }
}

} // verus!
