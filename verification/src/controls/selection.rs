//! The selection: which entities are selected, and how clicks and drags
//! change that.

use crate::overlap::{colliding_ids, report_ids};
use crate::picking::{PointerTarget, WorldPoint};
use crate::ui::cursor::{CursorMode, CursorSelection, PointerMultiselect};
use avian3d::collision::CollidingEntities;
use std::collections::{HashMap, HashSet};
use vstd::prelude::*;

verus! {

broadcast use vstd::std_specs::hash::group_hash_axioms;

/// What kind of thing a selectable entity is.
#[derive(Clone, Copy, Debug, PartialEq, Eq, Structural)]
pub enum SelectionMask {
    /// No kind in particular.
    Uncategorized,
    Hq,
    Structure,
    UnitPassive,
    UnitMilitant,
}

impl Default for SelectionMask {
    fn default() -> (mask: Self)
        ensures
            mask == SelectionMask::Uncategorized,
    {
        SelectionMask::Uncategorized
    }
}

impl SelectionMask {
    /// The bit that stands for this kind; no bit for `Uncategorized`.
    pub open spec fn bits(self) -> u8 {
        match self {
            SelectionMask::Uncategorized => 0u8,
            SelectionMask::Hq => 1u8,
            SelectionMask::Structure => 2u8,
            SelectionMask::UnitPassive => 4u8,
            SelectionMask::UnitMilitant => 8u8,
        }
    }

    /// The bit that stands for this kind; no bit for `Uncategorized`.
    pub fn to_bits(&self) -> (bits: u8)
        ensures
            bits == self.bits(),
    {
        match self {
            SelectionMask::Uncategorized => 0,
            SelectionMask::Hq => 1,
            SelectionMask::Structure => 2,
            SelectionMask::UnitPassive => 4,
            SelectionMask::UnitMilitant => 8,
        }
    }
}

/// Marks an entity as eligible for selection.
#[derive(Clone, Copy, Debug, PartialEq, Eq, Structural)]
pub struct Selectable {
    pub selection_mask: SelectionMask,
}

impl Default for Selectable {
    fn default() -> (selectable: Self)
        ensures
            selectable.selection_mask == SelectionMask::Uncategorized,
    {
        Selectable { selection_mask: SelectionMask::Uncategorized }
    }
}

/// The set of selected entities, in the order in which they were selected.
#[derive(Debug)]
pub struct Selected {
    order: Vec<u64>,
    index: HashSet<u64>,
}

/// A sequence with every occurrence of `id` taken out.
pub open spec fn without(ids: Seq<u64>, id: u64) -> Seq<u64>
    decreases ids.len(),
{
    if ids.len() == 0 {
        Seq::empty()
    } else if ids.last() == id {
        without(ids.drop_last(), id)
    } else {
        without(ids.drop_last(), id).push(ids.last())
    }
}

/// A sequence of distinct values stays so when a value it lacks is appended.
pub proof fn lemma_push_distinct(ids: Seq<u64>, id: u64)
    requires
        ids.no_duplicates(),
        !ids.contains(id),
    ensures
        ids.push(id).no_duplicates(),
{
}

/// Taking `id` out removes it, keeps everything else and adds nothing.
pub proof fn lemma_without(ids: Seq<u64>, id: u64)
    ensures
        forall|x: u64| #[trigger] without(ids, id).contains(x) <==> (ids.contains(x) && x != id),
        ids.no_duplicates() ==> without(ids, id).no_duplicates(),
        !ids.contains(id) ==> without(ids, id) == ids,
    decreases ids.len(),
{
    if ids.len() > 0 {
        let earlier = ids.drop_last();
        let last = ids.last();
        lemma_without(earlier, id);
        assert(ids =~= earlier.push(last));
        assert forall|x: u64| #[trigger] without(ids, id).contains(x) <==> (ids.contains(x) && x != id) by {
            vstd::seq_lib::lemma_seq_contains_after_push(earlier, last, x);
            vstd::seq_lib::lemma_seq_contains_after_push(without(earlier, id), last, x);
        }
        if ids.no_duplicates() {
            assert(!earlier.contains(last));
            lemma_push_distinct(without(earlier, id), last);
        }
        if !ids.contains(id) {
            assert(!earlier.contains(id)) by {
                vstd::seq_lib::lemma_seq_contains_after_push(earlier, last, id);
            }
        }
    }
}

impl View for Selected {
    type V = Set<u64>;

    /// The selected entities, as a set.
    closed spec fn view(&self) -> Set<u64> {
        self.order@.to_set()
    }
}

impl Selected {
    #[verifier::type_invariant]
    spec fn well_formed(&self) -> bool {
        &&& self.order@.no_duplicates()
        &&& self.index@ == self.order@.to_set()
    }

    /// The selected entities, oldest selection first.
    pub closed spec fn order(&self) -> Seq<u64> {
        self.order@
    }

    /// An empty selection.
    pub fn new() -> (selected: Self)
        ensures
            selected.order() == Seq::<u64>::empty(),
            selected@ == Set::<u64>::empty(),
    {
        assert(Seq::<u64>::empty().to_set() =~= Set::<u64>::empty());
        Selected { order: Vec::new(), index: HashSet::new() }
    }

    /// The selected entities, oldest selection first. None occurs twice.
    pub fn ids(&self) -> (ids: Vec<u64>)
        ensures
            ids@ == self.order(),
            ids@.no_duplicates(),
            ids@.to_set() == self@,
    {
        proof {
            use_type_invariant(self);
        }
        self.order.clone()
    }

    /// The number of selected entities.
    pub fn len(&self) -> (len: usize)
        ensures
            len == self.order().len(),
    {
        self.order.len()
    }

    /// Whether `id` is selected.
    pub fn contains(&self, id: u64) -> (found: bool)
        ensures
            found == self@.contains(id),
            found == self.order().contains(id),
    {
        proof {
            use_type_invariant(self);
        }
        self.index.contains(&id)
    }

    /// Selects `id`. Returns whether it was not selected before.
    pub fn insert(&mut self, id: u64) -> (added: bool)
        ensures
            added == !old(self)@.contains(id),
            final(self)@ == old(self)@.insert(id),
            final(self).order() == if added {
                old(self).order().push(id)
            } else {
                old(self).order()
            },
    {
        proof {
            use_type_invariant(&*self);
        }
        if self.index.contains(&id) {
            return false;
        }
        let mut taken = Selected::new();
        std::mem::swap(self, &mut taken);
        let Selected { mut order, mut index } = taken;
        proof {
            order@.lemma_push_to_set_commute(id);
            lemma_push_distinct(order@, id);
        }
        order.push(id);
        index.insert(id);
        *self = Selected { order, index };
        true
    }

    /// Deselects `id`. Returns whether it was selected before.
    pub fn remove(&mut self, id: u64) -> (removed: bool)
        ensures
            removed == old(self)@.contains(id),
            final(self)@ == old(self)@.remove(id),
            final(self).order() == without(old(self).order(), id),
    {
        proof {
            use_type_invariant(&*self);
            lemma_without(self.order@, id);
        }
        if !self.index.contains(&id) {
            return false;
        }
        let mut taken = Selected::new();
        std::mem::swap(self, &mut taken);
        let Selected { order, mut index } = taken;
        let mut kept: Vec<u64> = Vec::new();
        let mut i: usize = 0;
        while i < order.len()
            invariant
                i <= order.len(),
                kept@ == without(order@.take(i as int), id),
            decreases order.len() - i,
        {
            proof {
                let next = order@.take(i + 1);
                assert(next.drop_last() =~= order@.take(i as int));
            }
            if order[i] != id {
                kept.push(order[i]);
            }
            i += 1;
        }
        index.remove(&id);
        proof {
            assert(order@.take(i as int) =~= order@);
            assert(kept@.to_set() =~= order@.to_set().remove(id));
        }
        *self = Selected { order: kept, index };
        true
    }

    /// Deselects everything. Returns what was selected, oldest selection
    /// first.
    pub fn clear(&mut self) -> (cleared: Vec<u64>)
        ensures
            cleared@ == old(self).order(),
            final(self).order() == Seq::<u64>::empty(),
            final(self)@ == Set::<u64>::empty(),
    {
        let mut taken = Selected::new();
        std::mem::swap(self, &mut taken);
        let Selected { order, index } = taken;
        order
    }
}

/// A request to toggle one entity, optionally after deselecting everything.
#[derive(Clone, Copy, Debug, PartialEq, Eq, Structural)]
pub struct SelectionEvent {
    /// Deselect every selected entity before the toggle. The toggle still
    /// goes by whether the entity was selected before that.
    pub clear: bool,
    /// The entity to toggle.
    pub entity: u64,
}

/// One entity entering or leaving the selection.
#[derive(Clone, Copy, Debug, PartialEq, Eq, Structural)]
pub enum SelectionChange {
    EntitySelected(u64),
    EntityDeselected(u64),
}

/// The request to toggle `entity` and nothing else.
pub open spec fn toggle(entity: u64) -> SelectionEvent {
    SelectionEvent { clear: false, entity }
}

/// One toggle request per entity, in order.
pub open spec fn toggles(ids: Seq<u64>) -> Seq<SelectionEvent> {
    Seq::new(ids.len(), |i: int| toggle(ids[i]))
}

/// One deselection per entity, in order.
pub open spec fn deselected(ids: Seq<u64>) -> Seq<SelectionChange> {
    Seq::new(ids.len(), |i: int| SelectionChange::EntityDeselected(ids[i]))
}

/// One selection per entity, in order.
pub open spec fn selected(ids: Seq<u64>) -> Seq<SelectionChange> {
    Seq::new(ids.len(), |i: int| SelectionChange::EntitySelected(ids[i]))
}

/// The selection after one request was carried out.
pub open spec fn selection_after_event(order: Seq<u64>, event: SelectionEvent) -> Seq<u64> {
    if order.contains(event.entity) {
        if event.clear {
            Seq::empty()
        } else {
            without(order, event.entity)
        }
    } else {
        if event.clear {
            seq![event.entity]
        } else {
            order.push(event.entity)
        }
    }
}

/// The changes that carrying out one request makes, one per entity that
/// enters or leaves the selection.
pub open spec fn changes_of_event(order: Seq<u64>, event: SelectionEvent) -> Seq<SelectionChange> {
    let cleared = if event.clear {
        deselected(order)
    } else {
        Seq::empty()
    };
    if order.contains(event.entity) {
        if event.clear {
            cleared
        } else {
            seq![SelectionChange::EntityDeselected(event.entity)]
        }
    } else {
        cleared.push(SelectionChange::EntitySelected(event.entity))
    }
}

/// The selection after a list of requests was carried out in order.
pub open spec fn selection_after(order: Seq<u64>, events: Seq<SelectionEvent>) -> Seq<u64>
    decreases events.len(),
{
    if events.len() == 0 {
        order
    } else {
        selection_after_event(selection_after(order, events.drop_last()), events.last())
    }
}

/// The changes that carrying out a list of requests makes, in order.
pub open spec fn changes_of(order: Seq<u64>, events: Seq<SelectionEvent>) -> Seq<SelectionChange>
    decreases events.len(),
{
    if events.len() == 0 {
        Seq::empty()
    } else {
        changes_of(order, events.drop_last()) + changes_of_event(
            selection_after(order, events.drop_last()),
            events.last(),
        )
    }
}

fn push_deselected(changes: &mut Vec<SelectionChange>, ids: &Vec<u64>)
    ensures
        final(changes)@ == old(changes)@ + deselected(ids@),
{
    let mut i: usize = 0;
    while i < ids.len()
        invariant
            i <= ids.len(),
            changes@ == old(changes)@ + deselected(ids@.take(i as int)),
        decreases ids.len() - i,
    {
        changes.push(SelectionChange::EntityDeselected(ids[i]));
        i += 1;
    }
}

/// Carries out selection requests, in order, on the set of selected
/// entities, and reports each entity that entered or left the set.
pub fn handle_selection_event(selected: &mut Selected, events: &Vec<SelectionEvent>) -> (changes: Vec<
    SelectionChange,
>)
    ensures
        final(selected).order() == selection_after(old(selected).order(), events@),
        changes@ == changes_of(old(selected).order(), events@),
{
    let mut changes: Vec<SelectionChange> = Vec::new();
    let mut i: usize = 0;
    while i < events.len()
        invariant
            i <= events.len(),
            selected.order() == selection_after(old(selected).order(), events@.take(i as int)),
            changes@ == changes_of(old(selected).order(), events@.take(i as int)),
        decreases events.len() - i,
    {
        proof {
            let next = events@.take(i + 1);
            assert(next.drop_last() =~= events@.take(i as int));
        }
        let event = events[i];
        let was_selected = selected.contains(event.entity);
        if event.clear {
            let cleared = selected.clear();
            push_deselected(&mut changes, &cleared);
            if !was_selected {
                selected.insert(event.entity);
                changes.push(SelectionChange::EntitySelected(event.entity));
            }
        } else if was_selected {
            selected.remove(event.entity);
            changes.push(SelectionChange::EntityDeselected(event.entity));
        } else {
            selected.insert(event.entity);
            changes.push(SelectionChange::EntitySelected(event.entity));
        }
        i += 1;
    }
    assert(events@.take(i as int) =~= events@);
    changes
}

/// Which selectable entities clicks and drags may select.
#[derive(Clone, Copy, Debug, PartialEq, Eq, Structural)]
pub struct SelectionPolicy {
    /// The kinds that may be selected, as the union of their bits. Zero
    /// places no restriction.
    pub categories: u8,
}

impl SelectionPolicy {
    /// Whether an entity marked `selectable` may be selected.
    pub open spec fn admits(self, selectable: Selectable) -> bool {
        self.categories == 0 || selectable.selection_mask.bits() & self.categories != 0
    }

    /// The policy that lets every selectable entity be selected.
    pub fn unrestricted() -> (policy: Self)
        ensures
            policy.categories == 0,
    {
        SelectionPolicy { categories: 0 }
    }

    /// Whether an entity marked `selectable` may be selected.
    pub fn allows(&self, selectable: &Selectable) -> (allowed: bool)
        ensures
            allowed == self.admits(*selectable),
    {
        self.categories == 0 || selectable.selection_mask.to_bits() & self.categories != 0
    }
}

/// The entities a drag may select: those marked selectable whose kind the
/// policy admits.
pub open spec fn eligible(selectables: Map<u64, Selectable>, policy: SelectionPolicy) -> Set<u64> {
    Set::new(|id: u64| selectables.contains_key(id) && policy.admits(selectables[id]))
}

/// Whether a click on `target` toggles the entity under the cursor: it is of
/// the selectable category, and the policy, if it restricts anything, admits
/// it.
pub open spec fn click_toggles(
    target: PointerTarget,
    selectables: Map<u64, Selectable>,
    policy: SelectionPolicy,
) -> bool {
    target matches PointerTarget::Selectable { entity } && (policy.categories == 0 || eligible(
        selectables,
        policy,
    ).contains(entity))
}

/// The selected entities that do not overlap the volume, in order.
pub open spec fn outside(order: Seq<u64>, overlap: Seq<u64>) -> Seq<u64>
    decreases order.len(),
{
    if order.len() == 0 {
        Seq::empty()
    } else if overlap.contains(order.last()) {
        outside(order.drop_last(), overlap)
    } else {
        outside(order.drop_last(), overlap).push(order.last())
    }
}

/// The overlapping entities that a drag adds to the selection: eligible and
/// not yet selected, each once, in the order of their first occurrence.
pub open spec fn incoming(order: Seq<u64>, eligible: Set<u64>, overlap: Seq<u64>) -> Seq<u64>
    decreases overlap.len(),
{
    if overlap.len() == 0 {
        Seq::empty()
    } else {
        let earlier = overlap.drop_last();
        let id = overlap.last();
        if eligible.contains(id) && !order.contains(id) && !earlier.contains(id) {
            incoming(order, eligible, earlier).push(id)
        } else {
            incoming(order, eligible, earlier)
        }
    }
}

/// The requests by which the selection is reconciled with what overlaps the
/// selection volume.
///
/// Without the multi-select modifier every selected entity outside the
/// overlap is toggled off; with it, none is. Then every eligible entity of
/// the overlap that is not selected is toggled on.
pub open spec fn resolution(
    order: Seq<u64>,
    eligible: Set<u64>,
    overlap: Seq<u64>,
    multi: bool,
) -> Seq<SelectionEvent> {
    let leaving = if multi {
        Seq::empty()
    } else {
        outside(order, overlap)
    };
    toggles(leaving) + toggles(incoming(order, eligible, overlap))
}

fn push_toggles(events: &mut Vec<SelectionEvent>, ids: &Vec<u64>)
    ensures
        final(events)@ == old(events)@ + toggles(ids@),
{
    let mut i: usize = 0;
    while i < ids.len()
        invariant
            i <= ids.len(),
            events@ == old(events)@ + toggles(ids@.take(i as int)),
        decreases ids.len() - i,
    {
        events.push(SelectionEvent { clear: false, entity: ids[i] });
        i += 1;
    }
}

fn is_eligible(selectables: &HashMap<u64, Selectable>, policy: SelectionPolicy, id: u64) -> (found: bool)
    ensures
        found == eligible(selectables@, policy).contains(id),
{
    match selectables.get(&id) {
        Some(selectable) => policy.allows(selectable),
        None => false,
    }
}

/// Reconciles the selection with the entities that overlap the selection
/// volume, given as a list.
pub fn resolve_overlap(
    selected: &Selected,
    selectables: &HashMap<u64, Selectable>,
    policy: SelectionPolicy,
    overlap: &Vec<u64>,
    multi: bool,
) -> (events: Vec<SelectionEvent>)
    ensures
        events@ == resolution(selected.order(), eligible(selectables@, policy), overlap@, multi),
{
    let ghost chosen = eligible(selectables@, policy);
    let mut seen: HashSet<u64> = HashSet::new();
    let mut entering: Vec<u64> = Vec::new();
    let mut i: usize = 0;
    while i < overlap.len()
        invariant
            i <= overlap.len(),
            chosen == eligible(selectables@, policy),
            seen@ == overlap@.take(i as int).to_set(),
            entering@ == incoming(selected.order(), chosen, overlap@.take(i as int)),
        decreases overlap.len() - i,
    {
        proof {
            let next = overlap@.take(i + 1);
            assert(next.drop_last() =~= overlap@.take(i as int));
            assert(next.last() == overlap@[i as int]);
            overlap@.take(i as int).lemma_push_to_set_commute(overlap@[i as int]);
        }
        let id = overlap[i];
        let first = seen.insert(id);
        if first && is_eligible(selectables, policy, id) && !selected.contains(id) {
            entering.push(id);
        }
        i += 1;
    }
    assert(overlap@.take(i as int) =~= overlap@);
    let mut events: Vec<SelectionEvent> = Vec::new();
    if !multi {
        let order = selected.ids();
        let mut leaving: Vec<u64> = Vec::new();
        let mut j: usize = 0;
        while j < order.len()
            invariant
                j <= order.len(),
                seen@ == overlap@.to_set(),
                leaving@ == outside(order@.take(j as int), overlap@),
            decreases order.len() - j,
        {
            proof {
                let next = order@.take(j + 1);
                assert(next.drop_last() =~= order@.take(j as int));
            }
            if !seen.contains(&order[j]) {
                leaving.push(order[j]);
            }
            j += 1;
        }
        assert(order@.take(j as int) =~= order@);
        push_toggles(&mut events, &leaving);
    }
    push_toggles(&mut events, &entering);
    events
}

/// Raised when the primary button goes down while the cursor is idle.
#[derive(Clone, Copy, Debug, PartialEq, Eq, Structural)]
pub struct SelectionStartEvent;

/// Raised when a drag ends and its volume is taken down.
#[derive(Clone, Copy, Debug, PartialEq, Eq, Structural)]
pub struct SelectionEndEvent;

/// How tall the selection volume is, in world units: enough to span the
/// playable vertical range.
pub const SELECTION_VOLUME_HEIGHT: u32 = 1000;

/// The box that a drag spans on the ground, given by the two ground points
/// at its opposite corners.
#[derive(Clone, Copy, Debug, PartialEq, Eq, Structural)]
pub struct SelectionVolume {
    /// Where the drag began.
    pub start: WorldPoint,
    /// Where the pointer last met the ground.
    pub end: WorldPoint,
}

impl SelectionVolume {
    /// Whether the volume has no extent: the drag has not left its start.
    pub open spec fn is_degenerate(self) -> bool {
        self.start == self.end
    }

    /// Whether the volume has no extent: the drag has not left its start.
    pub fn has_zero_extent(&self) -> (degenerate: bool)
        ensures
            degenerate == self.is_degenerate(),
    {
        self.start == self.end
    }
}

/// The drag and the volume after a click began on `target`.
///
/// On ground the drag starts there and a volume of no extent is put up. On
/// anything else nothing changes.
pub open spec fn drag_started(
    target: PointerTarget,
    selection: CursorSelection,
    volume: Option<SelectionVolume>,
) -> (CursorSelection, Option<SelectionVolume>) {
    match target {
        PointerTarget::Ground { point, .. } => (
            CursorSelection { start: Some(point), end: None },
            Some(SelectionVolume { start: point, end: point }),
        ),
        _ => (selection, volume),
    }
}

/// The requests that a click on `target` gives rise to: one toggle of the
/// entity under the cursor if the click lands on a selectable entity that
/// may be selected, nothing otherwise.
pub open spec fn click_requests(
    target: PointerTarget,
    selectables: Map<u64, Selectable>,
    policy: SelectionPolicy,
) -> Seq<SelectionEvent> {
    match target {
        PointerTarget::Selectable { entity } =>
            if click_toggles(target, selectables, policy) {
                seq![toggle(entity)]
            } else {
                Seq::empty()
            },
        _ => Seq::empty(),
    }
}

/// Dispatches the start of a click by what is under the cursor.
///
/// Without a start event nothing happens. With one, a click on ground starts
/// a drag and puts up the selection volume, and a click on a selectable
/// entity asks for that entity, and no other, to be toggled.
pub fn handle_selection_start_event(
    start: Option<SelectionStartEvent>,
    target: PointerTarget,
    selectables: &HashMap<u64, Selectable>,
    policy: SelectionPolicy,
    selection: &mut CursorSelection,
    volume: &mut Option<SelectionVolume>,
) -> (events: Vec<SelectionEvent>)
    ensures
        start.is_none() ==> *final(selection) == *old(selection) && *final(volume) == *old(volume)
            && events@ == Seq::<SelectionEvent>::empty(),
        start.is_some() ==> (*final(selection), *final(volume)) == drag_started(
            target,
            *old(selection),
            *old(volume),
        ) && events@ == click_requests(target, selectables@, policy),
{
    let mut events: Vec<SelectionEvent> = Vec::new();
    if start.is_none() {
        return events;
    }
    match target {
        PointerTarget::Ground { point, .. } => {
            *selection = CursorSelection { start: Some(point), end: None };
            *volume = Some(SelectionVolume { start: point, end: point });
        },
        PointerTarget::Selectable { entity } => {
            if policy.categories == 0 || is_eligible(selectables, policy, entity) {
                events.push(SelectionEvent { clear: false, entity });
            }
        },
        _ => {},
    }
    events
}

/// The drag and the volume after the volume manager ran.
///
/// While selecting, a ground hit moves the far corner of the live volume
/// there; without a ground hit, or without a live drag, nothing changes. In
/// every other mode there is no drag and no volume.
pub open spec fn volume_managed(
    mode: CursorMode,
    ground: Option<WorldPoint>,
    selection: CursorSelection,
    volume: Option<SelectionVolume>,
) -> (CursorSelection, Option<SelectionVolume>) {
    if mode == CursorMode::Selecting {
        match (ground, selection.start, volume) {
            (Some(point), Some(start), Some(_)) => (
                CursorSelection { start: Some(start), end: Some(point) },
                Some(SelectionVolume { start, end: point }),
            ),
            _ => (selection, volume),
        }
    } else {
        (CursorSelection::idle(), None)
    }
}

/// Keeps the selection volume in step with the cursor mode and the drag.
///
/// Returns the end event when a live volume is taken down.
pub fn handle_selection(
    mode: CursorMode,
    ground: Option<WorldPoint>,
    selection: &mut CursorSelection,
    volume: &mut Option<SelectionVolume>,
) -> (ended: Option<SelectionEndEvent>)
    ensures
        (*final(selection), *final(volume)) == volume_managed(
            mode,
            ground,
            *old(selection),
            *old(volume),
        ),
        ended.is_some() == (mode != CursorMode::Selecting && old(volume).is_some()),
{
    match mode {
        CursorMode::Selecting => {
            if let (Some(point), Some(start), Some(_)) = (ground, selection.start, *volume) {
                *selection = CursorSelection { start: Some(start), end: Some(point) };
                *volume = Some(SelectionVolume { start, end: point });
            }
            None
        },
        _ => {
            let ended = if volume.is_some() {
                Some(SelectionEndEvent)
            } else {
                None
            };
            *selection = CursorSelection { start: None, end: None };
            *volume = None;
            ended
        },
    }
}

/// What counts as overlapping a volume of no extent: the entity directly
/// under the cursor, if there is one.
pub open spec fn under_cursor(target: PointerTarget) -> Seq<u64> {
    match target.entity() {
        Some(entity) => seq![entity],
        None => Seq::empty(),
    }
}

/// Whether `events` reconcile the selection with the physics engine's report
/// of what overlaps the selection volume.
///
/// Without a live volume, or without a report for it, nothing is asked for.
/// A volume of no extent overlaps exactly the entity under the cursor,
/// whatever the report says. Otherwise the overlap is the content of the
/// report, listed in some order without repetition; the order decides the
/// order of the requests and nothing else.
pub open spec fn reconciles(
    events: Seq<SelectionEvent>,
    order: Seq<u64>,
    selectables: Map<u64, Selectable>,
    policy: SelectionPolicy,
    volume: Option<SelectionVolume>,
    report: Option<&CollidingEntities>,
    target: PointerTarget,
    multi: bool,
) -> bool {
    match (volume, report) {
        (Some(live), Some(report)) => if live.is_degenerate() {
            events == resolution(order, eligible(selectables, policy), under_cursor(target), multi)
        } else {
            exists|overlap: Seq<u64>|
                overlap.no_duplicates() && overlap.to_set() == colliding_ids(*report) && events
                    == #[trigger] resolution(order, eligible(selectables, policy), overlap, multi)
        },
        _ => events == Seq::<SelectionEvent>::empty(),
    }
}

/// Reconciles the selection with the physics engine's report of what
/// overlaps the selection volume.
pub fn handle_selection_collisions(
    selected: &Selected,
    selectables: &HashMap<u64, Selectable>,
    policy: SelectionPolicy,
    volume: Option<SelectionVolume>,
    report: Option<&CollidingEntities>,
    target: PointerTarget,
    multiselect: PointerMultiselect,
) -> (events: Vec<SelectionEvent>)
    ensures
        reconciles(
            events@,
            selected.order(),
            selectables@,
            policy,
            volume,
            report,
            target,
            multiselect.is_pressed,
        ),
{
    let (live, report) = match (volume, report) {
        (Some(live), Some(report)) => (live, report),
        _ => {
            return Vec::new();
        },
    };
    let overlap = if live.has_zero_extent() {
        let mut single: Vec<u64> = Vec::new();
        if let Some(entity) = target.under_cursor() {
            single.push(entity);
        }
        single
    } else {
        report_ids(report)
    };
    resolve_overlap(selected, selectables, policy, &overlap, multiselect.is_pressed)
}

} // verus!
