//! One frame of the controls, from input to selection.
//!
//! The systems run in a fixed order: the cursor reads the input and asks
//! for its mode changes, the changes are applied, a click is dispatched, the
//! volume manager brings the selection volume in step with the new mode, and
//! the resolver reconciles the selection with what overlapped the volume.
//!
//! The overlap report handed to a frame was computed by the physics engine
//! from the volume as the previous frame left it, so a change of the volume
//! shows in the selection one frame later. The resolver therefore goes by
//! the volume that was live when the frame began: in the frame in which a
//! drag ends it runs one last time, on the last overlap of that drag.

use crate::controls::selection::{
    changes_of, click_requests, drag_started, handle_selection, handle_selection_collisions,
    handle_selection_event, handle_selection_start_event, reconciles, selection_after,
    volume_managed, Selectable, Selected, SelectionChange, SelectionEndEvent, SelectionEvent,
    SelectionPolicy, SelectionVolume,
};
use crate::picking::{ground_under, target_of, HitData, PointerHits};
use crate::ui::cursor::{
    click_started, glyph_after, handle_cursor, handle_cursor_mode_event, mode_after,
    mode_changes, moved_location, setup_cursor, initial_cursor, Cursor, CursorBundle, CursorMode,
    CursorModeChangeEvent, CursorSelection, InputSnapshot, WindowSize,
};
use avian3d::collision::CollidingEntities;
use std::collections::HashMap;
use vstd::prelude::*;

verus! {

/// The state of the controls between two frames.
#[derive(Clone, Copy, Debug, PartialEq, Eq, Structural)]
pub struct ControlModel {
    pub cursor: Cursor,
    pub selection: CursorSelection,
    /// The live selection volume, if there is one.
    pub volume: Option<SelectionVolume>,
}

/// What holds of the controls between any two frames: there is a selection
/// volume exactly while the cursor is selecting, a drag has a start exactly
/// then and never an end without a start, and the volume spans the drag.
pub open spec fn consistent(model: ControlModel) -> bool {
    &&& model.volume.is_some() == (model.cursor.mode == CursorMode::Selecting)
    &&& model.selection.start.is_some() == (model.cursor.mode == CursorMode::Selecting)
    &&& model.selection.end.is_some() ==> model.selection.start.is_some()
    &&& match model.volume {
        Some(live) => {
            &&& model.selection.start == Some(live.start)
            &&& match model.selection.end {
                Some(end) => live.end == end,
                None => live.end == live.start,
            }
        },
        None => model.selection.end.is_none(),
    }
}

/// The controls as a window of the given size first shows them.
pub open spec fn initial_model(window: WindowSize) -> ControlModel {
    ControlModel {
        cursor: initial_cursor(window).cursor,
        selection: initial_cursor(window).selection,
        volume: None,
    }
}

/// The controls after one frame.
pub open spec fn next_model(model: ControlModel, input: InputSnapshot, picks: Seq<HitData>) -> ControlModel {
    let target = target_of(picks);
    let mode = mode_after(model.cursor.mode, mode_changes(model.cursor.mode, input, target));
    let dispatched = if click_started(model.cursor.mode, input) {
        drag_started(target, model.selection, model.volume)
    } else {
        (model.selection, model.volume)
    };
    let managed = volume_managed(mode, ground_under(picks), dispatched.0, dispatched.1);
    ControlModel {
        cursor: Cursor {
            visible: model.cursor.visible,
            location: moved_location(model.cursor, input),
            mode,
        },
        selection: managed.0,
        volume: managed.1,
    }
}

/// The controls after the mode was set by hand.
///
/// Selecting cannot be entered by hand, since a drag needs a ground point to
/// start from: asking for it changes nothing. Any other mode is entered at
/// once, and ends the drag in progress, if there is one.
pub open spec fn forced_model(model: ControlModel, mode: CursorMode) -> ControlModel {
    if mode == CursorMode::Selecting {
        model
    } else {
        ControlModel {
            cursor: Cursor { visible: model.cursor.visible, location: model.cursor.location, mode },
            selection: CursorSelection::idle(),
            volume: None,
        }
    }
}

/// What the embedding does to the entity that carries the selection volume.
#[derive(Clone, Copy, Debug, PartialEq, Eq, Structural)]
pub enum VolumeCommand {
    /// Leave things as they are.
    Keep,
    /// Create the entity with this geometry.
    Spawn(SelectionVolume),
    /// Replace the geometry of the entity, which stays the same entity.
    Resize(SelectionVolume),
    /// Destroy the entity.
    Despawn,
}

/// The command that takes the volume entity from one frame to the next.
pub open spec fn volume_command(before: Option<SelectionVolume>, after: Option<SelectionVolume>) -> VolumeCommand {
    match (before, after) {
        (None, None) => VolumeCommand::Keep,
        (None, Some(live)) => VolumeCommand::Spawn(live),
        (Some(_), None) => VolumeCommand::Despawn,
        (Some(old), Some(live)) => if old == live {
            VolumeCommand::Keep
        } else {
            VolumeCommand::Resize(live)
        },
    }
}

/// What one frame asks of the embedding.
#[derive(Debug, PartialEq, Eq)]
pub struct FrameOutput {
    /// The mode changes that were applied, in order.
    pub mode_changes: Vec<CursorModeChangeEvent>,
    /// The glyph to show from now on, if the mode was set.
    pub glyph: Option<usize>,
    /// What to do to the volume entity.
    pub volume: VolumeCommand,
    /// Set in the frame in which a drag ends.
    pub selection_end: Option<SelectionEndEvent>,
    /// The selection requests that were carried out, in order.
    pub requests: Vec<SelectionEvent>,
    /// The entities that entered or left the selection, in order.
    pub changes: Vec<SelectionChange>,
}

/// The controls: the cursor, its drag and the selection volume.
#[derive(Debug)]
pub struct ControlState {
    bundle: CursorBundle,
    volume: Option<SelectionVolume>,
}

impl View for ControlState {
    type V = ControlModel;

    closed spec fn view(&self) -> ControlModel {
        ControlModel {
            cursor: self.bundle.cursor,
            selection: self.bundle.selection,
            volume: self.volume,
        }
    }
}

/// A frame leaves the controls consistent.
pub proof fn lemma_frame_keeps_consistent(model: ControlModel, input: InputSnapshot, picks: Seq<HitData>)
    requires
        consistent(model),
    ensures
        consistent(next_model(model, input, picks)),
{
}

impl ControlState {
    #[verifier::type_invariant]
    spec fn well_formed(&self) -> bool {
        consistent(self@)
    }

    /// The controls for a window of the given size: the cursor idle at its
    /// centre, no drag, no volume.
    pub fn new(window: WindowSize) -> (state: Self)
        ensures
            state@ == initial_model(window),
    {
        let bundle = setup_cursor(window);
        ControlState { bundle, volume: None }
    }

    /// The current state. It is always consistent.
    pub fn model(&self) -> (model: ControlModel)
        ensures
            model == self@,
            consistent(model),
    {
        proof {
            use_type_invariant(self);
        }
        ControlModel {
            cursor: self.bundle.cursor,
            selection: self.bundle.selection,
            volume: self.volume,
        }
    }

    /// Shows or hides the glyph of the cursor. Nothing else changes.
    pub fn set_visible(&mut self, visible: bool)
        ensures
            final(self)@ == (ControlModel {
                cursor: Cursor { visible, ..old(self)@.cursor },
                ..old(self)@
            }),
    {
        proof {
            use_type_invariant(&*self);
        }
        let cursor = Cursor { visible, ..self.bundle.cursor };
        *self = ControlState {
            bundle: CursorBundle { cursor, selection: self.bundle.selection },
            volume: self.volume,
        };
    }

    /// Sets the mode by hand, as a cutscene does when it locks the cursor
    /// and when it lets go of it again.
    ///
    /// Nothing is selected or deselected. A request for selecting is not
    /// taken: the state stays as it is and nothing is asked of the embedding.
    pub fn force_mode(&mut self, mode: CursorMode) -> (out: FrameOutput)
        ensures
            final(self)@ == forced_model(old(self)@, mode),
            consistent(final(self)@),
            out.mode_changes@ == (if mode == CursorMode::Selecting {
                Seq::<CursorModeChangeEvent>::empty()
            } else {
                seq![CursorModeChangeEvent(mode)]
            }),
            out.glyph == glyph_after(out.mode_changes@),
            out.volume == volume_command(old(self)@.volume, final(self)@.volume),
            out.selection_end.is_some() == (old(self)@.volume.is_some() && final(self)@.volume.is_none()),
            out.requests@ == Seq::<SelectionEvent>::empty(),
            out.changes@ == Seq::<SelectionChange>::empty(),
    {
        proof {
            use_type_invariant(&*self);
        }
        let mut mode_changes: Vec<CursorModeChangeEvent> = Vec::new();
        let mut glyph: Option<usize> = None;
        let mut command = VolumeCommand::Keep;
        let mut selection_end: Option<SelectionEndEvent> = None;
        if mode != CursorMode::Selecting {
            mode_changes.push(CursorModeChangeEvent(mode));
            let mut cursor = self.bundle.cursor;
            let mut selection = self.bundle.selection;
            let mut volume = self.volume;
            glyph = handle_cursor_mode_event(&mut cursor, &mode_changes);
            selection_end = handle_selection(cursor.mode, None, &mut selection, &mut volume);
            if selection_end.is_some() {
                command = VolumeCommand::Despawn;
            }
            *self = ControlState { bundle: CursorBundle { cursor, selection }, volume };
        }
        FrameOutput {
            mode_changes,
            glyph,
            volume: command,
            selection_end,
            requests: Vec::new(),
            changes: Vec::new(),
        }
    }

    /// Runs one frame.
    ///
    /// `hits` is what the pointer ray hit this frame, nearest first.
    /// `report` is the physics engine's overlap report for the selection
    /// volume, if the volume entity exists and has one.
    pub fn step(
        &mut self,
        input: &InputSnapshot,
        hits: &PointerHits,
        report: Option<&CollidingEntities>,
        selectables: &HashMap<u64, Selectable>,
        policy: SelectionPolicy,
        selected: &mut Selected,
    ) -> (out: FrameOutput)
        ensures
            final(self)@ == next_model(old(self)@, *input, hits.picks@),
            consistent(final(self)@),
            out.mode_changes@ == mode_changes(old(self)@.cursor.mode, *input, target_of(hits.picks@)),
            out.glyph == glyph_after(out.mode_changes@),
            out.volume == volume_command(old(self)@.volume, final(self)@.volume),
            out.selection_end.is_some() == (old(self)@.volume.is_some() && final(self)@.volume.is_none()),
            exists|resolved: Seq<SelectionEvent>|
                {
                    &&& #[trigger] reconciles(
                        resolved,
                        old(selected).order(),
                        selectables@,
                        policy,
                        old(self)@.volume,
                        report,
                        target_of(hits.picks@),
                        input.multiselect.is_pressed,
                    )
                    &&& out.requests@ == (if click_started(old(self)@.cursor.mode, *input) {
                        click_requests(target_of(hits.picks@), selectables@, policy)
                    } else {
                        Seq::empty()
                    }) + resolved
                },
            final(selected).order() == selection_after(old(selected).order(), out.requests@),
            out.changes@ == changes_of(old(selected).order(), out.requests@),
    {
        proof {
            use_type_invariant(&*self);
            lemma_frame_keeps_consistent(self@, *input, hits.picks@);
        }
        let before = self.volume;
        let mut cursor = self.bundle.cursor;
        let mut selection = self.bundle.selection;
        let mut volume = self.volume;
        let target = hits.target();
        let ground = hits.ground();

        let asked = handle_cursor(&mut cursor, input, target);
        let glyph = handle_cursor_mode_event(&mut cursor, &asked.mode_changes);
        let mut requests = handle_selection_start_event(
            asked.selection_start,
            target,
            selectables,
            policy,
            &mut selection,
            &mut volume,
        );
        let ended = handle_selection(cursor.mode, ground, &mut selection, &mut volume);
        // A volume put up and taken down within this frame never existed
        // for anyone else, so its end is not announced.
        let selection_end = if before.is_some() {
            ended
        } else {
            None
        };
        let mut resolved = handle_selection_collisions(
            selected,
            selectables,
            policy,
            before,
            report,
            target,
            input.multiselect,
        );
        requests.append(&mut resolved);
        let changes = handle_selection_event(selected, &requests);
        *self = ControlState { bundle: CursorBundle { cursor, selection }, volume };
        let command = match (before, volume) {
            (None, None) => VolumeCommand::Keep,
            (None, Some(live)) => VolumeCommand::Spawn(live),
            (Some(_), None) => VolumeCommand::Despawn,
            (Some(old), Some(live)) => if old == live {
                VolumeCommand::Keep
            } else {
                VolumeCommand::Resize(live)
            },
        };
        FrameOutput {
            mode_changes: asked.mode_changes,
            glyph,
            volume: command,
            selection_end,
            requests,
            changes,
        }
    }
}

} // verus!
