use avian3d::collision::CollidingEntities;
use bevy::ecs::entity::Entity;
use rts_controls::controls::frame::{ControlModel, ControlState, FrameOutput, VolumeCommand};
use rts_controls::controls::selection::{
    Selectable, Selected, SelectionChange, SelectionEndEvent, SelectionEvent, SelectionMask,
    SelectionPolicy, SelectionVolume,
};
use rts_controls::picking::{HitData, PointerHits, WorldPoint};
use rts_controls::ui::cursor::{
    ButtonState, Cursor, CursorMode, CursorModeChangeEvent, CursorSelection, InputSnapshot,
    PointerDelta, PointerMultiselect, ScreenPoint, WindowSize,
};
use std::collections::HashMap;

const GROUND: u32 = 1;
const SELECTABLE: u32 = 4;
const WINDOW: WindowSize = WindowSize { width: 800, height: 600 };

fn id(index: u32) -> u64 {
    Entity::from_raw(index).to_bits()
}

fn point(x: i64, z: i64) -> WorldPoint {
    WorldPoint { x, z }
}

fn quiet() -> ButtonState {
    ButtonState { just_pressed: false, just_released: false, pressed: false }
}

fn pressed_now() -> ButtonState {
    ButtonState { just_pressed: true, just_released: false, pressed: true }
}

fn held() -> ButtonState {
    ButtonState { just_pressed: false, just_released: false, pressed: true }
}

fn released_now() -> ButtonState {
    ButtonState { just_pressed: false, just_released: true, pressed: false }
}

fn input(primary: ButtonState, secondary: ButtonState) -> InputSnapshot {
    InputSnapshot {
        pointer_delta: PointerDelta { dx: 0, dy: 0 },
        primary,
        secondary,
        multiselect: PointerMultiselect { is_pressed: false },
        window: WINDOW,
        window_focused: true,
    }
}

fn ground_at(x: i64, z: i64) -> HitData {
    HitData { entity: id(100), position: Some(point(x, z)), layers: Some(GROUND) }
}

fn unit(index: u32) -> HitData {
    HitData { entity: id(index), position: Some(point(0, 0)), layers: Some(SELECTABLE) }
}

fn hits(picks: Vec<HitData>) -> PointerHits {
    PointerHits { picks }
}

fn units(indices: &[u32]) -> HashMap<u64, Selectable> {
    let mut selectables = HashMap::new();
    for index in indices {
        selectables.insert(id(*index), Selectable { selection_mask: SelectionMask::UnitPassive });
    }
    selectables
}

fn report_of(indices: &[u32]) -> CollidingEntities {
    let mut report = CollidingEntities::default();
    for index in indices {
        report.0.insert(Entity::from_raw(*index));
    }
    report
}

fn toggle(entity: u64) -> SelectionEvent {
    SelectionEvent { clear: false, entity }
}

fn step(
    state: &mut ControlState,
    selected: &mut Selected,
    input: InputSnapshot,
    picks: Vec<HitData>,
    report: Option<&CollidingEntities>,
) -> FrameOutput {
    state.step(&input, &hits(picks), report, &units(&[1, 2, 3]), SelectionPolicy::unrestricted(), selected)
}

fn volume_tracks_mode(model: &ControlModel) -> bool {
    model.volume.is_some() == (model.cursor.mode == CursorMode::Selecting)
        && model.selection.start.is_some() == (model.cursor.mode == CursorMode::Selecting)
}

#[test]
fn the_controls_start_idle_without_a_volume() {
    let state = ControlState::new(WINDOW);
    assert_eq!(
        state.model(),
        ControlModel {
            cursor: Cursor { visible: true, location: ScreenPoint { x: 400, y: 300 }, mode: CursorMode::Idle },
            selection: CursorSelection { start: None, end: None },
            volume: None,
        }
    );
}

#[test]
fn a_drag_from_press_to_release() {
    let mut state = ControlState::new(WINDOW);
    let mut selected = Selected::new();

    // The button goes down on the ground: the drag begins.
    let out = step(&mut state, &mut selected, input(pressed_now(), quiet()), vec![ground_at(2, 3)], None);
    let flat = SelectionVolume { start: point(2, 3), end: point(2, 3) };
    assert_eq!(out.mode_changes, vec![CursorModeChangeEvent(CursorMode::Selecting)]);
    assert_eq!(out.glyph, Some(28));
    assert_eq!(out.volume, VolumeCommand::Spawn(flat));
    assert_eq!(out.selection_end, None);
    assert!(out.requests.is_empty());
    assert!(out.changes.is_empty());
    let model = state.model();
    assert_eq!(model.cursor.mode, CursorMode::Selecting);
    assert_eq!(model.selection, CursorSelection { start: Some(point(2, 3)), end: Some(point(2, 3)) });
    assert_eq!(model.volume, Some(flat));

    // The pointer moves on: the volume grows, the selection waits a frame.
    let nothing_yet = report_of(&[]);
    let out = step(&mut state, &mut selected, input(held(), quiet()), vec![ground_at(12, -5)], Some(&nothing_yet));
    let wide = SelectionVolume { start: point(2, 3), end: point(12, -5) };
    assert!(out.mode_changes.is_empty());
    assert_eq!(out.glyph, None);
    assert_eq!(out.volume, VolumeCommand::Resize(wide));
    assert!(out.changes.is_empty());
    assert_eq!(state.model().volume, Some(wide));

    // The physics engine reports what the grown volume touches.
    let touching = report_of(&[2, 3, 100]);
    let out = step(&mut state, &mut selected, input(held(), quiet()), vec![ground_at(12, -5)], Some(&touching));
    assert_eq!(out.volume, VolumeCommand::Keep);
    let mut entered: Vec<u64> = out
        .changes
        .iter()
        .map(|change| match change {
            SelectionChange::EntitySelected(entity) => *entity,
            SelectionChange::EntityDeselected(_) => panic!("nothing was selected before"),
        })
        .collect();
    entered.sort();
    assert_eq!(entered, vec![id(2), id(3)]);
    assert_eq!(out.requests.len(), 2);

    // Over the void the volume keeps its extent.
    let out = step(&mut state, &mut selected, input(held(), quiet()), Vec::new(), Some(&touching));
    assert_eq!(out.volume, VolumeCommand::Keep);
    assert!(out.changes.is_empty());
    assert_eq!(state.model().volume, Some(wide));

    // The button comes up: one last pass on the last report, then the volume goes.
    let shrunk = report_of(&[3]);
    let out = step(&mut state, &mut selected, input(released_now(), quiet()), vec![ground_at(12, -5)], Some(&shrunk));
    assert_eq!(out.mode_changes, vec![CursorModeChangeEvent(CursorMode::Idle)]);
    assert_eq!(out.glyph, Some(0));
    assert_eq!(out.volume, VolumeCommand::Despawn);
    assert_eq!(out.selection_end, Some(SelectionEndEvent));
    assert_eq!(out.requests, vec![toggle(id(2))]);
    assert_eq!(out.changes, vec![SelectionChange::EntityDeselected(id(2))]);
    assert_eq!(selected.ids(), vec![id(3)]);
    let model = state.model();
    assert_eq!(model.cursor.mode, CursorMode::Idle);
    assert_eq!(model.selection, CursorSelection { start: None, end: None });
    assert_eq!(model.volume, None);

    // A frame later the resolver has nothing to go by.
    let out = step(&mut state, &mut selected, input(quiet(), quiet()), vec![ground_at(12, -5)], Some(&shrunk));
    assert_eq!(out.volume, VolumeCommand::Keep);
    assert!(out.requests.is_empty());
    assert_eq!(selected.ids(), vec![id(3)]);
}

#[test]
fn the_drag_follows_the_ground_behind_a_unit() {
    let mut state = ControlState::new(WINDOW);
    let mut selected = Selected::new();
    step(&mut state, &mut selected, input(pressed_now(), quiet()), vec![ground_at(0, 0)], None);
    let out = step(&mut state, &mut selected, input(held(), quiet()), vec![unit(1), ground_at(7, 7)], None);
    assert_eq!(out.volume, VolumeCommand::Resize(SelectionVolume { start: point(0, 0), end: point(7, 7) }));
}

#[test]
fn there_is_a_volume_exactly_while_selecting() {
    let mut state = ControlState::new(WINDOW);
    let mut selected = Selected::new();
    let report = report_of(&[1]);
    let script: Vec<(InputSnapshot, Vec<HitData>)> = vec![
        (input(quiet(), quiet()), vec![ground_at(0, 0)]),
        (input(pressed_now(), quiet()), vec![unit(1), ground_at(0, 0)]),
        (input(released_now(), quiet()), vec![unit(1)]),
        (input(pressed_now(), quiet()), vec![]),
        (input(released_now(), quiet()), vec![]),
        (input(pressed_now(), quiet()), vec![ground_at(1, 1)]),
        (input(held(), pressed_now()), vec![ground_at(2, 2)]),
        (input(held(), released_now()), vec![]),
        (input(released_now(), quiet()), vec![ground_at(3, 3)]),
        (input(quiet(), pressed_now()), vec![ground_at(3, 3)]),
        (input(pressed_now(), held()), vec![ground_at(3, 3)]),
        (input(released_now(), released_now()), vec![ground_at(3, 3)]),
        (input(pressed_now(), pressed_now()), vec![ground_at(4, 4)]),
        (input(held(), released_now()), vec![ground_at(4, 4)]),
        (input(released_now(), quiet()), vec![ground_at(4, 4)]),
        (input(pressed_now(), quiet()), vec![ground_at(5, 5)]),
        (input(pressed_now(), quiet()), vec![ground_at(6, 6)]),
        (input(released_now(), quiet()), vec![ground_at(7, 7)]),
    ];
    let mut live: usize = 0;
    let mut spawned: usize = 0;
    let mut despawned: usize = 0;
    for (input, picks) in script {
        let was_selecting = state.model().cursor.mode == CursorMode::Selecting;
        let out = step(&mut state, &mut selected, input, picks, Some(&report));
        match out.volume {
            VolumeCommand::Spawn(_) => {
                assert!(!was_selecting);
                assert_eq!(live, 0);
                live += 1;
                spawned += 1;
            }
            VolumeCommand::Despawn => {
                assert!(was_selecting);
                assert_eq!(live, 1);
                live -= 1;
                despawned += 1;
            }
            VolumeCommand::Resize(_) | VolumeCommand::Keep => {}
        }
        let model = state.model();
        assert!(volume_tracks_mode(&model));
        assert_eq!(live == 1, model.cursor.mode == CursorMode::Selecting);
        assert_eq!(out.selection_end.is_some(), out.volume == VolumeCommand::Despawn);
    }
    assert_eq!(spawned, 2);
    assert_eq!(despawned, 2);
    assert_eq!(state.model().cursor.mode, CursorMode::Idle);
}

#[test]
fn a_click_on_a_unit_toggles_it_and_starts_no_drag() {
    let mut state = ControlState::new(WINDOW);
    let mut selected = Selected::new();
    let picks = vec![unit(1), unit(2), ground_at(0, 0)];

    let out = step(&mut state, &mut selected, input(pressed_now(), quiet()), picks.clone(), None);
    assert!(out.mode_changes.is_empty());
    assert_eq!(out.volume, VolumeCommand::Keep);
    assert_eq!(out.requests, vec![toggle(id(1))]);
    assert_eq!(out.changes, vec![SelectionChange::EntitySelected(id(1))]);
    assert_eq!(state.model().cursor.mode, CursorMode::Idle);
    assert_eq!(selected.ids(), vec![id(1)]);

    let out = step(&mut state, &mut selected, input(released_now(), quiet()), picks.clone(), None);
    assert!(out.requests.is_empty());
    assert_eq!(selected.ids(), vec![id(1)]);

    let out = step(&mut state, &mut selected, input(pressed_now(), quiet()), picks, None);
    assert_eq!(out.changes, vec![SelectionChange::EntityDeselected(id(1))]);
    assert!(selected.ids().is_empty());
}

#[test]
fn a_click_changes_only_the_nearest_entity() {
    let mut state = ControlState::new(WINDOW);
    let mut selected = Selected::new();
    selected.insert(id(2));
    selected.insert(id(3));
    let picks = vec![unit(1), unit(2), unit(3), ground_at(0, 0)];
    let out = step(&mut state, &mut selected, input(pressed_now(), quiet()), picks, None);
    assert_eq!(out.changes, vec![SelectionChange::EntitySelected(id(1))]);
    assert_eq!(selected.ids(), vec![id(2), id(3), id(1)]);
}

#[test]
fn a_click_with_the_modifier_held_toggles_all_the_same() {
    let mut state = ControlState::new(WINDOW);
    let mut selected = Selected::new();
    selected.insert(id(2));
    let mut with_modifier = input(pressed_now(), quiet());
    with_modifier.multiselect = PointerMultiselect { is_pressed: true };
    let out = step(&mut state, &mut selected, with_modifier, vec![unit(2)], None);
    assert_eq!(out.changes, vec![SelectionChange::EntityDeselected(id(2))]);
    assert!(selected.ids().is_empty());
}

#[test]
fn a_click_into_the_void_does_nothing() {
    let mut state = ControlState::new(WINDOW);
    let mut selected = Selected::new();
    selected.insert(id(2));
    let before = state.model();
    let out = step(&mut state, &mut selected, input(pressed_now(), quiet()), Vec::new(), None);
    assert!(out.mode_changes.is_empty());
    assert_eq!(out.volume, VolumeCommand::Keep);
    assert!(out.changes.is_empty());
    assert_eq!(state.model(), before);
    assert_eq!(selected.ids(), vec![id(2)]);
}

#[test]
fn a_press_and_release_on_the_spot_deselects_like_a_click_on_the_ground() {
    let mut state = ControlState::new(WINDOW);
    let mut selected = Selected::new();
    selected.insert(id(1));
    let report = report_of(&[1, 2]);
    step(&mut state, &mut selected, input(pressed_now(), quiet()), vec![ground_at(0, 0)], None);
    let out = step(&mut state, &mut selected, input(released_now(), quiet()), vec![ground_at(0, 0)], Some(&report));
    assert_eq!(out.volume, VolumeCommand::Despawn);
    assert_eq!(out.changes, vec![SelectionChange::EntityDeselected(id(1))]);
    assert!(selected.ids().is_empty());
}

#[test]
fn the_modifier_makes_a_drag_additive() {
    let mut state = ControlState::new(WINDOW);
    let mut selected = Selected::new();
    selected.insert(id(1));
    let report = report_of(&[2]);
    let mut dragging = input(held(), quiet());
    dragging.multiselect = PointerMultiselect { is_pressed: true };
    step(&mut state, &mut selected, input(pressed_now(), quiet()), vec![ground_at(0, 0)], None);
    step(&mut state, &mut selected, dragging, vec![ground_at(9, 9)], None);
    let out = step(&mut state, &mut selected, dragging, vec![ground_at(9, 9)], Some(&report));
    assert_eq!(out.changes, vec![SelectionChange::EntitySelected(id(2))]);
    assert_eq!(selected.ids(), vec![id(1), id(2)]);
}

#[test]
fn camera_control_comes_and_goes_with_the_secondary_button() {
    let mut state = ControlState::new(WINDOW);
    let mut selected = Selected::new();
    let out = step(&mut state, &mut selected, input(quiet(), pressed_now()), vec![unit(1)], None);
    assert_eq!(out.mode_changes, vec![CursorModeChangeEvent(CursorMode::CameraControl)]);
    assert_eq!(out.glyph, Some(20));
    assert_eq!(state.model().cursor.mode, CursorMode::CameraControl);

    let mut moving = input(pressed_now(), held());
    moving.pointer_delta = PointerDelta { dx: 5, dy: 5 };
    let out = step(&mut state, &mut selected, moving, vec![unit(1)], None);
    assert!(out.mode_changes.is_empty());
    assert!(out.requests.is_empty());
    assert_eq!(state.model().cursor.location, ScreenPoint { x: 400, y: 300 });

    let out = step(&mut state, &mut selected, input(quiet(), released_now()), vec![unit(1)], None);
    assert_eq!(out.mode_changes, vec![CursorModeChangeEvent(CursorMode::Idle)]);
    assert_eq!(out.glyph, Some(0));
    assert_eq!(state.model().cursor.mode, CursorMode::Idle);
}

#[test]
fn both_buttons_on_the_ground_enter_camera_control_without_a_volume() {
    let mut state = ControlState::new(WINDOW);
    let mut selected = Selected::new();
    let out = step(&mut state, &mut selected, input(pressed_now(), pressed_now()), vec![ground_at(1, 1)], None);
    assert_eq!(out.mode_changes, vec![CursorModeChangeEvent(CursorMode::CameraControl)]);
    assert_eq!(out.volume, VolumeCommand::Keep);
    assert_eq!(out.selection_end, None);
    let model = state.model();
    assert_eq!(model.cursor.mode, CursorMode::CameraControl);
    assert_eq!(model.volume, None);
    assert_eq!(model.selection, CursorSelection { start: None, end: None });
}

#[test]
fn the_cursor_moves_with_the_pointer_during_a_frame() {
    let mut state = ControlState::new(WINDOW);
    let mut selected = Selected::new();
    let mut moving = input(quiet(), quiet());
    moving.pointer_delta = PointerDelta { dx: -7, dy: 40 };
    step(&mut state, &mut selected, moving, Vec::new(), None);
    assert_eq!(state.model().cursor.location, ScreenPoint { x: 330, y: 600 });
}

#[test]
fn locking_ends_a_drag_and_input_is_ignored_until_unlocked() {
    let mut state = ControlState::new(WINDOW);
    let mut selected = Selected::new();
    selected.insert(id(1));
    step(&mut state, &mut selected, input(pressed_now(), quiet()), vec![ground_at(0, 0)], None);
    assert_eq!(state.model().cursor.mode, CursorMode::Selecting);

    let out = state.force_mode(CursorMode::Locked);
    assert_eq!(out.mode_changes, vec![CursorModeChangeEvent(CursorMode::Locked)]);
    assert_eq!(out.glyph, Some(4));
    assert_eq!(out.volume, VolumeCommand::Despawn);
    assert_eq!(out.selection_end, Some(SelectionEndEvent));
    assert!(out.requests.is_empty());
    assert!(out.changes.is_empty());
    let locked = state.model();
    assert_eq!(locked.cursor.mode, CursorMode::Locked);
    assert_eq!(locked.volume, None);

    let report = report_of(&[2]);
    let mut busy = input(pressed_now(), pressed_now());
    busy.pointer_delta = PointerDelta { dx: 3, dy: 3 };
    let out = step(&mut state, &mut selected, busy, vec![unit(2), ground_at(1, 1)], Some(&report));
    assert!(out.mode_changes.is_empty());
    assert_eq!(out.volume, VolumeCommand::Keep);
    assert!(out.requests.is_empty());
    assert_eq!(state.model(), locked);
    assert_eq!(selected.ids(), vec![id(1)]);

    let out = state.force_mode(CursorMode::Idle);
    assert_eq!(out.mode_changes, vec![CursorModeChangeEvent(CursorMode::Idle)]);
    assert_eq!(out.glyph, Some(0));
    assert_eq!(out.volume, VolumeCommand::Keep);
    assert_eq!(state.model().cursor.mode, CursorMode::Idle);
}

#[test]
fn the_glyph_can_be_hidden_and_shown() {
    let mut state = ControlState::new(WINDOW);
    let shown = state.model();
    state.set_visible(false);
    let mut hidden = shown;
    hidden.cursor.visible = false;
    assert_eq!(state.model(), hidden);
    state.set_visible(true);
    assert_eq!(state.model(), shown);
}

#[test]
fn selecting_cannot_be_entered_by_hand() {
    let mut state = ControlState::new(WINDOW);
    let before = state.model();
    let out = state.force_mode(CursorMode::Selecting);
    assert!(out.mode_changes.is_empty());
    assert_eq!(out.glyph, None);
    assert_eq!(out.volume, VolumeCommand::Keep);
    assert_eq!(state.model(), before);
}
