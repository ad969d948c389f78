//! The cursor state machine.
//!
//! The cursor is a screen position, a visibility flag and an interaction
//! mode. Each frame it consumes one snapshot of the pointer and what the
//! pointer ray hit, moves, and asks for at most one change of mode. The
//! requests are applied by [`handle_cursor_mode_event`], so that the mode
//! changes in one place and only between two reads.

use crate::controls::selection::SelectionStartEvent;
use crate::picking::{PointerTarget, WorldPoint};
use vstd::prelude::*;

verus! {

/// How far the cursor travels per unit of pointer movement.
pub const MOUSE_SENSITIVITY: i32 = 10;

/// Cells of the cursor glyph sheet.
#[derive(Clone, Copy)]
pub struct CursorTextureIndex;

impl CursorTextureIndex {
    pub const POINTER: usize = 0;
    pub const POINTER_QUESTION: usize = 1;
    pub const POINTER_EXCLAMATION: usize = 2;
    pub const POINTER_CIRCLE: usize = 3;
    pub const POINTER_X: usize = 4;
    pub const POINTER_CLOCK: usize = 5;
    pub const POINTER_BLOCK: usize = 6;
    pub const POINTER_FACE: usize = 7;
    pub const RESIZE_TL_BR: usize = 8;
    pub const RESIZE_TR_BL: usize = 9;
    pub const RESIZE_TB: usize = 10;
    pub const RESIZE_RL: usize = 11;
    pub const RESIZE_CROSS: usize = 12;
    pub const INSERT: usize = 13;
    pub const CROSSHAIR_1: usize = 16;
    pub const CROSSHAIR_2: usize = 17;
    pub const CROSSHAIR_3: usize = 18;
    pub const CROSSHAIR_4: usize = 19;
    pub const CROSSHAIR_5: usize = 20;
    pub const CROSSHAIR_6: usize = 24;
    pub const CROSSHAIR_7: usize = 25;
    pub const CROSSHAIR_8: usize = 26;
    pub const CROSSHAIR_9: usize = 27;
    pub const CROSSHAIR_10: usize = 28;
}

/// The interaction mode of the cursor. Exactly one is active at a time.
#[derive(Clone, Copy, Debug, PartialEq, Eq, Structural)]
pub enum CursorMode {
    /// The pointer steers the camera; the cursor stays where it is.
    CameraControl,
    /// Nothing is in progress.
    Idle,
    /// A drag rectangle is being drawn.
    Selecting,
    /// Input is ignored until the mode is changed by hand.
    Locked,
}

impl Default for CursorMode {
    fn default() -> (mode: Self)
        ensures
            mode == CursorMode::Idle,
    {
        CursorMode::Idle
    }
}

impl CursorMode {
    /// The glyph shown while the cursor is in this mode.
    pub open spec fn glyph(self) -> usize {
        match self {
            CursorMode::CameraControl => CursorTextureIndex::CROSSHAIR_5,
            CursorMode::Idle => CursorTextureIndex::POINTER,
            CursorMode::Locked => CursorTextureIndex::POINTER_X,
            CursorMode::Selecting => CursorTextureIndex::CROSSHAIR_10,
        }
    }

    /// The name of the mode, as it is shown to the player.
    pub open spec fn label(self) -> Seq<char> {
        match self {
            CursorMode::CameraControl => "CameraControl"@,
            CursorMode::Idle => "Idle"@,
            CursorMode::Selecting => "Selecting"@,
            CursorMode::Locked => "Locked"@,
        }
    }

    /// The name of the mode, as it is shown to the player.
    pub fn name(&self) -> (name: &'static str)
        ensures
            name@ == self.label(),
    {
        match self {
            CursorMode::CameraControl => "CameraControl",
            CursorMode::Idle => "Idle",
            CursorMode::Selecting => "Selecting",
            CursorMode::Locked => "Locked",
        }
    }

    /// The glyph shown while the cursor is in this mode.
    pub fn texture_index(&self) -> (index: usize)
        ensures
            index == self.glyph(),
    {
        match self {
            CursorMode::CameraControl => CursorTextureIndex::CROSSHAIR_5,
            CursorMode::Idle => CursorTextureIndex::POINTER,
            CursorMode::Locked => CursorTextureIndex::POINTER_X,
            CursorMode::Selecting => CursorTextureIndex::CROSSHAIR_10,
        }
    }
}

/// A position on the screen, counted from the top-left corner.
///
/// The unit is a pixel or a fixed fraction of one, as the embedding chooses;
/// positions, window sizes and pointer movement all use the same unit.
#[derive(Clone, Copy, Debug, PartialEq, Eq, Structural)]
pub struct ScreenPoint {
    pub x: u32,
    pub y: u32,
}

/// The size of the window, in screen units.
#[derive(Clone, Copy, Debug, PartialEq, Eq, Structural)]
pub struct WindowSize {
    pub width: u32,
    pub height: u32,
}

/// Pointer movement accumulated over one frame, in screen units.
#[derive(Clone, Copy, Debug, PartialEq, Eq, Structural)]
pub struct PointerDelta {
    pub dx: i32,
    pub dy: i32,
}

/// What one button did this frame.
#[derive(Clone, Copy, Debug, PartialEq, Eq, Structural)]
pub struct ButtonState {
    /// It went down during this frame.
    pub just_pressed: bool,
    /// It came up during this frame.
    pub just_released: bool,
    /// It is down now.
    pub pressed: bool,
}

/// Whether the multi-select modifier is held.
#[derive(Clone, Copy, Debug, PartialEq, Eq, Structural)]
pub struct PointerMultiselect {
    pub is_pressed: bool,
}

/// Everything the controls read from the input devices in one frame.
#[derive(Clone, Copy, Debug, PartialEq, Eq, Structural)]
pub struct InputSnapshot {
    pub pointer_delta: PointerDelta,
    pub primary: ButtonState,
    pub secondary: ButtonState,
    pub multiselect: PointerMultiselect,
    pub window: WindowSize,
    pub window_focused: bool,
}

/// The logical cursor.
#[derive(Clone, Copy, Debug, PartialEq, Eq, Structural)]
pub struct Cursor {
    /// Whether the glyph is drawn.
    pub visible: bool,
    pub location: ScreenPoint,
    pub mode: CursorMode,
}

/// The two ends of the drag in progress.
#[derive(Clone, Copy, Debug, PartialEq, Eq, Structural)]
pub struct CursorSelection {
    /// Where the drag began; set for as long as a drag is in progress.
    pub start: Option<WorldPoint>,
    /// Where the pointer last met the ground during the drag.
    pub end: Option<WorldPoint>,
}

impl Default for CursorSelection {
    fn default() -> (selection: Self)
        ensures
            selection == CursorSelection::idle(),
    {
        CursorSelection { start: None, end: None }
    }
}

impl CursorSelection {
    /// No drag in progress.
    pub open spec fn idle() -> CursorSelection {
        CursorSelection { start: None, end: None }
    }
}

/// The cursor together with its drag.
#[derive(Clone, Copy, Debug, PartialEq, Eq, Structural)]
pub struct CursorBundle {
    pub cursor: Cursor,
    pub selection: CursorSelection,
}

/// A request to put the cursor in the given mode.
#[derive(Clone, Copy, Debug, PartialEq, Eq, Structural)]
pub struct CursorModeChangeEvent(pub CursorMode);

impl CursorModeChangeEvent {
    /// The mode asked for.
    pub fn cursor_mode(&self) -> (mode: CursorMode)
        ensures
            mode == self.0,
    {
        self.0
    }
}

/// What the cursor asks for after reading one frame of input.
#[derive(Clone, Debug, PartialEq, Eq)]
pub struct CursorRequests {
    /// Mode changes, to be applied in order.
    pub mode_changes: Vec<CursorModeChangeEvent>,
    /// Set if a click began this frame.
    pub selection_start: Option<SelectionStartEvent>,
}

/// The cursor placed at the centre of the window, visible and idle.
pub open spec fn initial_cursor(window: WindowSize) -> CursorBundle {
    CursorBundle {
        cursor: Cursor {
            visible: true,
            location: ScreenPoint { x: window.width / 2, y: window.height / 2 },
            mode: CursorMode::Idle,
        },
        selection: CursorSelection::idle(),
    }
}

/// Creates the cursor for a window of the given size.
pub fn setup_cursor(window: WindowSize) -> (bundle: CursorBundle)
    ensures
        bundle == initial_cursor(window),
{
    CursorBundle {
        cursor: Cursor {
            visible: true,
            location: ScreenPoint { x: window.width / 2, y: window.height / 2 },
            mode: CursorMode::Idle,
        },
        selection: CursorSelection { start: None, end: None },
    }
}

/// One coordinate after the pointer moved by `delta`: the old coordinate plus
/// the movement scaled by the sensitivity, held within `0..=limit`.
pub open spec fn moved_axis(position: u32, delta: i32, limit: u32) -> u32 {
    let moved = position + delta * MOUSE_SENSITIVITY;
    if moved < 0 {
        0u32
    } else if moved > limit {
        limit
    } else {
        moved as u32
    }
}

/// Whether pointer movement moves the cursor: always while a drag is in
/// progress, and while idle if the window has focus. In the other modes the
/// movement belongs to the camera or to nobody.
pub open spec fn pointer_moves_cursor(mode: CursorMode, window_focused: bool) -> bool {
    (window_focused && mode == CursorMode::Idle) || mode == CursorMode::Selecting
}

/// Where the cursor is after one frame of input.
pub open spec fn moved_location(cursor: Cursor, input: InputSnapshot) -> ScreenPoint {
    if pointer_moves_cursor(cursor.mode, input.window_focused) {
        ScreenPoint {
            x: moved_axis(cursor.location.x, input.pointer_delta.dx, input.window.width),
            y: moved_axis(cursor.location.y, input.pointer_delta.dy, input.window.height),
        }
    } else {
        cursor.location
    }
}

/// The mode the cursor asks for, if any.
///
/// * Idle: the secondary button going down asks for camera control, whatever
///   is under the cursor. Otherwise the primary button going down asks for a
///   drag, provided the cursor is on the ground.
/// * Selecting: the primary button coming up asks for idle.
/// * Camera control: the secondary button coming up asks for idle.
/// * Locked: nothing is ever asked for.
pub open spec fn requested_mode(
    mode: CursorMode,
    input: InputSnapshot,
    target: PointerTarget,
) -> Option<CursorMode> {
    match mode {
        CursorMode::Idle =>
            if input.secondary.just_pressed {
                Some(CursorMode::CameraControl)
            } else if input.primary.just_pressed && target is Ground {
                Some(CursorMode::Selecting)
            } else {
                None
            },
        CursorMode::Selecting =>
            if input.primary.just_released {
                Some(CursorMode::Idle)
            } else {
                None
            },
        CursorMode::CameraControl =>
            if input.secondary.just_released {
                Some(CursorMode::Idle)
            } else {
                None
            },
        CursorMode::Locked => None,
    }
}

/// The mode change requests of one frame: none or one.
pub open spec fn mode_changes(
    mode: CursorMode,
    input: InputSnapshot,
    target: PointerTarget,
) -> Seq<CursorModeChangeEvent> {
    match requested_mode(mode, input, target) {
        Some(next) => seq![CursorModeChangeEvent(next)],
        None => Seq::empty(),
    }
}

/// Whether a click began: the primary button went down while idle.
pub open spec fn click_started(mode: CursorMode, input: InputSnapshot) -> bool {
    mode == CursorMode::Idle && input.primary.just_pressed
}

/// The mode after a list of requests was applied in order: that of the last
/// request, or the old mode if there was none.
pub open spec fn mode_after(mode: CursorMode, events: Seq<CursorModeChangeEvent>) -> CursorMode {
    if events.len() == 0 {
        mode
    } else {
        events.last().0
    }
}

/// The glyph to switch to after a list of requests: that of the last
/// request, or none if the list is empty.
pub open spec fn glyph_after(events: Seq<CursorModeChangeEvent>) -> Option<usize> {
    if events.len() == 0 {
        None
    } else {
        Some(events.last().0.glyph())
    }
}

fn move_axis(position: u32, delta: i32, limit: u32) -> (moved: u32)
    ensures
        moved == moved_axis(position, delta, limit),
        moved <= limit,
{
    let step: i64 = MOUSE_SENSITIVITY as i64;
    let target: i64 = position as i64 + delta as i64 * step;
    if target < 0 {
        0
    } else if target > limit as i64 {
        limit
    } else {
        target as u32
    }
}

/// Advances the cursor by one frame.
///
/// Moves the cursor by the frame's pointer movement if the mode lets the
/// pointer move it, and returns what the cursor asks for. The mode itself is
/// left as it was: it changes when the requests are applied.
pub fn handle_cursor(cursor: &mut Cursor, input: &InputSnapshot, target: PointerTarget) -> (requests:
    CursorRequests)
    ensures
        final(cursor).mode == old(cursor).mode,
        final(cursor).visible == old(cursor).visible,
        final(cursor).location == moved_location(*old(cursor), *input),
        pointer_moves_cursor(old(cursor).mode, input.window_focused) ==> final(cursor).location.x
            <= input.window.width && final(cursor).location.y <= input.window.height,
        requests.mode_changes@ == mode_changes(old(cursor).mode, *input, target),
        requests.selection_start.is_some() == click_started(old(cursor).mode, *input),
{
    let mode = cursor.mode;
    if (input.window_focused && mode == CursorMode::Idle) || mode == CursorMode::Selecting {
        cursor.location = ScreenPoint {
            x: move_axis(cursor.location.x, input.pointer_delta.dx, input.window.width),
            y: move_axis(cursor.location.y, input.pointer_delta.dy, input.window.height),
        };
    }
    let mut mode_changes: Vec<CursorModeChangeEvent> = Vec::new();
    let mut selection_start: Option<SelectionStartEvent> = None;
    match mode {
        CursorMode::Idle => {
            if input.primary.just_pressed {
                selection_start = Some(SelectionStartEvent);
            }
            if input.secondary.just_pressed {
                mode_changes.push(CursorModeChangeEvent(CursorMode::CameraControl));
            } else if input.primary.just_pressed {
                if let PointerTarget::Ground { .. } = target {
                    mode_changes.push(CursorModeChangeEvent(CursorMode::Selecting));
                }
            }
        },
        CursorMode::Selecting => {
            if input.primary.just_released {
                mode_changes.push(CursorModeChangeEvent(CursorMode::Idle));
            }
        },
        CursorMode::CameraControl => {
            if input.secondary.just_released {
                mode_changes.push(CursorModeChangeEvent(CursorMode::Idle));
            }
        },
        CursorMode::Locked => {},
    }
    CursorRequests { mode_changes, selection_start }
}

/// Applies mode change requests in order.
///
/// The cursor ends in the mode of the last request; without requests it is
/// untouched. Returns the glyph to show from now on, if the mode was set.
pub fn handle_cursor_mode_event(cursor: &mut Cursor, events: &Vec<CursorModeChangeEvent>) -> (glyph:
    Option<usize>)
    ensures
        final(cursor).mode == mode_after(old(cursor).mode, events@),
        final(cursor).location == old(cursor).location,
        final(cursor).visible == old(cursor).visible,
        glyph == glyph_after(events@),
{
    let mut glyph: Option<usize> = None;
    let mut i: usize = 0;
    while i < events.len()
        invariant
            i <= events.len(),
            cursor.mode == mode_after(old(cursor).mode, events@.take(i as int)),
            cursor.location == old(cursor).location,
            cursor.visible == old(cursor).visible,
            glyph == glyph_after(events@.take(i as int)),
        decreases events.len() - i,
    {
        let mode = events[i].cursor_mode();
        glyph = Some(mode.texture_index());
        cursor.mode = mode;
        i += 1;
    }
    glyph
}

/// A button of the mouse.
#[derive(Clone, Copy, Debug, PartialEq, Eq, Structural)]
pub enum MouseButton {
    Left,
    Right,
    Middle,
    Back,
    Forward,
    Other(u16),
}

/// A button of the logical pointer.
#[derive(Clone, Copy, Debug, PartialEq, Eq, Structural)]
pub enum PointerButton {
    Primary,
    Secondary,
    Middle,
}

/// Which way a button went.
#[derive(Clone, Copy, Debug, PartialEq, Eq, Structural)]
pub enum PressDirection {
    Down,
    Up,
}

/// A button of the logical pointer going down or coming up.
#[derive(Clone, Copy, Debug, PartialEq, Eq, Structural)]
pub struct InputPress {
    pub button: PointerButton,
    pub direction: PressDirection,
}

/// The pointer button a mouse button stands for, if any.
pub open spec fn pointer_button(button: MouseButton) -> Option<PointerButton> {
    match button {
        MouseButton::Left => Some(PointerButton::Primary),
        MouseButton::Right => Some(PointerButton::Secondary),
        MouseButton::Middle => Some(PointerButton::Middle),
        _ => None,
    }
}

/// The presses that a list of mouse buttons gives rise to: one per button
/// that the pointer has, in the order of the list.
pub open spec fn presses(buttons: Seq<MouseButton>, direction: PressDirection) -> Seq<InputPress>
    decreases buttons.len(),
{
    if buttons.len() == 0 {
        Seq::empty()
    } else {
        let earlier = presses(buttons.drop_last(), direction);
        match pointer_button(buttons.last()) {
            Some(button) => earlier.push(InputPress { button, direction }),
            None => earlier,
        }
    }
}

fn to_pointer_button(button: MouseButton) -> (mapped: Option<PointerButton>)
    ensures
        mapped == pointer_button(button),
{
    match button {
        MouseButton::Left => Some(PointerButton::Primary),
        MouseButton::Right => Some(PointerButton::Secondary),
        MouseButton::Middle => Some(PointerButton::Middle),
        _ => None,
    }
}

fn push_presses(out: &mut Vec<InputPress>, buttons: &Vec<MouseButton>, direction: PressDirection)
    ensures
        final(out)@ == old(out)@ + presses(buttons@, direction),
{
    let mut i: usize = 0;
    while i < buttons.len()
        invariant
            i <= buttons.len(),
            out@ == old(out)@ + presses(buttons@.take(i as int), direction),
        decreases buttons.len() - i,
    {
        proof {
            let next = buttons@.take(i + 1);
            assert(next.drop_last() =~= buttons@.take(i as int));
        }
        if let Some(button) = to_pointer_button(buttons[i]) {
            out.push(InputPress { button, direction });
        }
        i += 1;
    }
    assert(buttons@.take(i as int) =~= buttons@);
}

/// Turns this frame's mouse button edges into pointer presses: first
/// the buttons that went down, then those that came up. Buttons the pointer
/// does not have are dropped.
pub fn handle_input_press(just_pressed: &Vec<MouseButton>, just_released: &Vec<MouseButton>) -> (out:
    Vec<InputPress>)
    ensures
        out@ == presses(just_pressed@, PressDirection::Down) + presses(
            just_released@,
            PressDirection::Up,
        ),
{
    let mut out: Vec<InputPress> = Vec::new();
    push_presses(&mut out, just_pressed, PressDirection::Down);
    push_presses(&mut out, just_released, PressDirection::Up);
    out
}

} // verus!
