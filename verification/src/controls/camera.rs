//! How the cursor mode decides what moves the camera.
//!
//! Only the decisions are made here: which way the camera pans and turns,
//! and whether it follows the pointer. Turning them into a transform is left
//! to the renderer's own arithmetic.

use crate::ui::cursor::{CursorMode, ScreenPoint, WindowSize};
use vstd::prelude::*;

verus! {

/// How many zoom units make one step of zoom.
pub const ZOOM_UNITS: i32 = 1000;

/// The closest the camera zooms in, in zoom units.
pub const MIN_ZOOM: i32 = 1000;

/// The farthest the camera zooms out, in zoom units.
pub const MAX_ZOOM: i32 = 10000;

/// The offset of the camera from the point it looks after, before it is
/// turned with the camera: so far up and so far back, in thousandths of a
/// world unit.
#[derive(Clone, Copy, Debug, PartialEq, Eq, Structural)]
pub struct CameraOffset {
    pub up: i32,
    pub back: i32,
}

/// How far up the camera would sit at no zoom at all, in world units.
pub const CAMERA_MIN_OFFSET_UP: i32 = 5;

/// How far back the camera would sit at no zoom at all, in world units.
pub const CAMERA_MIN_OFFSET_BACK: i32 = 5;

/// How far up the camera sits at full zoom, in world units.
pub const CAMERA_MAX_OFFSET_UP: i32 = 75;

/// How far back the camera sits at full zoom, in world units.
pub const CAMERA_MAX_OFFSET_BACK: i32 = 100;

/// A zoom level held within the zoom range.
pub open spec fn clamped_zoom(zoom: int) -> int {
    if zoom < MIN_ZOOM {
        MIN_ZOOM as int
    } else if zoom > MAX_ZOOM {
        MAX_ZOOM as int
    } else {
        zoom
    }
}

/// The zoom after the wheel turned, once per entry of `scroll`: each turn
/// is added, and the sum held within the zoom range, before the next.
pub open spec fn zoom_after(zoom: int, scroll: Seq<i32>) -> int
    decreases scroll.len(),
{
    if scroll.len() == 0 {
        zoom
    } else {
        clamped_zoom(zoom_after(zoom, scroll.drop_last()) + scroll.last())
    }
}

/// One coordinate of the offset at the given zoom, in thousandths of a
/// world unit: as far from `near` towards `far` as the zoom is from none
/// towards full zoom.
pub open spec fn interpolated(near: int, far: int, zoom: int) -> int {
    near * 1000 + (far - near) * 1000 * zoom / (MAX_ZOOM as int)
}

/// Turns the wheel: applies one frame of scrolling to the zoom.
///
/// The result lies within the zoom range as soon as the wheel turned at
/// all; without scrolling the zoom is left as it is.
pub fn handle_camera_zoom(zoom: i32, scroll: &Vec<i32>) -> (zoomed: i32)
    ensures
        zoomed == zoom_after(zoom as int, scroll@),
        scroll.len() > 0 ==> MIN_ZOOM <= zoomed <= MAX_ZOOM,
{
    let mut zoomed = zoom;
    let mut i: usize = 0;
    while i < scroll.len()
        invariant
            i <= scroll.len(),
            zoomed == zoom_after(zoom as int, scroll@.take(i as int)),
            i > 0 ==> MIN_ZOOM <= zoomed <= MAX_ZOOM,
        decreases scroll.len() - i,
    {
        proof {
            let next = scroll@.take(i + 1);
            assert(next.drop_last() =~= scroll@.take(i as int));
        }
        let moved: i64 = zoomed as i64 + scroll[i] as i64;
        zoomed = if moved < MIN_ZOOM as i64 {
            MIN_ZOOM
        } else if moved > MAX_ZOOM as i64 {
            MAX_ZOOM
        } else {
            moved as i32
        };
        i += 1;
    }
    assert(scroll@.take(i as int) =~= scroll@);
    zoomed
}

/// The offset of the camera at the given zoom, with the zoom held within
/// the zoom range.
pub fn camera_offset(zoom: i32) -> (offset: CameraOffset)
    ensures
        offset.up == interpolated(
            CAMERA_MIN_OFFSET_UP as int,
            CAMERA_MAX_OFFSET_UP as int,
            clamped_zoom(zoom as int),
        ),
        offset.back == interpolated(
            CAMERA_MIN_OFFSET_BACK as int,
            CAMERA_MAX_OFFSET_BACK as int,
            clamped_zoom(zoom as int),
        ),
{
    let held: i32 = if zoom < MIN_ZOOM {
        MIN_ZOOM
    } else if zoom > MAX_ZOOM {
        MAX_ZOOM
    } else {
        zoom
    };
    let rise: i32 = CAMERA_MAX_OFFSET_UP - CAMERA_MIN_OFFSET_UP;
    let reach: i32 = CAMERA_MAX_OFFSET_BACK - CAMERA_MIN_OFFSET_BACK;
    assert(rise * 1000 == 70000 && reach * 1000 == 95000);
    CameraOffset {
        up: CAMERA_MIN_OFFSET_UP * 1000 + rise * 1000 * held / MAX_ZOOM,
        back: CAMERA_MIN_OFFSET_BACK * 1000 + reach * 1000 * held / MAX_ZOOM,
    }
}

/// The camera keys that are held down.
#[derive(Clone, Copy, Debug, PartialEq, Eq, Structural)]
pub struct CameraKeys {
    pub forward: bool,
    pub backward: bool,
    pub left: bool,
    pub right: bool,
    pub turn_r: bool,
    pub turn_l: bool,
}

/// A direction on the ground plane relative to the camera, one step per
/// axis at most: `x` to the right, `z` towards the viewer.
#[derive(Clone, Copy, Debug, PartialEq, Eq, Structural)]
pub struct PanDirection {
    pub x: i8,
    pub z: i8,
}

/// What the camera is asked to do this frame.
#[derive(Clone, Copy, Debug, PartialEq, Eq, Structural)]
pub struct CameraMotion {
    /// Whether pointer movement drags the camera along.
    pub follows_pointer: bool,
    /// The turn about the vertical axis: -1, 0 or 1 steps.
    pub turn: i8,
    /// The direction to pan in.
    pub pan: PanDirection,
}

/// One step along an axis: back if only `negative` pulls, forth if only
/// `positive` pulls, none if neither or both do.
pub open spec fn axis(negative: bool, positive: bool) -> i8 {
    if negative == positive {
        0i8
    } else if positive {
        1i8
    } else {
        -1i8
    }
}

/// The motion asked of the camera.
///
/// * Idle or selecting: the camera pans towards each screen edge that the
///   cursor touches.
/// * Camera control: the camera follows the pointer, and the keys pan and
///   turn it.
/// * Locked: the camera is left alone.
pub open spec fn camera_motion(
    mode: CursorMode,
    location: ScreenPoint,
    window: WindowSize,
    keys: CameraKeys,
) -> Option<CameraMotion> {
    match mode {
        CursorMode::Idle | CursorMode::Selecting => Some(
            CameraMotion {
                follows_pointer: false,
                turn: 0,
                pan: PanDirection {
                    x: axis(location.x == 0, location.x == window.width),
                    z: axis(location.y == 0, location.y == window.height),
                },
            },
        ),
        CursorMode::CameraControl => Some(
            CameraMotion {
                follows_pointer: true,
                turn: axis(keys.turn_l, keys.turn_r),
                pan: PanDirection {
                    x: axis(keys.left, keys.right),
                    z: axis(keys.forward, keys.backward),
                },
            },
        ),
        CursorMode::Locked => None,
    }
}

fn step_along(negative: bool, positive: bool) -> (step: i8)
    ensures
        step == axis(negative, positive),
{
    if negative == positive {
        0
    } else if positive {
        1
    } else {
        -1
    }
}

/// Decides how the camera moves this frame.
pub fn handle_camera_move(
    mode: CursorMode,
    location: ScreenPoint,
    window: WindowSize,
    keys: &CameraKeys,
) -> (motion: Option<CameraMotion>)
    ensures
        motion == camera_motion(mode, location, window, *keys),
{
    match mode {
        CursorMode::Idle | CursorMode::Selecting => Some(
            CameraMotion {
                follows_pointer: false,
                turn: 0,
                pan: PanDirection {
                    x: step_along(location.x == 0, location.x == window.width),
                    z: step_along(location.y == 0, location.y == window.height),
                },
            },
        ),
        CursorMode::CameraControl => Some(
            CameraMotion {
                follows_pointer: true,
                turn: step_along(keys.turn_l, keys.turn_r),
                pan: PanDirection {
                    x: step_along(keys.left, keys.right),
                    z: step_along(keys.forward, keys.backward),
                },
            },
        ),
        CursorMode::Locked => None,
    }
}

} // verus!
