use crate::capture::{capture_extent, capture_origin, capture_region, CaptureRegion};
use crate::placement::{origin_x, origin_y, window_origin, WindowOrigin};
use vstd::prelude::*;

verus! {

/// Width of the magnifier window, in pixels.
pub const ZOOM_WINDOW_WIDTH: i32 = 200;

/// Height of the magnifier window, in pixels.
pub const ZOOM_WINDOW_HEIGHT: i32 = 150;

/// Gap kept between the pointer and the window when it sits up-left of it.
pub const WINDOW_MARGIN: i32 = 20;

/// Pause between two frames, in milliseconds.
pub const FRAME_INTERVAL_MS: u64 = 30;

/// What one frame of the magnifier does: which screen area it captures and
/// where it moves the window.
#[derive(Clone, Copy, Debug, PartialEq, Eq)]
pub struct FramePlan {
    pub capture: CaptureRegion,
    pub window: WindowOrigin,
}

/// Plans one frame for a pointer sample, the current zoom level and the
/// screen size: the capture region for the fixed window size, and the
/// window's new origin.
pub fn plan_frame(
    pointer_x: i32,
    pointer_y: i32,
    zoom: i8,
    screen_width: i32,
    screen_height: i32,
) -> (r: FramePlan)
    requires
        1 <= zoom,
        0 <= screen_width,
        0 <= screen_height,
    ensures
        r.capture.width == capture_extent(
            ZOOM_WINDOW_WIDTH as int,
            zoom as int,
            screen_width as int,
        ),
        r.capture.height == capture_extent(
            ZOOM_WINDOW_HEIGHT as int,
            zoom as int,
            screen_height as int,
        ),
        r.capture.x == capture_origin(
            pointer_x as int,
            r.capture.width as int,
            screen_width as int,
        ),
        r.capture.y == capture_origin(
            pointer_y as int,
            r.capture.height as int,
            screen_height as int,
        ),
        0 <= r.capture.x <= screen_width - r.capture.width,
        0 <= r.capture.y <= screen_height - r.capture.height,
        r.window.x == origin_x(
            pointer_x as int,
            screen_width as int,
            ZOOM_WINDOW_WIDTH as int,
            WINDOW_MARGIN as int,
        ),
        r.window.y == origin_y(pointer_y as int, ZOOM_WINDOW_HEIGHT as int, WINDOW_MARGIN as int),
{
    let capture = capture_region(
        pointer_x,
        pointer_y,
        screen_width,
        screen_height,
        ZOOM_WINDOW_WIDTH,
        ZOOM_WINDOW_HEIGHT,
        zoom,
    );
    let window = window_origin(
        pointer_x,
        pointer_y,
        screen_width,
        ZOOM_WINDOW_WIDTH,
        ZOOM_WINDOW_HEIGHT,
        WINDOW_MARGIN,
    );
    FramePlan { capture, window }
}

} // verus!
