use vstd::prelude::*;

verus! {

/// Rectangle of screen pixels sampled for one frame.
#[derive(Clone, Copy, Debug, PartialEq, Eq)]
pub struct CaptureRegion {
    pub x: i32,
    pub y: i32,
    pub width: i32,
    pub height: i32,
}

/// Extent of the captured area along one axis: the output extent divided by
/// the zoom level, never more than the screen's extent.
pub open spec fn capture_extent(output: int, zoom: int, screen: int) -> int {
    let e = output / zoom;
    if e < screen {
        e
    } else {
        screen
    }
}

/// Start of the captured area along one axis: centred on the pointer, then
/// clamped into `[0, screen - extent]`.
pub open spec fn capture_origin(pointer: int, extent: int, screen: int) -> int {
    let start = pointer - extent / 2;
    if start < 0 {
        0
    } else if start > screen - extent {
        screen - extent
    } else {
        start
    }
}

fn origin_on_axis(pointer: i32, extent: i32, screen: i32) -> (r: i32)
    requires
        0 <= extent <= screen,
    ensures
        r == capture_origin(pointer as int, extent as int, screen as int),
{
    let start = pointer as i64 - (extent / 2) as i64;
    let hi = screen - extent;
    if start < 0 {
        0
    } else if start > hi as i64 {
        hi
    } else {
        start as i32
    }
}

/// The region to capture around the pointer for an output window of
/// `output_width` x `output_height` at the given zoom level. The region always
/// lies inside the screen.
pub fn capture_region(
    pointer_x: i32,
    pointer_y: i32,
    screen_width: i32,
    screen_height: i32,
    output_width: i32,
    output_height: i32,
    zoom: i8,
) -> (r: CaptureRegion)
    requires
        1 <= zoom,
        0 <= screen_width,
        0 <= screen_height,
        0 <= output_width,
        0 <= output_height,
    ensures
        r.width == capture_extent(output_width as int, zoom as int, screen_width as int),
        r.height == capture_extent(output_height as int, zoom as int, screen_height as int),
        r.x == capture_origin(pointer_x as int, r.width as int, screen_width as int),
        r.y == capture_origin(pointer_y as int, r.height as int, screen_height as int),
        0 <= r.width <= screen_width,
        0 <= r.height <= screen_height,
        0 <= r.x <= screen_width - r.width,
        0 <= r.y <= screen_height - r.height,
{
    let zoom = zoom as i32;
    let w = output_width / zoom;
    let width = if w < screen_width {
        w
    } else {
        screen_width
    };
    let h = output_height / zoom;
    let height = if h < screen_height {
        h
    } else {
        screen_height
    };
    CaptureRegion {
        x: origin_on_axis(pointer_x, width, screen_width),
        y: origin_on_axis(pointer_y, height, screen_height),
        width,
        height,
    }
}

} // verus!
