use vstd::prelude::*;

verus! {

/// Top-left corner of the magnifier window on screen.
#[derive(Clone, Copy, Debug, PartialEq, Eq)]
pub struct WindowOrigin {
    pub x: i64,
    pub y: i64,
}

/// Horizontal placement: up-left of the pointer by the window width and the
/// margin, moved to the pointer when `px - ww <= sw`, and to `px - ww` when the
/// window would reach the right edge (`px + ww >= sw`); the last rule wins.
pub open spec fn origin_x(px: int, sw: int, ww: int, margin: int) -> int {
    if px + ww >= sw {
        px - ww
    } else if px - ww <= sw {
        px
    } else {
        px - (ww + margin)
    }
}

/// Vertical placement: above the pointer by the window height and the margin,
/// or at the pointer when that would leave the top edge (`py - wh <= 0`).
pub open spec fn origin_y(py: int, wh: int, margin: int) -> int {
    if py - wh <= 0 {
        py
    } else {
        py - (wh + margin)
    }
}

/// Where to put a `window_width` x `window_height` window for a pointer at
/// `(pointer_x, pointer_y)` on a screen `screen_width` wide. This is a
/// best-effort heuristic: it does not promise that the window stays on screen.
pub fn window_origin(
    pointer_x: i32,
    pointer_y: i32,
    screen_width: i32,
    window_width: i32,
    window_height: i32,
    margin: i32,
) -> (r: WindowOrigin)
    ensures
        r.x == origin_x(pointer_x as int, screen_width as int, window_width as int, margin as int),
        r.y == origin_y(pointer_y as int, window_height as int, margin as int),
{
    let px = pointer_x as i64;
    let py = pointer_y as i64;
    let ww = window_width as i64;
    let wh = window_height as i64;
    let m = margin as i64;
    let sw = screen_width as i64;
    let mut x = px - (ww + m);
    let mut y = py - (wh + m);
    if py - wh <= 0 {
        y = py;
    }
    if px - ww <= sw {
        x = px;
    }
    if px + ww >= sw {
        x = px - ww;
    }
    WindowOrigin { x, y }
}

} // verus!
