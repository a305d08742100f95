use std::sync::atomic::{AtomicI8, Ordering};
use vstd::prelude::*;

verus! {

/// Upper bound of the shared zoom level.
pub const MAX_ZOOM_FACTOR: i8 = 20;

/// Zoom level that the shared cell holds at startup.
pub const DEFAULT_ZOOM: i8 = 2;

/// Button code that the windowing system reports for a wheel step up.
pub const SCROLL_UP: u32 = 4;

/// Button code that the windowing system reports for a wheel step down.
pub const SCROLL_DOWN: u32 = 5;

/// The zoom level after one button event: a wheel step moves the level by one
/// and saturates at `[1, max_zoom]`; any other button leaves it as it is.
pub open spec fn zoom_after(level: int, button: u32, max_zoom: int) -> int {
    if button == SCROLL_UP {
        clamp(level + 1, 1, max_zoom)
    } else if button == SCROLL_DOWN {
        clamp(level - 1, 1, max_zoom)
    } else {
        level
    }
}

pub open spec fn clamp(v: int, lo: int, hi: int) -> int {
    if v < lo {
        lo
    } else if v > hi {
        hi
    } else {
        v
    }
}

/// Applies one button event to a zoom level.
pub fn apply_zoom_button(level: i8, button: u32, max_zoom: i8) -> (r: i8)
    requires
        1 <= max_zoom,
    ensures
        r == zoom_after(level as int, button, max_zoom as int),
{
    let wide = level as i16;
    let next: i16 = if button == SCROLL_UP {
        wide + 1
    } else if button == SCROLL_DOWN {
        wide - 1
    } else {
        return level;
    };
    if next < 1 {
        1
    } else if next > max_zoom as i16 {
        max_zoom
    } else {
        next as i8
    }
}

/// The zoom level after a run of button events, taken in order.
pub open spec fn zoom_after_all(level: int, buttons: Seq<u32>, max_zoom: int) -> int
    decreases buttons.len(),
{
    if buttons.len() == 0 {
        level
    } else {
        zoom_after_all(zoom_after(level, buttons[0], max_zoom), buttons.drop_first(), max_zoom)
    }
}

/// Applies a run of button events, in order, to a zoom level.
pub fn apply_zoom_buttons(level: i8, buttons: &Vec<u32>, max_zoom: i8) -> (r: i8)
    requires
        1 <= max_zoom,
    ensures
        r == zoom_after_all(level as int, buttons@, max_zoom as int),
{
    let mut current = level;
    let mut i: usize = 0;
    assert(buttons@.subrange(0, buttons@.len() as int) =~= buttons@);
    while i < buttons.len()
        invariant
            1 <= max_zoom,
            i <= buttons@.len(),
            zoom_after_all(level as int, buttons@, max_zoom as int) == zoom_after_all(
                current as int,
                buttons@.subrange(i as int, buttons@.len() as int),
                max_zoom as int,
            ),
        decreases buttons.len() - i,
    {
        let ghost rest = buttons@.subrange(i as int, buttons@.len() as int);
        assert(rest.drop_first() =~= buttons@.subrange(i + 1, buttons@.len() as int));
        current = apply_zoom_button(current, buttons[i], max_zoom);
        i = i + 1;
    }
    assert(buttons@.subrange(i as int, buttons@.len() as int) =~= Seq::<u32>::empty());
    current
}

/// Zoom stays in bounds: from any level in `[1, max_zoom]`, every run of button
/// events, of any length and in any order, leaves the level in `[1, max_zoom]`.
pub proof fn lemma_zoom_stays_in_bounds(level: int, buttons: Seq<u32>, max_zoom: int)
    requires
        1 <= level <= max_zoom,
    ensures
        1 <= zoom_after_all(level, buttons, max_zoom) <= max_zoom,
    decreases buttons.len(),
{
    if buttons.len() > 0 {
        lemma_zoom_stays_in_bounds(
            zoom_after(level, buttons[0], max_zoom),
            buttons.drop_first(),
            max_zoom,
        );
    }
}

/// One update of the shared zoom level: the value read and the value written.
#[derive(Clone, Copy, Debug, PartialEq, Eq)]
pub struct ZoomChange {
    pub previous: i8,
    pub current: i8,
}

/// Handles one button event on the shared zoom level.
///
/// A wheel step reads the cell, computes the clamped next level and stores it;
/// this function is the cell's only writer, so the store publishes a fully
/// computed value and readers never see an intermediate one. Other buttons
/// leave the cell untouched and give `None`.
pub fn handle_zoom_mouse_events(button: u32, zoom_factor: &AtomicI8) -> (r: Option<ZoomChange>)
    ensures
        (button == SCROLL_UP || button == SCROLL_DOWN) <==> r is Some,
        r matches Some(c) ==> c.current == zoom_after(
            c.previous as int,
            button,
            MAX_ZOOM_FACTOR as int,
        ),
        r matches Some(c) ==> 1 <= c.current <= MAX_ZOOM_FACTOR,
{
    if button != SCROLL_UP && button != SCROLL_DOWN {
        return None;
    }
    let previous = zoom_factor.load(Ordering::SeqCst);
    let current = apply_zoom_button(previous, button, MAX_ZOOM_FACTOR);
    zoom_factor.store(current, Ordering::SeqCst);
    Some(ZoomChange { previous, current })
}

} // verus!
