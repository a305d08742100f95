use std::sync::atomic::{AtomicI8, Ordering};
use xzoom::capture::{capture_region, CaptureRegion};
use xzoom::events::{route_event, InputEvent, RouteAction};
use xzoom::frame::{plan_frame, ZOOM_WINDOW_HEIGHT, ZOOM_WINDOW_WIDTH};
use xzoom::placement::{window_origin, WindowOrigin};
use xzoom::scale::scale_image;
use xzoom::zoom::{
    apply_zoom_button, apply_zoom_buttons, handle_zoom_mouse_events, ZoomChange, DEFAULT_ZOOM,
    MAX_ZOOM_FACTOR, SCROLL_DOWN, SCROLL_UP,
};

const ESCAPE: u64 = 0xff1b;

#[test]
fn thirty_scrolls_up_saturate_at_bound() {
    let ups = vec![SCROLL_UP; 30];
    assert_eq!(apply_zoom_buttons(2, &ups, 10), 10);
}

#[test]
fn scrolls_down_saturate_at_one() {
    let downs = vec![SCROLL_DOWN; 7];
    assert_eq!(apply_zoom_buttons(DEFAULT_ZOOM, &downs, 10), 1);
    assert_eq!(apply_zoom_button(1, SCROLL_DOWN, 10), 1);
}

#[test]
fn mixed_scrolls_follow_each_step() {
    let buttons = vec![SCROLL_UP, SCROLL_UP, 1, SCROLL_DOWN, 3, SCROLL_UP];
    assert_eq!(apply_zoom_buttons(2, &buttons, 10), 4);
    assert_eq!(apply_zoom_buttons(2, &Vec::new(), 10), 2);
}

#[test]
fn single_zoom_steps() {
    assert_eq!(apply_zoom_button(2, SCROLL_UP, 10), 3);
    assert_eq!(apply_zoom_button(2, SCROLL_DOWN, 10), 1);
    assert_eq!(apply_zoom_button(10, SCROLL_UP, 10), 10);
    assert_eq!(apply_zoom_button(7, 1, 10), 7);
    assert_eq!(apply_zoom_button(i8::MAX, SCROLL_UP, 10), 10);
}

#[test]
fn zoom_handler_updates_shared_cell() {
    let cell = AtomicI8::new(DEFAULT_ZOOM);
    let change = handle_zoom_mouse_events(SCROLL_UP, &cell);
    assert_eq!(change, Some(ZoomChange { previous: 2, current: 3 }));
    assert_eq!(cell.load(Ordering::SeqCst), 3);
    let change = handle_zoom_mouse_events(SCROLL_DOWN, &cell);
    assert_eq!(change, Some(ZoomChange { previous: 3, current: 2 }));
    assert_eq!(cell.load(Ordering::SeqCst), 2);
}

#[test]
fn zoom_handler_ignores_other_buttons() {
    let cell = AtomicI8::new(DEFAULT_ZOOM);
    assert_eq!(handle_zoom_mouse_events(1, &cell), None);
    assert_eq!(handle_zoom_mouse_events(3, &cell), None);
    assert_eq!(cell.load(Ordering::SeqCst), 2);
}

#[test]
fn zoom_handler_stays_in_bounds() {
    let cell = AtomicI8::new(DEFAULT_ZOOM);
    for _ in 0..30 {
        handle_zoom_mouse_events(SCROLL_UP, &cell);
    }
    assert_eq!(cell.load(Ordering::SeqCst), MAX_ZOOM_FACTOR);
    for _ in 0..30 {
        handle_zoom_mouse_events(SCROLL_DOWN, &cell);
    }
    assert_eq!(cell.load(Ordering::SeqCst), 1);
}

#[test]
fn capture_region_at_top_left_corner() {
    let r = capture_region(0, 0, 1920, 1080, 200, 150, 2);
    assert_eq!(r, CaptureRegion { x: 0, y: 0, width: 100, height: 75 });
}

#[test]
fn capture_region_at_bottom_right_corner() {
    let r = capture_region(1919, 1079, 1920, 1080, 200, 150, 2);
    assert_eq!(r, CaptureRegion { x: 1820, y: 1005, width: 100, height: 75 });
}

#[test]
fn capture_region_centred_on_pointer() {
    let r = capture_region(960, 540, 1920, 1080, 200, 150, 2);
    assert_eq!(r, CaptureRegion { x: 910, y: 503, width: 100, height: 75 });
    let r = capture_region(960, 540, 1920, 1080, 200, 150, 20);
    assert_eq!(r, CaptureRegion { x: 955, y: 537, width: 10, height: 7 });
}

#[test]
fn capture_region_never_exceeds_small_screen() {
    let r = capture_region(30, 30, 50, 40, 200, 150, 1);
    assert_eq!(r, CaptureRegion { x: 0, y: 0, width: 50, height: 40 });
}

#[test]
fn capture_region_contained_for_many_pointers() {
    for zoom in 1..=20i8 {
        for &(px, py) in &[(-500, -500), (0, 0), (5, 1070), (1915, 3), (4000, 4000)] {
            let r = capture_region(px, py, 1920, 1080, 200, 150, zoom);
            assert!(0 <= r.x && r.x <= 1920 - r.width);
            assert!(0 <= r.y && r.y <= 1080 - r.height);
        }
    }
}

fn checkerboard(w: usize, h: usize) -> Vec<u64> {
    let mut v = Vec::new();
    for y in 0..h {
        for x in 0..w {
            v.push(if (x + y) % 2 == 0 { 0xffffff } else { 0 });
        }
    }
    v
}

#[test]
fn scale_doubles_checkerboard() {
    let src = checkerboard(2, 2);
    let out = scale_image(&src, 2, 2, 4, 4);
    let w = 0xffffffu64;
    assert_eq!(out, vec![w, w, 0, 0, w, w, 0, 0, 0, 0, w, w, 0, 0, w, w]);
}

#[test]
fn scale_matches_nearest_neighbour_formula() {
    let (sw, sh, dw, dh) = (3usize, 2usize, 7usize, 5usize);
    let src: Vec<u64> = (0..(sw * sh) as u64).collect();
    let out = scale_image(&src, sw, sh, dw, dh);
    assert_eq!(out.len(), dw * dh);
    for dy in 0..dh {
        for dx in 0..dw {
            let sx = (dx * sw / dw).min(sw - 1);
            let sy = (dy * sh / dh).min(sh - 1);
            assert_eq!(out[dy * dw + dx], src[sy * sw + sx]);
        }
    }
    assert_eq!(out[6], 2);
    assert_eq!(out[34], 5);
}

#[test]
fn scale_checkerboard_to_window_size() {
    let src = checkerboard(10, 7);
    let out = scale_image(&src, 10, 7, 200, 150);
    for dy in 0..150usize {
        for dx in 0..200usize {
            let sx = (dx * 10 / 200).min(9);
            let sy = (dy * 7 / 150).min(6);
            assert_eq!(out[dy * 200 + dx], src[sy * 10 + sx]);
        }
    }
}

#[test]
fn scale_of_single_pixel_fills_output() {
    let out = scale_image(&vec![42], 1, 1, 3, 2);
    assert_eq!(out, vec![42; 6]);
    assert!(scale_image(&vec![42], 1, 1, 0, 5).is_empty());
}

#[test]
fn static_input_gives_identical_frames() {
    let screen = checkerboard(40, 30);
    let first = plan_frame(17, 11, 5, 40, 30);
    let second = plan_frame(17, 11, 5, 40, 30);
    assert_eq!(first, second);
    let c = first.capture;
    let mut captured = Vec::new();
    for y in c.y..c.y + c.height {
        for x in c.x..c.x + c.width {
            captured.push(screen[(y * 40 + x) as usize]);
        }
    }
    let (w, h) = (c.width as usize, c.height as usize);
    let a = scale_image(&captured, w, h, ZOOM_WINDOW_WIDTH as usize, ZOOM_WINDOW_HEIGHT as usize);
    let b = scale_image(&captured, w, h, ZOOM_WINDOW_WIDTH as usize, ZOOM_WINDOW_HEIGHT as usize);
    assert_eq!(a, b);
}

#[test]
fn placement_at_top_left_uses_top_edge_rule() {
    let o = window_origin(0, 0, 1920, 200, 150, 20);
    assert_eq!(o.y, 0);
    assert_eq!(o, WindowOrigin { x: 0, y: 0 });
}

#[test]
fn placement_near_right_edge() {
    let o = window_origin(1900, 500, 1920, 200, 150, 20);
    assert_eq!(o, WindowOrigin { x: 1700, y: 330 });
}

#[test]
fn placement_in_the_middle() {
    let o = window_origin(960, 540, 1920, 200, 150, 20);
    assert_eq!(o, WindowOrigin { x: 960, y: 370 });
    let o = window_origin(960, 100, 1920, 200, 150, 20);
    assert_eq!(o.y, 100);
}

#[test]
fn placement_beyond_the_right_edge_rule() {
    let o = window_origin(5000, 500, 1920, 200, 150, 20);
    assert_eq!(o.x, 4800);
}

#[test]
fn frame_plan_combines_region_and_placement() {
    let p = plan_frame(0, 0, 2, 1920, 1080);
    assert_eq!(p.capture, CaptureRegion { x: 0, y: 0, width: 100, height: 75 });
    assert_eq!(p.window, WindowOrigin { x: 0, y: 0 });
    let p = plan_frame(1000, 600, 4, 1920, 1080);
    assert_eq!(p.capture, CaptureRegion { x: 975, y: 582, width: 50, height: 37 });
    assert_eq!(p.window, WindowOrigin { x: 1000, y: 430 });
}

#[test]
fn exit_key_stops() {
    assert_eq!(route_event(InputEvent::KeyPress { keysym: ESCAPE }, ESCAPE), RouteAction::Exit);
}

#[test]
fn other_key_is_ignored() {
    assert_eq!(route_event(InputEvent::KeyPress { keysym: 0x61 }, ESCAPE), RouteAction::Ignore);
    assert_eq!(route_event(InputEvent::Other, ESCAPE), RouteAction::Ignore);
}

#[test]
fn button_press_is_forwarded() {
    assert_eq!(
        route_event(InputEvent::ButtonPress { button: SCROLL_UP }, ESCAPE),
        RouteAction::Forward { button: 4 }
    );
    assert_eq!(
        route_event(InputEvent::ButtonPress { button: 1 }, ESCAPE),
        RouteAction::Forward { button: 1 }
    );
}
