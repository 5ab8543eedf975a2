use libremarkable::appctx::active_region_probe;
use libremarkable::framebuffer::mxcfb::mxcfb_rect;
use libremarkable::geometry::Point2;
use libremarkable::input::{Finger, MultitouchEvent};
use libremarkable::ui_extensions::element::{
    redraw_clear, redraw_regions, redraw_stale_area, refresh_steps, text_area, UIConstraintRefresh,
};

fn rect(top: u32, left: u32, width: u32, height: u32) -> mxcfb_rect {
    mxcfb_rect { top, left, width, height }
}

#[test]
fn refresh_constraints() {
    assert_eq!(refresh_steps(UIConstraintRefresh::NoRefresh), (false, false));
    assert_eq!(refresh_steps(UIConstraintRefresh::Refresh), (true, false));
    assert_eq!(refresh_steps(UIConstraintRefresh::RefreshAndWait), (true, true));
}

#[test]
fn text_areas() {
    let drawn = rect(100, 200, 50, 20);
    // no border, no refresh: the glyphs' area as it is
    assert_eq!(text_area(&drawn, 0, 8, UIConstraintRefresh::NoRefresh), (None, None, drawn));
    // a border: padded by 8, then grown by the border when refreshed
    let padded = rect(92, 192, 66, 36);
    assert_eq!(
        text_area(&drawn, 2, 8, UIConstraintRefresh::Refresh),
        (Some(padded), Some(padded), rect(90, 190, 70, 40))
    );
    assert_eq!(text_area(&drawn, 2, 8, UIConstraintRefresh::NoRefresh), (Some(padded), None, padded));
    // the corner stops at the origin
    assert_eq!(text_area(&rect(3, 1, 4, 4), 1, 8, UIConstraintRefresh::NoRefresh).2, rect(0, 0, 20, 20));
}

#[test]
fn redrawing_an_element() {
    // never drawn: nothing to clear, nothing stale
    assert_eq!(redraw_clear(&None, 10, 20), None);
    assert_eq!(redraw_stale_area(&None, &rect(10, 20, 5, 5)), None);
    // moved on both axes: the old area is refreshed before drawing
    let old = rect(10, 20, 5, 5);
    assert_eq!(redraw_clear(&Some(old), 11, 21), Some((old, true)));
    // moved on one axis only: cleared but not refreshed first
    assert_eq!(redraw_clear(&Some(old), 10, 21), Some((old, false)));
    // the old area is refreshed afterwards when the new one differs
    assert_eq!(redraw_stale_area(&Some(old), &rect(11, 21, 5, 5)), Some(old));
    assert_eq!(redraw_stale_area(&Some(old), &old), None);
}

#[test]
fn active_regions_follow_the_element() {
    let old = rect(10, 20, 5, 5);
    let new = rect(30, 40, 5, 5);
    assert_eq!(redraw_regions(&old, &new, true), (Some((10, 20)), true));
    assert_eq!(redraw_regions(&mxcfb_rect::invalid(), &new, true), (None, true));
    assert_eq!(redraw_regions(&old, &old, true), (None, false));
    assert_eq!(redraw_regions(&old, &new, false), (None, false));
}

fn finger(id: i32, x: u16, y: u16) -> Finger {
    Finger { tracking_id: id, pos: Point2 { x, y }, pos_updated: true, last_pressed: true, pressed: true }
}

#[test]
fn touches_probe_active_regions_once_per_gesture() {
    let press = MultitouchEvent::Press { finger: finger(4, 100, 200) };
    assert_eq!(active_region_probe(-1, &press), (Some(Point2 { x: 100, y: 200 }), 4));
    let moved = MultitouchEvent::Move { finger: finger(4, 110, 200) };
    assert_eq!(active_region_probe(4, &moved), (None, 4));
    let other = MultitouchEvent::Move { finger: finger(5, 1, 2) };
    assert_eq!(active_region_probe(4, &other), (Some(Point2 { x: 1, y: 2 }), 5));
    let release = MultitouchEvent::Release { finger: finger(6, 1, 2) };
    assert_eq!(active_region_probe(4, &release), (None, 4));
    assert_eq!(active_region_probe(4, &MultitouchEvent::Unknown), (None, 4));
}
