use libremarkable::framebuffer::mxcfb::mxcfb_rect;
use libremarkable::geometry::{Point2, Vector2};

fn rect(top: u32, left: u32, width: u32, height: u32) -> mxcfb_rect {
    mxcfb_rect { top, left, width, height }
}

#[test]
fn invalid_is_empty_and_far_off() {
    let r = mxcfb_rect::invalid();
    assert_eq!(r, rect(9999, 9999, 0, 0));
}

#[test]
fn default_is_zero() {
    assert_eq!(mxcfb_rect::default(), rect(0, 0, 0, 0));
}

#[test]
fn merge_rect_bounding_box() {
    let a = rect(10, 20, 30, 40);
    let b = rect(5, 100, 10, 10);
    // top 5, left 20, bottom max(50, 15) = 50, right max(50, 110) = 110
    assert_eq!(a.merge_rect(&b), rect(5, 20, 90, 45));
    assert_eq!(b.merge_rect(&a), rect(5, 20, 90, 45));
}

#[test]
fn merge_rect_ignores_empty() {
    let a = rect(10, 20, 30, 40);
    assert_eq!(a.merge_rect(&mxcfb_rect::invalid()), a);
    assert_eq!(mxcfb_rect::invalid().merge_rect(&a), a);
    assert_eq!(rect(1, 2, 0, 5).merge_rect(&rect(3, 4, 5, 0)), mxcfb_rect::invalid());
    assert_eq!(a.merge_rect(&a), a);
}

#[test]
fn merge_rect_is_associative_on_example() {
    let a = rect(10, 20, 30, 40);
    let b = rect(5, 100, 10, 10);
    let c = rect(200, 0, 1, 1);
    assert_eq!(a.merge_rect(&b).merge_rect(&c), a.merge_rect(&b.merge_rect(&c)));
}

#[test]
fn expand_clamps_at_origin() {
    let a = rect(3, 10, 20, 30);
    assert_eq!(a.expand(5), rect(0, 5, 30, 40));
    assert_eq!(a.expand(0), a);
}

#[test]
fn contains_point_includes_far_edges() {
    let a = rect(10, 20, 30, 40);
    assert!(a.contains_point(&Point2 { x: 20, y: 10 }));
    assert!(a.contains_point(&Point2 { x: 50, y: 50 }));
    assert!(!a.contains_point(&Point2 { x: 51, y: 50 }));
    assert!(!a.contains_point(&Point2 { x: 19, y: 30 }));
    assert!(a.contains_rect(&rect(15, 25, 10, 10)));
    assert!(!a.contains_rect(&rect(15, 25, 100, 10)));
}

#[test]
fn merge_pixel_grows_to_point() {
    let a = rect(10, 20, 30, 40);
    assert_eq!(a.merge_pixel(&Point2 { x: 5, y: 60 }), rect(10, 5, 45, 50));
    assert_eq!(a.merge_pixel(&Point2 { x: 25, y: 15 }), a);
}

#[test]
fn corners_and_size() {
    let a = rect(10, 20, 30, 40);
    assert_eq!(a.top_left(), Point2 { x: 20, y: 10 });
    assert_eq!(a.size(), Vector2 { x: 30, y: 40 });
    assert_eq!(mxcfb_rect::from(Point2 { x: 20, y: 10 }, Vector2 { x: 30, y: 40 }), a);
}
