use vstd::prelude::*;

use crate::geometry::{Point2, Vector2};

verus! {

/// A rectangle on the display, as the EPD controller of the i.MX SoC takes it.
#[derive(Clone, Copy, Debug, PartialEq, Eq, Structural)]
pub struct mxcfb_rect {
    pub top: u32,
    pub left: u32,
    pub width: u32,
    pub height: u32,
}

impl Default for mxcfb_rect {
    /// The all-zero rectangle.
    fn default() -> (r: mxcfb_rect)
        ensures
            r == (mxcfb_rect { top: 0, left: 0, width: 0, height: 0 }),
    {
        mxcfb_rect { top: 0, left: 0, width: 0, height: 0 }
    }
}

impl mxcfb_rect {
    /// The row just below the rectangle.
    pub open spec fn bottom(self) -> int {
        self.top + self.height
    }

    /// The column just right of the rectangle.
    pub open spec fn right(self) -> int {
        self.left + self.width
    }

    /// A rectangle that covers no pixel.
    pub open spec fn is_empty(self) -> bool {
        self.height == 0 || self.width == 0
    }

    /// Bottom and right edges fit in `u32`.
    pub open spec fn edges_fit(self) -> bool {
        self.bottom() <= u32::MAX && self.right() <= u32::MAX
    }

    pub open spec fn spec_invalid() -> mxcfb_rect {
        mxcfb_rect { top: 9999, left: 9999, height: 0, width: 0 }
    }

    /// Whether `p` lies inside the rectangle, edges included.
    pub open spec fn spec_contains_point(self, p: Point2<u32>) -> bool {
        self.left <= p.x <= self.right() && self.top <= p.y <= self.bottom()
    }

    /// The smallest rectangle covering both non-empty rectangles.
    pub open spec fn bounding_box(self, rect: mxcfb_rect) -> mxcfb_rect {
        let top = if self.top <= rect.top { self.top } else { rect.top };
        let left = if self.left <= rect.left { self.left } else { rect.left };
        let bottom = if self.bottom() >= rect.bottom() { self.bottom() } else { rect.bottom() };
        let right = if self.right() >= rect.right() { self.right() } else { rect.right() };
        mxcfb_rect {
            top,
            left,
            width: (right - left) as u32,
            height: (bottom - top) as u32,
        }
    }

    /// What `merge_rect` gives: an empty rectangle counts for nothing.
    pub open spec fn spec_merge_rect(self, rect: mxcfb_rect) -> mxcfb_rect {
        if self.is_empty() && rect.is_empty() {
            mxcfb_rect::spec_invalid()
        } else if self.is_empty() {
            rect
        } else if rect.is_empty() {
            self
        } else {
            self.bounding_box(rect)
        }
    }

    /// The smallest rectangle covering the rectangle and the point `p`.
    pub open spec fn spec_merge_pixel(self, p: Point2<u32>) -> mxcfb_rect {
        let top = if self.top <= p.y { self.top } else { p.y };
        let left = if self.left <= p.x { self.left } else { p.x };
        let bottom = if self.bottom() >= p.y { self.bottom() } else { p.y as int };
        let right = if self.right() >= p.x { self.right() } else { p.x as int };
        mxcfb_rect {
            top,
            left,
            width: (right - left) as u32,
            height: (bottom - top) as u32,
        }
    }

    /// The rectangle grown by `margin` on every side, clamped at the origin.
    pub open spec fn spec_expand(self, margin: u32) -> mxcfb_rect {
        mxcfb_rect {
            left: if self.left >= margin { (self.left - margin) as u32 } else { 0 },
            top: if self.top >= margin { (self.top - margin) as u32 } else { 0 },
            width: (self.width + 2 * margin) as u32,
            height: (self.height + 2 * margin) as u32,
        }
    }

    /// The top left corner of the rectangle.
    pub fn top_left(&self) -> (p: Point2<u32>)
        ensures
            p == (Point2 { x: self.left, y: self.top }),
    {
        Point2 { x: self.left, y: self.top }
    }

    /// The width and height of the rectangle.
    pub fn size(&self) -> (v: Vector2<u32>)
        ensures
            v == (Vector2 { x: self.width, y: self.height }),
    {
        Vector2 { x: self.width, y: self.height }
    }

    /// The rectangle with top left corner `pos` and the given `size`.
    pub fn from(pos: Point2<u32>, size: Vector2<u32>) -> (r: mxcfb_rect)
        ensures
            r == (mxcfb_rect { top: pos.y, left: pos.x, height: size.y, width: size.x }),
    {
        mxcfb_rect { top: pos.y, left: pos.x, height: size.y, width: size.x }
    }

    /// An empty rectangle placed far off, the neutral start of a merge.
    pub fn invalid() -> (r: mxcfb_rect)
        ensures
            r == mxcfb_rect::spec_invalid(),
            r.is_empty(),
    {
        mxcfb_rect { top: 9999, left: 9999, height: 0, width: 0 }
    }

    /// Whether `p` lies inside the rectangle, its far edges included.
    pub fn contains_point(&self, p: &Point2<u32>) -> (b: bool)
        requires
            self.edges_fit(),
        ensures
            b == self.spec_contains_point(*p),
    {
        !(p.x < self.left || p.x > (self.left + self.width) || p.y < self.top || p.y > (self.top
            + self.height))
    }

    /// Whether both the top left and the bottom right corner of `rect` lie inside.
    pub fn contains_rect(&self, rect: &mxcfb_rect) -> (b: bool)
        requires
            self.edges_fit(),
            rect.edges_fit(),
        ensures
            b == (self.spec_contains_point(Point2 { x: rect.left, y: rect.top })
                && self.spec_contains_point(
                Point2 { x: (rect.left + rect.width) as u32, y: (rect.top + rect.height) as u32 },
            )),
    {
        self.contains_point(&Point2 { x: rect.left, y: rect.top }) && self.contains_point(
            &Point2 { x: rect.left + rect.width, y: rect.top + rect.height },
        )
    }

    /// The smallest rectangle covering the rectangle and the point `p`.
    pub fn merge_pixel(&self, p: &Point2<u32>) -> (r: mxcfb_rect)
        requires
            self.edges_fit(),
        ensures
            r == self.spec_merge_pixel(*p),
    {
        let top = if self.top <= p.y { self.top } else { p.y };
        let left = if self.left <= p.x { self.left } else { p.x };
        let bottom = if self.top + self.height >= p.y { self.top + self.height } else { p.y };
        let right = if self.left + self.width >= p.x { self.left + self.width } else { p.x };
        mxcfb_rect { left, top, width: right - left, height: bottom - top }
    }

    /// Merges two rectangles into the smallest one covering both.
    /// An empty rectangle (no height or no width) does not take part;
    /// if both are empty the result is `invalid()`.
    pub fn merge_rect(&self, rect: &mxcfb_rect) -> (r: mxcfb_rect)
        requires
            !self.is_empty() && !rect.is_empty() ==> self.edges_fit() && rect.edges_fit(),
        ensures
            r == self.spec_merge_rect(*rect),
    {
        let self_is_empty = self.height == 0 || self.width == 0;
        let rect_is_empty = rect.height == 0 || rect.width == 0;
        if self_is_empty && rect_is_empty {
            mxcfb_rect::invalid()
        } else if self_is_empty {
            *rect
        } else if rect_is_empty {
            *self
        } else {
            let top = if self.top <= rect.top { self.top } else { rect.top };
            let left = if self.left <= rect.left { self.left } else { rect.left };
            let self_bottom = self.top + self.height;
            let rect_bottom = rect.top + rect.height;
            let bottom = if self_bottom >= rect_bottom { self_bottom } else { rect_bottom };
            let self_right = self.left + self.width;
            let rect_right = rect.left + rect.width;
            let right = if self_right >= rect_right { self_right } else { rect_right };
            mxcfb_rect { left, top, width: right - left, height: bottom - top }
        }
    }

    /// Grows the rectangle by `margin` on every side; the top left corner
    /// stops at the origin.
    pub fn expand(&self, margin: u32) -> (r: mxcfb_rect)
        requires
            self.width + 2 * margin <= u32::MAX,
            self.height + 2 * margin <= u32::MAX,
        ensures
            r == self.spec_expand(margin),
    {
        mxcfb_rect {
            left: self.left.saturating_sub(margin),
            top: self.top.saturating_sub(margin),
            width: self.width + (2 * margin),
            height: self.height + (2 * margin),
        }
    }
}

/// Merging is commutative.
pub proof fn lemma_merge_rect_commutative(a: mxcfb_rect, b: mxcfb_rect)
    ensures
        a.spec_merge_rect(b) == b.spec_merge_rect(a),
{
}

/// Merging is associative.
pub proof fn lemma_merge_rect_associative(a: mxcfb_rect, b: mxcfb_rect, c: mxcfb_rect)
    requires
        a.edges_fit(),
        b.edges_fit(),
        c.edges_fit(),
    ensures
        a.spec_merge_rect(b).spec_merge_rect(c) == a.spec_merge_rect(b.spec_merge_rect(c)),
{
}

/// A non-empty rectangle merged with itself stays unchanged.
pub proof fn lemma_merge_rect_idempotent(a: mxcfb_rect)
    requires
        !a.is_empty(),
    ensures
        a.spec_merge_rect(a) == a,
{
}

/// An empty rectangle, such as `invalid()`, is neutral for merging.
pub proof fn lemma_merge_rect_empty_neutral(a: mxcfb_rect, e: mxcfb_rect)
    requires
        !a.is_empty(),
        e.is_empty(),
    ensures
        a.spec_merge_rect(e) == a,
        e.spec_merge_rect(a) == a,
{
}

/// The merge of two non-empty rectangles covers both of them: every point
/// of either lies in the merge, and the merge is non-empty with fitting edges.
pub proof fn lemma_merge_rect_covers(a: mxcfb_rect, b: mxcfb_rect, p: Point2<u32>)
    requires
        !a.is_empty(),
        !b.is_empty(),
        a.edges_fit(),
        b.edges_fit(),
    ensures
        !a.spec_merge_rect(b).is_empty(),
        a.spec_merge_rect(b).edges_fit(),
        a.spec_contains_point(p) ==> a.spec_merge_rect(b).spec_contains_point(p),
        b.spec_contains_point(p) ==> a.spec_merge_rect(b).spec_contains_point(p),
{
}

/// Merging a pixel yields a rectangle that contains it and all of the old one.
pub proof fn lemma_merge_pixel_covers(a: mxcfb_rect, p: Point2<u32>, q: Point2<u32>)
    requires
        a.edges_fit(),
    ensures
        a.spec_merge_pixel(p).spec_contains_point(p),
        a.spec_contains_point(q) ==> a.spec_merge_pixel(p).spec_contains_point(q),
{
}

/// Expanding by a margin keeps every point of the rectangle inside.
pub proof fn lemma_expand_covers(a: mxcfb_rect, margin: u32, p: Point2<u32>)
    requires
        a.width + 2 * margin <= u32::MAX,
        a.height + 2 * margin <= u32::MAX,
        a.spec_expand(margin).edges_fit(),
    ensures
        a.spec_contains_point(p) ==> a.spec_expand(margin).spec_contains_point(p),
{
}

} // verus!

verus! {

/// The marker of a refresh, and the collision result the driver fills in.
#[derive(Clone, Copy, Debug, PartialEq, Eq, Structural)]
pub struct mxcfb_update_marker_data {
    pub update_marker: u32,
    pub collision_test: u32,
}

impl Default for mxcfb_update_marker_data {
    fn default() -> (r: mxcfb_update_marker_data)
        ensures
            r == (mxcfb_update_marker_data { update_marker: 0, collision_test: 0 }),
    {
        mxcfb_update_marker_data { update_marker: 0, collision_test: 0 }
    }
}

/// An alternative buffer to refresh from (double buffering).
#[derive(Clone, Copy, Debug, PartialEq, Eq, Structural)]
pub struct mxcfb_alt_buffer_data {
    pub phys_addr: u32,
    pub width: u32,
    pub height: u32,
    pub alt_update_region: mxcfb_rect,
}

impl mxcfb_alt_buffer_data {
    pub open spec fn spec_zero() -> mxcfb_alt_buffer_data {
        mxcfb_alt_buffer_data {
            phys_addr: 0,
            width: 0,
            height: 0,
            alt_update_region: mxcfb_rect { top: 0, left: 0, width: 0, height: 0 },
        }
    }
}

impl Default for mxcfb_alt_buffer_data {
    fn default() -> (r: mxcfb_alt_buffer_data)
        ensures
            r == mxcfb_alt_buffer_data::spec_zero(),
    {
        mxcfb_alt_buffer_data {
            phys_addr: 0,
            width: 0,
            height: 0,
            alt_update_region: mxcfb_rect { top: 0, left: 0, width: 0, height: 0 },
        }
    }
}

/// A refresh request as the MXCFB_SEND_UPDATE ioctl takes it.
#[derive(Clone, Copy, Debug, PartialEq, Eq, Structural)]
pub struct mxcfb_update_data {
    pub update_region: mxcfb_rect,
    pub waveform_mode: u32,
    pub update_mode: u32,
    pub update_marker: u32,
    pub temp: i32,
    pub flags: u32,
    pub dither_mode: i32,
    pub quant_bit: i32,
    pub alt_buffer_data: mxcfb_alt_buffer_data,
}

impl mxcfb_update_data {
    pub open spec fn spec_zero() -> mxcfb_update_data {
        mxcfb_update_data {
            update_region: mxcfb_rect { top: 0, left: 0, width: 0, height: 0 },
            waveform_mode: 0,
            update_mode: 0,
            update_marker: 0,
            temp: 0,
            flags: 0,
            dither_mode: 0,
            quant_bit: 0,
            alt_buffer_data: mxcfb_alt_buffer_data::spec_zero(),
        }
    }
}

impl Default for mxcfb_update_data {
    fn default() -> (r: mxcfb_update_data)
        ensures
            r == mxcfb_update_data::spec_zero(),
    {
        mxcfb_update_data {
            update_region: mxcfb_rect { top: 0, left: 0, width: 0, height: 0 },
            waveform_mode: 0,
            update_mode: 0,
            update_marker: 0,
            temp: 0,
            flags: 0,
            dither_mode: 0,
            quant_bit: 0,
            alt_buffer_data: mxcfb_alt_buffer_data::default(),
        }
    }
}

} // verus!
