use vstd::prelude::*;

use crate::framebuffer::mxcfb::mxcfb_rect;

verus! {

/// Whether drawing an element refreshes the display, and whether it waits
/// for the refresh to complete.
#[derive(Clone, Copy, Debug, PartialEq, Eq, Structural)]
pub enum UIConstraintRefresh {
    NoRefresh,
    Refresh,
    RefreshAndWait,
}

impl Default for UIConstraintRefresh {
    /// Refresh without waiting.
    fn default() -> (r: UIConstraintRefresh)
        ensures
            r == UIConstraintRefresh::Refresh,
    {
        UIConstraintRefresh::Refresh
    }
}

/// Whether an element drawn under `refresh` has its area refreshed (without
/// waiting), and whether the drawing then waits for that refresh to complete.
pub fn refresh_steps(refresh: UIConstraintRefresh) -> (r: (bool, bool))
    ensures
        r == (refresh != UIConstraintRefresh::NoRefresh, refresh == UIConstraintRefresh::RefreshAndWait),
{
    match refresh {
        UIConstraintRefresh::NoRefresh => (false, false),
        UIConstraintRefresh::Refresh => (true, false),
        UIConstraintRefresh::RefreshAndWait => (true, true),
    }
}

/// The area of a text drawn over `drawn`: with a border it grows by the padding.
pub open spec fn bordered_area(drawn: mxcfb_rect, border_px: u32, border_padding: u32) -> mxcfb_rect {
    if border_px > 0 {
        drawn.spec_expand(border_padding)
    } else {
        drawn
    }
}

/// The growths of `text_area` stay within `u32`.
pub open spec fn text_area_fits(
    drawn: mxcfb_rect,
    border_px: u32,
    border_padding: u32,
    refresh: UIConstraintRefresh,
) -> bool {
    &&& border_px > 0 ==> drawn.width + 2 * border_padding <= u32::MAX && drawn.height + 2
        * border_padding <= u32::MAX
    &&& refresh != UIConstraintRefresh::NoRefresh ==> bordered_area(drawn, border_px, border_padding).width
        + 2 * border_px <= u32::MAX && bordered_area(drawn, border_px, border_padding).height + 2
        * border_px <= u32::MAX
}

/// What displaying a text whose glyphs covered `drawn` comes to: the
/// rectangle its border follows (when `border_px > 0`), the area to refresh
/// (unless `refresh` asks for none) and the area the text is then said to
/// occupy: the refreshed area grown by the border, or, without a refresh,
/// the bordered area as it is.
pub fn text_area(drawn: &mxcfb_rect, border_px: u32, border_padding: u32, refresh: UIConstraintRefresh) -> (r: (
    Option<mxcfb_rect>,
    Option<mxcfb_rect>,
    mxcfb_rect,
))
    requires
        text_area_fits(*drawn, border_px, border_padding, refresh),
    ensures
        r.0 == (if border_px > 0 {
            Some(bordered_area(*drawn, border_px, border_padding))
        } else {
            None
        }),
        r.1 == (if refresh == UIConstraintRefresh::NoRefresh {
            None
        } else {
            Some(bordered_area(*drawn, border_px, border_padding))
        }),
        r.2 == (if refresh == UIConstraintRefresh::NoRefresh {
            bordered_area(*drawn, border_px, border_padding)
        } else {
            bordered_area(*drawn, border_px, border_padding).spec_expand(border_px)
        }),
{
    let mut draw_area = *drawn;
    let mut border = None;
    // Draw the border if border_px is set to a non-default value
    if border_px > 0 {
        draw_area = draw_area.expand(border_padding);
        border = Some(draw_area);
    }
    match refresh {
        UIConstraintRefresh::NoRefresh => (border, None, draw_area),
        _ => (border, Some(draw_area), draw_area.expand(border_px)),
    }
}

/// Before an element at (`y`, `x`) is drawn again: the region it last
/// occupied, which is cleared to white, and whether that region is refreshed
/// (waiting for it) before the new drawing, which is done only when the
/// element moved on both axes.
pub fn redraw_clear(last_drawn_rect: &Option<mxcfb_rect>, y: usize, x: usize) -> (r: Option<(mxcfb_rect, bool)>)
    ensures
        r == match *last_drawn_rect {
            Some(rect) => Some((rect, rect.top != (y as u32) && rect.left != (x as u32))),
            None => None::<(mxcfb_rect, bool)>,
        },
{
    match last_drawn_rect {
        Some(rect) => {
            let y32 = #[verifier::truncate] (y as u32);
            let x32 = #[verifier::truncate] (x as u32);
            Some((*rect, rect.top != y32 && rect.left != x32))
        },
        None => None,
    }
}

/// After an element was drawn over `rect`, where it had filled `old_filled`
/// (the invalid rectangle when it was not drawn before): when it has a
/// handler and the area changed, the point whose active region is removed
/// (the old area's corner, if there was an old area), and whether a region
/// over `rect` is created when none is found at the element's position.
pub fn redraw_regions(old_filled: &mxcfb_rect, rect: &mxcfb_rect, has_handler: bool) -> (r: (
    Option<(u16, u16)>,
    bool,
))
    ensures
        r == (if *old_filled != *rect && has_handler {
            (
                if *old_filled != mxcfb_rect::spec_invalid() {
                    Some((old_filled.top as u16, old_filled.left as u16))
                } else {
                    None
                },
                true,
            )
        } else {
            (None, false)
        }),
{
    // If no changes, no need to change the active region
    if *old_filled != *rect && has_handler {
        let remove = if *old_filled != mxcfb_rect::invalid() {
            Some((#[verifier::truncate] (old_filled.top as u16), #[verifier::truncate] (old_filled.left as u16)))
        } else {
            None
        };
        (remove, true)
    } else {
        (None, false)
    }
}

/// After an element was drawn over `rect`: the area it occupied before, to
/// be refreshed (without waiting) when it differs.
pub fn redraw_stale_area(last_drawn_rect: &Option<mxcfb_rect>, rect: &mxcfb_rect) -> (r: Option<mxcfb_rect>)
    ensures
        r == match *last_drawn_rect {
            Some(last) => if last != *rect {
                Some(last)
            } else {
                None
            },
            None => None::<mxcfb_rect>,
        },
{
    match last_drawn_rect {
        Some(last) => if *last != *rect {
            Some(*last)
        } else {
            None
        },
        None => None,
    }
}

} // verus!
