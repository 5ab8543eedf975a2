use vstd::prelude::*;

use super::io::{covers_screen, pixel_index, spec_bytes_per_pixel, write_pixel};
use super::mxcfb::mxcfb_rect;
use super::screeninfo::{FixScreeninfo, VarScreeninfo};
use crate::geometry::{Point2, Vector2};

verus! {

// Drawing on the bytes of a frame. Colours are given as the two bytes a pixel
// holds; points are (x, y) with y the row, and points off screen (negative
// ones included) are left alone.

/// Row `y`, column `x` lies on screen.
pub open spec fn on_screen(var: VarScreeninfo, y: int, x: int) -> bool {
    0 <= y < var.yres && 0 <= x < var.xres
}

/// Each pixel on screen has its two colour bytes to itself: a pixel takes
/// at least two bytes and a row takes at most a line.
pub open spec fn pixels_apart(var: VarScreeninfo, fix: FixScreeninfo) -> bool {
    spec_bytes_per_pixel(var) >= 2 && fix.line_length >= var.xres * spec_bytes_per_pixel(var)
}

/// The frame after writing colour `c` to the pixel at row `y`, column `x`.
pub open spec fn spec_write(frame: Seq<u8>, var: VarScreeninfo, fix: FixScreeninfo, y: int, x: int, c: [u8; 2]) -> Seq<u8> {
    if on_screen(var, y, x) {
        frame.update(pixel_index(var, fix, y, x), c[0]).update(pixel_index(var, fix, y, x) + 1, c[1])
    } else {
        frame
    }
}

/// Byte `i` is a colour byte of a pixel on screen that `shape` holds.
pub open spec fn touched(var: VarScreeninfo, fix: FixScreeninfo, shape: spec_fn(int, int) -> bool, i: int) -> bool {
    exists|y: int, x: int|
        on_screen(var, y, x) && #[trigger] shape(y, x) && (i == pixel_index(var, fix, y, x) || i
            == pixel_index(var, fix, y, x) + 1)
}

/// `new` is `old` with every pixel on screen that `shape` holds (row, column)
/// painted in `c`: those pixels hold `c` (where each has its bytes to itself),
/// and no other byte changed.
pub open spec fn painted(
    old: Seq<u8>,
    new: Seq<u8>,
    var: VarScreeninfo,
    fix: FixScreeninfo,
    shape: spec_fn(int, int) -> bool,
    c: [u8; 2],
) -> bool {
    &&& new.len() == old.len()
    &&& pixels_apart(var, fix) ==> forall|y: int, x: int|
        on_screen(var, y, x) && #[trigger] shape(y, x) ==> new[pixel_index(var, fix, y, x)] == c[0]
            && new[pixel_index(var, fix, y, x) + 1] == c[1]
    &&& forall|i: int| 0 <= i < old.len() && !touched(var, fix, shape, i) ==> new[i] == old[i]
}

/// Two different pixels on screen have their colour bytes apart.
proof fn lemma_pixels_disjoint(var: VarScreeninfo, fix: FixScreeninfo, y1: int, x1: int, y2: int, x2: int)
    requires
        pixels_apart(var, fix),
        on_screen(var, y1, x1),
        on_screen(var, y2, x2),
        y1 != y2 || x1 != x2,
    ensures
        pixel_index(var, fix, y1, x1) + 1 < pixel_index(var, fix, y2, x2) || pixel_index(var, fix, y2, x2)
            + 1 < pixel_index(var, fix, y1, x1),
{
    let b = spec_bytes_per_pixel(var);
    let ll = fix.line_length as int;
    let w = var.xres as int;
    let i1 = pixel_index(var, fix, y1, x1);
    let i2 = pixel_index(var, fix, y2, x2);
    if y1 == y2 {
        assert(i1 - i2 >= 2 || i2 - i1 >= 2) by (nonlinear_arith)
            requires
                y1 == y2,
                x1 != x2,
                b >= 2,
                i1 == y1 * ll + x1 * b,
                i2 == y2 * ll + x2 * b,
        {
            assert(i1 - i2 == (x1 - x2) * b);
            if x1 < x2 {
                assert((x2 - x1) * b >= b);
                assert(i2 - i1 == (x2 - x1) * b);
            } else {
                assert((x1 - x2) * b >= b);
            }
        }
    } else if y1 < y2 {
        lemma_rows_apart(ll, b, w, y1, x1, y2, x2);
    } else {
        lemma_rows_apart(ll, b, w, y2, x2, y1, x1);
    }
}

/// A pixel on a later row starts at least two bytes after one on an earlier row.
proof fn lemma_rows_apart(ll: int, b: int, w: int, ya: int, xa: int, yb: int, xb: int)
    by (nonlinear_arith)
    requires
        ya < yb,
        0 <= xa < w,
        0 <= xb < w,
        b >= 2,
        ll >= w * b,
    ensures
        (yb * ll + xb * b) - (ya * ll + xa * b) >= 2,
{
    assert((yb - ya) * ll >= ll);
    assert((xb - xa) * b >= (0 - (w - 1)) * b);
    assert((yb * ll + xb * b) - (ya * ll + xa * b) == (yb - ya) * ll + (xb - xa) * b);
}

/// Reading a pixel gives back the colour last written to it (the bytes that
/// `read_pixel` answers after `write_pixel`); writing a pixel leaves what
/// every other pixel reads unchanged, where each pixel has its bytes to itself.
pub proof fn lemma_read_after_write(
    frame: Seq<u8>,
    var: VarScreeninfo,
    fix: FixScreeninfo,
    y: int,
    x: int,
    c: [u8; 2],
    y2: int,
    x2: int,
)
    requires
        covers_screen(var, fix, frame.len() as int),
        on_screen(var, y, x),
        on_screen(var, y2, x2),
    ensures
        ({
            let written = frame.update(pixel_index(var, fix, y, x), c[0]).update(
                pixel_index(var, fix, y, x) + 1,
                c[1],
            );
            &&& (y2 == y && x2 == x) ==> seq![
                written[pixel_index(var, fix, y2, x2)],
                written[pixel_index(var, fix, y2, x2) + 1],
            ] == c@
            &&& (pixels_apart(var, fix) && (y2 != y || x2 != x)) ==> seq![
                written[pixel_index(var, fix, y2, x2)],
                written[pixel_index(var, fix, y2, x2) + 1],
            ] == seq![frame[pixel_index(var, fix, y2, x2)], frame[pixel_index(var, fix, y2, x2) + 1]]
        }),
{
    let i = pixel_index(var, fix, y, x);
    let j = pixel_index(var, fix, y2, x2);
    let written = frame.update(i, c[0]).update(i + 1, c[1]);
    assert(i >= 0 && j >= 0) by (nonlinear_arith)
        requires
            0 <= y,
            0 <= x,
            0 <= y2,
            0 <= x2,
            fix.line_length >= 0,
            spec_bytes_per_pixel(var) >= 0,
            i == y * fix.line_length + x * spec_bytes_per_pixel(var),
            j == y2 * fix.line_length + x2 * spec_bytes_per_pixel(var),
    ;
    assert(i + 1 < frame.len() && j + 1 < frame.len());
    if y2 == y && x2 == x {
        assert(seq![written[j], written[j + 1]] =~= c@);
    }
    if pixels_apart(var, fix) && (y2 != y || x2 != x) {
        lemma_pixels_disjoint(var, fix, y, x, y2, x2);
        assert(seq![written[j], written[j + 1]] =~= seq![frame[j], frame[j + 1]]);
    }
}

/// Painting one more pixel on a painted frame paints the shape grown by it.
proof fn lemma_paint_one(
    old: Seq<u8>,
    mid: Seq<u8>,
    var: VarScreeninfo,
    fix: FixScreeninfo,
    shape: spec_fn(int, int) -> bool,
    c: [u8; 2],
    y: int,
    x: int,
)
    requires
        painted(old, mid, var, fix, shape, c),
        covers_screen(var, fix, mid.len() as int),
    ensures
        painted(old, spec_write(mid, var, fix, y, x, c), var, fix, |py: int, px: int| shape(py, px) || (py == y && px == x), c),
{
    let grown = |py: int, px: int| shape(py, px) || (py == y && px == x);
    let new = spec_write(mid, var, fix, y, x, c);
    if on_screen(var, y, x) {
        assert(pixel_index(var, fix, y, x) + 1 < mid.len());
        assert(pixel_index(var, fix, y, x) >= 0) by (nonlinear_arith)
            requires
                0 <= y,
                0 <= x,
                fix.line_length >= 0,
                spec_bytes_per_pixel(var) >= 0,
                pixel_index(var, fix, y, x) == y * fix.line_length + x * spec_bytes_per_pixel(var),
        ;
    }
    if pixels_apart(var, fix) {
        assert forall|py: int, px: int| on_screen(var, py, px) && #[trigger] grown(py, px) implies new[pixel_index(var, fix, py, px)]
            == c[0] && new[pixel_index(var, fix, py, px) + 1] == c[1] by {
            if py != y || px != x {
                assert(shape(py, px));
                if on_screen(var, y, x) {
                    lemma_pixels_disjoint(var, fix, py, px, y, x);
                }
            }
        }
    }
    assert forall|i: int| 0 <= i < old.len() && !touched(var, fix, grown, i) implies new[i] == old[i] by {
        if touched(var, fix, shape, i) {
            let (wy, wx) = choose|wy: int, wx: int|
                on_screen(var, wy, wx) && #[trigger] shape(wy, wx) && (i == pixel_index(var, fix, wy, wx) || i
                    == pixel_index(var, fix, wy, wx) + 1);
            assert(grown(wy, wx));
        }
        if on_screen(var, y, x) {
            assert(grown(y, x));
        }
    }
}

/// Nothing painted yet.
proof fn lemma_paint_none(frame: Seq<u8>, var: VarScreeninfo, fix: FixScreeninfo, shape: spec_fn(int, int) -> bool, c: [u8; 2])
    requires
        forall|y: int, x: int| !#[trigger] shape(y, x),
    ensures
        painted(frame, frame, var, fix, shape, c),
{
}

/// A painted frame paints any shape that holds the same pixels.
proof fn lemma_paint_same(
    old: Seq<u8>,
    new: Seq<u8>,
    var: VarScreeninfo,
    fix: FixScreeninfo,
    s1: spec_fn(int, int) -> bool,
    s2: spec_fn(int, int) -> bool,
    c: [u8; 2],
)
    requires
        painted(old, new, var, fix, s1, c),
        forall|y: int, x: int| #[trigger] s1(y, x) == s2(y, x),
    ensures
        painted(old, new, var, fix, s2, c),
{
    assert(s1 =~= s2);
}

/// Whether a frame of `len` bytes holds the screen that `var` and `fix`
/// describe, each pixel with its two colour bytes to itself: a pixel takes at
/// least two bytes, a row fits its line, and the frame holds `yres` lines.
pub fn layout_fits(var: &VarScreeninfo, fix: &FixScreeninfo, len: usize) -> (b: bool)
    ensures
        b == (pixels_apart(*var, *fix) && fix.line_length * var.yres <= len),
        b ==> covers_screen(*var, *fix, len as int),
{
    let bpp = (var.bits_per_pixel / 8) as u64;
    let line_length = fix.line_length as u64;
    assert((var.xres as u64) * bpp <= 0xffff_ffff * 0xffff_ffff) by (nonlinear_arith)
        requires
            bpp <= 0xffff_ffff,
    ;
    assert(line_length * (var.yres as u64) <= 0xffff_ffff * 0xffff_ffff) by (nonlinear_arith)
        requires
            line_length <= 0xffff_ffff,
    ;
    let b = bpp >= 2 && line_length >= (var.xres as u64) * bpp && line_length * (var.yres as u64)
        <= len as u64;
    proof {
        if b {
            assert forall|y: int, x: int| 0 <= y < var.yres && 0 <= x < var.xres implies #[trigger] pixel_index(
                *var,
                *fix,
                y,
                x,
            ) + 1 < len by {
                lemma_pixel_within(
                    y,
                    x,
                    fix.line_length as int,
                    spec_bytes_per_pixel(*var),
                    var.xres as int,
                    var.yres as int,
                );
            }
        }
    }
    b
}

/// The last byte of a pixel's colour lies before the end of the last line.
proof fn lemma_pixel_within(y: int, x: int, ll: int, b: int, w: int, h: int)
    by (nonlinear_arith)
    requires
        0 <= y < h,
        0 <= x < w,
        b >= 2,
        ll >= w * b,
    ensures
        y * ll + x * b + 1 < ll * h,
{
    assert(y * ll <= (h - 1) * ll);
    assert(x * b <= (w - 1) * b);
    assert((w - 1) * b + 1 < w * b);
    assert((h - 1) * ll + ll == ll * h);
}

/// Writes colour `c` to the pixel at `pos` (x the column, y the row); a point
/// off screen is left alone.
pub fn write_pixel_at(frame: &mut [u8], var: &VarScreeninfo, fix: &FixScreeninfo, pos: Point2<i32>, c: [u8; 2])
    requires
        covers_screen(*var, *fix, old(frame)@.len() as int),
    ensures
        final(frame)@ == spec_write(old(frame)@, *var, *fix, pos.y as int, pos.x as int, c),
{
    if pos.y < 0 || pos.x < 0 {
        return;
    }
    write_pixel(frame, var, fix, pos.y as usize, pos.x as usize, c);
}

/// Fills the first `yres` lines of the frame with the byte 0xFF, which is
/// white; the rest of the frame is left alone.
pub fn clear(frame: &mut [u8], var: &VarScreeninfo, fix: &FixScreeninfo)
    requires
        fix.line_length * var.yres <= old(frame)@.len(),
    ensures
        final(frame)@.len() == old(frame)@.len(),
        forall|i: int|
            0 <= i < old(frame)@.len() ==> #[trigger] final(frame)@[i] == if i < fix.line_length * var.yres {
                0xFFu8
            } else {
                old(frame)@[i]
            },
{
    let ghost start = frame@;
    let len = frame.len();
    let h = var.yres as usize;
    let line_length = fix.line_length as usize;
    let n = line_length * h;
    let mut i: usize = 0;
    while i < n
        invariant
            n == fix.line_length * var.yres,
            n <= start.len(),
            i <= n,
            frame@.len() == start.len(),
            forall|j: int| 0 <= j < start.len() ==> #[trigger] frame@[j] == if j < i {
                0xFFu8
            } else {
                start[j]
            },
        decreases n - i,
    {
        frame[i] = 0xFF;
        i = i + 1;
    }
}

/// Row `y`, column `x` lies in the rectangle of `size` at `pos`.
pub open spec fn in_rect(pos: Point2<i32>, size: Vector2<u32>, y: int, x: int) -> bool {
    pos.y <= y < pos.y + (size.y as i32) && pos.x <= x < pos.x + (size.x as i32)
}

/// The far edges of the rectangle, each size taken as an `i32`, fit in `i32`
/// (the right one is computed only when there is a row to fill).
pub open spec fn rect_fits(pos: Point2<i32>, size: Vector2<u32>) -> bool {
    &&& i32::MIN <= pos.y + (size.y as i32) <= i32::MAX
    &&& 0 < (size.y as i32) ==> i32::MIN <= pos.x + (size.x as i32) <= i32::MAX
}

/// Fills the rectangle of `size` at `pos` with `c`. Each size is taken as an
/// `i32`, so a size beyond `i32::MAX` fills nothing on its axis.
pub fn fill_rect(frame: &mut [u8], var: &VarScreeninfo, fix: &FixScreeninfo, pos: Point2<i32>, size: Vector2<u32>, c: [u8; 2])
    requires
        covers_screen(*var, *fix, old(frame)@.len() as int),
        rect_fits(pos, size),
    ensures
        painted(old(frame)@, final(frame)@, *var, *fix, |y: int, x: int| in_rect(pos, size, y, x), c),
{
    let ghost start = frame@;
    let height = #[verifier::truncate] (size.y as i32);
    let end_y = pos.y + height;
    let mut ypos = pos.y;
    proof {
        lemma_paint_none(start, *var, *fix, |y: int, x: int| in_rect(pos, size, y, x) && y < ypos, c);
    }
    while ypos < end_y
        invariant
            pos.y <= ypos,
            ypos <= end_y || ypos == pos.y,
            end_y == pos.y + (size.y as i32),
            rect_fits(pos, size),
            frame@.len() == start.len(),
            covers_screen(*var, *fix, frame@.len() as int),
            painted(start, frame@, *var, *fix, |y: int, x: int| in_rect(pos, size, y, x) && y < ypos, c),
        decreases end_y - ypos,
    {
        let width = #[verifier::truncate] (size.x as i32);
        let end_x = pos.x + width;
        let mut xpos = pos.x;
        proof {
            lemma_paint_same(
                start,
                frame@,
                *var,
                *fix,
                |y: int, x: int| in_rect(pos, size, y, x) && y < ypos,
                |y: int, x: int| in_rect(pos, size, y, x) && (y < ypos || (y == ypos && x < xpos)),
                c,
            );
        }
        while xpos < end_x
            invariant
                pos.y <= ypos < end_y,
                pos.x <= xpos,
                xpos <= end_x || xpos == pos.x,
                end_y == pos.y + (size.y as i32),
                end_x == pos.x + (size.x as i32),
                frame@.len() == start.len(),
                covers_screen(*var, *fix, frame@.len() as int),
                painted(
                    start,
                    frame@,
                    *var,
                    *fix,
                    |y: int, x: int| in_rect(pos, size, y, x) && (y < ypos || (y == ypos && x < xpos)),
                    c,
                ),
            decreases end_x - xpos,
        {
            let ghost mid = frame@;
            write_pixel_at(frame, var, fix, Point2 { x: xpos, y: ypos }, c);
            proof {
                let before = |y: int, x: int| in_rect(pos, size, y, x) && (y < ypos || (y == ypos && x < xpos));
                lemma_paint_one(start, mid, *var, *fix, before, c, ypos as int, xpos as int);
                lemma_paint_same(
                    start,
                    frame@,
                    *var,
                    *fix,
                    |py: int, px: int| before(py, px) || (py == ypos && px == xpos),
                    |y: int, x: int| in_rect(pos, size, y, x) && (y < ypos || (y == ypos && x < xpos + 1)),
                    c,
                );
            }
            xpos = xpos + 1;
        }
        proof {
            lemma_paint_same(
                start,
                frame@,
                *var,
                *fix,
                |y: int, x: int| in_rect(pos, size, y, x) && (y < ypos || (y == ypos && x < xpos)),
                |y: int, x: int| in_rect(pos, size, y, x) && y < ypos + 1,
                c,
            );
        }
        ypos = ypos + 1;
    }
    proof {
        lemma_paint_same(
            start,
            frame@,
            *var,
            *fix,
            |y: int, x: int| in_rect(pos, size, y, x) && y < ypos,
            |y: int, x: int| in_rect(pos, size, y, x),
            c,
        );
    }
}

/// Row `y`, column `x` lies in the disc of radius `rad` around `pos`.
pub open spec fn in_disc(pos: Point2<i32>, rad: u32, y: int, x: int) -> bool {
    (x - pos.x) * (x - pos.x) + (y - pos.y) * (y - pos.y) <= rad * rad
}

/// The square that a circle of radius `rad` around `pos` is said to occupy.
pub open spec fn circle_rect(pos: Point2<i32>, rad: u32) -> mxcfb_rect {
    mxcfb_rect {
        top: ((pos.y as u32) - rad) as u32,
        left: ((pos.x as u32) - rad) as u32,
        width: (2 * rad) as u32,
        height: (2 * rad) as u32,
    }
}

/// The corner of the occupied square, `pos` taken as `u32` less `rad`, does
/// not go below zero.
pub open spec fn circle_rect_fits(pos: Point2<i32>, rad: u32) -> bool {
    rad <= (pos.y as u32) && rad <= (pos.x as u32) && 2 * rad <= u32::MAX
}

/// A point within `rad` of the centre on both axes.
proof fn lemma_disc_near(dx: int, dy: int, rad: int)
    by (nonlinear_arith)
    requires
        rad >= 0,
        dx * dx + dy * dy <= rad * rad,
    ensures
        -rad <= dx <= rad,
        -rad <= dy <= rad,
{
    if dx > rad {
        assert(dx * dx > rad * rad);
    }
    if dx < -rad {
        assert(dx * dx > rad * rad);
    }
    if dy > rad {
        assert(dy * dy > rad * rad);
    }
    if dy < -rad {
        assert(dy * dy > rad * rad);
    }
}

/// Fills the disc of radius `rad` around `pos` with `c`: the pixels whose
/// squared distance from the centre is at most `rad * rad`. Answers the
/// square the circle occupies.
pub fn fill_circle(frame: &mut [u8], var: &VarScreeninfo, fix: &FixScreeninfo, pos: Point2<i32>, rad: u32, c: [u8; 2]) -> (r: mxcfb_rect)
    requires
        covers_screen(*var, *fix, old(frame)@.len() as int),
        rad <= 32766,
        i32::MIN <= pos.x - rad && pos.x + rad <= i32::MAX,
        i32::MIN <= pos.y - rad && pos.y + rad <= i32::MAX,
        circle_rect_fits(pos, rad),
    ensures
        painted(old(frame)@, final(frame)@, *var, *fix, |y: int, x: int| in_disc(pos, rad, y, x), c),
        r == circle_rect(pos, rad),
{
    let ghost start = frame@;
    assert(rad * rad <= 32766 * 32766) by (nonlinear_arith)
        requires
            rad <= 32766,
    ;
    let rad_square = (rad * rad) as i32;
    let search_distance = (rad + 1) as i32;
    let mut y: i32 = -search_distance;
    proof {
        assert forall|py: int, px: int| !(in_disc(pos, rad, py, px) && py - pos.y < y) by {
            if in_disc(pos, rad, py, px) {
                lemma_disc_near(px - pos.x, py - pos.y, rad as int);
            }
        }
        lemma_paint_none(start, *var, *fix, |py: int, px: int| in_disc(pos, rad, py, px) && py - pos.y < y, c);
    }
    while y < search_distance
        invariant
            rad <= 32766,
            search_distance == rad + 1,
            rad_square == rad * rad,
            -search_distance <= y <= search_distance,
            i32::MIN <= pos.x - rad && pos.x + rad <= i32::MAX,
            i32::MIN <= pos.y - rad && pos.y + rad <= i32::MAX,
            frame@.len() == start.len(),
            covers_screen(*var, *fix, frame@.len() as int),
            painted(start, frame@, *var, *fix, |py: int, px: int| in_disc(pos, rad, py, px) && py - pos.y < y, c),
        decreases search_distance - y,
    {
        assert(0 <= y * y <= 32767 * 32767) by (nonlinear_arith)
            requires
                -32767 <= y <= 32767,
        ;
        let y_square = y * y;
        let mut x: i32 = -search_distance;
        proof {
            assert forall|py: int, px: int| #[trigger] in_disc(pos, rad, py, px) implies px - pos.x >= x by {
                lemma_disc_near(px - pos.x, py - pos.y, rad as int);
            }
            lemma_paint_same(
                start,
                frame@,
                *var,
                *fix,
                |py: int, px: int| in_disc(pos, rad, py, px) && py - pos.y < y,
                |py: int, px: int| in_disc(pos, rad, py, px) && (py - pos.y < y || (py - pos.y == y && px - pos.x < x)),
                c,
            );
        }
        while x < search_distance
            invariant
                rad <= 32766,
                search_distance == rad + 1,
                rad_square == rad * rad,
                -search_distance <= y < search_distance,
                -search_distance <= x <= search_distance,
                y_square == y * y,
                0 <= y_square <= 32767 * 32767,
                i32::MIN <= pos.x - rad && pos.x + rad <= i32::MAX,
                i32::MIN <= pos.y - rad && pos.y + rad <= i32::MAX,
                frame@.len() == start.len(),
                covers_screen(*var, *fix, frame@.len() as int),
                painted(
                    start,
                    frame@,
                    *var,
                    *fix,
                    |py: int, px: int| in_disc(pos, rad, py, px) && (py - pos.y < y || (py - pos.y == y && px - pos.x < x)),
                    c,
                ),
            decreases search_distance - x,
        {
            assert(0 <= x * x <= 32767 * 32767) by (nonlinear_arith)
                requires
                    -32767 <= x <= 32767,
            ;
            let x_square = x * x;
            let ghost mid = frame@;
            let ghost before = |py: int, px: int| in_disc(pos, rad, py, px) && (py - pos.y < y || (py - pos.y == y && px - pos.x < x));
            let ghost after = |py: int, px: int| in_disc(pos, rad, py, px) && (py - pos.y < y || (py - pos.y == y && px - pos.x < x + 1));
            if x_square + y_square <= rad_square {
                proof {
                    lemma_disc_near(x as int, y as int, rad as int);
                }
                write_pixel_at(frame, var, fix, Point2 { x: pos.x + x, y: pos.y + y }, c);
                proof {
                    lemma_paint_one(start, mid, *var, *fix, before, c, pos.y + y, pos.x + x);
                    lemma_paint_same(
                        start,
                        frame@,
                        *var,
                        *fix,
                        |py: int, px: int| before(py, px) || (py == pos.y + y && px == pos.x + x),
                        after,
                        c,
                    );
                }
            } else {
                proof {
                    lemma_paint_same(start, frame@, *var, *fix, before, after, c);
                }
            }
            x = x + 1;
        }
        proof {
            assert forall|py: int, px: int|
                #[trigger] in_disc(pos, rad, py, px) && py - pos.y == y implies px - pos.x < x by {
                lemma_disc_near(px - pos.x, py - pos.y, rad as int);
            }
            lemma_paint_same(
                start,
                frame@,
                *var,
                *fix,
                |py: int, px: int| in_disc(pos, rad, py, px) && (py - pos.y < y || (py - pos.y == y && px - pos.x < x)),
                |py: int, px: int| in_disc(pos, rad, py, px) && py - pos.y < y + 1,
                c,
            );
        }
        y = y + 1;
    }
    proof {
        assert forall|py: int, px: int| #[trigger] in_disc(pos, rad, py, px) implies py - pos.y < y by {
            lemma_disc_near(px - pos.x, py - pos.y, rad as int);
        }
        lemma_paint_same(
            start,
            frame@,
            *var,
            *fix,
            |py: int, px: int| in_disc(pos, rad, py, px) && py - pos.y < y,
            |py: int, px: int| in_disc(pos, rad, py, px),
            c,
        );
    }
    mxcfb_rect {
        top: (#[verifier::truncate] (pos.y as u32)) - rad,
        left: (#[verifier::truncate] (pos.x as u32)) - rad,
        width: 2 * rad,
        height: 2 * rad,
    }
}

/// The points that `line_drawing::BresenhamCircle` walks for a circle of
/// `radius` around (`center_x`, `center_y`), as (x, y), in the order walked.
pub uninterp spec fn bresenham_circle(center_x: i32, center_y: i32, radius: i32) -> Seq<(i32, i32)>;

/// `line_drawing::BresenhamCircle::new(center_x, center_y, radius)`, walked
/// to its end: its points are what `bresenham_circle` names. Each point it
/// yields is the centre moved by at most the radius on each axis, and its
/// error term stays within a few times the radius; the bounds keep these
/// sums within `i32`.
#[verifier::external_body]
fn circle_points(center_x: i32, center_y: i32, radius: i32) -> (v: Vec<(i32, i32)>)
    requires
        0 <= radius <= 0x1000_0000,
        i32::MIN <= center_x - radius && center_x + radius <= i32::MAX,
        i32::MIN <= center_y - radius && center_y + radius <= i32::MAX,
    ensures
        v@ == bresenham_circle(center_x, center_y, radius),
{
    line_drawing::BresenhamCircle::new(center_x, center_y, radius).collect()
}

/// Row `y`, column `x` is one of `points` (given as (x, y)).
pub open spec fn on_outline(points: Seq<(i32, i32)>, y: int, x: int) -> bool {
    exists|i: int| 0 <= i < points.len() && #[trigger] points[i].0 == x && points[i].1 == y
}

/// Draws the outline of the circle of radius `rad` around `pos` in `c`: the
/// points that Bresenham's circle algorithm gives. Answers the square the
/// circle occupies.
pub fn draw_circle(frame: &mut [u8], var: &VarScreeninfo, fix: &FixScreeninfo, pos: Point2<i32>, rad: u32, c: [u8; 2]) -> (r: mxcfb_rect)
    requires
        covers_screen(*var, *fix, old(frame)@.len() as int),
        rad <= 0x1000_0000,
        i32::MIN <= pos.x - rad && pos.x + rad <= i32::MAX,
        i32::MIN <= pos.y - rad && pos.y + rad <= i32::MAX,
        circle_rect_fits(pos, rad),
    ensures
        painted(
            old(frame)@,
            final(frame)@,
            *var,
            *fix,
            |y: int, x: int| on_outline(bresenham_circle(pos.x, pos.y, rad as i32), y, x),
            c,
        ),
        r == circle_rect(pos, rad),
{
    let ghost start = frame@;
    let points = circle_points(pos.x, pos.y, rad as i32);
    let n = points.len();
    let mut k: usize = 0;
    proof {
        lemma_paint_none(start, *var, *fix, |y: int, x: int| on_outline(points@.take(0), y, x), c);
    }
    while k < n
        invariant
            n == points@.len(),
            k <= n,
            frame@.len() == start.len(),
            covers_screen(*var, *fix, frame@.len() as int),
            painted(start, frame@, *var, *fix, |y: int, x: int| on_outline(points@.take(k as int), y, x), c),
        decreases n - k,
    {
        let (x, y) = points[k];
        let ghost mid = frame@;
        write_pixel_at(frame, var, fix, Point2 { x, y }, c);
        proof {
            let before = |py: int, px: int| on_outline(points@.take(k as int), py, px);
            lemma_paint_one(start, mid, *var, *fix, before, c, y as int, x as int);
            let grown = |py: int, px: int| before(py, px) || (py == y && px == x);
            let after = |py: int, px: int| on_outline(points@.take(k + 1), py, px);
            assert forall|py: int, px: int| #[trigger] grown(py, px) == after(py, px) by {
                let next = points@.take(k + 1);
                if before(py, px) {
                    let i = choose|i: int| 0 <= i < k && #[trigger] points@.take(k as int)[i].0 == px
                        && points@.take(k as int)[i].1 == py;
                    assert(next[i] == points@[i]);
                }
                if py == y && px == x {
                    assert(next[k as int] == points@[k as int]);
                }
                if after(py, px) {
                    let i = choose|i: int| 0 <= i < k + 1 && #[trigger] next[i].0 == px && next[i].1 == py;
                    if i < k {
                        assert(points@.take(k as int)[i] == points@[i]);
                    }
                }
            }
            lemma_paint_same(start, frame@, *var, *fix, grown, after, c);
        }
        k = k + 1;
    }
    proof {
        assert(points@.take(n as int) =~= points@);
    }
    mxcfb_rect {
        top: (#[verifier::truncate] (pos.y as u32)) - rad,
        left: (#[verifier::truncate] (pos.x as u32)) - rad,
        width: 2 * rad,
        height: 2 * rad,
    }
}

} // verus!
