use vstd::prelude::*;

use super::mxcfb::mxcfb_rect;
use super::screeninfo::{FixScreeninfo, VarScreeninfo};

verus! {

// Access to the memory that holds a frame. The frame is `line_length` bytes
// per row; a pixel takes `bits_per_pixel / 8` bytes, of which the first two
// hold its colour (rgb565, little endian).

pub open spec fn spec_bytes_per_pixel(var: VarScreeninfo) -> int {
    (var.bits_per_pixel / 8) as int
}

/// Where the pixel in row `y`, column `x` starts.
pub open spec fn pixel_index(var: VarScreeninfo, fix: FixScreeninfo, y: int, x: int) -> int {
    y * fix.line_length + x * spec_bytes_per_pixel(var)
}

/// The two colour bytes of every pixel on screen lie within `len` bytes.
pub open spec fn covers_screen(var: VarScreeninfo, fix: FixScreeninfo, len: int) -> bool {
    forall|y: int, x: int|
        0 <= y < var.yres && 0 <= x < var.xres ==> #[trigger] pixel_index(var, fix, y, x) + 1 < len
}

/// Where the pixel in row `y`, column `x` starts, if it lies on screen.
pub fn pixel_offset(var: &VarScreeninfo, fix: &FixScreeninfo, y: usize, x: usize, len: usize) -> (r: Option<usize>)
    requires
        covers_screen(*var, *fix, len as int),
    ensures
        r is None <==> (y >= var.yres || x >= var.xres),
        r matches Some(i) ==> i == pixel_index(*var, *fix, y as int, x as int) && i + 1 < len,
{
    let w = var.xres as usize;
    let h = var.yres as usize;
    if y >= h || x >= w {
        return None;
    }
    proof {
        assert(pixel_index(*var, *fix, y as int, x as int) + 1 < len);
        assert(0 <= y * fix.line_length) by (nonlinear_arith);
        assert(0 <= x * spec_bytes_per_pixel(*var)) by (nonlinear_arith)
            requires
                spec_bytes_per_pixel(*var) >= 0,
        ;
    }
    let line_length = fix.line_length as usize;
    let bytespp = (var.bits_per_pixel / 8) as usize;
    Some(y * line_length + x * bytespp)
}

/// Writes the two colour bytes of the pixel at row `y`, column `x`; a pixel
/// off screen is not written.
pub fn write_pixel(
    frame: &mut [u8],
    var: &VarScreeninfo,
    fix: &FixScreeninfo,
    y: usize,
    x: usize,
    components: [u8; 2],
)
    requires
        covers_screen(*var, *fix, old(frame)@.len() as int),
    ensures
        (y >= var.yres || x >= var.xres) ==> final(frame)@ == old(frame)@,
        (y < var.yres && x < var.xres) ==> final(frame)@ == old(frame)@.update(
            pixel_index(*var, *fix, y as int, x as int),
            components[0],
        ).update(pixel_index(*var, *fix, y as int, x as int) + 1, components[1]),
{
    match pixel_offset(var, fix, y, x, frame.len()) {
        None => {},
        Some(i) => {
            frame[i] = components[0];
            frame[i + 1] = components[1];
        },
    }
}

/// The two colour bytes of the pixel at row `y`, column `x`, if it lies on screen.
pub fn read_pixel(frame: &[u8], var: &VarScreeninfo, fix: &FixScreeninfo, y: usize, x: usize) -> (r: Option<[u8; 2]>)
    requires
        covers_screen(*var, *fix, frame@.len() as int),
    ensures
        r is None <==> (y >= var.yres || x >= var.xres),
        r matches Some(c) ==> c@ == seq![
            frame@[pixel_index(*var, *fix, y as int, x as int)],
            frame@[pixel_index(*var, *fix, y as int, x as int) + 1],
        ],
{
    match pixel_offset(var, fix, y, x, frame.len()) {
        None => None,
        Some(i) => {
            let c = [frame[i], frame[i + 1]];
            assert(c@ =~= seq![frame@[i as int], frame@[i + 1]]);
            Some(c)
        },
    }
}

/// Where row `row` of `rect` starts in the frame.
pub open spec fn row_start(rect: mxcfb_rect, line_length: int, bpp: int, row: int) -> int {
    (rect.top + row) * line_length + bpp * rect.left
}

/// The bytes of one row of `rect`.
pub open spec fn row_len(rect: mxcfb_rect, bpp: int) -> int {
    bpp * rect.width
}

/// Every row of the non-empty `rect` lies within `len` bytes, and the
/// offsets stay within `u32`.
pub open spec fn region_fits(rect: mxcfb_rect, line_length: int, bpp: int, len: int) -> bool {
    let end = row_start(rect, line_length, bpp, rect.height - 1) + row_len(rect, bpp);
    &&& end <= len
    &&& end <= u32::MAX
}

/// The bytes of the first `rows` rows of `rect`, one row after the other.
pub open spec fn region_bytes(
    frame: Seq<u8>,
    rect: mxcfb_rect,
    line_length: int,
    bpp: int,
    rows: int,
) -> Seq<u8>
    decreases rows,
{
    if rows <= 0 {
        Seq::empty()
    } else {
        let start = row_start(rect, line_length, bpp, rows - 1);
        region_bytes(frame, rect, line_length, bpp, rows - 1) + frame.subrange(
            start,
            start + row_len(rect, bpp),
        )
    }
}

/// Why a region cannot be dumped or restored, if it cannot.
pub open spec fn spec_region_error(var: VarScreeninfo, rect: mxcfb_rect, zero_size: &'static str) -> Option<Seq<char>> {
    if rect.width == 0 || rect.height == 0 {
        Some(zero_size@)
    } else if rect.top + rect.height > var.height {
        Some("Vertically out of bounds"@)
    } else if rect.left + rect.width > var.width {
        Some("Horizontally out of bounds"@)
    } else {
        None
    }
}

proof fn lemma_row_within(rect: mxcfb_rect, line_length: int, bpp: int, row: int)
    requires
        0 <= row < rect.height,
        line_length >= 0,
        bpp >= 0,
    ensures
        0 <= row_start(rect, line_length, bpp, row),
        0 <= (rect.top + row) * line_length,
        0 <= bpp * rect.left,
        row_start(rect, line_length, bpp, row) <= row_start(rect, line_length, bpp, rect.height - 1),
        row_len(rect, bpp) >= 0,
{
    assert((rect.top + row) * line_length <= (rect.top + rect.height - 1) * line_length)
        by (nonlinear_arith)
        requires
            row <= rect.height - 1,
            line_length >= 0,
            rect.top >= 0,
    ;
    assert(0 <= (rect.top + row) * line_length) by (nonlinear_arith)
        requires
            row >= 0,
            line_length >= 0,
            rect.top >= 0,
    ;
    assert(0 <= bpp * rect.left) by (nonlinear_arith)
        requires
            bpp >= 0,
            rect.left >= 0,
    ;
    assert(0 <= bpp * rect.width) by (nonlinear_arith)
        requires
            bpp >= 0,
            rect.width >= 0,
    ;
}

/// Whether every row of the non-empty `rect` lies within a frame of `len`
/// bytes, with offsets within `u32`.
pub fn region_in_frame(rect: &mxcfb_rect, var: &VarScreeninfo, fix: &FixScreeninfo, len: usize) -> (b: bool)
    requires
        !rect.is_empty(),
    ensures
        b == region_fits(*rect, fix.line_length as int, spec_bytes_per_pixel(*var), len as int),
{
    let bpp = (var.bits_per_pixel / 8) as u128;
    let last_row = (rect.top as u128) + (rect.height as u128) - 1;
    assert(last_row * (fix.line_length as u128) <= 0x2_0000_0000 * 0xffff_ffff) by (nonlinear_arith)
        requires
            last_row <= 0x2_0000_0000,
            fix.line_length <= 0xffff_ffff,
    ;
    assert(bpp * (rect.left as u128) <= 0xffff_ffff * 0xffff_ffff) by (nonlinear_arith)
        requires
            bpp <= 0xffff_ffff,
            rect.left <= 0xffff_ffff,
    ;
    assert(bpp * (rect.width as u128) <= 0xffff_ffff * 0xffff_ffff) by (nonlinear_arith)
        requires
            bpp <= 0xffff_ffff,
            rect.width <= 0xffff_ffff,
    ;
    let end = last_row * (fix.line_length as u128) + bpp * (rect.left as u128) + bpp * (rect.width as u128);
    end <= len as u128 && end <= 0xffff_ffff
}

/// Dumps the contents of `rect` into a `Vec<u8>`, row after row, from which
/// the region can later be restored. The bounds are checked against the
/// screen size that `var` states.
pub fn dump_region(frame: &[u8], var: &VarScreeninfo, fix: &FixScreeninfo, rect: &mxcfb_rect) -> (r: Result<Vec<u8>, &'static str>)
    requires
        rect.edges_fit(),
        spec_region_error(*var, *rect, "Unable to dump a region with zero height/width") is None
            ==> region_fits(*rect, fix.line_length as int, spec_bytes_per_pixel(*var), frame@.len() as int),
    ensures
        match spec_region_error(*var, *rect, "Unable to dump a region with zero height/width") {
            Some(e) => r matches Err(m) && m@ == e,
            None => r matches Ok(v) && v@ == region_bytes(
                frame@,
                *rect,
                fix.line_length as int,
                spec_bytes_per_pixel(*var),
                rect.height as int,
            ),
        },
{
    if rect.width == 0 || rect.height == 0 {
        return Err("Unable to dump a region with zero height/width");
    }
    if rect.top + rect.height > var.height {
        return Err("Vertically out of bounds");
    }
    if rect.left + rect.width > var.width {
        return Err("Horizontally out of bounds");
    }
    let ghost ll = fix.line_length as int;
    let ghost bpp = spec_bytes_per_pixel(*var);
    let line_length = fix.line_length;
    let bytespp = var.bits_per_pixel / 8;
    proof {
        lemma_row_within(*rect, ll, bpp, rect.height - 1);
    }
    let chunk_size = bytespp * rect.width;
    let mut outbuffer: Vec<u8> = Vec::new();
    let mut row: u32 = 0;
    while row < rect.height
        invariant
            0 <= row <= rect.height,
            ll == line_length,
            bpp == bytespp,
            chunk_size == row_len(*rect, bpp),
            !rect.is_empty(),
            rect.edges_fit(),
            region_fits(*rect, ll, bpp, frame@.len() as int),
            outbuffer@ == region_bytes(frame@, *rect, ll, bpp, row as int),
        decreases rect.height - row,
    {
        proof {
            lemma_row_within(*rect, ll, bpp, row as int);
        }
        let curr_index = (rect.top + row) * line_length + bytespp * rect.left;
        let ghost before = outbuffer@;
        let mut k: u32 = 0;
        while k < chunk_size
            invariant
                0 <= k <= chunk_size,
                curr_index == row_start(*rect, ll, bpp, row as int),
                curr_index + chunk_size <= frame@.len(),
                curr_index + chunk_size <= u32::MAX,
                outbuffer@ == before + frame@.subrange(curr_index as int, curr_index + k),
            decreases chunk_size - k,
        {
            outbuffer.push(frame[(curr_index + k) as usize]);
            k = k + 1;
            proof {
                assert(outbuffer@ =~= before + frame@.subrange(curr_index as int, curr_index + k));
            }
        }
        row = row + 1;
    }
    Ok(outbuffer)
}

/// The frame after the first `rows` rows of `rect` were copied in from
/// `data`, one row after the other.
pub open spec fn restored_frame(
    frame: Seq<u8>,
    data: Seq<u8>,
    rect: mxcfb_rect,
    line_length: int,
    bpp: int,
    rows: int,
) -> Seq<u8>
    decreases rows,
{
    if rows <= 0 {
        frame
    } else {
        let f = restored_frame(frame, data, rect, line_length, bpp, rows - 1);
        let start = row_start(rect, line_length, bpp, rows - 1);
        let len = row_len(rect, bpp);
        let from = (rows - 1) * len;
        f.subrange(0, start) + data.subrange(from, from + len) + f.subrange(start + len, f.len() as int)
    }
}

proof fn lemma_restored_len(
    frame: Seq<u8>,
    data: Seq<u8>,
    rect: mxcfb_rect,
    line_length: int,
    bpp: int,
    rows: int,
)
    requires
        0 <= rows <= rect.height,
        line_length >= 0,
        bpp >= 0,
        rect.height > 0 ==> row_start(rect, line_length, bpp, rect.height - 1) + row_len(rect, bpp)
            <= frame.len(),
        rows * row_len(rect, bpp) <= data.len(),
    ensures
        restored_frame(frame, data, rect, line_length, bpp, rows).len() == frame.len(),
    decreases rows,
{
    if rows > 0 {
        lemma_row_within(rect, line_length, bpp, rows - 1);
        assert((rows - 1) * row_len(rect, bpp) + row_len(rect, bpp) == rows * row_len(rect, bpp))
            by (nonlinear_arith);
        assert(0 <= (rows - 1) * row_len(rect, bpp)) by (nonlinear_arith)
            requires
                row_len(rect, bpp) >= 0,
                rows >= 1,
        ;
        lemma_restored_len(frame, data, rect, line_length, bpp, rows - 1);
    }
}

/// Restores into the frame the contents of `rect` from `data`, as
/// `dump_region` gave them, and answers the number of bytes written.
pub fn restore_region(
    frame: &mut [u8],
    var: &VarScreeninfo,
    fix: &FixScreeninfo,
    rect: &mxcfb_rect,
    data: &[u8],
) -> (r: Result<u32, &'static str>)
    requires
        rect.edges_fit(),
        rect.width * rect.height <= u32::MAX,
        rect.width * rect.height * spec_bytes_per_pixel(*var) <= u32::MAX,
        spec_region_error(*var, *rect, "Unable to restore a region with zero height/width") is None
            ==> region_fits(*rect, fix.line_length as int, spec_bytes_per_pixel(*var), old(frame)@.len() as int),
    ensures
        match spec_region_error(*var, *rect, "Unable to restore a region with zero height/width") {
            Some(e) => r matches Err(m) && m@ == e && final(frame)@ == old(frame)@,
            None => if #[verifier::truncate] (data@.len() as u32) != rect.width * rect.height * spec_bytes_per_pixel(*var) {
                r matches Err(m) && m@ == "Cannot restore region due to mismatched size"@
                    && final(frame)@ == old(frame)@
            } else {
                r == Ok::<u32, &'static str>((rect.height * row_len(*rect, spec_bytes_per_pixel(*var))) as u32)
                    && final(frame)@ == restored_frame(
                    old(frame)@,
                    data@,
                    *rect,
                    fix.line_length as int,
                    spec_bytes_per_pixel(*var),
                    rect.height as int,
                )
            },
        },
{
    if rect.width == 0 || rect.height == 0 {
        return Err("Unable to restore a region with zero height/width");
    }
    if rect.top + rect.height > var.height {
        return Err("Vertically out of bounds");
    }
    if rect.left + rect.width > var.width {
        return Err("Horizontally out of bounds");
    }
    let bytespp = var.bits_per_pixel / 8;
    let ghost ll = fix.line_length as int;
    let ghost bpp = spec_bytes_per_pixel(*var);
    assert(rect.width * rect.height * bpp == rect.height * (bpp * rect.width)) by (nonlinear_arith);
    assert(0 <= bpp * rect.width) by (nonlinear_arith)
        requires
            bpp >= 0,
    ;
    let expected = rect.width * rect.height * bytespp;
    let data_len = data.len();
    if #[verifier::truncate] (data_len as u32) != expected {
        return Err("Cannot restore region due to mismatched size");
    }
    proof {
        lemma_row_within(*rect, ll, bpp, rect.height - 1);
        // the length agrees with the expected size modulo 2^32, so it is at least that size
        assert((#[verifier::truncate] (data_len as u32)) == expected ==> data_len >= expected) by (bit_vector);
    }
    let line_length = fix.line_length;
    let chunk_size = bytespp * rect.width;
    let mut written: u32 = 0;
    let mut y: u32 = 0;
    while y < rect.height
        invariant
            0 <= y <= rect.height,
            ll == line_length,
            bpp == bytespp,
            chunk_size == row_len(*rect, bpp),
            !rect.is_empty(),
            rect.edges_fit(),
            region_fits(*rect, ll, bpp, old(frame)@.len() as int),
            data@.len() >= rect.height * chunk_size,
            rect.height * chunk_size <= u32::MAX,
            written == y * chunk_size,
            frame@ == restored_frame(old(frame)@, data@, *rect, ll, bpp, y as int),
        decreases rect.height - y,
    {
        proof {
            lemma_row_within(*rect, ll, bpp, y as int);
            assert((y + 1) * chunk_size <= rect.height * chunk_size) by (nonlinear_arith)
                requires
                    y + 1 <= rect.height,
                    chunk_size >= 0,
            ;
            assert(y * chunk_size <= rect.height * chunk_size) by (nonlinear_arith)
                requires
                    y <= rect.height,
                    chunk_size >= 0,
            ;
            assert((y + 1) * chunk_size == y * chunk_size + chunk_size) by (nonlinear_arith);
            lemma_restored_len(old(frame)@, data@, *rect, ll, bpp, y as int);
        }
        let curr_index = (rect.top + y) * line_length + bytespp * rect.left;
        let ghost before = frame@;
        let mut k: u32 = 0;
        while k < chunk_size
            invariant
                0 <= k <= chunk_size,
                curr_index == row_start(*rect, ll, bpp, y as int),
                curr_index + chunk_size <= before.len(),
                frame@.len() == before.len(),
                written + chunk_size <= data@.len(),
                written + chunk_size <= u32::MAX,
                curr_index + chunk_size <= u32::MAX,
                frame@ == before.subrange(0, curr_index as int) + data@.subrange(
                    written as int,
                    written + k,
                ) + before.subrange(curr_index + k, before.len() as int),
            decreases chunk_size - k,
        {
            frame[(curr_index + k) as usize] = data[(written + k) as usize];
            k = k + 1;
            proof {
                assert(frame@ =~= before.subrange(0, curr_index as int) + data@.subrange(
                    written as int,
                    written + k,
                ) + before.subrange(curr_index + k, before.len() as int));
            }
        }
        written = written + chunk_size;
        y = y + 1;
        proof {
            assert(written == y * chunk_size) by (nonlinear_arith)
                requires
                    written == (y - 1) * chunk_size + chunk_size,
            ;
        }
    }
    Ok(written)
}

/// The dump of the first `rows` rows has `rows` rows' worth of bytes, and
/// its row `r` holds the bytes of row `r` of the frame.
proof fn lemma_region_bytes_rows(
    frame: Seq<u8>,
    rect: mxcfb_rect,
    line_length: int,
    bpp: int,
    rows: int,
    r: int,
)
    requires
        0 <= rows <= rect.height,
        0 <= r < rows,
        line_length >= 0,
        bpp >= 0,
        row_start(rect, line_length, bpp, rect.height - 1) + row_len(rect, bpp) <= frame.len(),
    ensures
        region_bytes(frame, rect, line_length, bpp, rows).len() == rows * row_len(rect, bpp),
        region_bytes(frame, rect, line_length, bpp, rows).subrange(
            r * row_len(rect, bpp),
            (r + 1) * row_len(rect, bpp),
        ) == frame.subrange(
            row_start(rect, line_length, bpp, r),
            row_start(rect, line_length, bpp, r) + row_len(rect, bpp),
        ),
    decreases rows,
{
    let len = row_len(rect, bpp);
    lemma_row_within(rect, line_length, bpp, rows - 1);
    lemma_row_within(rect, line_length, bpp, r);
    assert((rows - 1) * len + len == rows * len) by (nonlinear_arith);
    assert((r + 1) * len == r * len + len) by (nonlinear_arith);
    assert(0 <= (rows - 1) * len) by (nonlinear_arith)
        requires
            rows >= 1,
            len >= 0,
    ;
    let prev = region_bytes(frame, rect, line_length, bpp, rows - 1);
    if rows - 1 > 0 {
        lemma_region_bytes_rows(frame, rect, line_length, bpp, rows - 1, 0);
    } else {
        assert((rows - 1) * len == 0) by (nonlinear_arith)
            requires
                rows == 1,
        ;
    }
    assert(prev.len() == (rows - 1) * len);
    if r < rows - 1 {
        lemma_region_bytes_rows(frame, rect, line_length, bpp, rows - 1, r);
        assert(r * len + len <= (rows - 1) * len) by (nonlinear_arith)
            requires
                r + 1 <= rows - 1,
                len >= 0,
        ;
        assert(0 <= r * len) by (nonlinear_arith)
            requires
                r >= 0,
                len >= 0,
        ;
        assert(region_bytes(frame, rect, line_length, bpp, rows).subrange(r * len, (r + 1) * len)
            =~= prev.subrange(r * len, (r + 1) * len));
    } else {
        assert(region_bytes(frame, rect, line_length, bpp, rows).subrange(r * len, (r + 1) * len)
            =~= frame.subrange(
            row_start(rect, line_length, bpp, r),
            row_start(rect, line_length, bpp, r) + len,
        ));
    }
}

/// Restoring what was dumped changes nothing: each row is written back with
/// the bytes it held.
pub proof fn lemma_restore_dumped_region(
    frame: Seq<u8>,
    rect: mxcfb_rect,
    line_length: int,
    bpp: int,
    rows: int,
)
    requires
        0 <= rows <= rect.height,
        line_length >= 0,
        bpp >= 0,
        row_start(rect, line_length, bpp, rect.height - 1) + row_len(rect, bpp) <= frame.len(),
    ensures
        restored_frame(
            frame,
            region_bytes(frame, rect, line_length, bpp, rect.height as int),
            rect,
            line_length,
            bpp,
            rows,
        ) == frame,
    decreases rows,
{
    if rows > 0 {
        let data = region_bytes(frame, rect, line_length, bpp, rect.height as int);
        let len = row_len(rect, bpp);
        lemma_restore_dumped_region(frame, rect, line_length, bpp, rows - 1);
        lemma_region_bytes_rows(frame, rect, line_length, bpp, rect.height as int, rows - 1);
        lemma_row_within(rect, line_length, bpp, rows - 1);
        assert((rows - 1 + 1) * len == (rows - 1) * len + len) by (nonlinear_arith);
        let start = row_start(rect, line_length, bpp, rows - 1);
        assert(frame.subrange(0, start) + frame.subrange(start, start + len) + frame.subrange(
            start + len,
            frame.len() as int,
        ) =~= frame);
    }
}

/// Dumping a region that was just restored gives back the data restored,
/// provided the rows do not overlap in the frame.
pub proof fn lemma_dump_restored_region(
    frame: Seq<u8>,
    data: Seq<u8>,
    rect: mxcfb_rect,
    line_length: int,
    bpp: int,
)
    requires
        rect.height > 0,
        line_length >= 0,
        bpp >= 0,
        row_len(rect, bpp) <= line_length,
        row_start(rect, line_length, bpp, rect.height - 1) + row_len(rect, bpp) <= frame.len(),
        data.len() == rect.height * row_len(rect, bpp),
    ensures
        region_bytes(
            restored_frame(frame, data, rect, line_length, bpp, rect.height as int),
            rect,
            line_length,
            bpp,
            rect.height as int,
        ) == data,
{
    let len = row_len(rect, bpp);
    let h = rect.height as int;
    let g = restored_frame(frame, data, rect, line_length, bpp, h);
    lemma_restored_len(frame, data, rect, line_length, bpp, h);
    assert forall|r: int| 0 <= r < h implies #[trigger] g.subrange(
        row_start(rect, line_length, bpp, r),
        row_start(rect, line_length, bpp, r) + len,
    ) == data.subrange(r * len, (r + 1) * len) by {
        lemma_restored_row_kept(frame, data, rect, line_length, bpp, h, r);
    }
    lemma_region_bytes_is_data(g, data, rect, line_length, bpp, h);
}

/// After the first `rows` rows were restored, row `r` among them holds its data.
proof fn lemma_restored_row_kept(
    frame: Seq<u8>,
    data: Seq<u8>,
    rect: mxcfb_rect,
    line_length: int,
    bpp: int,
    rows: int,
    r: int,
)
    requires
        0 <= r < rows <= rect.height,
        line_length >= 0,
        bpp >= 0,
        row_len(rect, bpp) <= line_length,
        row_start(rect, line_length, bpp, rect.height - 1) + row_len(rect, bpp) <= frame.len(),
        data.len() == rect.height * row_len(rect, bpp),
    ensures
        restored_frame(frame, data, rect, line_length, bpp, rows).subrange(
            row_start(rect, line_length, bpp, r),
            row_start(rect, line_length, bpp, r) + row_len(rect, bpp),
        ) == data.subrange(r * row_len(rect, bpp), (r + 1) * row_len(rect, bpp)),
    decreases rows,
{
    let len = row_len(rect, bpp);
    assert(rows * len <= rect.height * len) by (nonlinear_arith)
        requires
            rows <= rect.height,
            len >= 0,
    ;
    assert((rows - 1) * len + len == rows * len) by (nonlinear_arith);
    assert(0 <= (rows - 1) * len) by (nonlinear_arith)
        requires
            rows >= 1,
            len >= 0,
    ;
    lemma_restored_len(frame, data, rect, line_length, bpp, rows - 1);
    lemma_restored_len(frame, data, rect, line_length, bpp, rows);
    lemma_row_within(rect, line_length, bpp, rows - 1);
    lemma_row_within(rect, line_length, bpp, r);
    let f = restored_frame(frame, data, rect, line_length, bpp, rows - 1);
    let start = row_start(rect, line_length, bpp, rows - 1);
    let from = (rows - 1) * len;
    let g = restored_frame(frame, data, rect, line_length, bpp, rows);
    assert(g == f.subrange(0, start) + data.subrange(from, from + len) + f.subrange(
        start + len,
        f.len() as int,
    ));
    let rs = row_start(rect, line_length, bpp, r);
    if r == rows - 1 {
        assert(g.subrange(rs, rs + len) =~= data.subrange(from, from + len));
    } else {
        lemma_restored_row_kept(frame, data, rect, line_length, bpp, rows - 1, r);
        // row r ends before row rows - 1 starts
        assert(rs + len <= start) by (nonlinear_arith)
            requires
                rs == (rect.top + r) * line_length + bpp * rect.left,
                start == (rect.top + rows - 1) * line_length + bpp * rect.left,
                r + 1 <= rows - 1,
                len <= line_length,
                line_length >= 0,
        ;
        assert(g.subrange(rs, rs + len) =~= f.subrange(rs, rs + len));
    }
}

/// A sequence whose rows agree with `data` is the dump of `data`.
proof fn lemma_region_bytes_is_data(
    g: Seq<u8>,
    data: Seq<u8>,
    rect: mxcfb_rect,
    line_length: int,
    bpp: int,
    h: int,
)
    requires
        0 < h == rect.height,
        line_length >= 0,
        bpp >= 0,
        row_start(rect, line_length, bpp, rect.height - 1) + row_len(rect, bpp) <= g.len(),
        data.len() == h * row_len(rect, bpp),
        forall|r: int|
            0 <= r < h ==> #[trigger] g.subrange(
                row_start(rect, line_length, bpp, r),
                row_start(rect, line_length, bpp, r) + row_len(rect, bpp),
            ) == data.subrange(r * row_len(rect, bpp), (r + 1) * row_len(rect, bpp)),
    ensures
        region_bytes(g, rect, line_length, bpp, h) == data,
{
    let len = row_len(rect, bpp);
    lemma_region_bytes_rows(g, rect, line_length, bpp, h, 0);
    assert forall|i: int| 0 <= i < data.len() implies region_bytes(g, rect, line_length, bpp, h)[i]
        == data[i] by {
        let r = i / len;
        assert(len > 0) by (nonlinear_arith)
            requires
                data.len() == h * len,
                data.len() > 0,
                len >= 0,
        ;
        assert(0 <= r < h && r * len <= i < (r + 1) * len) by (nonlinear_arith)
            requires
                r == i / len,
                len > 0,
                0 <= i < h * len,
        ;
        lemma_region_bytes_rows(g, rect, line_length, bpp, h, r);
        lemma_row_within(rect, line_length, bpp, r);
        assert((r + 1) * len <= h * len) by (nonlinear_arith)
            requires
                r + 1 <= h,
                len >= 0,
        ;
        assert((r + 1) * len == r * len + len) by (nonlinear_arith);
        let rs = row_start(rect, line_length, bpp, r);
        assert(g.subrange(rs, rs + len) == data.subrange(r * len, (r + 1) * len));
        assert(region_bytes(g, rect, line_length, bpp, h).subrange(r * len, (r + 1) * len)[i - r * len]
            == data.subrange(r * len, (r + 1) * len)[i - r * len]);
    }
    assert(region_bytes(g, rect, line_length, bpp, h) =~= data);
}

/// Byte `p` lies in one of the first `rows` rows of `rect`.
pub open spec fn in_rows(rect: mxcfb_rect, line_length: int, bpp: int, rows: int, p: int) -> bool {
    exists|j: int|
        #![trigger row_start(rect, line_length, bpp, j)]
        0 <= j < rows && row_start(rect, line_length, bpp, j) <= p < row_start(rect, line_length, bpp, j)
            + row_len(rect, bpp)
}

/// Restoring into `f1` the first `rows` rows of a dump of `f0`: every byte
/// those rows cover then holds what it held in `f0`, whichever row wrote it
/// last, and every other byte what it held in `f1`.
proof fn lemma_restored_dump_bytes(
    f0: Seq<u8>,
    f1: Seq<u8>,
    rect: mxcfb_rect,
    line_length: int,
    bpp: int,
    rows: int,
)
    requires
        0 <= rows <= rect.height,
        line_length >= 0,
        bpp >= 0,
        row_start(rect, line_length, bpp, rect.height - 1) + row_len(rect, bpp) <= f0.len(),
        f1.len() == f0.len(),
    ensures
        restored_frame(
            f1,
            region_bytes(f0, rect, line_length, bpp, rect.height as int),
            rect,
            line_length,
            bpp,
            rows,
        ).len() == f1.len(),
        forall|p: int|
            0 <= p < f1.len() ==> #[trigger] restored_frame(
                f1,
                region_bytes(f0, rect, line_length, bpp, rect.height as int),
                rect,
                line_length,
                bpp,
                rows,
            )[p] == if in_rows(rect, line_length, bpp, rows, p) {
                f0[p]
            } else {
                f1[p]
            },
    decreases rows,
{
    let h = rect.height as int;
    let data = region_bytes(f0, rect, line_length, bpp, h);
    let len = row_len(rect, bpp);
    if rows == 0 {
        assert forall|p: int| 0 <= p < f1.len() implies !in_rows(rect, line_length, bpp, rows, p) by {}
    } else {
        lemma_restored_dump_bytes(f0, f1, rect, line_length, bpp, rows - 1);
        lemma_region_bytes_rows(f0, rect, line_length, bpp, h, rows - 1);
        lemma_row_within(rect, line_length, bpp, rows - 1);
        assert(rows * len <= h * len) by (nonlinear_arith)
            requires
                rows <= h,
                len >= 0,
        ;
        assert((rows - 1) * len + len == rows * len) by (nonlinear_arith);
        assert(0 <= (rows - 1) * len) by (nonlinear_arith)
            requires
                rows >= 1,
                len >= 0,
        ;
        lemma_restored_len(f1, data, rect, line_length, bpp, rows - 1);
        lemma_restored_len(f1, data, rect, line_length, bpp, rows);
        let f = restored_frame(f1, data, rect, line_length, bpp, rows - 1);
        let start = row_start(rect, line_length, bpp, rows - 1);
        let from = (rows - 1) * len;
        let g = restored_frame(f1, data, rect, line_length, bpp, rows);
        assert(g == f.subrange(0, start) + data.subrange(from, from + len) + f.subrange(
            start + len,
            f.len() as int,
        ));
        assert(data.subrange(from, from + len) == f0.subrange(start, start + len));
        assert forall|p: int| 0 <= p < f1.len() implies #[trigger] g[p] == if in_rows(
            rect,
            line_length,
            bpp,
            rows,
            p,
        ) {
            f0[p]
        } else {
            f1[p]
        } by {
            if start <= p < start + len {
                assert(g[p] == data.subrange(from, from + len)[p - start]);
                assert(f0.subrange(start, start + len)[p - start] == f0[p]);
                assert(in_rows(rect, line_length, bpp, rows, p));
            } else {
                assert(g[p] == f[p]);
                if in_rows(rect, line_length, bpp, rows, p) {
                    let j = choose|j: int|
                        #![trigger row_start(rect, line_length, bpp, j)]
                        0 <= j < rows && row_start(rect, line_length, bpp, j) <= p < row_start(
                            rect,
                            line_length,
                            bpp,
                            j,
                        ) + row_len(rect, bpp);
                    assert(j != rows - 1);
                    assert(in_rows(rect, line_length, bpp, rows - 1, p));
                } else {
                    assert(!in_rows(rect, line_length, bpp, rows - 1, p));
                }
            }
        }
    }
}

/// Dumping a region, restoring what was dumped into any frame of the same
/// size, and dumping again gives the first dump back, whether or not rows of
/// the region overlap in the frame; the bytes outside the region's rows keep
/// what that frame held.
pub proof fn lemma_dump_restore_dump(
    f0: Seq<u8>,
    f1: Seq<u8>,
    rect: mxcfb_rect,
    line_length: int,
    bpp: int,
)
    requires
        rect.height > 0,
        line_length >= 0,
        bpp >= 0,
        row_start(rect, line_length, bpp, rect.height - 1) + row_len(rect, bpp) <= f0.len(),
        f1.len() == f0.len(),
    ensures
        ({
            let data = region_bytes(f0, rect, line_length, bpp, rect.height as int);
            let g = restored_frame(f1, data, rect, line_length, bpp, rect.height as int);
            &&& region_bytes(g, rect, line_length, bpp, rect.height as int) == data
            &&& g.len() == f1.len()
            &&& forall|p: int|
                0 <= p < f1.len() && !in_rows(rect, line_length, bpp, rect.height as int, p)
                    ==> #[trigger] g[p] == f1[p]
        }),
{
    let h = rect.height as int;
    let len = row_len(rect, bpp);
    let data = region_bytes(f0, rect, line_length, bpp, h);
    let g = restored_frame(f1, data, rect, line_length, bpp, h);
    lemma_restored_dump_bytes(f0, f1, rect, line_length, bpp, h);
    lemma_region_bytes_rows(f0, rect, line_length, bpp, h, 0);
    assert forall|r: int| 0 <= r < h implies #[trigger] g.subrange(
        row_start(rect, line_length, bpp, r),
        row_start(rect, line_length, bpp, r) + len,
    ) == data.subrange(r * len, (r + 1) * len) by {
        lemma_region_bytes_rows(f0, rect, line_length, bpp, h, r);
        lemma_row_within(rect, line_length, bpp, r);
        let rs = row_start(rect, line_length, bpp, r);
        assert forall|i: int| 0 <= i < len implies #[trigger] g.subrange(rs, rs + len)[i] == f0.subrange(
            rs,
            rs + len,
        )[i] by {
            assert(in_rows(rect, line_length, bpp, h, rs + i));
            assert(g[rs + i] == f0[rs + i]);
        }
        assert(g.subrange(rs, rs + len) =~= f0.subrange(rs, rs + len));
    }
    lemma_region_bytes_is_data(g, data, rect, line_length, bpp, h);
}

} // verus!
