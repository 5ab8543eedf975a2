use libremarkable::framebuffer::io::{dump_region, pixel_offset, read_pixel, restore_region, write_pixel};
use libremarkable::framebuffer::mxcfb::mxcfb_rect;
use libremarkable::framebuffer::screeninfo::{frame_length, FixScreeninfo, VarScreeninfo};
use libremarkable::framebuffer::storage::CompressedCanvasState;

/// A 4x3 screen of 2 bytes per pixel, 8 bytes per row.
fn screen() -> (VarScreeninfo, FixScreeninfo) {
    let mut var = VarScreeninfo::default();
    var.xres = 4;
    var.yres = 3;
    var.bits_per_pixel = 16;
    var.width = 4;
    var.height = 3;
    let mut fix = FixScreeninfo::default();
    fix.line_length = 8;
    (var, fix)
}

fn frame() -> Vec<u8> {
    (0u8..24).collect()
}

#[test]
fn pixel_offsets() {
    let (var, fix) = screen();
    assert_eq!(pixel_offset(&var, &fix, 0, 0, 24), Some(0));
    assert_eq!(pixel_offset(&var, &fix, 2, 3, 24), Some(22));
    assert_eq!(pixel_offset(&var, &fix, 3, 0, 24), None);
    assert_eq!(pixel_offset(&var, &fix, 0, 4, 24), None);
    assert_eq!(frame_length(&fix, &var), 24);
}

#[test]
fn write_then_read_pixel() {
    let (var, fix) = screen();
    let mut f = frame();
    write_pixel(&mut f, &var, &fix, 1, 2, [0xAB, 0xCD]);
    assert_eq!(f[12], 0xAB);
    assert_eq!(f[13], 0xCD);
    assert_eq!(read_pixel(&f, &var, &fix, 1, 2), Some([0xAB, 0xCD]));
    // off screen: nothing written, nothing read
    let before = f.clone();
    write_pixel(&mut f, &var, &fix, 3, 0, [1, 1]);
    assert_eq!(f, before);
    assert_eq!(read_pixel(&f, &var, &fix, 0, 9), None);
}

#[test]
fn dump_region_rows() {
    let (var, fix) = screen();
    let f = frame();
    let rect = mxcfb_rect { top: 1, left: 1, width: 2, height: 2 };
    assert_eq!(dump_region(&f, &var, &fix, &rect), Ok(vec![10, 11, 12, 13, 18, 19, 20, 21]));
}

#[test]
fn dump_region_errors() {
    let (var, fix) = screen();
    let f = frame();
    assert_eq!(
        dump_region(&f, &var, &fix, &mxcfb_rect { top: 0, left: 0, width: 0, height: 2 }),
        Err("Unable to dump a region with zero height/width")
    );
    assert_eq!(
        dump_region(&f, &var, &fix, &mxcfb_rect { top: 2, left: 0, width: 1, height: 2 }),
        Err("Vertically out of bounds")
    );
    assert_eq!(
        dump_region(&f, &var, &fix, &mxcfb_rect { top: 0, left: 3, width: 2, height: 1 }),
        Err("Horizontally out of bounds")
    );
}

#[test]
fn restore_region_writes_rows() {
    let (var, fix) = screen();
    let mut f = vec![0u8; 24];
    let rect = mxcfb_rect { top: 1, left: 1, width: 2, height: 2 };
    let data = [1, 2, 3, 4, 5, 6, 7, 8];
    assert_eq!(restore_region(&mut f, &var, &fix, &rect, &data), Ok(8));
    assert_eq!(&f[10..14], &[1, 2, 3, 4]);
    assert_eq!(&f[18..22], &[5, 6, 7, 8]);
    assert_eq!(f[9], 0);
    assert_eq!(dump_region(&f, &var, &fix, &rect), Ok(data.to_vec()));
}

#[test]
fn restore_region_errors() {
    let (var, fix) = screen();
    let mut f = frame();
    let rect = mxcfb_rect { top: 1, left: 1, width: 2, height: 2 };
    assert_eq!(
        restore_region(&mut f, &var, &fix, &rect, &[1, 2, 3]),
        Err("Cannot restore region due to mismatched size")
    );
    assert_eq!(
        restore_region(&mut f, &var, &fix, &mxcfb_rect { top: 0, left: 0, width: 2, height: 0 }, &[]),
        Err("Unable to restore a region with zero height/width")
    );
    assert_eq!(f, frame());
}

#[test]
fn restoring_a_dump_changes_nothing() {
    let (var, fix) = screen();
    let mut f = frame();
    let rect = mxcfb_rect { top: 0, left: 1, width: 3, height: 3 };
    let dumped = dump_region(&f, &var, &fix, &rect).unwrap();
    assert_eq!(restore_region(&mut f, &var, &fix, &rect, &dumped), Ok(18));
    assert_eq!(f, frame());
}

#[test]
fn compressed_canvas_roundtrip() {
    let (var, fix) = screen();
    let f = frame();
    let rect = mxcfb_rect { top: 0, left: 0, width: 4, height: 3 };
    let dumped = dump_region(&f, &var, &fix, &rect).unwrap();
    let state = CompressedCanvasState::new(&dumped, 3, 4);
    assert_eq!(state.decompress(), dumped);
    let big = vec![7u8; 100_000];
    let s2 = CompressedCanvasState::new(&big, 1, 1);
    assert_eq!(s2.clone().decompress(), big);
    assert_eq!(CompressedCanvasState::new(&[], 0, 0).decompress(), Vec::<u8>::new());
}

#[test]
fn display_mode_sets_resolution() {
    let (var, _) = screen();
    let m = var.display_mode();
    assert_eq!(m.xres, 1404);
    assert_eq!(m.yres, 1872);
    assert_eq!(m.rotate, 1);
    assert_eq!(m.pixclock, 6250);
    assert_eq!(m.width, 0xffff_ffff);
    assert_eq!(m.bits_per_pixel, 16);
}

#[test]
fn round_trip_with_overlapping_rows() {
    // rows of 12 bytes in lines of 8: each row runs into the next line
    let (mut var, fix) = screen();
    var.width = 10;
    let rect = mxcfb_rect { top: 0, left: 0, width: 6, height: 2 };
    let f0 = frame();
    let d = dump_region(&f0, &var, &fix, &rect).unwrap();
    assert_eq!(d.len(), 24);
    let mut f1 = vec![0xEEu8; 24];
    assert_eq!(restore_region(&mut f1, &var, &fix, &rect, &d), Ok(24));
    assert_eq!(dump_region(&f1, &var, &fix, &rect).unwrap(), d);
    // the bytes past the last row keep what they held
    assert!(f1[20..].iter().all(|b| *b == 0xEE));
}
