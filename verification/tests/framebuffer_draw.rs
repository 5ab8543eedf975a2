use libremarkable::framebuffer::draw::{clear, draw_circle, fill_circle, fill_rect, layout_fits, write_pixel_at};
use libremarkable::framebuffer::io::read_pixel;
use libremarkable::framebuffer::mxcfb::mxcfb_rect;
use libremarkable::framebuffer::screeninfo::{FixScreeninfo, VarScreeninfo};
use libremarkable::geometry::{Point2, Vector2};

/// A screen of `w` by `h` pixels of 2 bytes each, rows packed.
fn screen(w: u32, h: u32) -> (VarScreeninfo, FixScreeninfo) {
    let mut var = VarScreeninfo::default();
    var.xres = w;
    var.yres = h;
    var.bits_per_pixel = 16;
    let mut fix = FixScreeninfo::default();
    fix.line_length = 2 * w;
    (var, fix)
}

/// The pixels (x, y) that hold `c`.
fn pixels_of(frame: &[u8], w: u32, h: u32, c: [u8; 2]) -> Vec<(i32, i32)> {
    let mut v = Vec::new();
    for y in 0..h {
        for x in 0..w {
            let i = (y * 2 * w + 2 * x) as usize;
            if frame[i] == c[0] && frame[i + 1] == c[1] {
                v.push((x as i32, y as i32));
            }
        }
    }
    v
}

const INK: [u8; 2] = [0x12, 0x34];

#[test]
fn clear_whitens_the_screen_lines() {
    let (var, fix) = screen(4, 3);
    let mut f = vec![0u8; 30];
    clear(&mut f, &var, &fix);
    assert!(f[..24].iter().all(|b| *b == 0xFF));
    assert!(f[24..].iter().all(|b| *b == 0));
}

#[test]
fn points_off_screen_are_skipped() {
    let (var, fix) = screen(4, 3);
    let mut f = vec![0u8; 24];
    write_pixel_at(&mut f, &var, &fix, Point2 { x: -1, y: 0 }, INK);
    write_pixel_at(&mut f, &var, &fix, Point2 { x: 0, y: 3 }, INK);
    assert!(f.iter().all(|b| *b == 0));
    write_pixel_at(&mut f, &var, &fix, Point2 { x: 3, y: 2 }, INK);
    assert_eq!(pixels_of(&f, 4, 3, INK), vec![(3, 2)]);
}

#[test]
fn fill_rect_covers_its_pixels() {
    let (var, fix) = screen(6, 5);
    let mut f = vec![0u8; 60];
    fill_rect(&mut f, &var, &fix, Point2 { x: 1, y: 2 }, Vector2 { x: 3, y: 2 }, INK);
    assert_eq!(pixels_of(&f, 6, 5, INK), vec![(1, 2), (2, 2), (3, 2), (1, 3), (2, 3), (3, 3)]);
    // clipped at the edges, negative corner included
    let mut g = vec![0u8; 60];
    fill_rect(&mut g, &var, &fix, Point2 { x: -2, y: 4 }, Vector2 { x: 3, y: 5 }, INK);
    assert_eq!(pixels_of(&g, 6, 5, INK), vec![(0, 4)]);
    // an empty size fills nothing
    let mut e = vec![0u8; 60];
    fill_rect(&mut e, &var, &fix, Point2 { x: 1, y: 1 }, Vector2 { x: 0, y: 3 }, INK);
    assert!(e.iter().all(|b| *b == 0));
}

#[test]
fn fill_circle_covers_the_disc() {
    let (var, fix) = screen(7, 7);
    let mut f = vec![0u8; 98];
    let r = fill_circle(&mut f, &var, &fix, Point2 { x: 3, y: 3 }, 1, INK);
    assert_eq!(r, mxcfb_rect { top: 2, left: 2, width: 2, height: 2 });
    assert_eq!(pixels_of(&f, 7, 7, INK), vec![(3, 2), (2, 3), (3, 3), (4, 3), (3, 4)]);
    let mut g = vec![0u8; 98];
    fill_circle(&mut g, &var, &fix, Point2 { x: 3, y: 3 }, 2, INK);
    let painted = pixels_of(&g, 7, 7, INK);
    assert_eq!(painted.len(), 13);
    for (x, y) in painted {
        assert!((x - 3) * (x - 3) + (y - 3) * (y - 3) <= 4);
    }
}

#[test]
fn draw_circle_outline() {
    let (var, fix) = screen(7, 7);
    let mut f = vec![0u8; 98];
    let r = draw_circle(&mut f, &var, &fix, Point2 { x: 3, y: 3 }, 1, INK);
    assert_eq!(r, mxcfb_rect { top: 2, left: 2, width: 2, height: 2 });
    // the four neighbours, not the centre
    assert_eq!(pixels_of(&f, 7, 7, INK), vec![(3, 2), (2, 3), (4, 3), (3, 4)]);
    let mut g = vec![0u8; 98];
    draw_circle(&mut g, &var, &fix, Point2 { x: 3, y: 3 }, 3, INK);
    let outline = pixels_of(&g, 7, 7, INK);
    assert!(outline.contains(&(0, 3)) && outline.contains(&(6, 3)) && outline.contains(&(3, 0)) && outline.contains(&(3, 6)));
    assert!(!outline.contains(&(3, 3)));
}

#[test]
fn frame_layouts() {
    let (var, fix) = screen(4, 3);
    assert!(layout_fits(&var, &fix, 24));
    assert!(!layout_fits(&var, &fix, 23));
    let mut narrow = fix;
    narrow.line_length = 7;
    assert!(!layout_fits(&var, &narrow, 24));
    let mut bytes = var;
    bytes.bits_per_pixel = 8;
    assert!(!layout_fits(&bytes, &fix, 24));
}

#[test]
fn read_after_write() {
    let (var, fix) = screen(4, 3);
    let mut f: Vec<u8> = (0u8..24).collect();
    let before = read_pixel(&f, &var, &fix, 1, 2);
    write_pixel_at(&mut f, &var, &fix, Point2 { x: 1, y: 1 }, INK);
    assert_eq!(read_pixel(&f, &var, &fix, 1, 1), Some(INK));
    // the neighbours keep what they held
    assert_eq!(read_pixel(&f, &var, &fix, 1, 2), before);
    assert_eq!(read_pixel(&f, &var, &fix, 1, 0), Some([8, 9]));
}
