use vstd::prelude::*;

verus! {

/// Bitfield which is a part of VarScreeninfo.
#[derive(Clone, Copy, Debug, PartialEq, Eq, Structural)]
pub struct Bitfield {
    pub offset: u32,
    pub length: u32,
    pub msb_right: u32,
}

impl Default for Bitfield {
    fn default() -> (b: Bitfield)
        ensures
            b == (Bitfield { offset: 0, length: 0, msb_right: 0 }),
    {
        Bitfield { offset: 0, length: 0, msb_right: 0 }
    }
}

/// Struct as defined in /usr/include/linux/fb.h
#[derive(Clone, Copy, Debug)]
pub struct VarScreeninfo {
    pub xres: u32,
    pub yres: u32,
    pub xres_virtual: u32,
    pub yres_virtual: u32,
    pub xoffset: u32,
    pub yoffset: u32,
    pub bits_per_pixel: u32,
    pub grayscale: u32,
    pub red: Bitfield,
    pub green: Bitfield,
    pub blue: Bitfield,
    pub transp: Bitfield,
    pub nonstd: u32,
    pub activate: u32,
    pub height: u32,
    pub width: u32,
    pub accel_flags: u32,
    pub pixclock: u32,
    pub left_margin: u32,
    pub right_margin: u32,
    pub upper_margin: u32,
    pub lower_margin: u32,
    pub hsync_len: u32,
    pub vsync_len: u32,
    pub sync: u32,
    pub vmode: u32,
    pub rotate: u32,
    pub colorspace: u32,
    pub reserved: [u32; 4],
}

impl VarScreeninfo {
    /// Every field zero.
    pub open spec fn is_zero(self) -> bool {
        let zb = Bitfield { offset: 0, length: 0, msb_right: 0 };
        &&& self.xres == 0 && self.yres == 0 && self.xres_virtual == 0 && self.yres_virtual == 0
        &&& self.xoffset == 0 && self.yoffset == 0 && self.bits_per_pixel == 0 && self.grayscale == 0
        &&& self.red == zb && self.green == zb && self.blue == zb && self.transp == zb
        &&& self.nonstd == 0 && self.activate == 0 && self.height == 0 && self.width == 0
        &&& self.accel_flags == 0 && self.pixclock == 0 && self.left_margin == 0
        &&& self.right_margin == 0 && self.upper_margin == 0 && self.lower_margin == 0
        &&& self.hsync_len == 0 && self.vsync_len == 0 && self.sync == 0 && self.vmode == 0
        &&& self.rotate == 0 && self.colorspace == 0
        &&& self.reserved@ == seq![0u32, 0u32, 0u32, 0u32]
    }

    /// The mode that the display of the tablet is driven in: 1404x1872,
    /// rotated, with its timings.
    pub open spec fn spec_display_mode(self) -> VarScreeninfo {
        VarScreeninfo {
            xres: 1404,
            yres: 1872,
            rotate: 1,
            width: 0xffff_ffff,
            height: 0xffff_ffff,
            pixclock: 6250,
            left_margin: 32,
            right_margin: 326,
            upper_margin: 4,
            lower_margin: 12,
            hsync_len: 44,
            vsync_len: 1,
            sync: 0,
            vmode: 0,
            accel_flags: 0,
            ..self
        }
    }

    /// The screen info with the display's resolution and timings set, the
    /// other fields as the driver reported them.
    pub fn display_mode(&self) -> (r: VarScreeninfo)
        ensures
            r == self.spec_display_mode(),
    {
        let mut var_screen_info = *self;
        var_screen_info.xres = 1404;
        var_screen_info.yres = 1872;
        var_screen_info.rotate = 1;
        var_screen_info.width = 0xffff_ffff;
        var_screen_info.height = 0xffff_ffff;
        var_screen_info.pixclock = 6250;
        var_screen_info.left_margin = 32;
        var_screen_info.right_margin = 326;
        var_screen_info.upper_margin = 4;
        var_screen_info.lower_margin = 12;
        var_screen_info.hsync_len = 44;
        var_screen_info.vsync_len = 1;
        var_screen_info.sync = 0;
        var_screen_info.vmode = 0;  // FB_VMODE_NONINTERLACED
        var_screen_info.accel_flags = 0;
        var_screen_info
    }
}

impl Default for VarScreeninfo {
    fn default() -> (v: VarScreeninfo)
        ensures
            v.is_zero(),
    {
        VarScreeninfo {
            xres: 0,
            yres: 0,
            xres_virtual: 0,
            yres_virtual: 0,
            xoffset: 0,
            yoffset: 0,
            bits_per_pixel: 0,
            grayscale: 0,
            red: Bitfield::default(),
            green: Bitfield::default(),
            blue: Bitfield::default(),
            transp: Bitfield::default(),
            nonstd: 0,
            activate: 0,
            height: 0,
            width: 0,
            accel_flags: 0,
            pixclock: 0,
            left_margin: 0,
            right_margin: 0,
            upper_margin: 0,
            lower_margin: 0,
            hsync_len: 0,
            vsync_len: 0,
            sync: 0,
            vmode: 0,
            rotate: 0,
            colorspace: 0,
            reserved: [0, 0, 0, 0],
        }
    }
}

/// Struct as defined in /usr/include/linux/fb.h Note: type is a keyword in Rust and therefore has been
/// changed to fb_type.
#[derive(Clone, Copy, Debug)]
pub struct FixScreeninfo {
    pub id: [u8; 16],
    pub smem_start: usize,
    pub smem_len: u32,
    pub fb_type: u32,
    pub type_aux: u32,
    pub visual: u32,
    pub xpanstep: u16,
    pub ypanstep: u16,
    pub ywrapstep: u16,
    pub line_length: u32,
    pub mmio_start: usize,
    pub mmio_len: u32,
    pub accel: u32,
    pub capabilities: u16,
    pub reserved: [u16; 2],
}

impl FixScreeninfo {
    /// Every field zero.
    pub open spec fn is_zero(self) -> bool {
        &&& self.id@ == Seq::new(16, |i: int| 0u8)
        &&& self.smem_start == 0 && self.smem_len == 0 && self.fb_type == 0 && self.type_aux == 0
        &&& self.visual == 0 && self.xpanstep == 0 && self.ypanstep == 0 && self.ywrapstep == 0
        &&& self.line_length == 0 && self.mmio_start == 0 && self.mmio_len == 0 && self.accel == 0
        &&& self.capabilities == 0
        &&& self.reserved@ == seq![0u16, 0u16]
    }
}

impl Default for FixScreeninfo {
    fn default() -> (f: FixScreeninfo)
        ensures
            f.is_zero(),
    {
        let f = FixScreeninfo {
            id: [0, 0, 0, 0, 0, 0, 0, 0, 0, 0, 0, 0, 0, 0, 0, 0],
            smem_start: 0,
            smem_len: 0,
            fb_type: 0,
            type_aux: 0,
            visual: 0,
            xpanstep: 0,
            ypanstep: 0,
            ywrapstep: 0,
            line_length: 0,
            mmio_start: 0,
            mmio_len: 0,
            accel: 0,
            capabilities: 0,
            reserved: [0, 0],
        };
        assert(f.id@ =~= Seq::new(16, |i: int| 0u8));
        assert(f.reserved@ =~= seq![0u16, 0u16]);
        f
    }
}

/// The length in bytes of the memory that holds one frame.
pub fn frame_length(fix: &FixScreeninfo, var: &VarScreeninfo) -> (n: usize)
    requires
        fix.line_length * var.yres <= u32::MAX,
    ensures
        n == fix.line_length * var.yres,
{
    (fix.line_length * var.yres) as usize
}

/// The bitfield layout as the kernel defines it.
#[derive(Clone, Copy, Debug, PartialEq, Eq, Structural)]
pub struct fb_bitfield {
    /// beginning of bitfield
    pub offset: u32,
    /// length of bitfield
    pub length: u32,
    /// != 0 : Most significant bit is right
    pub msb_right: u32,
}

/// The variable screen info as the kernel defines it.
#[derive(Clone, Copy, Debug)]
pub struct fb_var_screeninfo {
    /// visible resolution
    pub xres: u32,
    pub yres: u32,
    /// virtual resolution
    pub xres_virtual: u32,
    pub yres_virtual: u32,
    /// offset from virtual to visible
    pub xoffset: u32,
    pub yoffset: u32,
    /// resolution
    pub bits_per_pixel: u32,
    /// 0 = color, 1 = grayscale,  >1 = FOURCC
    pub grayscale: u32,
    /// bitfield in fb mem if true color,
    /// else only length is significant
    pub red: fb_bitfield,
    pub green: fb_bitfield,
    pub blue: fb_bitfield,
    pub transp: fb_bitfield,
    /// != 0 Non standard pixel format
    pub nonstd: u32,
    /// see FB_ACTIVATE_*
    pub activate: u32,
    /// height of picture in mm
    pub height: u32,
    /// width of picture in mm
    pub width: u32,
    /// (OBSOLETE) see fb_info.flags
    pub accel_flags: u32,
    /// Timing: All values in pixclocks, except pixclock (of course)
    /// pixel clock in ps (pico seconds)
    pub pixclock: u32,
    /// time from sync to picture
    pub left_margin: u32,
    /// time from picture to sync
    pub right_margin: u32,
    /// time from sync to picture
    pub upper_margin: u32,
    pub lower_margin: u32,
    /// length of horizontal sync
    pub hsync_len: u32,
    /// length of vertical sync
    pub vsync_len: u32,
    /// see FB_SYNC_*
    pub sync: u32,
    /// see FB_VMODE_*
    pub vmode: u32,
    /// angle we rotate counter clockwise
    pub rotate: u32,
    /// colorspace for FOURCC-based modes
    pub colorspace: u32,
    /// Reserved for future compatibility
    pub reserved: [u32; 4],
}

} // verus!
