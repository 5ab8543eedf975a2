use vstd::prelude::*;

verus! {

// ioctl request numbers of the framebuffer and of the EPD controller.
pub const MXCFB_SET_AUTO_UPDATE_MODE: u32 = 0x4004_462D;
pub const MXCFB_SET_UPDATE_SCHEME: u32 = 0x4004_4632;
pub const MXCFB_SEND_UPDATE: u32 = 0x4048_462E;
pub const MXCFB_WAIT_FOR_UPDATE_COMPLETE: u32 = 0xC008_462F;
pub const MXCFB_DISABLE_EPDC_ACCESS: u32 = 0x4635;
pub const MXCFB_ENABLE_EPDC_ACCESS: u32 = 0x4636;
pub const FBIOPUT_VSCREENINFO: u32 = 0x4601;
pub const FBIOGET_VSCREENINFO: u32 = 0x4600;
pub const FBIOGET_FSCREENINFO: u32 = 0x4602;
pub const FBIOGETCMAP: u32 = 0x4604;
pub const FBIOPUTCMAP: u32 = 0x4605;
pub const FBIOPAN_DISPLAY: u32 = 0x4606;
pub const FBIO_CURSOR: u32 = 0x4608;

/// The ioctl encoding of the kernel: direction, size of the argument, type and number.
pub open spec fn ioc(dir: u32, ty: u32, nr: u32, size: u32) -> u32 {
    (dir << 30u32) | (size << 16u32) | (ty << 8u32) | nr
}

/// The request numbers above are the kernel's encodings of the EPD
/// controller's commands on type 'F': writes of a `u32`, of a 72-byte
/// `mxcfb_update_data`, a read-write of an 8-byte `mxcfb_update_marker_data`,
/// and two commands without argument.
pub proof fn lemma_request_numbers()
    ensures
        MXCFB_SET_AUTO_UPDATE_MODE == ioc(1, 0x46, 0x2D, 4),
        MXCFB_SET_UPDATE_SCHEME == ioc(1, 0x46, 0x32, 4),
        MXCFB_SEND_UPDATE == ioc(1, 0x46, 0x2E, 72),
        MXCFB_WAIT_FOR_UPDATE_COMPLETE == ioc(3, 0x46, 0x2F, 8),
        MXCFB_DISABLE_EPDC_ACCESS == ioc(0, 0x46, 0x35, 0),
        MXCFB_ENABLE_EPDC_ACCESS == ioc(0, 0x46, 0x36, 0),
{
    assert(0x4004_462Du32 == (1u32 << 30u32) | (4u32 << 16u32) | (0x46u32 << 8u32) | 0x2Du32) by (bit_vector);
    assert(0x4004_4632u32 == (1u32 << 30u32) | (4u32 << 16u32) | (0x46u32 << 8u32) | 0x32u32) by (bit_vector);
    assert(0x4048_462Eu32 == (1u32 << 30u32) | (72u32 << 16u32) | (0x46u32 << 8u32) | 0x2Eu32) by (bit_vector);
    assert(0xC008_462Fu32 == (3u32 << 30u32) | (8u32 << 16u32) | (0x46u32 << 8u32) | 0x2Fu32) by (bit_vector);
    assert(0x4635u32 == (0u32 << 30u32) | (0u32 << 16u32) | (0x46u32 << 8u32) | 0x35u32) by (bit_vector);
    assert(0x4636u32 == (0u32 << 30u32) | (0u32 << 16u32) | (0x46u32 << 8u32) | 0x36u32) by (bit_vector);
}

// Flags of a refresh request.
/// Enables PXP_LUT_INVERT transform on the buffer
pub const EPDC_FLAG_ENABLE_INVERSION: u32 = 0x0001;
/// Enables PXP_LUT_BLACK_WHITE transform on the buffer
pub const EPDC_FLAG_FORCE_MONOCHROME: u32 = 0x0002;
/// Enables PXP_USE_CMAP transform on the buffer
pub const EPDC_FLAG_USE_CMAP: u32 = 0x0004;
/// This is basically double buffering. We give it the bitmap we want to
/// update, it swaps them.
pub const EPDC_FLAG_USE_ALT_BUFFER: u32 = 0x0100;
/// An update won't be merged upon a conflict in case of a collision if
/// either update has this flag set, unless they are identical regions (same y,x,h,w)
pub const EPDC_FLAG_TEST_COLLISION: u32 = 0x0200;
pub const EPDC_FLAG_GROUP_UPDATE: u32 = 0x0400;

/// xochitl tends to draw with this
pub const DRAWING_QUANT_BIT: i32 = 0x76143b24;

pub const REMARKABLE_DARKEST: u8 = 0x00;
pub const REMARKABLE_BRIGHTEST: u8 = 0xFF;

#[derive(Clone, Copy, Debug, PartialEq, Eq, Structural)]
pub enum auto_update_mode {
    AUTO_UPDATE_MODE_REGION_MODE,
    AUTO_UPDATE_MODE_AUTOMATIC_MODE,
}

impl auto_update_mode {
    /// The number the driver knows the mode by.
    pub fn value(&self) -> (v: u32)
        ensures
            *self == auto_update_mode::AUTO_UPDATE_MODE_REGION_MODE ==> v == 0,
            *self == auto_update_mode::AUTO_UPDATE_MODE_AUTOMATIC_MODE ==> v == 1,
    {
        match self {
            auto_update_mode::AUTO_UPDATE_MODE_REGION_MODE => 0,
            auto_update_mode::AUTO_UPDATE_MODE_AUTOMATIC_MODE => 1,
        }
    }
}

#[derive(Clone, Copy, Debug, PartialEq, Eq, Structural)]
pub enum update_scheme {
    UPDATE_SCHEME_SNAPSHOT,
    UPDATE_SCHEME_QUEUE,
    UPDATE_SCHEME_QUEUE_AND_MERGE,
}

impl update_scheme {
    /// The number the driver knows the scheme by.
    pub fn value(&self) -> (v: u32)
        ensures
            *self == update_scheme::UPDATE_SCHEME_SNAPSHOT ==> v == 0,
            *self == update_scheme::UPDATE_SCHEME_QUEUE ==> v == 1,
            *self == update_scheme::UPDATE_SCHEME_QUEUE_AND_MERGE ==> v == 2,
    {
        match self {
            update_scheme::UPDATE_SCHEME_SNAPSHOT => 0,
            update_scheme::UPDATE_SCHEME_QUEUE => 1,
            update_scheme::UPDATE_SCHEME_QUEUE_AND_MERGE => 2,
        }
    }
}

#[derive(Clone, Copy, Debug, PartialEq, Eq, Structural)]
pub enum update_mode {
    UPDATE_MODE_PARTIAL,
    UPDATE_MODE_FULL,
}

impl update_mode {
    pub open spec fn spec_value(self) -> u32 {
        match self {
            update_mode::UPDATE_MODE_PARTIAL => 0,
            update_mode::UPDATE_MODE_FULL => 1,
        }
    }

    /// The number the driver knows the mode by.
    pub fn value(&self) -> (v: u32)
        ensures
            v == self.spec_value(),
    {
        match self {
            update_mode::UPDATE_MODE_PARTIAL => 0,
            update_mode::UPDATE_MODE_FULL => 1,
        }
    }
}

#[derive(Clone, Copy, Debug, PartialEq, Eq, Structural)]
pub enum dither_mode {
    EPDC_FLAG_USE_DITHERING_PASSTHROUGH,
    EPDC_FLAG_USE_DITHERING_DRAWING,
    /// Dithering Processing (Version 1.0 - for i.MX508 and i.MX6SL)
    EPDC_FLAG_USE_DITHERING_Y1,
    EPDC_FLAG_USE_REMARKABLE_DITHER,
    EPDC_FLAG_USE_DITHERING_Y4,
}

impl dither_mode {
    pub open spec fn spec_value(self) -> i32 {
        match self {
            dither_mode::EPDC_FLAG_USE_DITHERING_PASSTHROUGH => 0x0,
            dither_mode::EPDC_FLAG_USE_DITHERING_DRAWING => 0x1,
            dither_mode::EPDC_FLAG_USE_DITHERING_Y1 => 0x002000,
            dither_mode::EPDC_FLAG_USE_REMARKABLE_DITHER => 0x300f30,
            dither_mode::EPDC_FLAG_USE_DITHERING_Y4 => 0x004000,
        }
    }

    /// The number the driver knows the mode by.
    pub fn value(&self) -> (v: i32)
        ensures
            v == self.spec_value(),
    {
        match self {
            dither_mode::EPDC_FLAG_USE_DITHERING_PASSTHROUGH => 0x0,
            dither_mode::EPDC_FLAG_USE_DITHERING_DRAWING => 0x1,
            dither_mode::EPDC_FLAG_USE_DITHERING_Y1 => 0x002000,
            dither_mode::EPDC_FLAG_USE_REMARKABLE_DITHER => 0x300f30,
            dither_mode::EPDC_FLAG_USE_DITHERING_Y4 => 0x004000,
        }
    }
}

#[derive(Clone, Copy, Debug, PartialEq, Eq, Structural)]
pub enum waveform_mode {
    /// Screen goes to white (clears)
    WAVEFORM_MODE_INIT,
    /// Basically A2 (so partial refresh shouldnt be possible here)
    WAVEFORM_MODE_GLR16,
    /// Official -- and enables Regal D Processing
    WAVEFORM_MODE_GLD16,
    /// [Direct Update] Grey->white/grey->black  -- remarkable uses this for drawing
    WAVEFORM_MODE_DU,
    /// High fidelity (flashing)
    WAVEFORM_MODE_GC16,
    /// Medium fidelity  -- remarkable uses this for UI
    WAVEFORM_MODE_GC16_FAST,
    /// Medium fidelity from white transition
    WAVEFORM_MODE_GL16_FAST,
    /// Medium fidelity 4 level of gray direct update
    WAVEFORM_MODE_DU4,
    /// Ghost compensation waveform
    WAVEFORM_MODE_REAGL,
    /// Ghost compensation waveform with dithering
    WAVEFORM_MODE_REAGLD,
    /// 2-bit from white transition
    WAVEFORM_MODE_GL4,
    /// High fidelity for black transition
    WAVEFORM_MODE_GL16_INV,
    /// Official
    WAVEFORM_MODE_AUTO,
}

impl waveform_mode {
    pub open spec fn spec_value(self) -> u32 {
        match self {
            waveform_mode::WAVEFORM_MODE_INIT => 0x0,
            waveform_mode::WAVEFORM_MODE_GLR16 => 0x4,
            waveform_mode::WAVEFORM_MODE_GLD16 => 0x5,
            waveform_mode::WAVEFORM_MODE_DU => 0x1,
            waveform_mode::WAVEFORM_MODE_GC16 => 0x2,
            waveform_mode::WAVEFORM_MODE_GC16_FAST => 0x3,
            waveform_mode::WAVEFORM_MODE_GL16_FAST => 0x6,
            waveform_mode::WAVEFORM_MODE_DU4 => 0x7,
            waveform_mode::WAVEFORM_MODE_REAGL => 0x8,
            waveform_mode::WAVEFORM_MODE_REAGLD => 0x9,
            waveform_mode::WAVEFORM_MODE_GL4 => 0xA,
            waveform_mode::WAVEFORM_MODE_GL16_INV => 0xB,
            waveform_mode::WAVEFORM_MODE_AUTO => 257,
        }
    }

    /// The number the driver knows the waveform by.
    pub fn value(&self) -> (v: u32)
        ensures
            v == self.spec_value(),
    {
        match self {
            waveform_mode::WAVEFORM_MODE_INIT => 0x0,
            waveform_mode::WAVEFORM_MODE_GLR16 => 0x4,
            waveform_mode::WAVEFORM_MODE_GLD16 => 0x5,
            waveform_mode::WAVEFORM_MODE_DU => 0x1,
            waveform_mode::WAVEFORM_MODE_GC16 => 0x2,
            waveform_mode::WAVEFORM_MODE_GC16_FAST => 0x3,
            waveform_mode::WAVEFORM_MODE_GL16_FAST => 0x6,
            waveform_mode::WAVEFORM_MODE_DU4 => 0x7,
            waveform_mode::WAVEFORM_MODE_REAGL => 0x8,
            waveform_mode::WAVEFORM_MODE_REAGLD => 0x9,
            waveform_mode::WAVEFORM_MODE_GL4 => 0xA,
            waveform_mode::WAVEFORM_MODE_GL16_INV => 0xB,
            waveform_mode::WAVEFORM_MODE_AUTO => 257,
        }
    }
}

#[derive(Clone, Copy, Debug, PartialEq, Eq, Structural)]
pub enum display_temp {
    TEMP_USE_AMBIENT,
    TEMP_USE_PAPYRUS,
    TEMP_USE_REMARKABLE_DRAW,
    TEMP_USE_MAX,
}

impl display_temp {
    pub open spec fn spec_value(self) -> i32 {
        match self {
            display_temp::TEMP_USE_AMBIENT => 0x1000,
            display_temp::TEMP_USE_PAPYRUS => 0x1001,
            display_temp::TEMP_USE_REMARKABLE_DRAW => 0x0018,
            display_temp::TEMP_USE_MAX => 0xFFFF,
        }
    }

    /// The number the driver knows the temperature setting by.
    pub fn value(&self) -> (v: i32)
        ensures
            v == self.spec_value(),
    {
        match self {
            display_temp::TEMP_USE_AMBIENT => 0x1000,
            display_temp::TEMP_USE_PAPYRUS => 0x1001,
            display_temp::TEMP_USE_REMARKABLE_DRAW => 0x0018,
            display_temp::TEMP_USE_MAX => 0xFFFF,
        }
    }
}

/// The commands of the EPD controller, by their number.
#[derive(Clone, Copy, Debug, PartialEq, Eq, Structural)]
pub enum mxcfb_ioctl {
    MXCFB_NONE,
    /// takes struct mxcfb_waveform_modes
    MXCFB_SET_WAVEFORM_MODES,
    /// takes int32_t
    MXCFB_SET_TEMPERATURE,
    /// takes __u32
    MXCFB_SET_AUTO_UPDATE_MODE,
    /// takes struct mxcfb_update_data
    MXCFB_SEND_UPDATE,
    /// takes struct mxcfb_update_marker_data
    MXCFB_WAIT_FOR_UPDATE_COMPLETE,
    /// takes int32_t
    MXCFB_SET_PWRDOWN_DELAY,
    /// takes int32_t
    MXCFB_GET_PWRDOWN_DELAY,
    /// takes __u32
    MXCFB_SET_UPDATE_SCHEME,
    /// takes unsigned long
    MXCFB_GET_WORK_BUFFER,
    MXCFB_DISABLE_EPDC_ACCESS,
    MXCFB_ENABLE_EPDC_ACCESS,
}

impl mxcfb_ioctl {
    pub open spec fn spec_number(self) -> u8 {
        match self {
            mxcfb_ioctl::MXCFB_NONE => 0x00,
            mxcfb_ioctl::MXCFB_SET_WAVEFORM_MODES => 0x2B,
            mxcfb_ioctl::MXCFB_SET_TEMPERATURE => 0x2C,
            mxcfb_ioctl::MXCFB_SET_AUTO_UPDATE_MODE => 0x2D,
            mxcfb_ioctl::MXCFB_SEND_UPDATE => 0x2E,
            mxcfb_ioctl::MXCFB_WAIT_FOR_UPDATE_COMPLETE => 0x2F,
            mxcfb_ioctl::MXCFB_SET_PWRDOWN_DELAY => 0x30,
            mxcfb_ioctl::MXCFB_GET_PWRDOWN_DELAY => 0x31,
            mxcfb_ioctl::MXCFB_SET_UPDATE_SCHEME => 0x32,
            mxcfb_ioctl::MXCFB_GET_WORK_BUFFER => 0x34,
            mxcfb_ioctl::MXCFB_DISABLE_EPDC_ACCESS => 0x35,
            mxcfb_ioctl::MXCFB_ENABLE_EPDC_ACCESS => 0x36,
        }
    }

    /// The command number in the low byte of a request.
    pub fn number(&self) -> (n: u8)
        ensures
            n == self.spec_number(),
    {
        match self {
            mxcfb_ioctl::MXCFB_NONE => 0x00,
            mxcfb_ioctl::MXCFB_SET_WAVEFORM_MODES => 0x2B,
            mxcfb_ioctl::MXCFB_SET_TEMPERATURE => 0x2C,
            mxcfb_ioctl::MXCFB_SET_AUTO_UPDATE_MODE => 0x2D,
            mxcfb_ioctl::MXCFB_SEND_UPDATE => 0x2E,
            mxcfb_ioctl::MXCFB_WAIT_FOR_UPDATE_COMPLETE => 0x2F,
            mxcfb_ioctl::MXCFB_SET_PWRDOWN_DELAY => 0x30,
            mxcfb_ioctl::MXCFB_GET_PWRDOWN_DELAY => 0x31,
            mxcfb_ioctl::MXCFB_SET_UPDATE_SCHEME => 0x32,
            mxcfb_ioctl::MXCFB_GET_WORK_BUFFER => 0x34,
            mxcfb_ioctl::MXCFB_DISABLE_EPDC_ACCESS => 0x35,
            mxcfb_ioctl::MXCFB_ENABLE_EPDC_ACCESS => 0x36,
        }
    }

    /// The command that a request is, told by its low byte; a byte that
    /// names no command gives `MXCFB_NONE`.
    pub fn from_request(request: u32) -> (c: mxcfb_ioctl)
        ensures
            c.spec_number() == (request & 0xff) as u8 || (c == mxcfb_ioctl::MXCFB_NONE && forall|
                d: mxcfb_ioctl,
            | d.spec_number() != (request & 0xff) as u8),
    {
        let lo = (request & 0xff) as u8;
        if lo == 0x2B {
            mxcfb_ioctl::MXCFB_SET_WAVEFORM_MODES
        } else if lo == 0x2C {
            mxcfb_ioctl::MXCFB_SET_TEMPERATURE
        } else if lo == 0x2D {
            mxcfb_ioctl::MXCFB_SET_AUTO_UPDATE_MODE
        } else if lo == 0x2E {
            mxcfb_ioctl::MXCFB_SEND_UPDATE
        } else if lo == 0x2F {
            mxcfb_ioctl::MXCFB_WAIT_FOR_UPDATE_COMPLETE
        } else if lo == 0x30 {
            mxcfb_ioctl::MXCFB_SET_PWRDOWN_DELAY
        } else if lo == 0x31 {
            mxcfb_ioctl::MXCFB_GET_PWRDOWN_DELAY
        } else if lo == 0x32 {
            mxcfb_ioctl::MXCFB_SET_UPDATE_SCHEME
        } else if lo == 0x34 {
            mxcfb_ioctl::MXCFB_GET_WORK_BUFFER
        } else if lo == 0x35 {
            mxcfb_ioctl::MXCFB_DISABLE_EPDC_ACCESS
        } else if lo == 0x36 {
            mxcfb_ioctl::MXCFB_ENABLE_EPDC_ACCESS
        } else {
            mxcfb_ioctl::MXCFB_NONE
        }
    }
}

} // verus!
