use vstd::prelude::*;

use super::common::{
    display_temp, dither_mode, update_mode, waveform_mode, EPDC_FLAG_TEST_COLLISION,
};
use super::mxcfb::{mxcfb_alt_buffer_data, mxcfb_rect, mxcfb_update_data};

verus! {

/// How `partial_refresh` waits: not at all (`Async`), for the refresh to
/// complete (`Wait`), or for the collision test of a refresh that is only
/// tested (`DryRun`).
#[derive(Clone, Copy, Debug, PartialEq, Eq, Structural)]
pub enum PartialRefreshMode {
    DryRun,
    Async,
    Wait,
}

/// A refresh to send to the EPD controller, and whether to wait for its
/// completion afterwards.
#[derive(Clone, Copy, Debug, PartialEq, Eq, Structural)]
pub struct RefreshRequest {
    pub update: mxcfb_update_data,
    pub wait_completion: bool,
}

/// The part of `region` that lies on a screen of `xres` by `yres` pixels,
/// at least one pixel wide and high; none if its corner lies off screen.
pub open spec fn spec_clip_region(region: mxcfb_rect, xres: u32, yres: u32) -> Option<mxcfb_rect> {
    if region.left >= xres || region.top >= yres {
        None
    } else {
        let width = if region.width < 1 { 1 } else { region.width as int };
        let height = if region.height < 1 { 1 } else { region.height as int };
        Some(
            mxcfb_rect {
                top: region.top,
                left: region.left,
                width: (if region.left + width > xres { xres - region.left } else { width }) as u32,
                height: (if region.top + height > yres { yres - region.top } else { height }) as u32,
            },
        )
    }
}

/// The far edges of `region`, once grown to at least one pixel, fit in `u32`
/// where they are computed: when its corner lies on a screen of `xres` by `yres`.
pub open spec fn clip_fits(region: mxcfb_rect, xres: u32, yres: u32) -> bool {
    let width = if region.width < 1 { 1 } else { region.width as int };
    let height = if region.height < 1 { 1 } else { region.height as int };
    (region.left < xres && region.top < yres) ==> region.left + width <= u32::MAX && region.top
        + height <= u32::MAX
}

/// Whether `region` can be cut to a screen of `xres` by `yres` without its
/// far edges overflowing.
pub fn clip_fits_screen(region: &mxcfb_rect, xres: u32, yres: u32) -> (b: bool)
    ensures
        b == clip_fits(*region, xres, yres),
{
    if region.left >= xres || region.top >= yres {
        return true;
    }
    let width: u32 = if region.width < 1 { 1 } else { region.width };
    let height: u32 = if region.height < 1 { 1 } else { region.height };
    region.left <= u32::MAX - width && region.top <= u32::MAX - height
}

/// Cuts `region` to the screen. A region whose top left corner lies off
/// screen is ignored entirely; an empty one is grown to one pixel.
pub fn clip_region(region: &mxcfb_rect, xres: u32, yres: u32) -> (r: Option<mxcfb_rect>)
    requires
        clip_fits(*region, xres, yres),
    ensures
        r == spec_clip_region(*region, xres, yres),
{
    let mut update_region = *region;
    // No accounting for this, out of bounds, entirely ignored
    if update_region.left >= xres || update_region.top >= yres {
        return None;
    }
    if update_region.width < 1 {
        update_region.width = 1
    }
    if update_region.height < 1 {
        update_region.height = 1
    }
    // Dont try to refresh OOB horizontally
    let max_x = update_region.left + update_region.width;
    if max_x > xres {
        update_region.width = update_region.width - (max_x - xres);
    }
    // Dont try to refresh OOB vertically
    let max_y = update_region.top + update_region.height;
    if max_y > yres {
        update_region.height = update_region.height - (max_y - yres);
    }
    Some(update_region)
}

/// The request that `partial_refresh` sends, if the region lies on screen.
pub open spec fn spec_partial_refresh_request(
    region: mxcfb_rect,
    mode: PartialRefreshMode,
    waveform: waveform_mode,
    temperature: display_temp,
    dither: dither_mode,
    quant_bit: i32,
    force_full_refresh: bool,
    xres: u32,
    yres: u32,
    marker: u32,
) -> Option<RefreshRequest> {
    match spec_clip_region(region, xres, yres) {
        None => None,
        Some(update_region) => Some(
            RefreshRequest {
                update: mxcfb_update_data {
                    update_region,
                    waveform_mode: waveform.spec_value(),
                    update_mode: if force_full_refresh {
                        update_mode::UPDATE_MODE_FULL.spec_value()
                    } else {
                        update_mode::UPDATE_MODE_PARTIAL.spec_value()
                    },
                    update_marker: marker,
                    temp: temperature.spec_value(),
                    flags: if mode == PartialRefreshMode::DryRun {
                        EPDC_FLAG_TEST_COLLISION
                    } else {
                        0
                    },
                    dither_mode: dither.spec_value(),
                    quant_bit,
                    alt_buffer_data: mxcfb_alt_buffer_data::spec_zero(),
                },
                wait_completion: mode != PartialRefreshMode::Async,
            },
        ),
    }
}

/// Builds the refresh of `region` on a screen of `xres` by `yres` pixels with
/// the given update `marker`: the region is cut to the screen (and nothing is
/// sent if it lies off screen), a forced refresh is a full one, a dry run
/// only tests for collisions, and all but `Async` wait for completion.
pub fn partial_refresh_request(
    region: &mxcfb_rect,
    mode: PartialRefreshMode,
    waveform: waveform_mode,
    temperature: display_temp,
    dither: dither_mode,
    quant_bit: i32,
    force_full_refresh: bool,
    xres: u32,
    yres: u32,
    marker: u32,
) -> (r: Option<RefreshRequest>)
    requires
        clip_fits(*region, xres, yres),
    ensures
        r == spec_partial_refresh_request(
            *region,
            mode,
            waveform,
            temperature,
            dither,
            quant_bit,
            force_full_refresh,
            xres,
            yres,
            marker,
        ),
{
    match clip_region(region, xres, yres) {
        None => None,
        Some(update_region) => {
            let update_mode = if force_full_refresh {
                update_mode::UPDATE_MODE_FULL.value()
            } else {
                update_mode::UPDATE_MODE_PARTIAL.value()
            };
            let flags = match mode {
                PartialRefreshMode::DryRun => EPDC_FLAG_TEST_COLLISION,
                _ => 0,
            };
            let update = mxcfb_update_data {
                update_mode,
                update_marker: marker,
                waveform_mode: waveform.value(),
                temp: temperature.value(),
                flags,
                quant_bit,
                dither_mode: dither.value(),
                update_region,
                alt_buffer_data: mxcfb_alt_buffer_data::default(),
            };
            let wait_completion = match mode {
                PartialRefreshMode::Async => false,
                _ => true,
            };
            Some(RefreshRequest { update, wait_completion })
        },
    }
}

/// What `partial_refresh` answers: 0 when nothing was sent, the marker of an
/// `Async` refresh, or else the collision test that waiting gave back.
pub fn partial_refresh_answer(request: &Option<RefreshRequest>, collision_test: u32) -> (r: u32)
    ensures
        request is None ==> r == 0,
        request matches Some(q) ==> r == if q.wait_completion {
            collision_test
        } else {
            q.update.update_marker
        },
{
    match request {
        None => 0,
        Some(q) => if q.wait_completion {
            collision_test
        } else {
            q.update.update_marker
        },
    }
}

/// The request that `full_refresh` sends.
pub open spec fn spec_full_refresh_request(
    waveform: waveform_mode,
    temperature: display_temp,
    dither: dither_mode,
    quant_bit: i32,
    wait_completion: bool,
    xres: u32,
    yres: u32,
    marker: u32,
) -> RefreshRequest {
    RefreshRequest {
        update: mxcfb_update_data {
            update_region: mxcfb_rect { top: 0, left: 0, height: yres, width: xres },
            waveform_mode: waveform.spec_value(),
            update_mode: update_mode::UPDATE_MODE_FULL.spec_value(),
            update_marker: marker,
            temp: temperature.spec_value(),
            flags: 0,
            dither_mode: dither.spec_value(),
            quant_bit,
            alt_buffer_data: mxcfb_alt_buffer_data::spec_zero(),
        },
        wait_completion,
    }
}

/// Builds the full refresh of a screen of `xres` by `yres` pixels with the
/// given update `marker`.
pub fn full_refresh_request(
    waveform: waveform_mode,
    temperature: display_temp,
    dither: dither_mode,
    quant_bit: i32,
    wait_completion: bool,
    xres: u32,
    yres: u32,
    marker: u32,
) -> (r: RefreshRequest)
    ensures
        r == spec_full_refresh_request(
            waveform,
            temperature,
            dither,
            quant_bit,
            wait_completion,
            xres,
            yres,
            marker,
        ),
{
    let screen = mxcfb_rect { top: 0, left: 0, height: yres, width: xres };
    let update = mxcfb_update_data {
        update_mode: update_mode::UPDATE_MODE_FULL.value(),
        update_marker: marker,
        waveform_mode: waveform.value(),
        temp: temperature.value(),
        flags: 0,
        quant_bit,
        dither_mode: dither.value(),
        update_region: screen,
        alt_buffer_data: mxcfb_alt_buffer_data::default(),
    };
    RefreshRequest { update, wait_completion }
}

/// A refresh never reaches beyond the screen: the region sent is non-empty,
/// starts where the given one starts, and ends within the screen and
/// within the given region grown to one pixel.
pub proof fn lemma_clip_region_on_screen(region: mxcfb_rect, xres: u32, yres: u32)
    ensures
        spec_clip_region(region, xres, yres) matches Some(r) ==> {
            &&& r.top == region.top && r.left == region.left
            &&& 1 <= r.width && 1 <= r.height
            &&& r.left + r.width <= xres && r.top + r.height <= yres
            &&& r.width <= (if region.width < 1 { 1 } else { region.width as int })
            &&& r.height <= (if region.height < 1 { 1 } else { region.height as int })
        },
        spec_clip_region(region, xres, yres) is None <==> (region.left >= xres || region.top
            >= yres),
{
}

/// A region that already lies on screen is sent unchanged.
pub proof fn lemma_clip_region_keeps_on_screen(region: mxcfb_rect, xres: u32, yres: u32)
    requires
        region.width >= 1,
        region.height >= 1,
        region.left + region.width <= xres,
        region.top + region.height <= yres,
    ensures
        spec_clip_region(region, xres, yres) == Some(region),
{
}

/// Clipping a clipped region changes nothing.
pub proof fn lemma_clip_region_idempotent(region: mxcfb_rect, xres: u32, yres: u32)
    ensures
        spec_clip_region(region, xres, yres) matches Some(r) ==> spec_clip_region(r, xres, yres)
            == Some(r),
{
}

/// Different waveforms are sent as different numbers.
pub proof fn lemma_waveform_values_distinct(w1: waveform_mode, w2: waveform_mode)
    ensures
        w1 != w2 ==> w1.spec_value() != w2.spec_value(),
{
}

/// What a partial refresh asks the controller for, whatever it is given:
/// only a dry run carries the collision-test flag (every other refresh is
/// sent with no flag and is really done); every mode but `Async` waits for
/// completion; the waveform, temperature, dither mode, quantisation bit and
/// marker are the ones asked for, and a forced refresh is a full one.
pub proof fn lemma_partial_refresh_asks(
    region: mxcfb_rect,
    mode: PartialRefreshMode,
    waveform: waveform_mode,
    temperature: display_temp,
    dither: dither_mode,
    quant_bit: i32,
    force_full_refresh: bool,
    xres: u32,
    yres: u32,
    marker: u32,
)
    ensures
        spec_partial_refresh_request(
            region,
            mode,
            waveform,
            temperature,
            dither,
            quant_bit,
            force_full_refresh,
            xres,
            yres,
            marker,
        ) matches Some(q) ==> {
            &&& (q.update.flags == EPDC_FLAG_TEST_COLLISION <==> mode == PartialRefreshMode::DryRun)
            &&& (mode != PartialRefreshMode::DryRun ==> q.update.flags == 0)
            &&& (q.wait_completion <==> mode != PartialRefreshMode::Async)
            &&& q.update.waveform_mode == waveform.spec_value()
            &&& q.update.temp == temperature.spec_value()
            &&& q.update.dither_mode == dither.spec_value()
            &&& q.update.quant_bit == quant_bit
            &&& q.update.update_marker == marker
            &&& (q.update.update_mode == update_mode::UPDATE_MODE_FULL.spec_value() <==> force_full_refresh)
        },
        spec_partial_refresh_request(
            region,
            mode,
            waveform,
            temperature,
            dither,
            quant_bit,
            force_full_refresh,
            xres,
            yres,
            marker,
        ) is Some <==> (region.left < xres && region.top < yres),
{
}

/// Two partial refreshes that differ only in the waveform asked for are sent
/// with different waveforms.
pub proof fn lemma_partial_refresh_waveform_followed(
    region: mxcfb_rect,
    mode: PartialRefreshMode,
    w1: waveform_mode,
    w2: waveform_mode,
    temperature: display_temp,
    dither: dither_mode,
    quant_bit: i32,
    force_full_refresh: bool,
    xres: u32,
    yres: u32,
    marker: u32,
)
    requires
        w1 != w2,
        region.left < xres,
        region.top < yres,
    ensures
        spec_partial_refresh_request(region, mode, w1, temperature, dither, quant_bit, force_full_refresh, xres, yres, marker)->0.update.waveform_mode
            != spec_partial_refresh_request(region, mode, w2, temperature, dither, quant_bit, force_full_refresh, xres, yres, marker)->0.update.waveform_mode,
{
    lemma_partial_refresh_asks(region, mode, w1, temperature, dither, quant_bit, force_full_refresh, xres, yres, marker);
    lemma_partial_refresh_asks(region, mode, w2, temperature, dither, quant_bit, force_full_refresh, xres, yres, marker);
    lemma_waveform_values_distinct(w1, w2);
}

/// What a full refresh asks the controller for, whatever it is given: the
/// whole screen, as a full update with no flag, with the waveform,
/// temperature, dither mode, quantisation bit and marker asked for; and two
/// full refreshes that differ in the waveform asked for are sent with
/// different waveforms.
pub proof fn lemma_full_refresh_asks(
    waveform: waveform_mode,
    other: waveform_mode,
    temperature: display_temp,
    dither: dither_mode,
    quant_bit: i32,
    wait_completion: bool,
    xres: u32,
    yres: u32,
    marker: u32,
)
    ensures
        ({
            let q = spec_full_refresh_request(waveform, temperature, dither, quant_bit, wait_completion, xres, yres, marker);
            let q2 = spec_full_refresh_request(other, temperature, dither, quant_bit, wait_completion, xres, yres, marker);
            &&& q.update.waveform_mode == waveform.spec_value()
            &&& (waveform != other ==> q.update.waveform_mode != q2.update.waveform_mode)
            &&& q.update.update_region == (mxcfb_rect { top: 0, left: 0, width: xres, height: yres })
            &&& q.update.update_mode == update_mode::UPDATE_MODE_FULL.spec_value()
            &&& q.update.flags == 0
            &&& q.update.temp == temperature.spec_value()
            &&& q.update.dither_mode == dither.spec_value()
            &&& q.update.quant_bit == quant_bit
            &&& q.update.update_marker == marker
            &&& q.wait_completion == wait_completion
        }),
{
    lemma_waveform_values_distinct(waveform, other);
}

} // verus!
