use libremarkable::framebuffer::common::{
    display_temp, dither_mode, mxcfb_ioctl, waveform_mode, EPDC_FLAG_TEST_COLLISION,
    MXCFB_SEND_UPDATE, MXCFB_WAIT_FOR_UPDATE_COMPLETE,
};
use libremarkable::framebuffer::mxcfb::{mxcfb_rect, mxcfb_update_data};
use libremarkable::framebuffer::refresh::{
    clip_fits_screen, clip_region, full_refresh_request, partial_refresh_answer, partial_refresh_request,
    PartialRefreshMode,
};

fn rect(top: u32, left: u32, width: u32, height: u32) -> mxcfb_rect {
    mxcfb_rect { top, left, width, height }
}

#[test]
fn clip_ignores_regions_off_screen() {
    assert_eq!(clip_region(&rect(0, 1404, 10, 10), 1404, 1872), None);
    assert_eq!(clip_region(&rect(1872, 0, 10, 10), 1404, 1872), None);
}

#[test]
fn clip_cuts_to_screen_and_grows_empty() {
    assert_eq!(clip_region(&rect(1800, 1400, 100, 100), 1404, 1872), Some(rect(1800, 1400, 4, 72)));
    assert_eq!(clip_region(&rect(5, 6, 0, 0), 1404, 1872), Some(rect(5, 6, 1, 1)));
    assert_eq!(clip_region(&rect(5, 6, 7, 8), 1404, 1872), Some(rect(5, 6, 7, 8)));
}

#[test]
fn partial_refresh_request_fields() {
    let q = partial_refresh_request(
        &rect(10, 20, 30, 40),
        PartialRefreshMode::DryRun,
        waveform_mode::WAVEFORM_MODE_DU,
        display_temp::TEMP_USE_REMARKABLE_DRAW,
        dither_mode::EPDC_FLAG_USE_DITHERING_PASSTHROUGH,
        7,
        false,
        1404,
        1872,
        42,
    )
    .unwrap();
    assert!(q.wait_completion);
    assert_eq!(q.update.update_region, rect(10, 20, 30, 40));
    assert_eq!(q.update.waveform_mode, 1);
    assert_eq!(q.update.update_mode, 0);
    assert_eq!(q.update.update_marker, 42);
    assert_eq!(q.update.temp, 0x18);
    assert_eq!(q.update.flags, EPDC_FLAG_TEST_COLLISION);
    assert_eq!(q.update.dither_mode, 0);
    assert_eq!(q.update.quant_bit, 7);
    assert_eq!(partial_refresh_answer(&Some(q), 5), 5);
}

#[test]
fn async_refresh_answers_marker() {
    let q = partial_refresh_request(
        &rect(0, 0, 10, 10),
        PartialRefreshMode::Async,
        waveform_mode::WAVEFORM_MODE_GC16_FAST,
        display_temp::TEMP_USE_AMBIENT,
        dither_mode::EPDC_FLAG_USE_REMARKABLE_DITHER,
        0,
        true,
        1404,
        1872,
        9,
    );
    let q2 = q.unwrap();
    assert!(!q2.wait_completion);
    assert_eq!(q2.update.update_mode, 1);
    assert_eq!(q2.update.flags, 0);
    assert_eq!(q2.update.waveform_mode, 3);
    assert_eq!(q2.update.temp, 0x1000);
    assert_eq!(q2.update.dither_mode, 0x300f30);
    assert_eq!(partial_refresh_answer(&q, 1234), 9);
    assert_eq!(partial_refresh_answer(&None, 1234), 0);
}

#[test]
fn full_refresh_covers_screen() {
    let q = full_refresh_request(
        waveform_mode::WAVEFORM_MODE_INIT,
        display_temp::TEMP_USE_AMBIENT,
        dither_mode::EPDC_FLAG_USE_DITHERING_PASSTHROUGH,
        0,
        true,
        1404,
        1872,
        3,
    );
    assert_eq!(q.update.update_region, rect(0, 0, 1404, 1872));
    assert_eq!(q.update.update_mode, 1);
    assert_eq!(q.update.update_marker, 3);
    assert_eq!(q.update.waveform_mode, 0);
    assert!(q.wait_completion);
    assert_eq!(q.update.alt_buffer_data, mxcfb_update_data::default().alt_buffer_data);
}

#[test]
fn enum_values() {
    assert_eq!(waveform_mode::WAVEFORM_MODE_AUTO.value(), 257);
    assert_eq!(waveform_mode::WAVEFORM_MODE_GL16_INV.value(), 0xB);
    assert_eq!(display_temp::TEMP_USE_MAX.value(), 0xFFFF);
    assert_eq!(dither_mode::EPDC_FLAG_USE_DITHERING_Y4.value(), 0x4000);
}

#[test]
fn ioctl_commands_by_request() {
    assert_eq!(mxcfb_ioctl::from_request(MXCFB_SEND_UPDATE), mxcfb_ioctl::MXCFB_SEND_UPDATE);
    assert_eq!(
        mxcfb_ioctl::from_request(MXCFB_WAIT_FOR_UPDATE_COMPLETE),
        mxcfb_ioctl::MXCFB_WAIT_FOR_UPDATE_COMPLETE
    );
    assert_eq!(mxcfb_ioctl::from_request(0x4633), mxcfb_ioctl::MXCFB_NONE);
    assert_eq!(mxcfb_ioctl::from_request(0x46ff), mxcfb_ioctl::MXCFB_NONE);
    assert_eq!(mxcfb_ioctl::MXCFB_ENABLE_EPDC_ACCESS.number(), 0x36);
}

#[test]
fn clip_overflow_only_matters_on_screen() {
    assert!(clip_fits_screen(&rect(0, 0, 10, 10), 100, 100));
    assert!(!clip_fits_screen(&rect(0, 5, u32::MAX, 10), 100, 100));
    assert!(!clip_fits_screen(&rect(5, 0, 1, u32::MAX), 100, 100));
    // a region that starts off screen is never cut, so it cannot overflow
    assert!(clip_fits_screen(&rect(0, 200, u32::MAX, 10), 100, 100));
    // an empty region is grown to one pixel first
    assert!(clip_fits_screen(&rect(0, 50, 0, 0), 100, 100));
}
