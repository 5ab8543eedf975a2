use vstd::prelude::*;

pub mod common;
pub mod mxcfb;
pub mod screeninfo;
pub mod refresh;
pub mod io;
pub mod storage;
pub mod draw;

use common::{display_temp, dither_mode, waveform_mode};
use mxcfb::mxcfb_rect;
use refresh::PartialRefreshMode;

verus! {

/// Refreshing the EInk display.
pub trait FramebufferRefresh {
    /// Refreshes the entire screen with the provided parameters. If `wait_completion` is
    /// set to true, doesn't return before the refresh has been completed. Returns the marker.
    fn full_refresh(
        &self,
        waveform_mode: waveform_mode,
        temperature: display_temp,
        dither_mode: dither_mode,
        quant_bit: i32,
        wait_completion: bool,
    ) -> u32;

    /// Refreshes the given `region` with the provided parameters. If `mode` is `DryRun` or
    /// `Wait`, this function won't return before the `DryRun`'s collision_test or
    /// refresh has been completed. In `Async` mode, this function will return immediately
    /// and return a `marker` which can then later be fed to `wait_refresh_complete` to wait
    /// for its completion. In `DryRun`, it will return the `collision_test` result.
    ///
    /// `force_full_refresh` allows rare cases where you may want to do a full refresh on a
    /// partial region. 99.9% of of the time, you want this set to `false`.
    fn partial_refresh(
        &self,
        region: &mxcfb_rect,
        mode: PartialRefreshMode,
        waveform_mode: waveform_mode,
        temperature: display_temp,
        dither_mode: dither_mode,
        quant_bit: i32,
        force_full_refresh: bool,
    ) -> u32;

    /// Takes a marker returned by `partial_refresh` and blocks until that
    /// refresh has been reflected on the display.
    /// Returns the collision_test result.
    fn wait_refresh_complete(&self, marker: u32) -> u32;
}

} // verus!
