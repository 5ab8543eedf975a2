#![allow(non_camel_case_types)]
#![allow(non_snake_case)]

//! Verified core of a framework for the reMarkable paper tablet: framebuffer
//! geometry and refresh requests, decoding of the three input devices, device
//! model handling and battery status parsing.

pub mod geometry;
pub mod framebuffer;
pub mod text;
pub mod device;
pub mod input;
pub mod battery;
pub mod dimensions;
pub mod ui_extensions;
pub mod handlers;
pub mod unifiedinput;
pub mod appctx;
