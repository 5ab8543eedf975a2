use vstd::prelude::*;

verus! {

/// Width of the display in pixels, in portrait orientation.
pub const DISPLAYWIDTH: u16 = 1404;
/// Height of the display in pixels, in portrait orientation.
pub const DISPLAYHEIGHT: u16 = 1872;

} // verus!
