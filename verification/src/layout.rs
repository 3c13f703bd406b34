//! Addresses that the kernel and its programs agree on. All of them lie in
//! the uncached window.

use vstd::prelude::*;

verus! {

/// Address of the first register of the video interface.
pub const VIDEO_INTERFACE_CONTROL: usize = 0xA440_0000;

/// Address of the first frame buffer.
pub const FRAMEBUFFER_1_ADDRESS: usize = 0xA010_0000;

/// Address of the second frame buffer.
pub const FRAMEBUFFER_2_ADDRESS: usize = 0xA014_B000;

} // verus!
