//! Verified core of the Raku boot stage and of what its kernel hands to
//! the display hardware.
//!
//! `boot` holds the boot stage proper: the interrupt mask controller, the
//! image loader and the control transfer, written as a state machine that
//! asks its caller to touch the hardware and is told what the hardware
//! answered. `bits`, `dev` and `pic` hold the bit-exact layout of the
//! register and command words of the display hardware. `demo` holds what
//! the kernel's demonstrations compute from them: display lists, register
//! values and pixels.

pub mod bits;
pub mod boot;
pub mod demo;
pub mod dev;
pub mod layout;
pub mod pic;
