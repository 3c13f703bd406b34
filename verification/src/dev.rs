//! Register and command words of the display hardware.

pub mod rdp;
pub mod vi;
