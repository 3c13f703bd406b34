//! The boot stage: mask interrupts, confirm memory, load the boot image,
//! jump into it.

pub mod config;
pub mod interrupts;
pub mod image;
pub mod transfer;
pub mod stage;
pub mod console;
