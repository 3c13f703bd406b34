//! Words that the Reality Display Processor (RDP) reads: its commands and
//! the status register of its interface.

pub mod commands;
pub mod interface;
