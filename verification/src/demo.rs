//! What the kernel's demonstrations compute before they touch the display
//! hardware: command words, display lists, register values, pixels.

pub mod bars;
pub mod commands;
pub mod interlace;
pub mod square;
pub mod video;
