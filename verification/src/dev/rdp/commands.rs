//! The RDP commands that the kernel issues, each as a 64-bit word with
//! named fields, and their opcodes.
//!
//! The definitions give names, positions and widths of fields. They do not
//! check that a command is fit to be sent.

use vstd::prelude::*;

pub mod fill_rectangle;
pub mod full_sync;
pub mod set_color_image;
pub mod set_fill_color;
pub mod set_other_modes;
pub mod set_scissor;

verus! {

/// The RDP commands defined here.
#[allow(non_camel_case_types)]
#[derive(Clone, Copy, Debug, PartialEq, Eq, Structural)]
pub enum RDPCommands {
    FILL_RECTANGLE,
    FULL_SYNC,
    SET_COLOR_IMAGE,
    SET_FILL_COLOR,
    SET_OTHER_MODES,
    SET_SCISSOR,
}

impl RDPCommands {
    /// The opcode of each command.
    pub open spec fn opcode_of(self) -> u8 {
        match self {
            RDPCommands::FILL_RECTANGLE => 0x36,
            RDPCommands::FULL_SYNC => 0x29,
            RDPCommands::SET_COLOR_IMAGE => 0x3F,
            RDPCommands::SET_FILL_COLOR => 0x37,
            RDPCommands::SET_OTHER_MODES => 0x2F,
            RDPCommands::SET_SCISSOR => 0x2D,
        }
    }

    /// The opcode of the command.
    pub fn opcode(&self) -> (code: u8)
        ensures
            code == self.opcode_of(),
    {
        match *self {
            RDPCommands::FILL_RECTANGLE => 0x36,
            RDPCommands::FULL_SYNC => 0x29,
            RDPCommands::SET_COLOR_IMAGE => 0x3F,
            RDPCommands::SET_FILL_COLOR => 0x37,
            RDPCommands::SET_OTHER_MODES => 0x2F,
            RDPCommands::SET_SCISSOR => 0x2D,
        }
    }

    /// No two commands share an opcode, and every opcode fits the six bits
    /// of the narrowest opcode field.
    pub proof fn lemma_opcodes_distinct(self, other: RDPCommands)
        ensures
            self.opcode_of() == other.opcode_of() ==> self == other,
            self.opcode_of() < 0x40,
    {
    }
}

} // verus!
