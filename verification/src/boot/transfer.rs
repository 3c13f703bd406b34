//! Control transfer: the register values with which the loaded image is
//! entered.

use vstd::prelude::*;
use crate::boot::config::BootConfig;

verus! {

/// Register values for the jump into the loaded image. The jump is raw: it
/// is no call, and nothing is pushed or saved around it.
#[derive(Clone, Copy, Debug, PartialEq, Eq, Structural)]
pub struct Jump {
    /// Value for the stack-pointer register.
    pub stack_pointer: u32,
    /// Value for the return-address register: the entry address, so that a
    /// return from the image lands at its own entry.
    pub return_address: u32,
    /// Address at which execution continues.
    pub program_counter: u32,
}

/// The jump that enters the image described by `cfg`.
pub open spec fn jump_of(cfg: BootConfig) -> Jump {
    Jump {
        stack_pointer: cfg.stack_address,
        return_address: cfg.entry_address,
        program_counter: cfg.entry_address,
    }
}

/// Register values for entering the loaded image: the stack pointer is the
/// configured stack address, the return address and the program counter are
/// the entry address.
pub fn goto_kernel(cfg: &BootConfig) -> (jump: Jump)
    ensures
        jump == jump_of(*cfg),
        jump.stack_pointer == cfg.stack_address,
        jump.return_address == cfg.entry_address,
        jump.program_counter == cfg.entry_address,
        cfg.aligned() ==> jump.stack_pointer % 16 == 0,
{
    Jump {
        stack_pointer: cfg.stack_address,
        return_address: cfg.entry_address,
        program_counter: cfg.entry_address,
    }
}

} // verus!
