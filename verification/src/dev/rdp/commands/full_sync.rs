//! RDP command "Full Sync".

use vstd::prelude::*;
use vstd::std_specs::convert::FromSpecImpl;
use crate::bits::{field, get_bits, lemma_field_width, with_bits, with_field};

verus! {

/// Makes the RDP finish all commands that came before.
#[derive(Clone, Copy, Debug, PartialEq, Eq, Structural)]
pub struct FullSync(pub u64);

impl From<u64> for FullSync {
    fn from(raw: u64) -> (out: FullSync) {
        FullSync(raw)
    }
}

impl FromSpecImpl<u64> for FullSync {
    open spec fn obeys_from_spec() -> bool {
        true
    }

    open spec fn from_spec(raw: u64) -> FullSync {
        FullSync(raw)
    }
}

impl From<FullSync> for u64 {
    fn from(value: FullSync) -> (out: u64) {
        value.0
    }
}

impl FromSpecImpl<FullSync> for u64 {
    open spec fn obeys_from_spec() -> bool {
        true
    }

    open spec fn from_spec(value: FullSync) -> u64 {
        value.0
    }
}

impl FullSync {
    /// Opcode of the command (bits 56 to 63).
    pub fn opcode(&self) -> (value: u8)
        ensures
            value == field(self.0, 56, 8),
    {
        proof {
            lemma_field_width(self.0, 56, 8);
        }
        get_bits(self.0, 56, 8) as u8
    }

    /// The word with this field replaced by `value`; where `value` is
    /// wider than the field, its low bits are taken.
    pub fn with_opcode(self, value: u8) -> (out: FullSync)
        ensures
            out.0 == with_field(self.0, 56, 8, value as u64),
    {
        FullSync(with_bits(self.0, 56, 8, value as u64))
    }

    /// Replaces this field by `value` in place.
    pub fn set_opcode(&mut self, value: u8)
        ensures
            final(self).0 == with_field(old(self).0, 56, 8, value as u64),
    {
        self.0 = with_bits(self.0, 56, 8, value as u64);
    }
}

} // verus!
