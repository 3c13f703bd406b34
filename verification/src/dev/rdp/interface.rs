//! Status register of the RDP interface, as read and as written.

use vstd::prelude::*;
use vstd::std_specs::convert::FromSpecImpl;
use crate::bits::{flag, get_bit, with_bits32, with_field};

verus! {

/// Address of the first register of the RDP interface.
pub const RDP_INTERFACE_BASE_ADDRESS: usize = 0xA410_0000;

/// The RDP status register as it is read.
#[derive(Clone, Copy, Debug, PartialEq, Eq, Structural)]
pub struct RDPStatusAsRead(pub u32);

impl From<u32> for RDPStatusAsRead {
    fn from(raw: u32) -> (out: RDPStatusAsRead) {
        RDPStatusAsRead(raw)
    }
}

impl FromSpecImpl<u32> for RDPStatusAsRead {
    open spec fn obeys_from_spec() -> bool {
        true
    }

    open spec fn from_spec(raw: u32) -> RDPStatusAsRead {
        RDPStatusAsRead(raw)
    }
}

impl From<RDPStatusAsRead> for u32 {
    fn from(value: RDPStatusAsRead) -> (out: u32) {
        value.0
    }
}

impl FromSpecImpl<RDPStatusAsRead> for u32 {
    open spec fn obeys_from_spec() -> bool {
        true
    }

    open spec fn from_spec(value: RDPStatusAsRead) -> u32 {
        value.0
    }
}

impl RDPStatusAsRead {
    /// A start address is pending (bit 10).
    pub fn start_pending(&self) -> (value: bool)
        ensures
            value == flag(self.0 as u64, 10),
    {
        get_bit(self.0 as u64, 10)
    }

    /// The word with this field replaced by `value`; where `value` is
    /// wider than the field, its low bits are taken.
    pub fn with_start_pending(self, value: bool) -> (out: RDPStatusAsRead)
        ensures
            out.0 == with_field(self.0 as u64, 10, 1, if value { 1 } else { 0 }),
    {
        RDPStatusAsRead(with_bits32(self.0, 10, 1, if value { 1 } else { 0 }))
    }

    /// Replaces this field by `value` in place.
    pub fn set_start_pending(&mut self, value: bool)
        ensures
            final(self).0 == with_field(old(self).0 as u64, 10, 1, if value { 1 } else { 0 }),
    {
        self.0 = with_bits32(self.0, 10, 1, if value { 1 } else { 0 });
    }

    /// An end address is pending (bit 9).
    pub fn end_pending(&self) -> (value: bool)
        ensures
            value == flag(self.0 as u64, 9),
    {
        get_bit(self.0 as u64, 9)
    }

    /// The word with this field replaced by `value`; where `value` is
    /// wider than the field, its low bits are taken.
    pub fn with_end_pending(self, value: bool) -> (out: RDPStatusAsRead)
        ensures
            out.0 == with_field(self.0 as u64, 9, 1, if value { 1 } else { 0 }),
    {
        RDPStatusAsRead(with_bits32(self.0, 9, 1, if value { 1 } else { 0 }))
    }

    /// Replaces this field by `value` in place.
    pub fn set_end_pending(&mut self, value: bool)
        ensures
            final(self).0 == with_field(old(self).0 as u64, 9, 1, if value { 1 } else { 0 }),
    {
        self.0 = with_bits32(self.0, 9, 1, if value { 1 } else { 0 });
    }

    /// The RDP is at work on commands (bit 6).
    pub fn busy(&self) -> (value: bool)
        ensures
            value == flag(self.0 as u64, 6),
    {
        get_bit(self.0 as u64, 6)
    }

    /// The word with this field replaced by `value`; where `value` is
    /// wider than the field, its low bits are taken.
    pub fn with_busy(self, value: bool) -> (out: RDPStatusAsRead)
        ensures
            out.0 == with_field(self.0 as u64, 6, 1, if value { 1 } else { 0 }),
    {
        RDPStatusAsRead(with_bits32(self.0, 6, 1, if value { 1 } else { 0 }))
    }

    /// Replaces this field by `value` in place.
    pub fn set_busy(&mut self, value: bool)
        ensures
            final(self).0 == with_field(old(self).0 as u64, 6, 1, if value { 1 } else { 0 }),
    {
        self.0 = with_bits32(self.0, 6, 1, if value { 1 } else { 0 });
    }

    /// The pipeline is being flushed (bit 2).
    pub fn flush(&self) -> (value: bool)
        ensures
            value == flag(self.0 as u64, 2),
    {
        get_bit(self.0 as u64, 2)
    }

    /// The word with this field replaced by `value`; where `value` is
    /// wider than the field, its low bits are taken.
    pub fn with_flush(self, value: bool) -> (out: RDPStatusAsRead)
        ensures
            out.0 == with_field(self.0 as u64, 2, 1, if value { 1 } else { 0 }),
    {
        RDPStatusAsRead(with_bits32(self.0, 2, 1, if value { 1 } else { 0 }))
    }

    /// Replaces this field by `value` in place.
    pub fn set_flush(&mut self, value: bool)
        ensures
            final(self).0 == with_field(old(self).0 as u64, 2, 1, if value { 1 } else { 0 }),
    {
        self.0 = with_bits32(self.0, 2, 1, if value { 1 } else { 0 });
    }

    /// The RDP is frozen (bit 1).
    pub fn freeze(&self) -> (value: bool)
        ensures
            value == flag(self.0 as u64, 1),
    {
        get_bit(self.0 as u64, 1)
    }

    /// The word with this field replaced by `value`; where `value` is
    /// wider than the field, its low bits are taken.
    pub fn with_freeze(self, value: bool) -> (out: RDPStatusAsRead)
        ensures
            out.0 == with_field(self.0 as u64, 1, 1, if value { 1 } else { 0 }),
    {
        RDPStatusAsRead(with_bits32(self.0, 1, 1, if value { 1 } else { 0 }))
    }

    /// Replaces this field by `value` in place.
    pub fn set_freeze(&mut self, value: bool)
        ensures
            final(self).0 == with_field(old(self).0 as u64, 1, 1, if value { 1 } else { 0 }),
    {
        self.0 = with_bits32(self.0, 1, 1, if value { 1 } else { 0 });
    }

    /// Where commands are fetched from (bit 0).
    pub fn source(&self) -> (value: DMATransferSource)
        ensures
            value == DMATransferSource::of_bit(flag(self.0 as u64, 0)),
    {
        DMATransferSource::from(get_bit(self.0 as u64, 0))
    }

    /// The word with this field replaced by `value`; where `value` is
    /// wider than the field, its low bits are taken.
    pub fn with_source(self, value: DMATransferSource) -> (out: RDPStatusAsRead)
        ensures
            out.0 == with_field(self.0 as u64, 0, 1, if value.bit() { 1 } else { 0 }),
    {
        RDPStatusAsRead(with_bits32(self.0, 0, 1, if bool::from(value) { 1 } else { 0 }))
    }

    /// Replaces this field by `value` in place.
    pub fn set_source(&mut self, value: DMATransferSource)
        ensures
            final(self).0 == with_field(old(self).0 as u64, 0, 1, if value.bit() { 1 } else { 0 }),
    {
        self.0 = with_bits32(self.0, 0, 1, if bool::from(value) { 1 } else { 0 });
    }
}

/// The RDP status register as it is written.
#[derive(Clone, Copy, Debug, PartialEq, Eq, Structural)]
pub struct RDPStatusAsWritten(pub u32);

impl From<u32> for RDPStatusAsWritten {
    fn from(raw: u32) -> (out: RDPStatusAsWritten) {
        RDPStatusAsWritten(raw)
    }
}

impl FromSpecImpl<u32> for RDPStatusAsWritten {
    open spec fn obeys_from_spec() -> bool {
        true
    }

    open spec fn from_spec(raw: u32) -> RDPStatusAsWritten {
        RDPStatusAsWritten(raw)
    }
}

impl From<RDPStatusAsWritten> for u32 {
    fn from(value: RDPStatusAsWritten) -> (out: u32) {
        value.0
    }
}

impl FromSpecImpl<RDPStatusAsWritten> for u32 {
    open spec fn obeys_from_spec() -> bool {
        true
    }

    open spec fn from_spec(value: RDPStatusAsWritten) -> u32 {
        value.0
    }
}

impl RDPStatusAsWritten {
    /// Reset the clock counter (bit 9).
    pub fn reset_clock(&self) -> (value: bool)
        ensures
            value == flag(self.0 as u64, 9),
    {
        get_bit(self.0 as u64, 9)
    }

    /// The word with this field replaced by `value`; where `value` is
    /// wider than the field, its low bits are taken.
    pub fn with_reset_clock(self, value: bool) -> (out: RDPStatusAsWritten)
        ensures
            out.0 == with_field(self.0 as u64, 9, 1, if value { 1 } else { 0 }),
    {
        RDPStatusAsWritten(with_bits32(self.0, 9, 1, if value { 1 } else { 0 }))
    }

    /// Replaces this field by `value` in place.
    pub fn set_reset_clock(&mut self, value: bool)
        ensures
            final(self).0 == with_field(old(self).0 as u64, 9, 1, if value { 1 } else { 0 }),
    {
        self.0 = with_bits32(self.0, 9, 1, if value { 1 } else { 0 });
    }

    /// Set the flush flag (bit 5).
    pub fn set_flush(&self) -> (value: bool)
        ensures
            value == flag(self.0 as u64, 5),
    {
        get_bit(self.0 as u64, 5)
    }

    /// The word with this field replaced by `value`; where `value` is
    /// wider than the field, its low bits are taken.
    pub fn with_set_flush(self, value: bool) -> (out: RDPStatusAsWritten)
        ensures
            out.0 == with_field(self.0 as u64, 5, 1, if value { 1 } else { 0 }),
    {
        RDPStatusAsWritten(with_bits32(self.0, 5, 1, if value { 1 } else { 0 }))
    }

    /// Replaces this field by `value` in place.
    pub fn set_set_flush(&mut self, value: bool)
        ensures
            final(self).0 == with_field(old(self).0 as u64, 5, 1, if value { 1 } else { 0 }),
    {
        self.0 = with_bits32(self.0, 5, 1, if value { 1 } else { 0 });
    }

    /// Clear the flush flag (bit 4).
    pub fn clear_flush(&self) -> (value: bool)
        ensures
            value == flag(self.0 as u64, 4),
    {
        get_bit(self.0 as u64, 4)
    }

    /// The word with this field replaced by `value`; where `value` is
    /// wider than the field, its low bits are taken.
    pub fn with_clear_flush(self, value: bool) -> (out: RDPStatusAsWritten)
        ensures
            out.0 == with_field(self.0 as u64, 4, 1, if value { 1 } else { 0 }),
    {
        RDPStatusAsWritten(with_bits32(self.0, 4, 1, if value { 1 } else { 0 }))
    }

    /// Replaces this field by `value` in place.
    pub fn set_clear_flush(&mut self, value: bool)
        ensures
            final(self).0 == with_field(old(self).0 as u64, 4, 1, if value { 1 } else { 0 }),
    {
        self.0 = with_bits32(self.0, 4, 1, if value { 1 } else { 0 });
    }

    /// Set the freeze flag (bit 3).
    pub fn set_freeze(&self) -> (value: bool)
        ensures
            value == flag(self.0 as u64, 3),
    {
        get_bit(self.0 as u64, 3)
    }

    /// The word with this field replaced by `value`; where `value` is
    /// wider than the field, its low bits are taken.
    pub fn with_set_freeze(self, value: bool) -> (out: RDPStatusAsWritten)
        ensures
            out.0 == with_field(self.0 as u64, 3, 1, if value { 1 } else { 0 }),
    {
        RDPStatusAsWritten(with_bits32(self.0, 3, 1, if value { 1 } else { 0 }))
    }

    /// Replaces this field by `value` in place.
    pub fn set_set_freeze(&mut self, value: bool)
        ensures
            final(self).0 == with_field(old(self).0 as u64, 3, 1, if value { 1 } else { 0 }),
    {
        self.0 = with_bits32(self.0, 3, 1, if value { 1 } else { 0 });
    }

    /// Clear the freeze flag (bit 2).
    pub fn clear_freeze(&self) -> (value: bool)
        ensures
            value == flag(self.0 as u64, 2),
    {
        get_bit(self.0 as u64, 2)
    }

    /// The word with this field replaced by `value`; where `value` is
    /// wider than the field, its low bits are taken.
    pub fn with_clear_freeze(self, value: bool) -> (out: RDPStatusAsWritten)
        ensures
            out.0 == with_field(self.0 as u64, 2, 1, if value { 1 } else { 0 }),
    {
        RDPStatusAsWritten(with_bits32(self.0, 2, 1, if value { 1 } else { 0 }))
    }

    /// Replaces this field by `value` in place.
    pub fn set_clear_freeze(&mut self, value: bool)
        ensures
            final(self).0 == with_field(old(self).0 as u64, 2, 1, if value { 1 } else { 0 }),
    {
        self.0 = with_bits32(self.0, 2, 1, if value { 1 } else { 0 });
    }

    /// Fetch commands from RSP data memory (bit 1).
    pub fn set_source_dmem(&self) -> (value: bool)
        ensures
            value == flag(self.0 as u64, 1),
    {
        get_bit(self.0 as u64, 1)
    }

    /// The word with this field replaced by `value`; where `value` is
    /// wider than the field, its low bits are taken.
    pub fn with_set_source_dmem(self, value: bool) -> (out: RDPStatusAsWritten)
        ensures
            out.0 == with_field(self.0 as u64, 1, 1, if value { 1 } else { 0 }),
    {
        RDPStatusAsWritten(with_bits32(self.0, 1, 1, if value { 1 } else { 0 }))
    }

    /// Replaces this field by `value` in place.
    pub fn set_set_source_dmem(&mut self, value: bool)
        ensures
            final(self).0 == with_field(old(self).0 as u64, 1, 1, if value { 1 } else { 0 }),
    {
        self.0 = with_bits32(self.0, 1, 1, if value { 1 } else { 0 });
    }

    /// Fetch commands from RAM (bit 0).
    pub fn set_source_xbus(&self) -> (value: bool)
        ensures
            value == flag(self.0 as u64, 0),
    {
        get_bit(self.0 as u64, 0)
    }

    /// The word with this field replaced by `value`; where `value` is
    /// wider than the field, its low bits are taken.
    pub fn with_set_source_xbus(self, value: bool) -> (out: RDPStatusAsWritten)
        ensures
            out.0 == with_field(self.0 as u64, 0, 1, if value { 1 } else { 0 }),
    {
        RDPStatusAsWritten(with_bits32(self.0, 0, 1, if value { 1 } else { 0 }))
    }

    /// Replaces this field by `value` in place.
    pub fn set_set_source_xbus(&mut self, value: bool)
        ensures
            final(self).0 == with_field(old(self).0 as u64, 0, 1, if value { 1 } else { 0 }),
    {
        self.0 = with_bits32(self.0, 0, 1, if value { 1 } else { 0 });
    }
}

/// Where the RDP fetches its commands from.
#[derive(Clone, Copy, Debug, PartialEq, Eq, Structural)]
pub enum DMATransferSource {
    /// RAM.
    XBUS,
    /// RSP data memory.
    DMEM,
}

impl DMATransferSource {
    /// The bit that stands for the variant: clear for `XBUS`, set for
    /// `DMEM`.
    pub open spec fn bit(self) -> bool {
        self == DMATransferSource::DMEM
    }

    /// The variant that a bit stands for.
    pub open spec fn of_bit(bit: bool) -> DMATransferSource {
        if bit {
            DMATransferSource::DMEM
        } else {
            DMATransferSource::XBUS
        }
    }

    /// The two conversions undo each other.
    pub proof fn lemma_bit_round_trip(self, bit: bool)
        ensures
            DMATransferSource::of_bit(self.bit()) == self,
            DMATransferSource::of_bit(bit).bit() == bit,
    {
    }
}

impl From<bool> for DMATransferSource {
    fn from(value: bool) -> (out: DMATransferSource) {
        match value {
            true => DMATransferSource::DMEM,
            false => DMATransferSource::XBUS,
        }
    }
}

impl FromSpecImpl<bool> for DMATransferSource {
    open spec fn obeys_from_spec() -> bool {
        true
    }

    open spec fn from_spec(value: bool) -> DMATransferSource {
        DMATransferSource::of_bit(value)
    }
}

impl From<DMATransferSource> for bool {
    fn from(value: DMATransferSource) -> (out: bool) {
        match value {
            DMATransferSource::XBUS => false,
            DMATransferSource::DMEM => true,
        }
    }
}

impl FromSpecImpl<DMATransferSource> for bool {
    open spec fn obeys_from_spec() -> bool {
        true
    }

    open spec fn from_spec(value: DMATransferSource) -> bool {
        value.bit()
    }
}

} // verus!
