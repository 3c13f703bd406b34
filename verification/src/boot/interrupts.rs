//! Interrupt mask controller: the values that switch every maskable
//! interrupt source off.

use vstd::prelude::*;

verus! {

/// Bits of the status word that survive masking: everything but the global
/// interrupt-enable bit (bit 0) and the per-source mask bits (bits 8 to 15).
pub const STATUS_KEEP: u32 = 0xFFFF_00FE;

/// Pattern for the aggregator's mask register that asserts "clear mask" for
/// each of its six interrupt classes (bits 0, 2, 4, 6, 8 and 10).
pub const AGGREGATOR_CLEAR_ALL: u32 = 0x0000_0555;

/// What the interrupt mask controller writes.
#[derive(Clone, Copy, Debug, PartialEq, Eq, Structural)]
pub struct InterruptMasks {
    /// New value of the core's status word.
    pub status: u32,
    /// Value for the aggregator's mask register.
    pub aggregator: u32,
}

/// The status word with the global enable bit and the per-source mask bits
/// cleared and every other bit as it was.
pub open spec fn masked_status(status: u32) -> u32 {
    status & STATUS_KEEP
}

/// What the controller writes for a status word read as `status`.
pub open spec fn masks_of(status: u32) -> InterruptMasks {
    InterruptMasks { status: masked_status(status), aggregator: AGGREGATOR_CLEAR_ALL }
}

/// Whether bit `index` of `word` is set.
pub open spec fn bit_set(word: u32, index: u32) -> bool {
    (word >> index) & 1 == 1
}

/// Computes what to write so that all interrupts are masked, given the
/// status word as read from the core.
pub fn mask_interrupts(status: u32) -> (masks: InterruptMasks)
    ensures
        masks == masks_of(status),
{
    InterruptMasks { status: status & STATUS_KEEP, aggregator: AGGREGATOR_CLEAR_ALL }
}

/// In the masked status word the global enable bit and the eight per-source
/// mask bits are clear, and every other bit is the bit of the word read.
pub proof fn lemma_masked_status_bits(status: u32, index: u32)
    requires
        index < 32,
    ensures
        (index == 0 || 8 <= index <= 15) ==> !bit_set(masked_status(status), index),
        !(index == 0 || 8 <= index <= 15) ==> bit_set(masked_status(status), index) == bit_set(
            status,
            index,
        ),
{
    assert(index < 32 ==> ((index == 0 || (8 <= index && index <= 15)) ==> ((status
        & 0xFFFF_00FEu32) >> index) & 1 != 1)) by (bit_vector);
    assert(index < 32 ==> (!(index == 0 || (8 <= index && index <= 15)) ==> ((status
        & 0xFFFF_00FEu32) >> index) & 1 == (status >> index) & 1)) by (bit_vector);
}

/// The aggregator pattern sets exactly the even bits 0 to 10.
pub proof fn lemma_aggregator_pattern(index: u32)
    requires
        index < 32,
    ensures
        bit_set(AGGREGATOR_CLEAR_ALL, index) <==> (index <= 10 && index % 2 == 0),
{
    assert(index < 32 ==> (((0x555u32 >> index) & 1 == 1) <==> (index <= 10 && index % 2 == 0)))
        by (bit_vector);
}

/// Masking is idempotent: running the controller on the status word it
/// left behind yields the same status word and the same aggregator pattern.
pub proof fn lemma_mask_idempotent(status: u32)
    ensures
        masked_status(masked_status(status)) == masked_status(status),
        masks_of(masks_of(status).status) == masks_of(status),
{
    assert((status & 0xFFFF_00FEu32) & 0xFFFF_00FEu32 == status & 0xFFFF_00FEu32) by (bit_vector);
}

} // verus!
