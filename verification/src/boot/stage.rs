//! The boot stage as a state machine.
//!
//! The stage never touches hardware itself. Each call of
//! [`BootStage::step`] hands it the answer to the request it made last and
//! returns the next request: read the status word, write a register, read a
//! word of storage, copy a word from storage to memory, jump. The caller
//! performs each request as it stands, in order, and nothing else.

use vstd::prelude::*;
use crate::boot::config::BootConfig;
use crate::boot::image::{
    accepted, copy_from_rom_to_ram, count_address, descriptor_field_address, header_count_address,
    header_table_offset_address, in_window, record_address, section_accepted, section_copies,
    table_offset_address, window_offset, word_copy, word_count, ImageHeader, SectionDescriptor,
    WordCopy,
};
use crate::boot::interrupts::{mask_interrupts, masked_status, InterruptMasks, AGGREGATOR_CLEAR_ALL};
use crate::boot::transfer::{goto_kernel, jump_of, Jump};

verus! {

/// What the stage asks its caller to do next.
#[derive(Clone, Copy, Debug, PartialEq, Eq, Structural)]
pub enum Request {
    /// Read the status word of the execution core and answer with it.
    ReadStatus,
    /// Write `value` to the status word of the execution core.
    WriteStatus { value: u32 },
    /// Write `value` to the aggregator's mask register, which lies at
    /// address `register`.
    WriteAggregator { register: u32, value: u32 },
    /// Read the 32-bit word at `address` in storage and answer with it.
    ReadWord { address: u64 },
    /// Read the 16-bit field at `address` in storage and answer with it.
    ReadHalf { address: u64 },
    /// Read the word at `copy.from` in storage and write it to `copy.to`
    /// in memory, both through the uncached mapping.
    CopyWord { copy: WordCopy },
    /// Set the registers as given and jump. Control does not come back.
    Enter { jump: Jump },
}

/// The coarse states of the stage, in the order in which they are passed.
#[derive(Clone, Copy, Debug, PartialEq, Eq, Structural)]
pub enum Stage {
    Init,
    InterruptsMasked,
    MemoryReady,
    ImageLoaded,
    Transferred,
}

/// Where the image loader stands: which read or copy is under way and
/// what it has read so far.
#[derive(Clone, Copy, Debug, PartialEq, Eq, Structural)]
pub enum LoaderPhase {
    /// The table offset has been asked for.
    AwaitTableOffset,
    /// The section count has been asked for.
    AwaitCount { table_offset: u32 },
    /// The size of descriptor `index` has been asked for.
    AwaitSize { header: ImageHeader, index: u16 },
    /// The target address of descriptor `index` has been asked for.
    AwaitAddress { header: ImageHeader, index: u16, size: u32 },
    /// The blob offset of descriptor `index` has been asked for.
    AwaitOffset { header: ImageHeader, index: u16, size: u32, address: u32 },
    /// The first `words` words of section `index` have been requested.
    Copying { header: ImageHeader, index: u16, section: SectionDescriptor, words: u32 },
}

/// Where the stage stands: which request is under way.
#[derive(Clone, Copy, Debug, PartialEq, Eq, Structural)]
pub enum Phase {
    /// Nothing has been requested yet.
    Init,
    /// The status word has been asked for.
    AwaitStatus,
    /// The masked status word is being written back.
    AwaitStatusWrite,
    /// The aggregator's mask register is being written: with that, all
    /// interrupts are masked.
    InterruptsMasked,
    /// Memory is ready and the image loader is at work.
    MemoryReady(LoaderPhase),
    /// Every descriptor has been dealt with and the jump is requested.
    ImageLoaded,
    /// Control has left for the loaded image.
    Transferred,
}

/// The coarse state that a phase belongs to.
pub open spec fn stage_of(phase: Phase) -> Stage {
    match phase {
        Phase::Init | Phase::AwaitStatus | Phase::AwaitStatusWrite => Stage::Init,
        Phase::InterruptsMasked => Stage::InterruptsMasked,
        Phase::MemoryReady(_) => Stage::MemoryReady,
        Phase::ImageLoaded => Stage::ImageLoaded,
        Phase::Transferred => Stage::Transferred,
    }
}

/// Position of a coarse state in the boot sequence.
pub open spec fn stage_rank(stage: Stage) -> int {
    match stage {
        Stage::Init => 0,
        Stage::InterruptsMasked => 1,
        Stage::MemoryReady => 2,
        Stage::ImageLoaded => 3,
        Stage::Transferred => 4,
    }
}

/// The low sixteen bits of an answer: the value of a 16-bit field.
pub open spec fn half_of(reply: u32) -> u16 {
    (reply & 0xFFFF) as u16
}

/// Turning to descriptor `index`: its size is read next, or, when the table
/// is exhausted, the image counts as loaded and the jump is requested.
pub open spec fn scan(cfg: BootConfig, header: ImageHeader, index: int) -> (Phase, Request) {
    if index < header.count {
        (
            Phase::MemoryReady(LoaderPhase::AwaitSize { header, index: index as u16 }),
            Request::ReadWord {
                address: (record_address(cfg, header.table_offset, index) + cfg.size_field) as u64,
            },
        )
    } else {
        (Phase::ImageLoaded, Request::Enter { jump: jump_of(cfg) })
    }
}

/// Going on with section `index` after `words` of its words: the next word
/// is copied, or, when none is left, the next descriptor is turned to.
pub open spec fn copy_on(
    cfg: BootConfig,
    header: ImageHeader,
    index: u16,
    section: SectionDescriptor,
    words: u32,
) -> (Phase, Request) {
    if words < word_count(section.size) {
        (
            Phase::MemoryReady(
                LoaderPhase::Copying { header, index, section, words: (words + 1) as u32 },
            ),
            Request::CopyWord { copy: word_copy(cfg, section, words as int) },
        )
    } else {
        scan(cfg, header, index + 1)
    }
}

/// The loader's transitions, from the reading of the table offset to the
/// last copy. A descriptor is given up, and the next one turned to, as soon
/// as its size is read as zero or its address fails the tests; only of a
/// section that passes is the blob offset read and are the words copied.
pub open spec fn load_next(cfg: BootConfig, phase: LoaderPhase, reply: u32) -> (
    Phase,
    Request,
) {
    match phase {
        LoaderPhase::AwaitTableOffset => (
            Phase::MemoryReady(LoaderPhase::AwaitCount { table_offset: reply }),
            Request::ReadHalf { address: count_address(cfg) as u64 },
        ),
        LoaderPhase::AwaitCount { table_offset } => scan(
            cfg,
            ImageHeader { table_offset, count: half_of(reply) },
            0,
        ),
        LoaderPhase::AwaitSize { header, index } => if reply == 0 {
            scan(cfg, header, index + 1)
        } else {
            (
                Phase::MemoryReady(LoaderPhase::AwaitAddress { header, index, size: reply }),
                Request::ReadWord {
                    address: (record_address(cfg, header.table_offset, index as int)
                        + cfg.address_field) as u64,
                },
            )
        },
        LoaderPhase::AwaitAddress { header, index, size } => if accepted(cfg, size, reply) {
            (
                Phase::MemoryReady(
                    LoaderPhase::AwaitOffset { header, index, size, address: reply },
                ),
                Request::ReadWord {
                    address: (record_address(cfg, header.table_offset, index as int)
                        + cfg.offset_field) as u64,
                },
            )
        } else {
            scan(cfg, header, index + 1)
        },
        LoaderPhase::AwaitOffset { header, index, size, address } => copy_on(
            cfg,
            header,
            index,
            SectionDescriptor { size, address, offset: reply },
            0,
        ),
        LoaderPhase::Copying { header, index, section, words } => copy_on(
            cfg,
            header,
            index,
            section,
            words,
        ),
    }
}

/// The transition of the whole stage: from a phase and the answer to the
/// request under way, to the next phase and the next request.
pub open spec fn next(cfg: BootConfig, phase: Phase, reply: u32) -> (Phase, Request) {
    match phase {
        Phase::Init => (Phase::AwaitStatus, Request::ReadStatus),
        Phase::AwaitStatus => (
            Phase::AwaitStatusWrite,
            Request::WriteStatus { value: masked_status(reply) },
        ),
        Phase::AwaitStatusWrite => (
            Phase::InterruptsMasked,
            Request::WriteAggregator {
                register: cfg.aggregator_mask_register,
                value: AGGREGATOR_CLEAR_ALL,
            },
        ),
        Phase::InterruptsMasked => (
            Phase::MemoryReady(LoaderPhase::AwaitTableOffset),
            Request::ReadWord { address: table_offset_address(cfg) as u64 },
        ),
        Phase::ImageLoaded | Phase::Transferred => (
            Phase::Transferred,
            Request::Enter { jump: jump_of(cfg) },
        ),
        Phase::MemoryReady(loader) => load_next(cfg, loader, reply),
    }
}

/// Confirms that main memory has completed its initialization. The stage
/// before this one has done that work, so nothing is left to do here; the
/// call marks the place where the confirmation belongs: after the
/// interrupts are masked and before the loader runs.
pub fn init_rdram() {
}

/// Turns to descriptor `index` of the table.
fn scan_from(cfg: &BootConfig, header: ImageHeader, index: u32) -> (out: (Phase, Request))
    requires
        index <= 0x1_0000,
    ensures
        out == scan(*cfg, header, index as int),
{
    if index < header.count as u32 {
        let at: u16 = index as u16;
        let address: u64 = descriptor_field_address(cfg, header.table_offset, at, cfg.size_field);
        (
            Phase::MemoryReady(LoaderPhase::AwaitSize { header, index: at }),
            Request::ReadWord { address },
        )
    } else {
        (Phase::ImageLoaded, Request::Enter { jump: goto_kernel(cfg) })
    }
}

/// Goes on with section `index` after `words` of its words.
fn copy_from(
    cfg: &BootConfig,
    header: ImageHeader,
    index: u16,
    section: SectionDescriptor,
    words: u32,
) -> (out: (Phase, Request))
    ensures
        out == copy_on(*cfg, header, index, section, words),
{
    match copy_from_rom_to_ram(cfg, &section, words) {
        Some(copy) => (
            Phase::MemoryReady(LoaderPhase::Copying { header, index, section, words: words + 1 }),
            Request::CopyWord { copy },
        ),
        None => scan_from(cfg, header, index as u32 + 1),
    }
}

/// One step of the image loader. `reply` is the answer to the read that
/// the phase waits for; the result is the phase that follows and the
/// request that goes with it.
pub fn load_kernel(cfg: &BootConfig, phase: LoaderPhase, reply: u32) -> (out: (Phase, Request))
    ensures
        out == load_next(*cfg, phase, reply),
{
    match phase {
        LoaderPhase::AwaitTableOffset => (
            Phase::MemoryReady(LoaderPhase::AwaitCount { table_offset: reply }),
            Request::ReadHalf { address: header_count_address(cfg) },
        ),
        LoaderPhase::AwaitCount { table_offset } => {
            let low: u32 = reply & 0xFFFF;
            assert(reply & 0xFFFF <= 0xFFFF) by (bit_vector);
            scan_from(cfg, ImageHeader { table_offset, count: low as u16 }, 0)
        },
        LoaderPhase::AwaitSize { header, index } => {
            if reply == 0 {
                scan_from(cfg, header, index as u32 + 1)
            } else {
                let address: u64 = descriptor_field_address(
                    cfg,
                    header.table_offset,
                    index,
                    cfg.address_field,
                );
                (
                    Phase::MemoryReady(LoaderPhase::AwaitAddress { header, index, size: reply }),
                    Request::ReadWord { address },
                )
            }
        },
        LoaderPhase::AwaitAddress { header, index, size } => {
            if section_accepted(cfg, size, reply) {
                let address: u64 = descriptor_field_address(
                    cfg,
                    header.table_offset,
                    index,
                    cfg.offset_field,
                );
                (
                    Phase::MemoryReady(
                        LoaderPhase::AwaitOffset { header, index, size, address: reply },
                    ),
                    Request::ReadWord { address },
                )
            } else {
                scan_from(cfg, header, index as u32 + 1)
            }
        },
        LoaderPhase::AwaitOffset { header, index, size, address } => copy_from(
            cfg,
            header,
            index,
            SectionDescriptor { size, address, offset: reply },
            0,
        ),
        LoaderPhase::Copying { header, index, section, words } => copy_from(
            cfg,
            header,
            index,
            section,
            words,
        ),
    }
}

/// The boot stage: its configuration and where it stands.
#[derive(Clone, Copy, Debug, PartialEq, Eq, Structural)]
pub struct BootStage {
    pub cfg: BootConfig,
    pub phase: Phase,
}

impl BootStage {
    /// A stage that has not begun.
    pub fn new(cfg: BootConfig) -> (stage: BootStage)
        ensures
            stage.cfg == cfg,
            stage.phase == Phase::Init,
    {
        BootStage { cfg, phase: Phase::Init }
    }

    /// The coarse state the stage is in.
    pub fn stage(&self) -> (stage: Stage)
        ensures
            stage == stage_of(self.phase),
    {
        match self.phase {
            Phase::Init | Phase::AwaitStatus | Phase::AwaitStatusWrite => Stage::Init,
            Phase::InterruptsMasked => Stage::InterruptsMasked,
            Phase::MemoryReady(_) => Stage::MemoryReady,
            Phase::ImageLoaded => Stage::ImageLoaded,
            Phase::Transferred => Stage::Transferred,
        }
    }

    /// Takes the answer to the request made last (any value where that
    /// request asked for none, and at the first call) and returns the next
    /// request. Once the jump has been requested, every further call
    /// requests it again.
    pub fn step(&mut self, reply: u32) -> (request: Request)
        ensures
            final(self).cfg == old(self).cfg,
            (final(self).phase, request) == next(old(self).cfg, old(self).phase, reply),
    {
        let (phase, request) = match self.phase {
            Phase::Init => (Phase::AwaitStatus, Request::ReadStatus),
            Phase::AwaitStatus => {
                let masks: InterruptMasks = mask_interrupts(reply);
                (Phase::AwaitStatusWrite, Request::WriteStatus { value: masks.status })
            },
            Phase::AwaitStatusWrite => {
                let masks: InterruptMasks = mask_interrupts(0);
                (
                    Phase::InterruptsMasked,
                    Request::WriteAggregator {
                        register: self.cfg.aggregator_mask_register,
                        value: masks.aggregator,
                    },
                )
            },
            Phase::InterruptsMasked => {
                init_rdram();
                (
                    Phase::MemoryReady(LoaderPhase::AwaitTableOffset),
                    Request::ReadWord { address: header_table_offset_address(&self.cfg) },
                )
            },
            Phase::ImageLoaded | Phase::Transferred => (
                Phase::Transferred,
                Request::Enter { jump: goto_kernel(&self.cfg) },
            ),
            Phase::MemoryReady(loader) => load_kernel(&self.cfg, loader, reply),
        };
        self.phase = phase;
        request
    }
}

/// What holds of every phase that a stage reaches from its beginning: a
/// section whose blob offset is awaited, or whose words are being copied,
/// has passed the loader's tests, and no more of its words have been
/// requested than it has.
pub open spec fn reachable(cfg: BootConfig, phase: Phase) -> bool {
    match phase {
        Phase::MemoryReady(LoaderPhase::AwaitAddress { size, .. }) => size != 0,
        Phase::MemoryReady(LoaderPhase::AwaitOffset { size, address, .. }) => accepted(
            cfg,
            size,
            address,
        ),
        Phase::MemoryReady(LoaderPhase::Copying { section, words, .. }) => {
            &&& accepted(cfg, section.size, section.address)
            &&& 1 <= words <= word_count(section.size)
        },
        _ => true,
    }
}

/// Only sections that pass the loader's tests are ever copied. The first
/// phase is reachable and every step leads from a reachable phase to a
/// reachable one; a step from a reachable phase that requests a copy
/// requests a word of a section that is not empty, lies in the window and
/// within the capacity bound, and nothing but such a step requests a copy.
pub proof fn lemma_copies_only_accepted(cfg: BootConfig, phase: Phase, reply: u32)
    requires
        reachable(cfg, phase),
    ensures
        reachable(cfg, Phase::Init),
        reachable(cfg, next(cfg, phase, reply).0),
        next(cfg, phase, reply).1 is CopyWord ==> (next(
            cfg,
            phase,
            reply,
        ).0 matches Phase::MemoryReady(LoaderPhase::Copying { section, words, .. }) && {
            &&& section.size != 0
            &&& in_window(cfg, section.address)
            &&& window_offset(cfg, section.address) <= cfg.capacity_bound
            &&& next(cfg, phase, reply).1 == (Request::CopyWord {
                copy: word_copy(cfg, section, words - 1),
            })
            &&& section_copies(cfg, section)[words - 1] == word_copy(cfg, section, words - 1)
        }),
{
}

/// The coarse states are passed in order, one at a time: a step stays in
/// its state or moves to the one that follows, and the last state is never
/// left.
pub proof fn lemma_stages_in_order(cfg: BootConfig, phase: Phase, reply: u32)
    ensures
        stage_rank(stage_of(next(cfg, phase, reply).0)) == stage_rank(stage_of(phase))
            || stage_rank(stage_of(next(cfg, phase, reply).0)) == stage_rank(stage_of(phase)) + 1,
        phase == Phase::Transferred ==> next(cfg, phase, reply).0 == Phase::Transferred,
{
}

/// Memory is written by `CopyWord` alone, and no step from the phase in
/// which the image is loaded, or from any later one, requests anything but
/// the jump with the configured stack pointer and entry address.
pub proof fn lemma_nothing_after_load(cfg: BootConfig, phase: Phase, reply: u32)
    requires
        stage_rank(stage_of(phase)) >= 3,
    ensures
        next(cfg, phase, reply).1 == (Request::Enter { jump: jump_of(cfg) }),
        jump_of(cfg).stack_pointer == cfg.stack_address,
        jump_of(cfg).program_counter == cfg.entry_address,
        stage_rank(stage_of(next(cfg, phase, reply).0)) >= 3,
{
}

/// The jump is requested exactly by the steps that end in one of the last
/// two coarse states.
pub proof fn lemma_jump_ends_load(cfg: BootConfig, phase: Phase, reply: u32)
    ensures
        (next(cfg, phase, reply).1 is Enter) <==> stage_rank(
            stage_of(next(cfg, phase, reply).0),
        ) >= 3,
        next(cfg, phase, reply).1 is Enter ==> next(cfg, phase, reply).1 == (Request::Enter {
            jump: jump_of(cfg),
        }),
{
}

} // verus!
