//! A model of the console on which the boot stage runs: the status word of
//! the core, the boot image in storage, and a record of every write and of
//! the jump. Running the stage against the model shows what the stage does
//! as a whole, for any image.

use vstd::prelude::*;
use crate::boot::config::BootConfig;
use crate::boot::image::{
    accepted, count_address, record_address, section_copies, table_offset_address, word_count,
    ImageHeader, SectionDescriptor, WordCopy,
};
use crate::boot::interrupts::{lemma_mask_idempotent, masked_status, AGGREGATOR_CLEAR_ALL};
use crate::boot::stage::{
    copy_on, half_of, next, scan, BootStage, LoaderPhase, Phase, Request,
};
use crate::boot::transfer::{jump_of, Jump};

verus! {

/// A word written to a device register or to memory.
#[derive(Clone, Copy, Debug, PartialEq, Eq, Structural)]
pub struct WordWrite {
    /// Address written to.
    pub address: u64,
    /// Word written.
    pub value: u32,
}

/// The console as the stage sees it.
#[derive(Debug)]
pub struct Console {
    /// Status word of the execution core.
    pub status: u32,
    /// The boot image; its first byte lies at the image start in storage.
    pub image: Vec<u8>,
    /// Writes to device registers, oldest first.
    pub register_writes: Vec<WordWrite>,
    /// Writes to memory, oldest first.
    pub memory_writes: Vec<WordWrite>,
    /// The jump, once control has been transferred.
    pub entered: Option<Jump>,
}

/// The console's state as plain values.
pub struct ConsoleState {
    pub status: u32,
    pub image: Seq<u8>,
    pub register_writes: Seq<WordWrite>,
    pub memory_writes: Seq<WordWrite>,
    pub entered: Option<Jump>,
}

/// The big-endian word made of four bytes.
pub open spec fn word_of(b0: u8, b1: u8, b2: u8, b3: u8) -> u32 {
    ((b0 as u32) << 24) | ((b1 as u32) << 16) | ((b2 as u32) << 8) | (b3 as u32)
}

/// The 32-bit word that storage holds at `address`: the big-endian word of
/// the image at that place, and zero where the word does not lie within the
/// image.
pub open spec fn storage_word(cfg: BootConfig, image: Seq<u8>, address: int) -> u32 {
    let at = address - cfg.image_start();
    if 0 <= at && at + 4 <= image.len() {
        word_of(image[at], image[at + 1], image[at + 2], image[at + 3])
    } else {
        0
    }
}

/// The 16-bit field that storage holds at `address`, big-endian, and zero
/// where the field does not lie within the image.
pub open spec fn storage_half(cfg: BootConfig, image: Seq<u8>, address: int) -> u32 {
    let at = address - cfg.image_start();
    if 0 <= at && at + 2 <= image.len() {
        ((image[at] as u32) << 8) | (image[at + 1] as u32)
    } else {
        0
    }
}

/// The section table offset that the image's header gives.
pub open spec fn table_offset_of(cfg: BootConfig, image: Seq<u8>) -> u32 {
    storage_word(cfg, image, table_offset_address(cfg))
}

/// The section count that the image's header gives.
pub open spec fn count_of(cfg: BootConfig, image: Seq<u8>) -> u16 {
    half_of(storage_half(cfg, image, count_address(cfg)))
}

/// The header of the image.
pub open spec fn header_of(cfg: BootConfig, image: Seq<u8>) -> ImageHeader {
    ImageHeader { table_offset: table_offset_of(cfg, image), count: count_of(cfg, image) }
}

/// Descriptor `index` of the image's section table.
pub open spec fn section_at(cfg: BootConfig, image: Seq<u8>, index: int) -> SectionDescriptor {
    let record = record_address(cfg, table_offset_of(cfg, image), index);
    SectionDescriptor {
        size: storage_word(cfg, image, record + cfg.size_field),
        address: storage_word(cfg, image, record + cfg.address_field),
        offset: storage_word(cfg, image, record + cfg.offset_field),
    }
}

/// The write that a copy results in: the word that storage holds at the
/// copy's source, written at the copy's target.
pub open spec fn write_of(cfg: BootConfig, image: Seq<u8>, copy: WordCopy) -> WordWrite {
    WordWrite { address: copy.to, value: storage_word(cfg, image, copy.from as int) }
}

/// The memory writes that one descriptor causes, in order.
pub open spec fn section_writes(cfg: BootConfig, image: Seq<u8>, section: SectionDescriptor) -> Seq<
    WordWrite,
> {
    section_copies(cfg, section).map_values(|copy: WordCopy| write_of(cfg, image, copy))
}

/// The memory writes that the first `count` descriptors of the image cause,
/// in order.
pub open spec fn loaded_writes(cfg: BootConfig, image: Seq<u8>, count: nat) -> Seq<WordWrite>
    decreases count,
{
    if count == 0 {
        Seq::empty()
    } else {
        loaded_writes(cfg, image, (count - 1) as nat) + section_writes(
            cfg,
            image,
            section_at(cfg, image, count - 1),
        )
    }
}

/// The console after it has performed `request`, and its answer: the value
/// read where the request reads, zero otherwise.
pub open spec fn performed(cfg: BootConfig, state: ConsoleState, request: Request) -> (
    ConsoleState,
    u32,
) {
    match request {
        Request::ReadStatus => (state, state.status),
        Request::WriteStatus { value } => (ConsoleState { status: value, ..state }, 0),
        Request::WriteAggregator { register, value } => (
            ConsoleState {
                register_writes: state.register_writes.push(
                    WordWrite { address: register as u64, value },
                ),
                ..state
            },
            0,
        ),
        Request::ReadWord { address } => (state, storage_word(cfg, state.image, address as int)),
        Request::ReadHalf { address } => (state, storage_half(cfg, state.image, address as int)),
        Request::CopyWord { copy } => (
            ConsoleState {
                memory_writes: state.memory_writes.push(write_of(cfg, state.image, copy)),
                ..state
            },
            0,
        ),
        Request::Enter { jump } => (ConsoleState { entered: Some(jump), ..state }, 0),
    }
}

/// The console after the whole boot stage has run on it: interrupts are
/// masked, the accepted sections of the image have been written to memory
/// in table order and nothing else has, and control has gone to the entry
/// address with the configured stack pointer.
pub open spec fn booted(cfg: BootConfig, state: ConsoleState) -> ConsoleState {
    ConsoleState {
        status: masked_status(state.status),
        image: state.image,
        register_writes: state.register_writes.push(
            WordWrite { address: cfg.aggregator_mask_register as u64, value: AGGREGATOR_CLEAR_ALL },
        ),
        memory_writes: state.memory_writes + loaded_writes(
            cfg,
            state.image,
            count_of(cfg, state.image) as nat,
        ),
        entered: Some(jump_of(cfg)),
    }
}

/// The console once interrupts are masked and the first `sections`
/// descriptors and `extra` have been written.
spec fn loading(
    cfg: BootConfig,
    before: ConsoleState,
    sections: nat,
    extra: Seq<WordWrite>,
) -> ConsoleState {
    ConsoleState {
        status: masked_status(before.status),
        image: before.image,
        register_writes: before.register_writes.push(
            WordWrite { address: cfg.aggregator_mask_register as u64, value: AGGREGATOR_CLEAR_ALL },
        ),
        memory_writes: before.memory_writes + loaded_writes(cfg, before.image, sections) + extra,
        entered: before.entered,
    }
}

/// What holds between two steps of a run that began on the console
/// `before`: the console `now` and the answer `reply` are what the phase
/// stands for.
spec fn coherent(
    cfg: BootConfig,
    before: ConsoleState,
    phase: Phase,
    reply: u32,
    now: ConsoleState,
) -> bool {
    let image = before.image;
    let table = table_offset_of(cfg, image);
    let total = count_of(cfg, image);
    match phase {
        Phase::Init => now == before,
        Phase::AwaitStatus => now == before && reply == before.status,
        Phase::AwaitStatusWrite => now == (ConsoleState {
            status: masked_status(before.status),
            ..before
        }),
        Phase::InterruptsMasked => now == loading(cfg, before, 0, Seq::empty()),
        Phase::MemoryReady(LoaderPhase::AwaitTableOffset) => {
            &&& now == loading(cfg, before, 0, Seq::empty())
            &&& reply == table
        },
        Phase::MemoryReady(LoaderPhase::AwaitCount { table_offset }) => {
            &&& now == loading(cfg, before, 0, Seq::empty())
            &&& table_offset == table
            &&& half_of(reply) == total
        },
        Phase::MemoryReady(LoaderPhase::AwaitSize { header, index }) => {
            &&& now == loading(cfg, before, index as nat, Seq::empty())
            &&& header == header_of(cfg, image)
            &&& index < header.count
            &&& reply == section_at(cfg, image, index as int).size
        },
        Phase::MemoryReady(LoaderPhase::AwaitAddress { header, index, size }) => {
            &&& now == loading(cfg, before, index as nat, Seq::empty())
            &&& header == header_of(cfg, image)
            &&& index < header.count
            &&& size == section_at(cfg, image, index as int).size
            &&& size != 0
            &&& reply == section_at(cfg, image, index as int).address
        },
        Phase::MemoryReady(
            LoaderPhase::AwaitOffset { header, index, size, address },
        ) => {
            &&& now == loading(cfg, before, index as nat, Seq::empty())
            &&& header == header_of(cfg, image)
            &&& index < header.count
            &&& size == section_at(cfg, image, index as int).size
            &&& address == section_at(cfg, image, index as int).address
            &&& accepted(cfg, size, address)
            &&& reply == section_at(cfg, image, index as int).offset
        },
        Phase::MemoryReady(LoaderPhase::Copying { header, index, section, words }) => {
            &&& 1 <= words <= word_count(section.size)
            &&& now == loading(
                cfg,
                before,
                index as nat,
                section_writes(cfg, image, section).take(words as int),
            )
            &&& header == header_of(cfg, image)
            &&& index < header.count
            &&& section == section_at(cfg, image, index as int)
            &&& accepted(cfg, section.size, section.address)
        },
        Phase::ImageLoaded => now == booted(cfg, before),
        Phase::Transferred => false,
    }
}

/// First part of the measure by which a run ends: the phases before the
/// table is walked, counted down.
spec fn lead(phase: Phase) -> int {
    match phase {
        Phase::Init => 6,
        Phase::AwaitStatus => 5,
        Phase::AwaitStatusWrite => 4,
        Phase::InterruptsMasked => 3,
        Phase::MemoryReady(LoaderPhase::AwaitTableOffset) => 2,
        Phase::MemoryReady(LoaderPhase::AwaitCount { .. }) => 1,
        _ => 0,
    }
}

/// Second part of the measure: descriptors not yet dealt with.
spec fn sections_left(phase: Phase) -> int {
    match phase {
        Phase::MemoryReady(LoaderPhase::AwaitSize { header, index }) => header.count - index,
        Phase::MemoryReady(LoaderPhase::AwaitAddress { header, index, .. }) => header.count - index,
        Phase::MemoryReady(LoaderPhase::AwaitOffset { header, index, .. }) => header.count - index,
        Phase::MemoryReady(LoaderPhase::Copying { header, index, .. }) => header.count - index,
        _ => 0,
    }
}

/// Third part of the measure: reads and copies left within the descriptor
/// at hand.
spec fn work_left(phase: Phase) -> int {
    match phase {
        Phase::MemoryReady(LoaderPhase::AwaitSize { .. }) => 0x1_0000_0003,
        Phase::MemoryReady(LoaderPhase::AwaitAddress { .. }) => 0x1_0000_0002,
        Phase::MemoryReady(LoaderPhase::AwaitOffset { .. }) => 0x1_0000_0001,
        Phase::MemoryReady(LoaderPhase::Copying { section, words, .. }) => word_count(section.size)
            - words,
        _ => 0,
    }
}

/// The address of a field of a descriptor fits the width of an address.
proof fn lemma_field_address_fits(cfg: BootConfig, table_offset: u32, index: int, field: u32)
    requires
        0 <= index <= 0xFFFF,
    ensures
        0 <= record_address(cfg, table_offset, index) + field <= u64::MAX,
{
    assert(0 <= index * cfg.record_size <= 0xFFFF * 0xFFFF_FFFF) by (nonlinear_arith)
        requires
            0 <= index <= 0xFFFF,
            0 <= cfg.record_size <= 0xFFFF_FFFF,
    ;
}

/// Turning to descriptor `index` keeps a run coherent: either its size is
/// read, or the table is exhausted and the jump completes the boot.
proof fn lemma_scan_coherent(cfg: BootConfig, before: ConsoleState, index: int, now: ConsoleState)
    requires
        0 <= index <= count_of(cfg, before.image),
        now == loading(cfg, before, index as nat, Seq::empty()),
    ensures
        ({
            let (phase, request) = scan(cfg, header_of(cfg, before.image), index);
            let (after, reply) = performed(cfg, now, request);
            &&& coherent(cfg, before, phase, reply, after)
            &&& lead(phase) == 0
            &&& sections_left(phase) == count_of(cfg, before.image) - index
            &&& phase is MemoryReady || phase is ImageLoaded
            &&& (request is Enter <==> phase is ImageLoaded)
        }),
{
    let total = count_of(cfg, before.image);
    if index >= total {
        assert(now.memory_writes =~= before.memory_writes + loaded_writes(
            cfg,
            before.image,
            total as nat,
        ));
    } else {
        lemma_field_address_fits(cfg, table_offset_of(cfg, before.image), index, cfg.size_field);
    }
}

/// A step from a coherent state, once performed, yields a coherent state
/// that is nearer to the end of the run; the jump is requested by the step
/// that completes the boot and by no other.
proof fn lemma_step_coherent(
    cfg: BootConfig,
    before: ConsoleState,
    phase: Phase,
    reply: u32,
    now: ConsoleState,
)
    requires
        coherent(cfg, before, phase, reply, now),
        !(phase is ImageLoaded),
    ensures
        ({
            let (phase2, request) = next(cfg, phase, reply);
            let (after, reply2) = performed(cfg, now, request);
            &&& coherent(cfg, before, phase2, reply2, after)
            &&& (request is Enter <==> phase2 is ImageLoaded)
            &&& !(phase2 is ImageLoaded) ==> {
                ||| lead(phase2) < lead(phase)
                ||| (lead(phase2) == lead(phase) && sections_left(phase2) < sections_left(phase))
                ||| (lead(phase2) == lead(phase) && sections_left(phase2) == sections_left(phase)
                    && 0 <= work_left(phase2) < work_left(phase))
            }
        }),
{
    let image = before.image;
    let table = table_offset_of(cfg, image);
    let total = count_of(cfg, image);
    match phase {
        Phase::MemoryReady(LoaderPhase::AwaitCount { table_offset }) => {
            lemma_scan_coherent(cfg, before, 0, now);
        },
        Phase::MemoryReady(LoaderPhase::AwaitSize { header, index }) => {
            lemma_field_address_fits(cfg, table, index as int, cfg.address_field);
            if reply == 0 {
                let section = section_at(cfg, image, index as int);
                assert(section_writes(cfg, image, section) =~= Seq::<WordWrite>::empty());
                assert(now.memory_writes =~= before.memory_writes + loaded_writes(
                    cfg,
                    image,
                    (index + 1) as nat,
                ) + Seq::<WordWrite>::empty());
                lemma_scan_coherent(cfg, before, index + 1, now);
            }
        },
        Phase::MemoryReady(LoaderPhase::AwaitAddress { header, index, size }) => {
            lemma_field_address_fits(cfg, table, index as int, cfg.offset_field);
            if !accepted(cfg, size, reply) {
                let section = section_at(cfg, image, index as int);
                assert(section_writes(cfg, image, section) =~= Seq::<WordWrite>::empty());
                assert(now.memory_writes =~= before.memory_writes + loaded_writes(
                    cfg,
                    image,
                    (index + 1) as nat,
                ) + Seq::<WordWrite>::empty());
                lemma_scan_coherent(cfg, before, index + 1, now);
            }
        },
        Phase::MemoryReady(
            LoaderPhase::AwaitOffset { header, index, size, address },
        ) => {
            let section = SectionDescriptor { size, address, offset: reply };
            assert(section == section_at(cfg, image, index as int));
            lemma_copy_coherent(cfg, before, index, section, 0, now);
        },
        Phase::MemoryReady(LoaderPhase::Copying { header, index, section, words }) => {
            lemma_copy_coherent(cfg, before, index, section, words, now);
        },
        _ => {},
    }
}

/// Going on with a section after `words` of its words keeps a run
/// coherent: either the next word is written, or the section is complete
/// and the next descriptor is turned to.
proof fn lemma_copy_coherent(
    cfg: BootConfig,
    before: ConsoleState,
    index: u16,
    section: SectionDescriptor,
    words: u32,
    now: ConsoleState,
)
    requires
        index < count_of(cfg, before.image),
        section == section_at(cfg, before.image, index as int),
        accepted(cfg, section.size, section.address),
        words <= word_count(section.size),
        now == loading(
            cfg,
            before,
            index as nat,
            section_writes(cfg, before.image, section).take(words as int),
        ),
    ensures
        ({
            let (phase, request) = copy_on(
                cfg,
                header_of(cfg, before.image),
                index,
                section,
                words,
            );
            let (after, reply) = performed(cfg, now, request);
            &&& coherent(cfg, before, phase, reply, after)
            &&& lead(phase) == 0
            &&& (request is Enter <==> phase is ImageLoaded)
            &&& !(phase is ImageLoaded) ==> {
                ||| sections_left(phase) == count_of(cfg, before.image) - index - 1
                ||| (sections_left(phase) == count_of(cfg, before.image) - index && work_left(phase)
                    == word_count(section.size) - words - 1 && words < word_count(section.size))
            }
        }),
{
    let image = before.image;
    let all = section_writes(cfg, image, section);
    assert(all.len() == word_count(section.size));
    if words < word_count(section.size) {
        let (phase, request) = copy_on(cfg, header_of(cfg, image), index, section, words);
        let (after, reply) = performed(cfg, now, request);
        assert(all[words as int] == write_of(
            cfg,
            image,
            section_copies(cfg, section)[words as int],
        ));
        assert(all.take(words as int).push(all[words as int]) =~= all.take(words + 1));
        assert(after.memory_writes =~= before.memory_writes + loaded_writes(
            cfg,
            image,
            index as nat,
        ) + all.take(words + 1));
    } else {
        assert(all.take(words as int) =~= all);
        assert(now.memory_writes =~= before.memory_writes + loaded_writes(
            cfg,
            image,
            (index + 1) as nat,
        ) + Seq::<WordWrite>::empty());
        lemma_scan_coherent(cfg, before, index + 1, now);
    }
}

/// The control transfer sets the stack pointer to the configured stack
/// address and the program counter to the entry address, and writes
/// nothing: the console after the jump differs from the console before it
/// in the jump alone, so the loader's last write is the last write.
pub proof fn lemma_transfer_writes_nothing(cfg: BootConfig, state: ConsoleState)
    ensures
        performed(cfg, state, Request::Enter { jump: jump_of(cfg) }).0 == (ConsoleState {
            entered: Some(jump_of(cfg)),
            ..state
        }),
        jump_of(cfg).stack_pointer == cfg.stack_address,
        jump_of(cfg).program_counter == cfg.entry_address,
        booted(cfg, state).entered == Some(jump_of(cfg)),
{
}

/// Masking interrupts twice leaves what masking them once leaves: on a
/// console that has been booted, a second boot finds the status word as
/// the first left it and writes the same pattern to the same register of
/// the aggregator.
pub proof fn lemma_masks_settle(cfg: BootConfig, state: ConsoleState)
    ensures
        booted(cfg, booted(cfg, state)).status == booted(cfg, state).status,
        booted(cfg, booted(cfg, state)).register_writes.last() == booted(
            cfg,
            state,
        ).register_writes.last(),
{
    lemma_mask_idempotent(state.status);
}

/// The boot writes the sections in table order and nothing else: with no
/// descriptor nothing is written, and each further descriptor adds its own
/// writes after those of the descriptors before it, none at all where it
/// is empty, lies outside the window or lies beyond the capacity bound.
pub proof fn lemma_loaded_writes_by_section(cfg: BootConfig, image: Seq<u8>, count: nat)
    ensures
        loaded_writes(cfg, image, 0) == Seq::<WordWrite>::empty(),
        loaded_writes(cfg, image, count + 1) == loaded_writes(cfg, image, count) + section_writes(
            cfg,
            image,
            section_at(cfg, image, count as int),
        ),
        !accepted(
            cfg,
            section_at(cfg, image, count as int).size,
            section_at(cfg, image, count as int).address,
        ) ==> loaded_writes(cfg, image, count + 1) == loaded_writes(cfg, image, count),
        section_writes(cfg, image, section_at(cfg, image, count as int)).len() == section_copies(
            cfg,
            section_at(cfg, image, count as int),
        ).len(),
{
    let section = section_at(cfg, image, count as int);
    assert(loaded_writes(cfg, image, count + 1) == loaded_writes(cfg, image, count)
        + section_writes(cfg, image, section));
    if !accepted(cfg, section.size, section.address) {
        assert(section_writes(cfg, image, section) =~= Seq::<WordWrite>::empty());
        assert(loaded_writes(cfg, image, count) + Seq::<WordWrite>::empty() =~= loaded_writes(
            cfg,
            image,
            count,
        ));
    }
}

impl Console {
    /// The console's state as plain values.
    pub open spec fn view(&self) -> ConsoleState {
        ConsoleState {
            status: self.status,
            image: self.image@,
            register_writes: self.register_writes@,
            memory_writes: self.memory_writes@,
            entered: self.entered,
        }
    }

    /// A console that holds `image` in storage and whose core has the
    /// status word `status`; nothing has been written yet.
    pub fn new(status: u32, image: Vec<u8>) -> (console: Console)
        ensures
            console@ == (ConsoleState {
                status,
                image: image@,
                register_writes: Seq::empty(),
                memory_writes: Seq::empty(),
                entered: None,
            }),
    {
        Console {
            status,
            image,
            register_writes: Vec::new(),
            memory_writes: Vec::new(),
            entered: None,
        }
    }

    /// Reads the 32-bit word at `address` in storage.
    pub fn read_word(&self, cfg: &BootConfig, address: u64) -> (word: u32)
        ensures
            word == storage_word(*cfg, self.image@, address as int),
    {
        let start: u64 = cfg.storage_base as u64 + cfg.image_offset as u64;
        let length: u64 = self.image.len() as u64;
        if address >= start && address - start < length && length - (address - start) >= 4 {
            let at: usize = (address - start) as usize;
            let b0: u8 = self.image[at];
            let b1: u8 = self.image[at + 1];
            let b2: u8 = self.image[at + 2];
            let b3: u8 = self.image[at + 3];
            ((b0 as u32) << 24) | ((b1 as u32) << 16) | ((b2 as u32) << 8) | (b3 as u32)
        } else {
            0
        }
    }

    /// Reads the 16-bit field at `address` in storage.
    pub fn read_half(&self, cfg: &BootConfig, address: u64) -> (half: u32)
        ensures
            half == storage_half(*cfg, self.image@, address as int),
    {
        let start: u64 = cfg.storage_base as u64 + cfg.image_offset as u64;
        let length: u64 = self.image.len() as u64;
        if address >= start && address - start < length && length - (address - start) >= 2 {
            let at: usize = (address - start) as usize;
            let b0: u8 = self.image[at];
            let b1: u8 = self.image[at + 1];
            ((b0 as u32) << 8) | (b1 as u32)
        } else {
            0
        }
    }

    /// Performs one request of the stage and returns the answer to it.
    pub fn perform(&mut self, cfg: &BootConfig, request: Request) -> (reply: u32)
        ensures
            (final(self)@, reply) == performed(*cfg, old(self)@, request),
    {
        match request {
            Request::ReadStatus => self.status,
            Request::WriteStatus { value } => {
                self.status = value;
                0
            },
            Request::WriteAggregator { register, value } => {
                self.register_writes.push(WordWrite { address: register as u64, value });
                0
            },
            Request::ReadWord { address } => self.read_word(cfg, address),
            Request::ReadHalf { address } => self.read_half(cfg, address),
            Request::CopyWord { copy } => {
                let value: u32 = self.read_word(cfg, copy.from);
                self.memory_writes.push(WordWrite { address: copy.to, value });
                0
            },
            Request::Enter { jump } => {
                self.entered = Some(jump);
                0
            },
        }
    }

    /// Runs the whole boot stage on the console: steps the stage from its
    /// beginning and performs each request until the jump has been made.
    pub fn start(&mut self, cfg: &BootConfig)
        ensures
            final(self)@ == booted(*cfg, old(self)@),
    {
        let ghost before = self@;
        let mut stage: BootStage = BootStage::new(*cfg);
        let mut reply: u32 = 0;
        let mut entered: bool = false;
        while !entered
            invariant
                stage.cfg == *cfg,
                coherent(*cfg, before, stage.phase, reply, self@),
                entered <==> stage.phase is ImageLoaded,
            decreases lead(stage.phase), sections_left(stage.phase), work_left(stage.phase),
        {
            proof {
                lemma_step_coherent(*cfg, before, stage.phase, reply, self@);
            }
            let request: Request = stage.step(reply);
            reply = self.perform(cfg, request);
            entered = match request {
                Request::Enter { .. } => true,
                _ => false,
            };
        }
    }
}

} // verus!
