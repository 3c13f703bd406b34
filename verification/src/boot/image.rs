//! Layout of the boot image as far as the loader reads it: where the header
//! fields and the section descriptors lie in storage, which sections are
//! copied, and which words a copied section consists of.

use vstd::prelude::*;
use crate::boot::config::BootConfig;

verus! {

/// The two fields of the image header that the loader consumes.
#[derive(Clone, Copy, Debug, PartialEq, Eq, Structural)]
pub struct ImageHeader {
    /// Byte offset of the section table from the start of the image.
    pub table_offset: u32,
    /// Number of descriptors in the section table.
    pub count: u16,
}

/// The three fields of a section descriptor that the loader consumes.
#[derive(Clone, Copy, Debug, PartialEq, Eq, Structural)]
pub struct SectionDescriptor {
    /// Size of the section in bytes.
    pub size: u32,
    /// Address in memory at which the section is to lie.
    pub address: u32,
    /// Byte offset of the section's contents from the start of the image.
    pub offset: u32,
}

/// One word moved from storage to memory.
#[derive(Clone, Copy, Debug, PartialEq, Eq, Structural)]
pub struct WordCopy {
    /// Address in storage that is read.
    pub from: u64,
    /// Address in memory that is written.
    pub to: u64,
}

/// Address in storage of the header field that holds the table offset.
pub open spec fn table_offset_address(cfg: BootConfig) -> int {
    cfg.image_start() + cfg.table_offset_field
}

/// Address in storage of the header field that holds the section count.
pub open spec fn count_address(cfg: BootConfig) -> int {
    cfg.image_start() + cfg.count_field
}

/// Address in storage of descriptor `index` of a table that lies
/// `table_offset` bytes into the image.
pub open spec fn record_address(cfg: BootConfig, table_offset: u32, index: int) -> int {
    cfg.image_start() + table_offset + index * cfg.record_size
}

/// The high bits of `address`, those that the offset mask leaves out, are
/// the pattern of the uncached window.
pub open spec fn in_window(cfg: BootConfig, address: u32) -> bool {
    address & !cfg.window_offset_mask == cfg.window_pattern
}

/// What is left of `address` once the window bits are masked off.
pub open spec fn window_offset(cfg: BootConfig, address: u32) -> u32 {
    address & cfg.window_offset_mask
}

/// A section is copied if and only if it is not empty, its base address
/// lies in the uncached window, and its window-relative offset does not
/// exceed the capacity bound. Only the base address is looked at.
pub open spec fn accepted(cfg: BootConfig, size: u32, address: u32) -> bool {
    &&& size != 0
    &&& in_window(cfg, address)
    &&& window_offset(cfg, address) <= cfg.capacity_bound
}

/// Number of words copied for an accepted section of `size` bytes.
pub open spec fn word_count(size: u32) -> int {
    size as int / 4
}

/// Copy number `word` of a section: both sides advance by four bytes per
/// word from the section's place in the image and from its target address.
pub open spec fn word_copy(cfg: BootConfig, section: SectionDescriptor, word: int) -> WordCopy {
    WordCopy {
        from: (cfg.image_start() + section.offset + 4 * word) as u64,
        to: (section.address + 4 * word) as u64,
    }
}

/// All copies that one descriptor causes, in order: none for a rejected
/// section, one per whole word for an accepted one.
pub open spec fn section_copies(cfg: BootConfig, section: SectionDescriptor) -> Seq<WordCopy> {
    if accepted(cfg, section.size, section.address) {
        Seq::new(word_count(section.size) as nat, |word: int| word_copy(cfg, section, word))
    } else {
        Seq::empty()
    }
}

/// Address in storage of the table-offset field of the header.
pub fn header_table_offset_address(cfg: &BootConfig) -> (address: u64)
    ensures
        address == table_offset_address(*cfg),
{
    cfg.storage_base as u64 + cfg.image_offset as u64 + cfg.table_offset_field as u64
}

/// Address in storage of the section-count field of the header.
pub fn header_count_address(cfg: &BootConfig) -> (address: u64)
    ensures
        address == count_address(*cfg),
{
    cfg.storage_base as u64 + cfg.image_offset as u64 + cfg.count_field as u64
}

/// Address in storage of the field that lies `field` bytes into descriptor
/// `index`.
pub fn descriptor_field_address(
    cfg: &BootConfig,
    table_offset: u32,
    index: u16,
    field: u32,
) -> (address: u64)
    ensures
        address == record_address(*cfg, table_offset, index as int) + field,
{
    let step: u64 = cfg.record_size as u64;
    let count: u64 = index as u64;
    assert(count * step <= 0xFFFF * 0xFFFF_FFFF) by (nonlinear_arith)
        requires
            count <= 0xFFFF,
            step <= 0xFFFF_FFFF,
    ;
    let record: u64 = cfg.storage_base as u64 + cfg.image_offset as u64 + table_offset as u64
        + count * step;
    record + field as u64
}

/// Decides whether a section of `size` bytes with base address `address`
/// is copied.
pub fn section_accepted(cfg: &BootConfig, size: u32, address: u32) -> (ok: bool)
    ensures
        ok == accepted(*cfg, size, address),
{
    size != 0 && address & !cfg.window_offset_mask == cfg.window_pattern && address
        & cfg.window_offset_mask <= cfg.capacity_bound
}

/// The copy of word number `word` of a section, or `None` once all
/// `size / 4` words of it have been copied.
pub fn copy_from_rom_to_ram(cfg: &BootConfig, section: &SectionDescriptor, word: u32) -> (copy:
    Option<WordCopy>)
    ensures
        word < word_count(section.size) ==> copy == Some(word_copy(*cfg, *section, word as int)),
        word >= word_count(section.size) ==> copy.is_none(),
{
    if word < section.size / 4 {
        let step: u64 = 4 * (word as u64);
        let from: u64 = cfg.storage_base as u64 + cfg.image_offset as u64 + section.offset as u64
            + step;
        let to: u64 = section.address as u64 + step;
        Some(WordCopy { from, to })
    } else {
        None
    }
}

/// A descriptor of size zero causes no copy.
pub proof fn lemma_empty_section_skipped(cfg: BootConfig, section: SectionDescriptor)
    requires
        section.size == 0,
    ensures
        section_copies(cfg, section) == Seq::<WordCopy>::empty(),
{
}

/// A descriptor whose target address does not carry the window pattern in
/// its high bits causes no copy.
pub proof fn lemma_outside_window_skipped(cfg: BootConfig, section: SectionDescriptor)
    requires
        !in_window(cfg, section.address),
    ensures
        section_copies(cfg, section) == Seq::<WordCopy>::empty(),
{
}

/// A descriptor in the window whose window-relative offset exceeds the
/// capacity bound causes no copy.
pub proof fn lemma_beyond_capacity_skipped(cfg: BootConfig, section: SectionDescriptor)
    requires
        window_offset(cfg, section.address) > cfg.capacity_bound,
    ensures
        section_copies(cfg, section) == Seq::<WordCopy>::empty(),
{
}

/// A non-empty descriptor in the window whose window-relative offset does
/// not exceed the capacity bound, the bound itself allowed, is copied whole:
/// one copy per word, word `k` from `4 * k` bytes into the section's
/// contents to `4 * k` bytes past its target address.
pub proof fn lemma_within_capacity_copied(cfg: BootConfig, section: SectionDescriptor)
    requires
        section.size != 0,
        in_window(cfg, section.address),
        window_offset(cfg, section.address) <= cfg.capacity_bound,
    ensures
        accepted(cfg, section.size, section.address),
        section_copies(cfg, section).len() == section.size as int / 4,
        forall|k: int|
            0 <= k < section.size as int / 4 ==> {
                &&& (#[trigger] section_copies(cfg, section)[k]).from == cfg.image_start()
                    + section.offset + 4 * k
                &&& section_copies(cfg, section)[k].to == section.address + 4 * k
            },
{
}

/// On the console's address map the window is the range `0xA000_0000` to
/// `0xBFFF_FFFF`, and the window-relative offset of an address in it is its
/// distance from the start of the window.
pub proof fn lemma_console_window(address: u32)
    ensures
        in_window(BootConfig::console_spec(), address) <==> 0xA000_0000 <= address <= 0xBFFF_FFFF,
        in_window(BootConfig::console_spec(), address) ==> window_offset(
            BootConfig::console_spec(),
            address,
        ) == address - 0xA000_0000,
{
    assert((address & !0x1FFF_FFFFu32 == 0xA000_0000u32) <==> (0xA000_0000u32 <= address && address
        <= 0xBFFF_FFFFu32)) by (bit_vector);
    assert(address & !0x1FFF_FFFFu32 == 0xA000_0000u32 ==> address & 0x1FFF_FFFFu32 == address
        - 0xA000_0000u32) by (bit_vector);
}

} // verus!
