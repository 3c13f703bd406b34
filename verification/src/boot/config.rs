//! The fixed addresses and offsets that the boot stage works with, gathered
//! in one value so that the stage can be run against any image and any
//! address map.

use vstd::prelude::*;

verus! {

/// Every address and structural offset the boot stage depends on.
#[derive(Clone, Copy, Debug, PartialEq, Eq, Structural)]
pub struct BootConfig {
    /// Base address of the uncached read-only storage window.
    pub storage_base: u32,
    /// Byte offset within storage where the boot image begins.
    pub image_offset: u32,
    /// Offset, within the image header, of the 32-bit section table offset.
    pub table_offset_field: u32,
    /// Offset, within the image header, of the 16-bit section count.
    pub count_field: u32,
    /// Size in bytes of one section descriptor.
    pub record_size: u32,
    /// Offset of the byte size within a section descriptor.
    pub size_field: u32,
    /// Offset of the target address within a section descriptor.
    pub address_field: u32,
    /// Offset of the blob-relative byte offset within a section descriptor.
    pub offset_field: u32,
    /// Value of the high bits of an address that lies in the uncached memory
    /// window; the high bits are those that `window_offset_mask` leaves out.
    pub window_pattern: u32,
    /// Low bits of an address that remain once the window bits are masked off.
    pub window_offset_mask: u32,
    /// Highest window-relative offset backed by installed memory.
    pub capacity_bound: u32,
    /// Address of the mask register of the interrupt aggregator.
    pub aggregator_mask_register: u32,
    /// Entry address of the loaded image.
    pub entry_address: u32,
    /// Initial stack pointer handed to the loaded image.
    pub stack_address: u32,
}

impl BootConfig {
    /// The address map of the console: cartridge storage at `0xB000_0000`,
    /// the image at offset `0x1008`, a 32-bit ELF header and section table,
    /// memory in the uncached window at `0xA000_0000`.
    pub open spec fn console_spec() -> BootConfig {
        BootConfig {
            storage_base: 0xB000_0000,
            image_offset: 0x1008,
            table_offset_field: 0x20,
            count_field: 0x30,
            record_size: 0x28,
            size_field: 0x14,
            address_field: 0x0C,
            offset_field: 0x10,
            window_pattern: 0xA000_0000,
            window_offset_mask: 0x1FFF_FFFF,
            capacity_bound: 0x03EF_FFFF,
            aggregator_mask_register: 0xA430_000C,
            entry_address: 0xA000_0000,
            stack_address: 0xA03F_FFF0,
        }
    }

    /// The stack pointer is 16-byte aligned and the image starts on an
    /// 8-byte boundary.
    pub open spec fn aligned(self) -> bool {
        &&& self.stack_address % 16 == 0
        &&& self.image_offset % 8 == 0
    }

    /// Address in storage of the first byte of the boot image.
    pub open spec fn image_start(self) -> int {
        self.storage_base + self.image_offset
    }

    /// The console's address map.
    pub fn console() -> (cfg: BootConfig)
        ensures
            cfg == Self::console_spec(),
            cfg.aligned(),
    {
        BootConfig {
            storage_base: 0xB000_0000,
            image_offset: 0x1008,
            table_offset_field: 0x20,
            count_field: 0x30,
            record_size: 0x28,
            size_field: 0x14,
            address_field: 0x0C,
            offset_field: 0x10,
            window_pattern: 0xA000_0000,
            window_offset_mask: 0x1FFF_FFFF,
            capacity_bound: 0x03EF_FFFF,
            aggregator_mask_register: 0xA430_000C,
            entry_address: 0xA000_0000,
            stack_address: 0xA03F_FFF0,
        }
    }

    /// Whether the stack pointer and the image start are aligned as the
    /// loaded image expects.
    pub fn is_aligned(&self) -> (ok: bool)
        ensures
            ok == self.aligned(),
    {
        self.stack_address % 16 == 0 && self.image_offset % 8 == 0
    }
}

} // verus!
