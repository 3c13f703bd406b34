use raku::boot::config::BootConfig;
use raku::boot::console::{Console, WordWrite};
use raku::boot::transfer::Jump;

const TABLE: usize = 0x40;
const RECORD: usize = 0x28;

fn put_word(image: &mut Vec<u8>, at: usize, value: u32) {
    image[at..at + 4].copy_from_slice(&value.to_be_bytes());
}

fn put_half(image: &mut Vec<u8>, at: usize, value: u16) {
    image[at..at + 2].copy_from_slice(&value.to_be_bytes());
}

/// An image of `length` bytes whose table at `TABLE` holds the given
/// descriptors as (size, address, offset).
fn image_with(length: usize, sections: &[(u32, u32, u32)]) -> Vec<u8> {
    let mut image: Vec<u8> = (0..length).map(|i| (i * 7 + 3) as u8).collect();
    put_word(&mut image, 0x20, TABLE as u32);
    put_half(&mut image, 0x30, sections.len() as u16);
    for (i, (size, address, offset)) in sections.iter().enumerate() {
        let record = TABLE + i * RECORD;
        put_word(&mut image, record + 0x14, *size);
        put_word(&mut image, record + 0x0C, *address);
        put_word(&mut image, record + 0x10, *offset);
    }
    image
}

fn word_in(image: &[u8], at: usize) -> u32 {
    u32::from_be_bytes([image[at], image[at + 1], image[at + 2], image[at + 3]])
}

fn boot(status: u32, image: Vec<u8>) -> Console {
    let cfg = BootConfig::console();
    let mut console = Console::new(status, image);
    console.start(&cfg);
    console
}

#[test]
fn three_descriptors_one_copied() {
    let image = image_with(
        0x200,
        &[(0, 0xA000_3000, 0x100), (16, 0xA000_1000, 0x100), (16, 0x8000_2000, 0x120)],
    );
    let console = boot(0x3400_FF01, image.clone());
    let expected: Vec<WordWrite> = (0..4u64)
        .map(|k| WordWrite {
            address: 0xA000_1000 + 4 * k,
            value: word_in(&image, 0x100 + 4 * k as usize),
        })
        .collect();
    assert_eq!(console.memory_writes, expected);
    assert_eq!(console.memory_writes.len(), 4);
    assert_eq!(console.image, image);
}

#[test]
fn copied_bytes_equal_source_bytes() {
    let image = image_with(0x200, &[(16, 0xA000_1000, 0x100)]);
    let console = boot(0, image.clone());
    let mut written: Vec<u8> = Vec::new();
    for write in &console.memory_writes {
        written.extend_from_slice(&write.value.to_be_bytes());
    }
    assert_eq!(written, image[0x100..0x110].to_vec());
}

#[test]
fn empty_section_writes_nothing() {
    let image = image_with(0x200, &[(0, 0xA000_1000, 0x100)]);
    let console = boot(0, image);
    assert!(console.memory_writes.is_empty());
}

#[test]
fn section_outside_window_is_skipped() {
    let image = image_with(0x200, &[(16, 0x8000_1000, 0x100)]);
    let console = boot(0, image);
    assert!(console.memory_writes.is_empty());
}

#[test]
fn section_beyond_capacity_is_skipped() {
    let image = image_with(0x200, &[(16, 0xA400_0000, 0x100)]);
    let console = boot(0, image);
    assert!(console.memory_writes.is_empty());
}

#[test]
fn section_at_capacity_boundary_is_copied() {
    let image = image_with(0x200, &[(8, 0xA3EF_FFFF, 0x100)]);
    let console = boot(0, image.clone());
    assert_eq!(
        console.memory_writes,
        vec![
            WordWrite { address: 0xA3EF_FFFF, value: word_in(&image, 0x100) },
            WordWrite { address: 0xA3F0_0003, value: word_in(&image, 0x104) },
        ]
    );
}

#[test]
fn section_just_past_capacity_boundary_is_skipped() {
    let image = image_with(0x200, &[(8, 0xA3F0_0000, 0x100)]);
    let console = boot(0, image);
    assert!(console.memory_writes.is_empty());
}

#[test]
fn straddling_section_is_copied_whole() {
    let image = image_with(0x200, &[(12, 0xA3EF_FFFC, 0x100)]);
    let console = boot(0, image);
    let addresses: Vec<u64> = console.memory_writes.iter().map(|w| w.address).collect();
    assert_eq!(addresses, vec![0xA3EF_FFFC, 0xA3F0_0000, 0xA3F0_0004]);
}

#[test]
fn size_not_a_multiple_of_four_copies_whole_words_only() {
    let image = image_with(0x200, &[(7, 0xA000_1000, 0x100), (3, 0xA000_2000, 0x100)]);
    let console = boot(0, image);
    let addresses: Vec<u64> = console.memory_writes.iter().map(|w| w.address).collect();
    assert_eq!(addresses, vec![0xA000_1000]);
}

#[test]
fn sections_are_copied_in_table_order() {
    let image = image_with(
        0x200,
        &[(8, 0xA000_2000, 0x110), (4, 0xA000_1000, 0x100), (4, 0xA3EF_FFFC, 0x108)],
    );
    let console = boot(0, image.clone());
    assert_eq!(
        console.memory_writes,
        vec![
            WordWrite { address: 0xA000_2000, value: word_in(&image, 0x110) },
            WordWrite { address: 0xA000_2004, value: word_in(&image, 0x114) },
            WordWrite { address: 0xA000_1000, value: word_in(&image, 0x100) },
            WordWrite { address: 0xA3EF_FFFC, value: word_in(&image, 0x108) },
        ]
    );
}

#[test]
fn boot_masks_interrupts() {
    let console = boot(0xFFFF_FFFF, image_with(0x200, &[]));
    assert_eq!(console.status, 0xFFFF_00FE);
    assert_eq!(
        console.register_writes,
        vec![WordWrite { address: 0xA430_000C, value: 0x555 }]
    );
}

#[test]
fn boot_twice_leaves_the_same_masks() {
    let cfg = BootConfig::console();
    let mut console = Console::new(0x1234_ABCD, image_with(0x200, &[]));
    console.start(&cfg);
    let status_once = console.status;
    let aggregator_once = console.register_writes[0];
    console.start(&cfg);
    assert_eq!(console.status, status_once);
    assert_eq!(console.register_writes, vec![aggregator_once, aggregator_once]);
}

#[test]
fn boot_enters_the_image() {
    let console = boot(0, image_with(0x200, &[(16, 0xA000_1000, 0x100)]));
    assert_eq!(
        console.entered,
        Some(Jump {
            stack_pointer: 0xA03F_FFF0,
            return_address: 0xA000_0000,
            program_counter: 0xA000_0000,
        })
    );
}

#[test]
fn boot_with_other_entry_and_stack() {
    let mut cfg = BootConfig::console();
    cfg.entry_address = 0xA010_0000;
    cfg.stack_address = 0xA020_0000;
    let mut console = Console::new(0, image_with(0x200, &[(4, 0xA000_1000, 0x100)]));
    console.start(&cfg);
    let jump = console.entered.unwrap();
    assert_eq!(jump.stack_pointer, 0xA020_0000);
    assert_eq!(jump.program_counter, 0xA010_0000);
    assert_eq!(jump.return_address, 0xA010_0000);
    assert_eq!(console.memory_writes.len(), 1);
}

#[test]
fn empty_image_loads_nothing_and_still_enters() {
    let console = boot(0x0000_FF01, Vec::new());
    assert!(console.memory_writes.is_empty());
    assert_eq!(console.status, 0);
    assert!(console.entered.is_some());
}

#[test]
fn table_outside_the_image_reads_as_empty_sections() {
    let mut image = image_with(0x200, &[]);
    put_word(&mut image, 0x20, 0x0100_0000);
    put_half(&mut image, 0x30, 500);
    let console = boot(0, image);
    assert!(console.memory_writes.is_empty());
    assert!(console.entered.is_some());
}

#[test]
fn source_outside_the_image_copies_zero_words() {
    let image = image_with(0x200, &[(8, 0xA000_1000, 0x1FC)]);
    let console = boot(0, image.clone());
    assert_eq!(
        console.memory_writes,
        vec![
            WordWrite { address: 0xA000_1000, value: word_in(&image, 0x1FC) },
            WordWrite { address: 0xA000_1004, value: 0 },
        ]
    );
}

#[test]
fn storage_reads_are_big_endian() {
    let cfg = BootConfig::console();
    let console = Console::new(0, vec![0x12, 0x34, 0x56, 0x78, 0x9A]);
    let start: u64 = 0xB000_1008;
    assert_eq!(console.read_word(&cfg, start), 0x1234_5678);
    assert_eq!(console.read_word(&cfg, start + 1), 0x3456_789A);
    assert_eq!(console.read_word(&cfg, start + 2), 0);
    assert_eq!(console.read_word(&cfg, start - 1), 0);
    assert_eq!(console.read_half(&cfg, start), 0x1234);
    assert_eq!(console.read_half(&cfg, start + 3), 0x789A);
    assert_eq!(console.read_half(&cfg, start + 4), 0);
}

#[test]
fn other_layout_is_honoured() {
    let mut cfg = BootConfig::console();
    cfg.storage_base = 0x1000_0000;
    cfg.image_offset = 0x40;
    cfg.table_offset_field = 0;
    cfg.count_field = 4;
    cfg.record_size = 12;
    cfg.size_field = 0;
    cfg.address_field = 4;
    cfg.offset_field = 8;
    cfg.window_pattern = 0x8000_0000;
    cfg.window_offset_mask = 0x7FFF_FFFF;
    cfg.capacity_bound = 0xFFFF;
    let mut image = vec![0u8; 0x40];
    put_word(&mut image, 0, 8);
    put_half(&mut image, 4, 2);
    put_word(&mut image, 8, 4);
    put_word(&mut image, 12, 0x8000_0010);
    put_word(&mut image, 16, 0x20);
    put_word(&mut image, 20, 4);
    put_word(&mut image, 24, 0x8001_0000);
    put_word(&mut image, 28, 0x20);
    put_word(&mut image, 0x20, 0xCAFE_F00D);
    let mut console = Console::new(0, image);
    console.start(&cfg);
    assert_eq!(
        console.memory_writes,
        vec![WordWrite { address: 0x8000_0010, value: 0xCAFE_F00D }]
    );
}
