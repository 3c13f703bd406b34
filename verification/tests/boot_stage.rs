use std::collections::HashMap;

use raku::boot::config::BootConfig;
use raku::boot::image::{
    copy_from_rom_to_ram, descriptor_field_address, header_count_address,
    header_table_offset_address, section_accepted, ImageHeader, SectionDescriptor, WordCopy,
};
use raku::boot::interrupts::{mask_interrupts, AGGREGATOR_CLEAR_ALL, STATUS_KEEP};
use raku::boot::stage::{
    init_rdram, load_kernel, BootStage, LoaderPhase, Phase, Request, Stage,
};
use raku::boot::transfer::{goto_kernel, Jump};

#[test]
fn console_config_values() {
    let cfg = BootConfig::console();
    assert_eq!(cfg.storage_base, 0xB000_0000);
    assert_eq!(cfg.image_offset, 0x1008);
    assert_eq!(cfg.table_offset_field, 0x20);
    assert_eq!(cfg.count_field, 0x30);
    assert_eq!(cfg.record_size, 0x28);
    assert_eq!(cfg.size_field, 0x14);
    assert_eq!(cfg.address_field, 0x0C);
    assert_eq!(cfg.offset_field, 0x10);
    assert_eq!(cfg.window_pattern, 0xA000_0000);
    assert_eq!(cfg.window_offset_mask, 0x1FFF_FFFF);
    assert_eq!(cfg.capacity_bound, 0x03EF_FFFF);
    assert_eq!(cfg.aggregator_mask_register, 0xA430_000C);
    assert_eq!(cfg.entry_address, 0xA000_0000);
    assert_eq!(cfg.stack_address, 0xA03F_FFF0);
    assert!(cfg.is_aligned());
}

#[test]
fn misaligned_config_is_told_apart() {
    let mut cfg = BootConfig::console();
    cfg.stack_address = 0xA03F_FFF8;
    assert!(!cfg.is_aligned());
    let mut cfg = BootConfig::console();
    cfg.image_offset = 0x1004;
    assert!(!cfg.is_aligned());
}

#[test]
fn mask_clears_enable_and_source_bits_only() {
    assert_eq!(STATUS_KEEP, 0xFFFF_00FE);
    assert_eq!(mask_interrupts(0xFFFF_FFFF).status, 0xFFFF_00FE);
    assert_eq!(mask_interrupts(0x0000_FF01).status, 0);
    assert_eq!(mask_interrupts(0x3400_8D13).status, 0x3400_0012);
    assert_eq!(mask_interrupts(0).status, 0);
}

#[test]
fn mask_aggregator_pattern() {
    assert_eq!(AGGREGATOR_CLEAR_ALL, 0b0101_0101_0101);
    assert_eq!(mask_interrupts(0).aggregator, 0x555);
    assert_eq!(mask_interrupts(0xFFFF_FFFF).aggregator, 0x555);
}

#[test]
fn mask_twice_is_mask_once() {
    for status in [0u32, 1, 0xFF00, 0xFFFF_FFFF, 0x1234_5678, 0x8000_0101] {
        let once = mask_interrupts(status);
        let twice = mask_interrupts(once.status);
        assert_eq!(once, twice);
    }
}

#[test]
fn acceptance_examples() {
    let cfg = BootConfig::console();
    assert!(!section_accepted(&cfg, 0, 0xA000_1000));
    assert!(section_accepted(&cfg, 16, 0xA000_1000));
    assert!(!section_accepted(&cfg, 16, 0x8000_1000));
    assert!(!section_accepted(&cfg, 16, 0x8000_2000));
    assert!(!section_accepted(&cfg, 16, 0xA400_0000));
    assert!(section_accepted(&cfg, 16, 0xA3EF_FFFF));
    assert!(!section_accepted(&cfg, 16, 0xA3F0_0000));
    assert!(section_accepted(&cfg, 16, 0xA000_0000));
    assert!(section_accepted(&cfg, 1, 0xA000_0004));
    assert!(!section_accepted(&cfg, 1, 0xB000_0000));
    assert!(!section_accepted(&cfg, 16, 0xBFFF_FFFF));
    assert!(!section_accepted(&cfg, 16, 0xC000_1000));
    assert!(!section_accepted(&cfg, 16, 0xE000_1000));
    assert!(!section_accepted(&cfg, 16, 0x9FFF_FFFC));
    assert!(!section_accepted(&cfg, 16, 0x0000_1000));
    assert!(!section_accepted(&cfg, 16, 0x2000_0000));
}

#[test]
fn header_and_descriptor_addresses() {
    let cfg = BootConfig::console();
    assert_eq!(header_table_offset_address(&cfg), 0xB000_1028);
    assert_eq!(header_count_address(&cfg), 0xB000_1038);
    assert_eq!(descriptor_field_address(&cfg, 0x40, 0, 0x14), 0xB000_105C);
    assert_eq!(descriptor_field_address(&cfg, 0x40, 2, 0x0C), 0xB000_10A4);
    assert_eq!(
        descriptor_field_address(&cfg, 0xFFFF_FFFF, 0xFFFF, 0x10),
        0xB000_1008 + 0xFFFF_FFFF + 0xFFFF * 0x28 + 0x10
    );
}

#[test]
fn word_copies_of_a_section() {
    let cfg = BootConfig::console();
    let section = SectionDescriptor { size: 10, address: 0xA000_1000, offset: 0x100 };
    assert_eq!(
        copy_from_rom_to_ram(&cfg, &section, 0),
        Some(WordCopy { from: 0xB000_1108, to: 0xA000_1000 })
    );
    assert_eq!(
        copy_from_rom_to_ram(&cfg, &section, 1),
        Some(WordCopy { from: 0xB000_110C, to: 0xA000_1004 })
    );
    assert_eq!(copy_from_rom_to_ram(&cfg, &section, 2), None);
    let wide = SectionDescriptor { size: 0xFFFF_FFFF, address: 0xFFFF_FFFF, offset: 0xFFFF_FFFF };
    assert_eq!(
        copy_from_rom_to_ram(&cfg, &wide, 0x3FFF_FFFE),
        Some(WordCopy {
            from: 0xB000_1008 + 0xFFFF_FFFF + 0xFFFF_FFF8,
            to: 0xFFFF_FFFF + 0xFFFF_FFF8
        })
    );
    assert_eq!(copy_from_rom_to_ram(&cfg, &wide, 0x3FFF_FFFF), None);
}

#[test]
fn jump_registers() {
    let cfg = BootConfig::console();
    assert_eq!(
        goto_kernel(&cfg),
        Jump {
            stack_pointer: 0xA03F_FFF0,
            return_address: 0xA000_0000,
            program_counter: 0xA000_0000
        }
    );
    assert_eq!(goto_kernel(&cfg).stack_pointer % 16, 0);
}

#[test]
fn memory_readiness_check_returns() {
    init_rdram();
}

#[test]
fn stage_requests_in_order() {
    let cfg = BootConfig::console();
    let mut stage = BootStage::new(cfg);
    assert_eq!(stage.stage(), Stage::Init);
    assert_eq!(stage.step(0), Request::ReadStatus);
    assert_eq!(stage.stage(), Stage::Init);
    assert_eq!(stage.step(0x0000_FF03), Request::WriteStatus { value: 2 });
    assert_eq!(stage.stage(), Stage::Init);
    assert_eq!(
        stage.step(0),
        Request::WriteAggregator { register: 0xA430_000C, value: 0x555 }
    );
    assert_eq!(stage.stage(), Stage::InterruptsMasked);
    assert_eq!(stage.step(0), Request::ReadWord { address: 0xB000_1028 });
    assert_eq!(stage.stage(), Stage::MemoryReady);
    assert_eq!(stage.step(0x40), Request::ReadHalf { address: 0xB000_1038 });
    // two descriptors: the first is empty, the second is copied
    assert_eq!(stage.step(2), Request::ReadWord { address: 0xB000_105C });
    assert_eq!(stage.step(0), Request::ReadWord { address: 0xB000_1084 });
    assert_eq!(stage.step(8), Request::ReadWord { address: 0xB000_107C });
    assert_eq!(stage.step(0xA000_1000), Request::ReadWord { address: 0xB000_1080 });
    assert_eq!(
        stage.step(0x100),
        Request::CopyWord { copy: WordCopy { from: 0xB000_1108, to: 0xA000_1000 } }
    );
    assert_eq!(
        stage.step(0),
        Request::CopyWord { copy: WordCopy { from: 0xB000_110C, to: 0xA000_1004 } }
    );
    assert_eq!(stage.stage(), Stage::MemoryReady);
    let jump = Jump {
        stack_pointer: 0xA03F_FFF0,
        return_address: 0xA000_0000,
        program_counter: 0xA000_0000,
    };
    assert_eq!(stage.step(0), Request::Enter { jump });
    assert_eq!(stage.stage(), Stage::ImageLoaded);
    assert_eq!(stage.step(0), Request::Enter { jump });
    assert_eq!(stage.stage(), Stage::Transferred);
    assert_eq!(stage.step(77), Request::Enter { jump });
    assert_eq!(stage.stage(), Stage::Transferred);
}

#[test]
fn count_takes_the_low_sixteen_bits() {
    let cfg = BootConfig::console();
    let (phase, request) =
        load_kernel(&cfg, LoaderPhase::AwaitCount { table_offset: 0x40 }, 0xABCD_0001);
    let header = ImageHeader { table_offset: 0x40, count: 1 };
    assert_eq!(phase, Phase::MemoryReady(LoaderPhase::AwaitSize { header, index: 0 }));
    assert_eq!(request, Request::ReadWord { address: 0xB000_105C });
    let (phase, request) =
        load_kernel(&cfg, LoaderPhase::AwaitCount { table_offset: 0x40 }, 0xABCD_0000);
    assert_eq!(phase, Phase::ImageLoaded);
    assert!(matches!(request, Request::Enter { .. }));
}

#[test]
fn rejected_address_moves_to_next_descriptor() {
    let cfg = BootConfig::console();
    let header = ImageHeader { table_offset: 0x40, count: 3 };
    let at = LoaderPhase::AwaitAddress { header, index: 1, size: 16 };
    let (phase, request) = load_kernel(&cfg, at, 0x8000_1000);
    assert_eq!(phase, Phase::MemoryReady(LoaderPhase::AwaitSize { header, index: 2 }));
    assert_eq!(request, Request::ReadWord { address: 0xB000_1008 + 0x40 + 2 * 0x28 + 0x14 });
    let (phase, _) = load_kernel(&cfg, at, 0xA400_0000);
    assert_eq!(phase, Phase::MemoryReady(LoaderPhase::AwaitSize { header, index: 2 }));
    let (phase, request) = load_kernel(&cfg, at, 0xA3EF_FFFF);
    assert_eq!(
        phase,
        Phase::MemoryReady(LoaderPhase::AwaitOffset {
            header,
            index: 1,
            size: 16,
            address: 0xA3EF_FFFF
        })
    );
    assert_eq!(request, Request::ReadWord { address: 0xB000_1008 + 0x40 + 0x28 + 0x10 });
}

#[test]
fn empty_size_moves_to_next_descriptor() {
    let cfg = BootConfig::console();
    let header = ImageHeader { table_offset: 0x40, count: 3 };
    let at = LoaderPhase::AwaitSize { header, index: 0 };
    let (phase, request) = load_kernel(&cfg, at, 0);
    assert_eq!(phase, Phase::MemoryReady(LoaderPhase::AwaitSize { header, index: 1 }));
    assert_eq!(request, Request::ReadWord { address: 0xB000_1008 + 0x40 + 0x28 + 0x14 });
    let (phase, request) = load_kernel(&cfg, at, 4);
    assert_eq!(phase, Phase::MemoryReady(LoaderPhase::AwaitAddress { header, index: 0, size: 4 }));
    assert_eq!(request, Request::ReadWord { address: 0xB000_1008 + 0x40 + 0x0C });
}

#[test]
fn copy_goes_word_by_word() {
    let cfg = BootConfig::console();
    let header = ImageHeader { table_offset: 0x40, count: 1 };
    let at = LoaderPhase::AwaitOffset { header, index: 0, size: 8, address: 0xA000_1000 };
    let section = SectionDescriptor { size: 8, address: 0xA000_1000, offset: 0x100 };
    let (phase, request) = load_kernel(&cfg, at, 0x100);
    assert_eq!(
        phase,
        Phase::MemoryReady(LoaderPhase::Copying { header, index: 0, section, words: 1 })
    );
    assert_eq!(
        request,
        Request::CopyWord { copy: WordCopy { from: 0xB000_1108, to: 0xA000_1000 } }
    );
    let at = LoaderPhase::Copying { header, index: 0, section, words: 1 };
    let (phase, request) = load_kernel(&cfg, at, 0);
    assert_eq!(
        phase,
        Phase::MemoryReady(LoaderPhase::Copying { header, index: 0, section, words: 2 })
    );
    assert_eq!(
        request,
        Request::CopyWord { copy: WordCopy { from: 0xB000_110C, to: 0xA000_1004 } }
    );
    let at = LoaderPhase::Copying { header, index: 0, section, words: 2 };
    let (phase, request) = load_kernel(&cfg, at, 0);
    assert_eq!(phase, Phase::ImageLoaded);
    assert!(matches!(request, Request::Enter { .. }));
}

#[test]
fn last_descriptor_of_a_full_table() {
    let cfg = BootConfig::console();
    let header = ImageHeader { table_offset: 0, count: 0xFFFF };
    let at = LoaderPhase::AwaitSize { header, index: 0xFFFE };
    let (phase, request) = load_kernel(&cfg, at, 0);
    assert_eq!(phase, Phase::ImageLoaded);
    assert!(matches!(request, Request::Enter { .. }));
}

/// Runs the stage against storage and memory kept in maps, as a caller
/// on hardware would run it against the bus.
fn run(
    status: u32,
    storage: &HashMap<u64, u32>,
    halves: &HashMap<u64, u32>,
) -> (u32, Vec<(u64, u32)>, HashMap<u64, u32>, Jump) {
    let mut stage = BootStage::new(BootConfig::console());
    let mut status = status;
    let mut registers: Vec<(u64, u32)> = Vec::new();
    let mut memory: HashMap<u64, u32> = HashMap::new();
    let mut reply: u32 = 0;
    for _ in 0..10_000 {
        match stage.step(reply) {
            Request::ReadStatus => reply = status,
            Request::WriteStatus { value } => status = value,
            Request::WriteAggregator { register, value } => {
                registers.push((register as u64, value))
            }
            Request::ReadWord { address } => reply = *storage.get(&address).unwrap_or(&0),
            Request::ReadHalf { address } => reply = *halves.get(&address).unwrap_or(&0),
            Request::CopyWord { copy } => {
                memory.insert(copy.to, *storage.get(&copy.from).unwrap_or(&0));
            }
            Request::Enter { jump } => return (status, registers, memory, jump),
        }
    }
    panic!("the stage did not finish");
}

#[test]
fn stage_driven_by_hand() {
    let start: u64 = 0xB000_1008;
    let mut storage: HashMap<u64, u32> = HashMap::new();
    let mut halves: HashMap<u64, u32> = HashMap::new();
    storage.insert(start + 0x20, 0x34);
    halves.insert(start + 0x30, 3);
    let sections =
        [(0u32, 0xA000_5000u32, 0x200u32), (16, 0xA000_1000, 0x200), (16, 0x8000_2000, 0x200)];
    for (i, (size, address, offset)) in sections.iter().enumerate() {
        let record = start + 0x34 + 0x28 * i as u64;
        storage.insert(record + 0x14, *size);
        storage.insert(record + 0x0C, *address);
        storage.insert(record + 0x10, *offset);
    }
    for k in 0..4u64 {
        storage.insert(start + 0x200 + 4 * k, 0x1111_1111 * (k as u32 + 1));
    }
    let (status, registers, memory, jump) = run(0xFFFF_FFFF, &storage, &halves);
    assert_eq!(status, 0xFFFF_00FE);
    assert_eq!(registers, vec![(0xA430_000C, 0x555)]);
    assert_eq!(memory.len(), 4);
    for k in 0..4u64 {
        assert_eq!(memory[&(0xA000_1000 + 4 * k)], 0x1111_1111 * (k as u32 + 1));
    }
    assert_eq!(jump.stack_pointer, 0xA03F_FFF0);
    assert_eq!(jump.program_counter, 0xA000_0000);
}
