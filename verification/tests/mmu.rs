use sm83_core::mmu::MemoryLocation;
use sm83_core::mmu::MMU;

fn region_base_and_capacity(location: &MemoryLocation) -> (u16, u32) {
    match location {
        MemoryLocation::Cartridge(_) => (0x0000, 16384),
        MemoryLocation::CartridgeMBC(_) => (0x4000, 16384),
        MemoryLocation::VRAM(_) => (0x8000, 8192),
        MemoryLocation::CartridgeRAM(_) => (0xA000, 16384),
        MemoryLocation::WRAM(_) => (0xC000, 8192),
        MemoryLocation::EchoRAM(_) => (0xE000, 8192),
        MemoryLocation::OAM(_) => (0xFE00, 160),
        MemoryLocation::IO(_) => (0xFF00, 128),
        MemoryLocation::HRAM(_) => (0xFF80, 127),
        MemoryLocation::IE(_) => (0xFFFF, 1),
    }
}

fn offset_of(location: &MemoryLocation) -> u16 {
    match location {
        MemoryLocation::Cartridge(offset) => *offset,
        MemoryLocation::CartridgeMBC(offset) => *offset,
        MemoryLocation::VRAM(offset) => *offset,
        MemoryLocation::CartridgeRAM(offset) => *offset,
        MemoryLocation::WRAM(offset) => *offset,
        MemoryLocation::EchoRAM(offset) => *offset,
        MemoryLocation::OAM(offset) => *offset,
        MemoryLocation::IO(offset) => *offset,
        MemoryLocation::HRAM(offset) => *offset,
        MemoryLocation::IE(offset) => *offset,
    }
}

#[test]
fn classify_is_total_outside_the_unusable_range() {
    let mmu = MMU::new();
    for addr in 0..=0xFFFFu16 {
        let unusable = (0xFEA0..=0xFEFF).contains(&addr);
        match mmu.classify(addr) {
            None => assert!(unusable, "no region for usable address {addr:04X}"),
            Some(location) => {
                assert!(!unusable, "region for unusable address {addr:04X}");
                let (_, capacity) = region_base_and_capacity(&location);
                assert!(
                    (offset_of(&location) as u32) < capacity,
                    "offset out of bounds at {addr:04X}"
                );
            }
        }
    }
}

#[test]
fn every_usable_byte_is_readable_when_fresh() {
    let mmu = MMU::new();
    for addr in 0..=0xFFFFu16 {
        if (0xFEA0..=0xFEFF).contains(&addr) {
            continue;
        }
        assert_eq!(mmu.read_byte(addr), Some(0), "unreadable byte at {addr:04X}");
    }
}

#[test]
fn xor_equals_subtraction_for_every_region() {
    let mmu = MMU::new();
    for addr in 0..=0xFFFFu16 {
        if let Some(location) = mmu.classify(addr) {
            let (base, _) = region_base_and_capacity(&location);
            assert_eq!(addr ^ base, addr - base, "misaligned base at {addr:04X}");
            assert_eq!(offset_of(&location), addr - base);
        }
    }
}

#[test]
fn region_boundaries_decode_as_the_table_says() {
    let mmu = MMU::new();
    assert_eq!(mmu.classify(0x0000), Some(MemoryLocation::Cartridge(0x0000)));
    assert_eq!(mmu.classify(0x3FFF), Some(MemoryLocation::Cartridge(0x3FFF)));
    assert_eq!(mmu.classify(0x4000), Some(MemoryLocation::CartridgeMBC(0x0000)));
    assert_eq!(mmu.classify(0x8000), Some(MemoryLocation::VRAM(0x0000)));
    assert_eq!(mmu.classify(0xA000), Some(MemoryLocation::CartridgeRAM(0x0000)));
    assert_eq!(mmu.classify(0xC000), Some(MemoryLocation::WRAM(0x0000)));
    assert_eq!(mmu.classify(0xE000), Some(MemoryLocation::EchoRAM(0x0000)));
    assert_eq!(mmu.classify(0xFDFF), Some(MemoryLocation::EchoRAM(0x1DFF)));
    assert_eq!(mmu.classify(0xFE00), Some(MemoryLocation::OAM(0x0000)));
    assert_eq!(mmu.classify(0xFE9F), Some(MemoryLocation::OAM(0x009F)));
    assert_eq!(mmu.classify(0xFEA0), None);
    assert_eq!(mmu.classify(0xFEFF), None);
    assert_eq!(mmu.classify(0xFF00), Some(MemoryLocation::IO(0x0000)));
    assert_eq!(mmu.classify(0xFF80), Some(MemoryLocation::HRAM(0x0000)));
    assert_eq!(mmu.classify(0xFFFE), Some(MemoryLocation::HRAM(0x007E)));
    assert_eq!(mmu.classify(0xFFFF), Some(MemoryLocation::IE(0x0000)));
}

#[test]
fn write_then_read_byte_round_trips_in_each_region() {
    let mut mmu = MMU::new();
    for addr in [0x0000u16, 0x4000, 0x8000, 0xA000, 0xC000, 0xFE00, 0xFF00, 0xFF80, 0xFFFF] {
        mmu.write_byte(addr, 0x5A);
        assert_eq!(mmu.read_byte(addr), Some(0x5A), "lost byte at {addr:04X}");
    }
}

#[test]
fn echo_aliases_work_ram_in_both_directions() {
    let mut mmu = MMU::new();
    mmu.write_byte(0xC010, 0x42);
    assert_eq!(mmu.read_byte(0xE010), Some(0x42));
    mmu.write_byte(0xE010, 0x99);
    assert_eq!(mmu.read_byte(0xC010), Some(0x99));
}

#[test]
fn echo_aliases_every_offset_of_the_shared_window() {
    let mut mmu = MMU::new();
    for offset in 0..0x1E00u16 {
        let value = (offset % 251) as u8;
        mmu.write_byte(0xC000 + offset, value);
        assert_eq!(mmu.read_byte(0xE000 + offset), Some(value));
        mmu.write_byte(0xE000 + offset, value ^ 0xFF);
        assert_eq!(mmu.read_byte(0xC000 + offset), Some(value ^ 0xFF));
    }
}

#[test]
fn words_are_little_endian() {
    let mut mmu = MMU::new();
    mmu.write_byte(0xC000, 0x34);
    mmu.write_byte(0xC001, 0x12);
    assert_eq!(mmu.read_word(0xC000), Some(0x1234));

    mmu.write_word(0xC100, 0xBEEF);
    assert_eq!(mmu.read_byte(0xC100), Some(0xEF));
    assert_eq!(mmu.read_byte(0xC101), Some(0xBE));
    assert_eq!(mmu.read_word(0xC100), Some(0xBEEF));
}

#[test]
fn word_reads_stop_at_the_region_buffer_end() {
    let mmu = MMU::new();
    assert_eq!(mmu.read_word(0x3FFF), None);
    assert_eq!(mmu.read_word(0xFFFF), None);
    assert_eq!(mmu.read_word(0x3FFE), Some(0));
}
