use gbemu::mbc1::MBC1;
use gbemu::memory::Memory;

fn setup_memory() -> Memory {
    let mut rom = vec![0u8; 0x8000];
    for (k, b) in rom.iter_mut().enumerate() {
        *b = (k % 251) as u8;
    }
    // Header RAM-size code 2: 8192 bytes of cartridge RAM.
    rom[0x149] = 2;
    Memory::new(MBC1::new(rom))
}

#[test]
fn router_partition_round_trip() {
    // For every address, reading, writing the value just read back, and
    // reading again returns the original value, outside the switchable
    // ROM-bank window 0x4000-0x7FFF, whose writes re-map the window.
    let mut memory = setup_memory();
    for addr in 0..=0xFFFFu16 {
        if 0x4000 <= addr && addr < 0x8000 {
            continue;
        }
        let v = memory.read8(addr);
        memory.write8(addr, v);
        assert_eq!(memory.read8(addr), v, "round trip failed at {:04x}", addr);
    }
}

#[test]
fn region_stores() {
    let mut memory = setup_memory();
    memory.write8(0xC000, 0x11);
    assert_eq!(memory.read8(0xC000), 0x11);
    memory.write8(0xFF80, 0x22);
    assert_eq!(memory.read8(0xFF80), 0x22);
    memory.write8(0x8000, 0x33);
    assert_eq!(memory.read8(0x8000), 0x33);
    memory.write8(0xFE00, 0x44);
    assert_eq!(memory.read8(0xFE00), 0x44);
    memory.write8(0xA000, 0x55);
    assert_eq!(memory.read8(0xA000), 0x55);
    memory.write8(0xFF10, 0x66);
    assert_eq!(memory.read8(0xFF10), 0x66);
}

#[test]
fn work_ram_mirror() {
    let mut memory = setup_memory();
    memory.write8(0xC123, 0x77);
    assert_eq!(memory.read8(0xE123), 0x77);
    memory.write8(0xE200, 0x88);
    assert_eq!(memory.read8(0xC200), 0x88);
}

#[test]
fn unusable_range_reads_zero() {
    let mut memory = setup_memory();
    for addr in 0xFEA0..=0xFEFFu16 {
        memory.write8(addr, 0xAB);
        assert_eq!(memory.read8(addr), 0);
    }
}

#[test]
fn dma_copies_into_oam() {
    let mut memory = setup_memory();
    for k in 0..0xA0u16 {
        memory.write8(0xC000 + k, (k as u8).wrapping_add(3));
    }
    // Writing the source page to the DMA trigger copies 0xA0 bytes
    // through the router into OAM.
    memory.write8(0xFF46, 0xC0);
    for k in 0..0xA0u16 {
        assert_eq!(memory.read8(0xFE00 + k), (k as u8).wrapping_add(3));
    }
    // The trigger register itself still reads as 0.
    assert_eq!(memory.read8(0xFF46), 0);
}

#[test]
fn sixteen_bit_little_endian() {
    let mut memory = setup_memory();
    memory.write16(0xC400, 0xBEEF);
    assert_eq!(memory.read8(0xC400), 0xEF);
    assert_eq!(memory.read8(0xC401), 0xBE);
    assert_eq!(memory.read16(0xC400), 0xBEEF);
}

#[test]
fn rom_window_reaches_cartridge() {
    let mut memory = setup_memory();
    // Bank 0 is fixed at the low window.
    assert_eq!(memory.read8(0x0000), 0);
    assert_eq!(memory.read8(0x0001), 1);
    // Selecting ROM bank 1 through the router: the switchable window
    // shows the second 16 KiB.
    memory.write8(0x2000, 1);
    assert_eq!(memory.read8(0x4000), (0x4000 % 251) as u8);
    // The interrupt-enable stub reads as 0.
    assert_eq!(memory.read8(0xFFFF), 0);
}
