use gbemu::mbc1::MBC1;

#[test]
fn mbc1_rom_bank_test() {
    let mut rom_vec = vec![0u8; 1024 * 64];
    for i in 0..4 {
        rom_vec[i << 14] = i as u8;
    }
    let mut mbc1 = MBC1::new(rom_vec);
    for i in 1..4 {
        mbc1.write8(0x2000, i);
        assert!(mbc1.read8(0x4000) == i);
    }
}

#[test]
fn mbc1_bank_zero_coerced_to_one() {
    let mut rom_vec = vec![0u8; 1024 * 64];
    for i in 0..4 {
        rom_vec[i << 14] = 0x10 + i as u8;
    }
    let mut mbc1 = MBC1::new(rom_vec);
    // Writing 0 selects bank 1, never bank 0.
    mbc1.write8(0x2000, 0);
    assert_eq!(mbc1.read8(0x4000), 0x11);
    // The fixed window still reads bank 0.
    assert_eq!(mbc1.read8(0x0000), 0x10);
}

#[test]
fn mbc1_ram_round_trip() {
    let mut rom_vec = vec![0u8; 0x8000];
    // Header RAM-size code 1: 2048 bytes of cartridge RAM.
    rom_vec[0x149] = 1;
    let mut mbc1 = MBC1::new(rom_vec);
    mbc1.write8(0xA123, 0x5A);
    assert_eq!(mbc1.read8(0xA123), 0x5A);
    assert_eq!(mbc1.read8(0xA124), 0);
    // Out-of-bounds banked RAM reads as 0 and discards writes.
    mbc1.write8(0xB000, 0x77);
    assert_eq!(mbc1.read8(0xB000), 0);
}
