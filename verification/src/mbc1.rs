//! The MBC1 cartridge controller: banked ROM over 0x0000-0x7FFF and banked
//! RAM over 0xA000-0xBFFF behind the bus contract, with the bank registers
//! written through the ROM address range.

use vstd::prelude::*;

use crate::bus::Bus;
use crate::util::{byte_at, zero_vec};

verus! {

/// The abstract state of an MBC1 cartridge.
pub struct Mbc1View {
    pub rom: Seq<u8>,
    pub rom_bank_num: u8,
    pub ram: Seq<u8>,
    pub ram_enable: bool,
    pub ram_bank_num: u8,
    pub mode_select: u8,
}

pub struct MBC1 {
    rom: Vec<u8>,
    rom_bank_num: u8,
    ram: Vec<u8>,
    ram_enable: bool,
    ram_bank_num: u8,
    mode_select: u8,
}

impl View for MBC1 {
    type V = Mbc1View;

    closed spec fn view(&self) -> Mbc1View {
        Mbc1View {
            rom: self.rom@,
            rom_bank_num: self.rom_bank_num,
            ram: self.ram@,
            ram_enable: self.ram_enable,
            ram_bank_num: self.ram_bank_num,
            mode_select: self.mode_select,
        }
    }
}

/// The addresses the cartridge answers: the ROM window and the RAM window.
pub open spec fn mbc1_addr_ok(addr: u16) -> bool {
    addr < 0x8000 || (0xa000 <= addr && addr < 0xc000)
}

/// The RAM bytes a header RAM-size code asks for.
pub open spec fn spec_ram_size(code: u8) -> nat {
    if code == 0 {
        0
    } else if code == 1 {
        2048
    } else if code == 2 {
        8192
    } else {
        32768
    }
}

/// The ROM bank that the switchable window at 0x4000 currently shows: in
/// mode 0 the secondary bank bits are folded in above bit 4.
pub open spec fn rom_bank_index(v: Mbc1View) -> u16 {
    if v.mode_select == 0 {
        (((v.ram_bank_num as u16) << 5) | (v.rom_bank_num as u16)) as u16
    } else {
        v.rom_bank_num as u16
    }
}

/// The index into cartridge RAM behind a bus address.
pub open spec fn ram_index(v: Mbc1View, addr: u16) -> int {
    (addr - 0xa000) + 0x2000 * (v.ram_bank_num as int)
}

/// What a cartridge read returns: bank 0 below 0x4000, the selected bank
/// at 0x4000-0x7FFF, banked RAM at 0xA000-0xBFFF; out-of-range bytes read
/// as 0.
pub open spec fn spec_mbc1_read8(v: Mbc1View, addr: u16) -> u8 {
    if addr < 0x4000 {
        byte_at(v.rom, addr as int)
    } else if addr < 0x8000 {
        byte_at(v.rom, (addr - 0x4000) + 0x4000 * (rom_bank_index(v) as int))
    } else if 0xa000 <= addr && addr < 0xc000 {
        byte_at(v.ram, ram_index(v, addr))
    } else {
        0
    }
}

/// What a cartridge write does: the four quarters of the ROM window set
/// RAM enable, the ROM bank (0 coerced to 1), the secondary bank, and the
/// addressing mode; RAM-window writes store into banked RAM when in
/// bounds and are otherwise ignored.
pub open spec fn spec_mbc1_write8(v: Mbc1View, addr: u16, data: u8) -> Mbc1View {
    if addr < 0x2000 {
        Mbc1View { ram_enable: data & 0xf == 0xa, ..v }
    } else if addr < 0x4000 {
        Mbc1View { rom_bank_num: if data == 0 { 1 } else { data }, ..v }
    } else if addr < 0x6000 {
        Mbc1View { ram_bank_num: data, ..v }
    } else if addr < 0x8000 {
        Mbc1View { mode_select: data, ..v }
    } else if 0xa000 <= addr && addr < 0xc000 {
        let i = ram_index(v, addr);
        if 0 <= i < v.ram.len() {
            Mbc1View { ram: v.ram.update(i, data), ..v }
        } else {
            v
        }
    } else {
        v
    }
}

impl MBC1 {
    /// Builds a cartridge from a raw ROM image, sizing its RAM from the
    /// header byte at 0x149.
    pub fn new(rom: Vec<u8>) -> (r: MBC1)
        requires
            rom@.len() > 0x149,
            rom@[0x149] == 0 || rom@[0x149] == 1 || rom@[0x149] == 2 || rom@[0x149] == 3,
        ensures
            r@ == (Mbc1View {
                rom: rom@,
                rom_bank_num: 1,
                ram: Seq::new(spec_ram_size(rom@[0x149]), |i: int| 0u8),
                ram_enable: false,
                ram_bank_num: 0,
                mode_select: 0,
            }),
    {
        let code = rom[0x149];
        let ramsize: usize = if code == 0 {
            0
        } else if code == 1 {
            2048
        } else if code == 2 {
            8192
        } else {
            32768
        };
        let ram_vec = zero_vec(ramsize);
        MBC1 {
            rom,
            rom_bank_num: 1,
            ram: ram_vec,
            ram_enable: false,
            ram_bank_num: 0,
            mode_select: 0,
        }
    }

    pub fn read8(&self, addr: u16) -> (r: u8)
        requires
            mbc1_addr_ok(addr),
        ensures
            r == spec_mbc1_read8(self@, addr),
    {
        if addr < 0x4000 {
            let i = addr as usize;
            if i < self.rom.len() {
                self.rom[i]
            } else {
                0
            }
        } else if addr < 0x8000 {
            let bank: u16 = if self.mode_select == 0 {
                ((self.ram_bank_num as u16) << 5) | (self.rom_bank_num as u16)
            } else {
                self.rom_bank_num as u16
            };
            let i = (addr as usize - 0x4000) + 0x4000 * (bank as usize);
            if i < self.rom.len() {
                self.rom[i]
            } else {
                0
            }
        } else {
            let i = (addr as usize - 0xa000) + 0x2000 * (self.ram_bank_num as usize);
            if i < self.ram.len() {
                self.ram[i]
            } else {
                0
            }
        }
    }

    pub fn write8(&mut self, addr: u16, data: u8)
        requires
            mbc1_addr_ok(addr),
        ensures
            final(self)@ == spec_mbc1_write8(old(self)@, addr, data),
    {
        if addr < 0x2000 {
            self.ram_enable = data & 0xf == 0xa;
        } else if addr < 0x4000 {
            self.rom_bank_num = if data == 0 { 1 } else { data };
        } else if addr < 0x6000 {
            self.ram_bank_num = data;
        } else if addr < 0x8000 {
            self.mode_select = data;
        } else {
            let i = (addr as usize - 0xa000) + 0x2000 * (self.ram_bank_num as usize);
            if i < self.ram.len() {
                self.ram[i] = data;
            }
        }
    }
}

impl Bus for MBC1 {
    open spec fn inv(&self) -> bool {
        true
    }

    open spec fn addr_ok(addr: u16) -> bool {
        mbc1_addr_ok(addr)
    }

    open spec fn spec_read8(&self, addr: u16) -> u8 {
        spec_mbc1_read8(self@, addr)
    }

    fn read8(&self, addr: u16) -> u8 {
        MBC1::read8(self, addr)
    }

    fn write8(&mut self, addr: u16, data: u8) {
        MBC1::write8(self, addr, data)
    }
}

/// Selecting a ROM bank: after writing `i` to the bank-select range, a
/// read anywhere in the switchable window 0x4000-0x7FFF comes from bank
/// `i`, with bank 0 coerced to bank 1; bank 0 itself is never switchable.
/// Holds in mode 0 with no secondary bank bits set, which is the
/// cartridge's power-on state.
pub proof fn lemma_rom_bank_select(v: Mbc1View, i: u8, addr: u16)
    requires
        v.mode_select == 0,
        v.ram_bank_num == 0,
        0x4000 <= addr < 0x8000,
    ensures
        spec_mbc1_read8(spec_mbc1_write8(v, 0x2000, i), addr) == byte_at(
            v.rom,
            (addr - 0x4000) + 0x4000 * (if i == 0 { 1int } else { i as int }),
        ),
{
    let b: u8 = if i == 0 { 1 } else { i };
    assert(((0u8 as u16) << 5) | (b as u16) == b as u16) by (bit_vector);
}

} // verus!
