//! The memory router: the single point of address resolution composing
//! the cartridge, the LCD's memory regions, the I/O block, work RAM and
//! high RAM over the full 16-bit address space, plus the synchronous DMA
//! transfer triggered through 0xFF46.

use vstd::prelude::*;

use crate::bus::{word_of, Bus};
use crate::io::{io_addr_ok, io_initial, io_wf, spec_io_read8, spec_io_write8, IoView, IO};
use crate::lcd::LcdView;
use crate::mbc1::{spec_mbc1_read8, spec_mbc1_write8, Mbc1View, MBC1};
use crate::util::{byte_at, zero_vec};

verus! {

/// The abstract state of the whole bus.
pub struct MemView {
    pub wram: Seq<u8>,
    pub hram: Seq<u8>,
    pub cartridge: Mbc1View,
    pub io: IoView,
}

pub struct Memory {
    wram: Vec<u8>,
    hram: Vec<u8>,
    pub cartridge: MBC1,
    pub io: IO,
}

impl View for Memory {
    type V = MemView;

    closed spec fn view(&self) -> MemView {
        MemView { wram: self.wram@, hram: self.hram@, cartridge: self.cartridge@, io: self.io@ }
    }
}

pub open spec fn mem_wf(m: MemView) -> bool {
    &&& m.wram.len() == 0x2000
    &&& m.hram.len() == 0x7f
    &&& io_wf(m.io)
}

/// What a bus read returns, for every one of the 65536 addresses: each
/// address resolves to exactly one owner. Reads of the DMA trigger, the
/// unusable range and the interrupt-enable stub return 0.
pub open spec fn spec_mem_read8(m: MemView, addr: u16) -> u8 {
    if addr < 0x8000 {
        spec_mbc1_read8(m.cartridge, addr)
    } else if addr < 0xa000 {
        spec_io_read8(m.io, addr)
    } else if addr < 0xc000 {
        spec_mbc1_read8(m.cartridge, addr)
    } else if addr < 0xe000 {
        byte_at(m.wram, addr - 0xc000)
    } else if addr < 0xfe00 {
        byte_at(m.wram, addr - 0xe000)
    } else if addr == 0xff46 {
        0
    } else if addr < 0xfea0 {
        spec_io_read8(m.io, addr)
    } else if addr < 0xff00 {
        0
    } else if addr < 0xff80 {
        spec_io_read8(m.io, addr)
    } else if addr < 0xffff {
        byte_at(m.hram, addr - 0xff80)
    } else {
        0
    }
}

/// The bus after the DMA transfer for source page `data`: the 0xA0 OAM
/// bytes are replaced by the bytes read through the router from
/// `data * 0x100` upward; everything else is untouched.
pub open spec fn spec_dma(m: MemView, data: u8) -> MemView {
    MemView {
        io: IoView {
            lcd: LcdView {
                oam: Seq::new(0xa0, |i: int| spec_mem_read8(m, ((data as u16) * 256 + i) as u16)),
                ..m.io.lcd
            },
            ..m.io
        },
        ..m
    }
}

/// What a bus write does, for every one of the 65536 addresses: stores
/// into the owning region; writes to the unusable range and the
/// interrupt-enable stub are discarded, and a write to 0xFF46 performs
/// the DMA transfer instead of storing.
pub open spec fn spec_mem_write8(m: MemView, addr: u16, data: u8) -> MemView {
    if addr < 0x8000 {
        MemView { cartridge: spec_mbc1_write8(m.cartridge, addr, data), ..m }
    } else if addr < 0xa000 {
        MemView { io: spec_io_write8(m.io, addr, data), ..m }
    } else if addr < 0xc000 {
        MemView { cartridge: spec_mbc1_write8(m.cartridge, addr, data), ..m }
    } else if addr < 0xe000 {
        MemView { wram: m.wram.update(addr - 0xc000, data), ..m }
    } else if addr < 0xfe00 {
        MemView { wram: m.wram.update(addr - 0xe000, data), ..m }
    } else if addr == 0xff46 {
        spec_dma(m, data)
    } else if addr < 0xfea0 {
        MemView { io: spec_io_write8(m.io, addr, data), ..m }
    } else if addr < 0xff00 {
        m
    } else if addr < 0xff80 {
        MemView { io: spec_io_write8(m.io, addr, data), ..m }
    } else if addr < 0xffff {
        MemView { hram: m.hram.update(addr - 0xff80, data), ..m }
    } else {
        m
    }
}

/// A read that avoids the OAM region does not see OAM contents: used to
/// show that the DMA loop's later reads still see the pre-transfer bus.
proof fn lemma_mem_read_oam_irrelevant(m1: MemView, m2: MemView, addr: u16)
    requires
        m1.wram == m2.wram,
        m1.hram == m2.hram,
        m1.cartridge == m2.cartridge,
        m1.io.ioram == m2.io.ioram,
        m1.io.lcd.vram == m2.io.lcd.vram,
        m1.io.lcd.lcdram == m2.io.lcd.lcdram,
        m1.io.lcd.mode == m2.io.lcd.mode,
        !(0xfe00 <= addr && addr < 0xfea0),
    ensures
        spec_mem_read8(m1, addr) == spec_mem_read8(m2, addr),
{
}

impl Memory {
    pub fn new(cartridge: MBC1) -> (r: Memory)
        ensures
            mem_wf(r@),
            r@ == (MemView {
                wram: Seq::new(0x2000, |i: int| 0u8),
                hram: Seq::new(0x7f, |i: int| 0u8),
                cartridge: cartridge@,
                io: io_initial(),
            }),
    {
        Memory { wram: zero_vec(0x2000), hram: zero_vec(0x7f), cartridge, io: IO::new() }
    }

    /// The synchronous DMA transfer: 0xA0 sequential byte reads through
    /// the router itself, stored into OAM.
    fn dma_func(&mut self, data: u8)
        requires
            mem_wf(old(self)@),
        ensures
            mem_wf(final(self)@),
            final(self)@ == spec_dma(old(self)@, data),
    {
        let ghost m0 = self@;
        let addr_base: u16 = (data as u16) * 256;
        let mut i: u16 = 0;
        while i < 0xa0
            invariant
                mem_wf(self@),
                mem_wf(m0),
                i <= 0xa0,
                addr_base == (data as u16) * 256,
                self@.wram == m0.wram,
                self@.hram == m0.hram,
                self@.cartridge == m0.cartridge,
                self@.io.ioram == m0.io.ioram,
                self@.io.lcd.vram == m0.io.lcd.vram,
                self@.io.lcd.lcdram == m0.io.lcd.lcdram,
                self@.io.lcd.mode == m0.io.lcd.mode,
                self@.io.lcd.display == m0.io.lcd.display,
                forall|j: int|
                    0 <= j < i ==> self@.io.lcd.oam[j] == spec_mem_read8(
                        m0,
                        ((data as u16) * 256 + j) as u16,
                    ),
                forall|j: int| i <= j < 0xa0 ==> self@.io.lcd.oam[j] == m0.io.lcd.oam[j],
            decreases 0xa0 - i,
        {
            let src = addr_base + i;
            let b = self.read8(src);
            proof {
                if 0xfe00 <= src && src < 0xfea0 {
                    // The transfer can read the OAM it is filling; the bytes
                    // not yet written still hold their pre-transfer values.
                    assert(data == 0xfe);
                    assert(src == 0xfe00 + i);
                    assert(b == self@.io.lcd.oam[i as int]);
                    assert(spec_mem_read8(m0, src) == m0.io.lcd.oam[i as int]);
                } else {
                    lemma_mem_read_oam_irrelevant(self@, m0, src);
                }
                assert(b == spec_mem_read8(m0, src));
            }
            let ghost pre = self@;
            self.io.write8(0xfe00 + i, b);
            proof {
                assert(self@.io.lcd.oam == pre.io.lcd.oam.update(i as int, b));
            }
            i = i + 1;
        }
        proof {
            assert(self@.io.lcd.oam =~= spec_dma(m0, data).io.lcd.oam);
            assert(self@.io.lcd == spec_dma(m0, data).io.lcd);
            assert(self@.io == spec_dma(m0, data).io);
            assert(self@ == spec_dma(m0, data));
        }
    }

    /// A total byte read: every address resolves to exactly one owner.
    pub fn read8(&self, addr: u16) -> (r: u8)
        requires
            mem_wf(self@),
        ensures
            r == spec_mem_read8(self@, addr),
    {
        if addr < 0x8000 {
            self.cartridge.read8(addr)
        } else if addr < 0xa000 {
            self.io.read8(addr)
        } else if addr < 0xc000 {
            self.cartridge.read8(addr)
        } else if addr < 0xe000 {
            self.wram[(addr - 0xc000) as usize]
        } else if addr < 0xfe00 {
            self.wram[(addr - 0xe000) as usize]
        } else if addr == 0xff46 {
            0
        } else if addr < 0xfea0 {
            self.io.read8(addr)
        } else if addr < 0xff00 {
            // Unusable range: reads as 0.
            0
        } else if addr < 0xff80 {
            self.io.read8(addr)
        } else if addr < 0xffff {
            self.hram[(addr - 0xff80) as usize]
        } else {
            // Interrupt-enable stub.
            0
        }
    }

    /// A total byte write; a write to 0xFF46 triggers the DMA transfer.
    pub fn write8(&mut self, addr: u16, data: u8)
        requires
            mem_wf(old(self)@),
        ensures
            mem_wf(final(self)@),
            final(self)@ == spec_mem_write8(old(self)@, addr, data),
    {
        if addr < 0x8000 {
            self.cartridge.write8(addr, data);
        } else if addr < 0xa000 {
            self.io.write8(addr, data);
        } else if addr < 0xc000 {
            self.cartridge.write8(addr, data);
        } else if addr < 0xe000 {
            self.wram[(addr - 0xc000) as usize] = data;
        } else if addr < 0xfe00 {
            self.wram[(addr - 0xe000) as usize] = data;
        } else if addr == 0xff46 {
            self.dma_func(data);
        } else if addr < 0xfea0 {
            self.io.write8(addr, data);
        } else if addr < 0xff00 {
            // Unusable range: writes are discarded.
        } else if addr < 0xff80 {
            self.io.write8(addr, data);
        } else if addr < 0xffff {
            self.hram[(addr - 0xff80) as usize] = data;
        } else {
            // Interrupt-enable stub.
        }
    }

    /// A 16-bit read, low byte at the lower address.
    pub fn read16(&self, addr: u16) -> (r: u16)
        requires
            mem_wf(self@),
            addr < 0xffff,
        ensures
            r == word_of(spec_mem_read8(self@, addr), spec_mem_read8(self@, (addr + 1) as u16)),
    {
        let lower_byte = self.read8(addr) as u16;
        let upper_byte = self.read8(addr + 1) as u16;
        (upper_byte << 8) | lower_byte
    }

    /// A 16-bit write, upper byte stored first, as the byte-composed bus
    /// default has always done.
    pub fn write16(&mut self, addr: u16, data: u16)
        requires
            mem_wf(old(self)@),
            addr < 0xffff,
        ensures
            mem_wf(final(self)@),
            final(self)@ == spec_mem_write8(
                spec_mem_write8(old(self)@, (addr + 1) as u16, (data >> 8) as u8),
                addr,
                (data & 0xff) as u8,
            ),
    {
        self.write8(addr + 1, (data >> 8) as u8);
        self.write8(addr, (data & 0xff) as u8);
    }
}

/// The addresses that store a byte which the same address reads back:
/// VRAM, in-bounds banked cartridge RAM, work RAM and its mirror, OAM,
/// the writable I/O registers, and high RAM. Excluded are the read-only
/// joypad byte, the synthesized LCDSTAT, the DMA trigger, the unusable
/// range, the interrupt-enable stub and the cartridge ROM window.
pub open spec fn storage_addr(m: MemView, addr: u16) -> bool {
    ||| 0x8000 <= addr && addr < 0xa000
    ||| (0xa000 <= addr && addr < 0xc000 && crate::mbc1::ram_index(m.cartridge, addr)
        < m.cartridge.ram.len())
    ||| 0xc000 <= addr && addr < 0xfe00
    ||| 0xfe00 <= addr && addr < 0xfea0
    ||| (0xff00 < addr && addr < 0xff80 && addr != 0xff41 && addr != 0xff46)
    ||| 0xff80 <= addr && addr < 0xffff
}

/// Work RAM and its mirror: the two bus addresses of one stored byte.
pub open spec fn mirror_pair(a: u16, b: u16) -> bool {
    ||| (0xc000 <= a && a < 0xe000 && b == a + 0x2000 && b < 0xfe00)
    ||| (0xe000 <= a && a < 0xfe00 && a == b + 0x2000 && 0xc000 <= b)
}

/// Writing a storage address stores exactly one byte: the same address
/// (or its work-RAM mirror) reads the written value back, and every
/// other address reads as before.
#[verifier::rlimit(60)]
pub proof fn lemma_write_read_storage(m: MemView, addr: u16, data: u8)
    requires
        mem_wf(m),
        storage_addr(m, addr),
    ensures
        spec_mem_read8(spec_mem_write8(m, addr, data), addr) == data,
        forall|a2: u16|
            a2 != addr && !mirror_pair(addr, a2) ==> spec_mem_read8(
                spec_mem_write8(m, addr, data),
                a2,
            ) == spec_mem_read8(m, a2),
{
    let m2 = spec_mem_write8(m, addr, data);
    assert forall|a2: u16| a2 != addr && !mirror_pair(addr, a2) implies spec_mem_read8(m2, a2)
        == spec_mem_read8(m, a2) by {
        if 0xa000 <= addr && addr < 0xc000 && 0xa000 <= a2 && a2 < 0xc000 {
            assert(crate::mbc1::ram_index(m.cartridge, a2) != crate::mbc1::ram_index(
                m.cartridge,
                addr,
            ));
        }
    }
}

/// Router round trip: reading an address, writing the value just read
/// back to the same address, and reading once more returns the original
/// value — for every address outside the switchable-bank window
/// 0x4000-0x7FFF, where a write lands in the bank registers and may
/// re-map the window itself. The unusable range, the read-only registers
/// and the DMA trigger read as constants that their writes never change,
/// so the round trip holds there too.
#[verifier::rlimit(60)]
pub proof fn lemma_read_write_read(m: MemView, addr: u16)
    requires
        mem_wf(m),
        !(0x4000 <= addr && addr < 0x8000),
    ensures
        spec_mem_read8(spec_mem_write8(m, addr, spec_mem_read8(m, addr)), addr) == spec_mem_read8(
            m,
            addr,
        ),
{
    if storage_addr(m, addr) {
        lemma_write_read_storage(m, addr, spec_mem_read8(m, addr));
    }
}

impl Bus for Memory {
    open spec fn inv(&self) -> bool {
        mem_wf(self@)
    }

    open spec fn addr_ok(addr: u16) -> bool {
        true
    }

    open spec fn spec_read8(&self, addr: u16) -> u8 {
        spec_mem_read8(self@, addr)
    }

    fn read8(&self, addr: u16) -> u8 {
        Memory::read8(self, addr)
    }

    fn write8(&mut self, addr: u16, data: u8) {
        Memory::write8(self, addr, data)
    }
}

} // verus!
