//! The I/O register block at 0xFF00-0xFF7F, owning the LCD controller and
//! forwarding its VRAM, OAM and control-register addresses to it.

use vstd::prelude::*;

use crate::bus::Bus;
use crate::lcd::{lcd_initial, lcd_wf, spec_lcd_read8, spec_lcd_write8, LcdView, LCD};
use crate::util::{byte_at, zero_vec};

verus! {

/// The abstract state of the I/O block.
pub struct IoView {
    pub ioram: Seq<u8>,
    pub lcd: LcdView,
}

pub struct IO {
    ioram: Vec<u8>,
    pub lcd: LCD,
}

impl View for IO {
    type V = IoView;

    closed spec fn view(&self) -> IoView {
        IoView { ioram: self.ioram@, lcd: self.lcd@ }
    }
}

pub open spec fn io_wf(v: IoView) -> bool {
    &&& v.ioram.len() == 0x80
    &&& lcd_wf(v.lcd)
}

/// The addresses the block answers: the LCD regions, and the I/O register
/// file, except the DMA trigger 0xFF46, which the memory router keeps.
pub open spec fn io_addr_ok(addr: u16) -> bool {
    ||| 0x8000 <= addr && addr < 0xa000
    ||| 0xfe00 <= addr && addr < 0xfea0
    ||| (0xff00 <= addr && addr < 0xff80 && addr != 0xff46)
}

/// The I/O block's power-on state: cleared registers but for the joypad
/// byte, whose low nibble reads as all ones.
pub open spec fn io_initial() -> IoView {
    IoView { ioram: Seq::new(0x80, |i: int| 0u8).update(0, 0x0fu8), lcd: lcd_initial() }
}

/// What an I/O read returns: LCD regions and the LCD control block come
/// from the controller, the rest from the register file.
pub open spec fn spec_io_read8(v: IoView, addr: u16) -> u8 {
    if 0x8000 <= addr && addr < 0xa000 {
        spec_lcd_read8(v.lcd, addr)
    } else if 0xfe00 <= addr && addr < 0xfea0 {
        spec_lcd_read8(v.lcd, addr)
    } else if 0xff40 <= addr && addr < 0xff4c {
        spec_lcd_read8(v.lcd, addr)
    } else if 0xff00 <= addr && addr < 0xff80 {
        byte_at(v.ioram, addr - 0xff00)
    } else {
        0
    }
}

/// What an I/O write does. The joypad byte at 0xFF00 is read-only from
/// the bus side, so its store is dropped.
pub open spec fn spec_io_write8(v: IoView, addr: u16, data: u8) -> IoView {
    if 0x8000 <= addr && addr < 0xa000 {
        IoView { lcd: spec_lcd_write8(v.lcd, addr, data), ..v }
    } else if 0xfe00 <= addr && addr < 0xfea0 {
        IoView { lcd: spec_lcd_write8(v.lcd, addr, data), ..v }
    } else if addr == 0xff00 {
        v
    } else if 0xff40 <= addr && addr < 0xff4c {
        IoView { lcd: spec_lcd_write8(v.lcd, addr, data), ..v }
    } else if 0xff00 <= addr && addr < 0xff80 {
        IoView { ioram: v.ioram.update(addr - 0xff00, data), ..v }
    } else {
        v
    }
}

impl IO {
    pub fn new() -> (r: IO)
        ensures
            io_wf(r@),
            r@ == io_initial(),
    {
        let mut ioram = zero_vec(0x80);
        ioram[0] = 0x0f;
        let r = IO { ioram, lcd: LCD::new() };
        proof {
            assert(r@.ioram =~= io_initial().ioram);
        }
        r
    }

    pub fn read8(&self, addr: u16) -> (r: u8)
        requires
            io_wf(self@),
            io_addr_ok(addr),
        ensures
            r == spec_io_read8(self@, addr),
    {
        if 0x8000 <= addr && addr < 0xa000 {
            self.lcd.read8(addr)
        } else if 0xfe00 <= addr && addr < 0xfea0 {
            self.lcd.read8(addr)
        } else if 0xff40 <= addr && addr < 0xff4c {
            self.lcd.read8(addr)
        } else {
            self.ioram[(addr - 0xff00) as usize]
        }
    }

    pub fn write8(&mut self, addr: u16, data: u8)
        requires
            io_wf(old(self)@),
            io_addr_ok(addr),
        ensures
            io_wf(final(self)@),
            final(self)@ == spec_io_write8(old(self)@, addr, data),
    {
        if 0x8000 <= addr && addr < 0xa000 {
            self.lcd.write8(addr, data);
        } else if 0xfe00 <= addr && addr < 0xfea0 {
            self.lcd.write8(addr, data);
        } else if addr == 0xff00 {
            // Joypad input is not modelled; bus-side stores are dropped.
        } else if 0xff40 <= addr && addr < 0xff4c {
            self.lcd.write8(addr, data);
        } else {
            self.ioram[(addr - 0xff00) as usize] = data;
        }
    }
}

impl Bus for IO {
    open spec fn inv(&self) -> bool {
        io_wf(self@)
    }

    open spec fn addr_ok(addr: u16) -> bool {
        io_addr_ok(addr)
    }

    open spec fn spec_read8(&self, addr: u16) -> u8 {
        spec_io_read8(self@, addr)
    }

    fn read8(&self, addr: u16) -> u8 {
        IO::read8(self, addr)
    }

    fn write8(&mut self, addr: u16, data: u8) {
        IO::write8(self, addr, data)
    }
}

} // verus!
