//! The bus capability contract: every memory-mapped device exposes byte
//! reads and writes over 16-bit addresses, and 16-bit accesses composed
//! little-endian (low byte at the lower address) from the byte primitives.
//!
//! Each implementing type names what its byte reads return through the
//! trait's read model, so the little-endian composition law holds of
//! every implementor; what a write does is device-specific and is stated
//! on each type's own inherent methods.

use vstd::prelude::*;

verus! {

pub trait Bus: Sized {
    /// The device's internal well-formedness invariant.
    spec fn inv(&self) -> bool;

    /// The addresses this device accepts, for reads and writes alike.
    spec fn addr_ok(addr: u16) -> bool;

    /// What a byte read returns, as a function of the device state.
    spec fn spec_read8(&self, addr: u16) -> u8;

    fn read8(&self, addr: u16) -> (r: u8)
        requires
            self.inv(),
            Self::addr_ok(addr),
        ensures
            r == self.spec_read8(addr),
    ;

    fn write8(&mut self, addr: u16, data: u8)
        requires
            old(self).inv(),
            Self::addr_ok(addr),
        ensures
            final(self).inv(),
    ;

    /// A 16-bit read, low byte at the lower address.
    fn read16(&self, addr: u16) -> (r: u16)
        requires
            self.inv(),
            addr < 0xffff,
            Self::addr_ok(addr),
            Self::addr_ok((addr + 1) as u16),
        ensures
            r == word_of(self.spec_read8(addr), self.spec_read8((addr + 1) as u16)),
    {
        let lower_byte = self.read8(addr) as u16;
        let upper_byte = self.read8(addr + 1) as u16;
        (upper_byte << 8) | lower_byte
    }

    /// A 16-bit write, low byte at the lower address; the upper byte is
    /// stored first, as the byte-composed default has always done.
    fn write16(&mut self, addr: u16, data: u16)
        requires
            old(self).inv(),
            addr < 0xffff,
            Self::addr_ok(addr),
            Self::addr_ok((addr + 1) as u16),
        ensures
            final(self).inv(),
    {
        self.write8(addr + 1, (data >> 8) as u8);
        self.write8(addr, (data & 0xff) as u8);
    }
}

/// The 16-bit value read little-endian from a low and a high byte.
pub open spec fn word_of(lo: u8, hi: u8) -> u16 {
    (((hi as u16) << 8) | (lo as u16)) as u16
}

/// Composing a word back from its own low and high bytes, however the low
/// byte was taken, gives the word itself.
pub proof fn lemma_word_of_bytes(v: u16)
    by (bit_vector)
    ensures
        word_of((v & 0xff) as u8, (v >> 8) as u8) == v,
        word_of(v as u8, (v >> 8) as u8) == v,
{
}

} // verus!
