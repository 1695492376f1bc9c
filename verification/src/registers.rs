//! The SM83 register file: six 16-bit register pairs (AF, BC, DE, HL, SP,
//! PC), each of AF/BC/DE/HL with independent 8-bit upper/lower views, and
//! the four flag bits Z/N/H/C in bits 7..4 of the F byte.

use vstd::prelude::*;

verus! {

/// The register file. The lower byte of `af` is the flag byte.
#[derive(Clone, Copy, PartialEq, Eq, Structural, Debug)]
pub struct Registers {
    pub af: u16,
    pub bc: u16,
    pub de: u16,
    pub hl: u16,
    pub sp: u16,
    pub pc: u16,
}

/// The upper byte of a 16-bit register pair.
pub open spec fn upper8(v: u16) -> u8 {
    (v >> 8) as u8
}

/// The lower byte of a 16-bit register pair.
pub open spec fn lower8(v: u16) -> u8 {
    v as u8
}

/// A 16-bit pair with its upper byte replaced.
pub open spec fn with_upper8(v: u16, b: u8) -> u16 {
    ((v & 0xff) | ((b as u16) << 8)) as u16
}

/// A 16-bit pair with its lower byte replaced.
pub open spec fn with_lower8(v: u16, b: u8) -> u16 {
    ((v & 0xff00) | (b as u16)) as u16
}

/// The zero flag: bit 7 of the flag byte.
pub open spec fn flag_z(r: Registers) -> bool {
    (lower8(r.af) >> 7) & 1 == 1
}

/// The subtraction flag: bit 6 of the flag byte.
pub open spec fn flag_n(r: Registers) -> bool {
    (lower8(r.af) >> 6) & 1 == 1
}

/// The half-carry flag: bit 5 of the flag byte.
pub open spec fn flag_h(r: Registers) -> bool {
    (lower8(r.af) >> 5) & 1 == 1
}

/// The carry flag: bit 4 of the flag byte.
pub open spec fn flag_c(r: Registers) -> bool {
    (lower8(r.af) >> 4) & 1 == 1
}

/// The documented SM83 boot values.
pub open spec fn boot_registers() -> Registers {
    Registers { af: 0x01b0, bc: 0x13, de: 0xd8, hl: 0x14d, sp: 0xfffe, pc: 0x100 }
}

/// The register file after storing into A.
pub open spec fn spec_put_a(r: Registers, val: u8) -> Registers {
    Registers { af: with_upper8(r.af, val), ..r }
}

/// The register file after storing into B.
pub open spec fn spec_put_b(r: Registers, val: u8) -> Registers {
    Registers { bc: with_upper8(r.bc, val), ..r }
}

/// The register file after storing into C.
pub open spec fn spec_put_c(r: Registers, val: u8) -> Registers {
    Registers { bc: with_lower8(r.bc, val), ..r }
}

/// The register file after storing into D.
pub open spec fn spec_put_d(r: Registers, val: u8) -> Registers {
    Registers { de: with_upper8(r.de, val), ..r }
}

/// The register file after storing into E.
pub open spec fn spec_put_e(r: Registers, val: u8) -> Registers {
    Registers { de: with_lower8(r.de, val), ..r }
}

/// The register file after storing into H.
pub open spec fn spec_put_h(r: Registers, val: u8) -> Registers {
    Registers { hl: with_upper8(r.hl, val), ..r }
}

/// The register file after storing into L.
pub open spec fn spec_put_l(r: Registers, val: u8) -> Registers {
    Registers { hl: with_lower8(r.hl, val), ..r }
}

/// The register file after storing into the Z flag.
pub open spec fn spec_put_flag_z(r: Registers, val: bool) -> Registers {
    Registers {
        af: with_lower8(r.af, (lower8(r.af) & 0x7f) | (if val { 0x80 } else { 0 })),
        ..r
    }
}

/// The register file after storing into the N flag.
pub open spec fn spec_put_flag_n(r: Registers, val: bool) -> Registers {
    Registers {
        af: with_lower8(r.af, (lower8(r.af) & 0xbf) | (if val { 0x40 } else { 0 })),
        ..r
    }
}

/// The register file after storing into the H flag.
pub open spec fn spec_put_flag_h(r: Registers, val: bool) -> Registers {
    Registers {
        af: with_lower8(r.af, (lower8(r.af) & 0xdf) | (if val { 0x20 } else { 0 })),
        ..r
    }
}

/// The register file after storing into the C flag.
pub open spec fn spec_put_flag_c(r: Registers, val: bool) -> Registers {
    Registers {
        af: with_lower8(r.af, (lower8(r.af) & 0xef) | (if val { 0x10 } else { 0 })),
        ..r
    }
}

impl Registers {
    /// The documented SM83 boot values.
    pub fn new() -> (r: Registers)
        ensures
            r == boot_registers(),
    {
        Registers { af: 0x01b0, bc: 0x13, de: 0xd8, hl: 0x14d, sp: 0xfffe, pc: 0x100 }
    }

    pub fn get_a(&self) -> (r: u8)
        ensures
            r == upper8(self.af),
    {
        (self.af >> 8) as u8
    }

    pub fn get_f(&self) -> (r: u8)
        ensures
            r == lower8(self.af),
    {
        self.af as u8
    }

    pub fn get_b(&self) -> (r: u8)
        ensures
            r == upper8(self.bc),
    {
        (self.bc >> 8) as u8
    }

    pub fn get_c(&self) -> (r: u8)
        ensures
            r == lower8(self.bc),
    {
        self.bc as u8
    }

    pub fn get_d(&self) -> (r: u8)
        ensures
            r == upper8(self.de),
    {
        (self.de >> 8) as u8
    }

    pub fn get_e(&self) -> (r: u8)
        ensures
            r == lower8(self.de),
    {
        self.de as u8
    }

    pub fn get_h(&self) -> (r: u8)
        ensures
            r == upper8(self.hl),
    {
        (self.hl >> 8) as u8
    }

    pub fn get_l(&self) -> (r: u8)
        ensures
            r == lower8(self.hl),
    {
        self.hl as u8
    }

    pub fn get_flag_z(&self) -> (r: bool)
        ensures
            r == flag_z(*self),
    {
        (self.get_f() >> 7) & 1 == 1
    }

    pub fn get_flag_n(&self) -> (r: bool)
        ensures
            r == flag_n(*self),
    {
        (self.get_f() >> 6) & 1 == 1
    }

    pub fn get_flag_h(&self) -> (r: bool)
        ensures
            r == flag_h(*self),
    {
        (self.get_f() >> 5) & 1 == 1
    }

    pub fn get_flag_c(&self) -> (r: bool)
        ensures
            r == flag_c(*self),
    {
        (self.get_f() >> 4) & 1 == 1
    }

    pub fn put_a(&mut self, val: u8)
        ensures
            *final(self) == (Registers { af: with_upper8(old(self).af, val), ..*old(self) }),
            lower8(final(self).af) == lower8(old(self).af),
    {
        proof {
            let v = self.af;
            assert(lower8(with_upper8(v, val)) == lower8(v)) by (bit_vector);
        }
        self.af = (self.af & 0xff) | ((val as u16) << 8);
    }

    pub fn put_f(&mut self, val: u8)
        ensures
            *final(self) == (Registers { af: with_lower8(old(self).af, val), ..*old(self) }),
            upper8(final(self).af) == upper8(old(self).af),
    {
        proof {
            let v = self.af;
            assert(upper8(with_lower8(v, val)) == upper8(v)) by (bit_vector);
        }
        self.af = (self.af & 0xff00) | (val as u16);
    }

    pub fn put_b(&mut self, val: u8)
        ensures
            *final(self) == (Registers { bc: with_upper8(old(self).bc, val), ..*old(self) }),
    {
        self.bc = (self.bc & 0xff) | ((val as u16) << 8);
    }

    pub fn put_c(&mut self, val: u8)
        ensures
            *final(self) == (Registers { bc: with_lower8(old(self).bc, val), ..*old(self) }),
    {
        self.bc = (self.bc & 0xff00) | (val as u16);
    }

    pub fn put_d(&mut self, val: u8)
        ensures
            *final(self) == (Registers { de: with_upper8(old(self).de, val), ..*old(self) }),
    {
        self.de = (self.de & 0xff) | ((val as u16) << 8);
    }

    pub fn put_e(&mut self, val: u8)
        ensures
            *final(self) == (Registers { de: with_lower8(old(self).de, val), ..*old(self) }),
    {
        self.de = (self.de & 0xff00) | (val as u16);
    }

    pub fn put_h(&mut self, val: u8)
        ensures
            *final(self) == (Registers { hl: with_upper8(old(self).hl, val), ..*old(self) }),
    {
        self.hl = (self.hl & 0xff) | ((val as u16) << 8);
    }

    pub fn put_l(&mut self, val: u8)
        ensures
            *final(self) == (Registers { hl: with_lower8(old(self).hl, val), ..*old(self) }),
    {
        self.hl = (self.hl & 0xff00) | (val as u16);
    }

    /// Stores the Z flag, leaving the other three flags, the low nibble of
    /// the flag byte, and every other register untouched.
    pub fn put_flag_z(&mut self, val: bool)
        ensures
            *final(self) == spec_put_flag_z(*old(self), val),
            flag_z(*final(self)) == val,
            flag_n(*final(self)) == flag_n(*old(self)),
            flag_h(*final(self)) == flag_h(*old(self)),
            flag_c(*final(self)) == flag_c(*old(self)),
            lower8(final(self).af) & 0xf == lower8(old(self).af) & 0xf,
            upper8(final(self).af) == upper8(old(self).af),
    {
        proof {
            let v = self.af;
            let b = val;
            assert({
                let f2 = lower8(with_lower8(v, (lower8(v) & 0x7f) | (if b { 0x80u8 } else { 0u8 })));
                &&& ((f2 >> 7) & 1 == 1) == b
                &&& (f2 >> 6) & 1 == (lower8(v) >> 6) & 1
                &&& (f2 >> 5) & 1 == (lower8(v) >> 5) & 1
                &&& (f2 >> 4) & 1 == (lower8(v) >> 4) & 1
                &&& f2 & 0xf == lower8(v) & 0xf
                &&& upper8(with_lower8(v, (lower8(v) & 0x7f) | (if b { 0x80u8 } else { 0u8 }))) == upper8(v)
            }) by (bit_vector);
        }
        let flags = self.get_f();
        let cleared_flags = flags & 0x7f;
        let set_flags = cleared_flags | (if val { 0x80 } else { 0 });
        self.put_f(set_flags);
    }

    /// Stores the N flag; everything else is preserved.
    pub fn put_flag_n(&mut self, val: bool)
        ensures
            *final(self) == spec_put_flag_n(*old(self), val),
            flag_n(*final(self)) == val,
            flag_z(*final(self)) == flag_z(*old(self)),
            flag_h(*final(self)) == flag_h(*old(self)),
            flag_c(*final(self)) == flag_c(*old(self)),
            lower8(final(self).af) & 0xf == lower8(old(self).af) & 0xf,
            upper8(final(self).af) == upper8(old(self).af),
    {
        proof {
            let v = self.af;
            let b = val;
            assert({
                let f2 = lower8(with_lower8(v, (lower8(v) & 0xbf) | (if b { 0x40u8 } else { 0u8 })));
                &&& ((f2 >> 6) & 1 == 1) == b
                &&& (f2 >> 7) & 1 == (lower8(v) >> 7) & 1
                &&& (f2 >> 5) & 1 == (lower8(v) >> 5) & 1
                &&& (f2 >> 4) & 1 == (lower8(v) >> 4) & 1
                &&& f2 & 0xf == lower8(v) & 0xf
                &&& upper8(with_lower8(v, (lower8(v) & 0xbf) | (if b { 0x40u8 } else { 0u8 }))) == upper8(v)
            }) by (bit_vector);
        }
        let flags = self.get_f();
        let cleared_flags = flags & 0xbf;
        let set_flags = cleared_flags | (if val { 0x40 } else { 0 });
        self.put_f(set_flags);
    }

    /// Stores the H flag; everything else is preserved.
    pub fn put_flag_h(&mut self, val: bool)
        ensures
            *final(self) == spec_put_flag_h(*old(self), val),
            flag_h(*final(self)) == val,
            flag_z(*final(self)) == flag_z(*old(self)),
            flag_n(*final(self)) == flag_n(*old(self)),
            flag_c(*final(self)) == flag_c(*old(self)),
            lower8(final(self).af) & 0xf == lower8(old(self).af) & 0xf,
            upper8(final(self).af) == upper8(old(self).af),
    {
        proof {
            let v = self.af;
            let b = val;
            assert({
                let f2 = lower8(with_lower8(v, (lower8(v) & 0xdf) | (if b { 0x20u8 } else { 0u8 })));
                &&& ((f2 >> 5) & 1 == 1) == b
                &&& (f2 >> 7) & 1 == (lower8(v) >> 7) & 1
                &&& (f2 >> 6) & 1 == (lower8(v) >> 6) & 1
                &&& (f2 >> 4) & 1 == (lower8(v) >> 4) & 1
                &&& f2 & 0xf == lower8(v) & 0xf
                &&& upper8(with_lower8(v, (lower8(v) & 0xdf) | (if b { 0x20u8 } else { 0u8 }))) == upper8(v)
            }) by (bit_vector);
        }
        let flags = self.get_f();
        let cleared_flags = flags & 0xdf;
        let set_flags = cleared_flags | (if val { 0x20 } else { 0 });
        self.put_f(set_flags);
    }

    /// Stores the C flag; everything else is preserved.
    pub fn put_flag_c(&mut self, val: bool)
        ensures
            *final(self) == spec_put_flag_c(*old(self), val),
            flag_c(*final(self)) == val,
            flag_z(*final(self)) == flag_z(*old(self)),
            flag_n(*final(self)) == flag_n(*old(self)),
            flag_h(*final(self)) == flag_h(*old(self)),
            lower8(final(self).af) & 0xf == lower8(old(self).af) & 0xf,
            upper8(final(self).af) == upper8(old(self).af),
    {
        proof {
            let v = self.af;
            let b = val;
            assert({
                let f2 = lower8(with_lower8(v, (lower8(v) & 0xef) | (if b { 0x10u8 } else { 0u8 })));
                &&& ((f2 >> 4) & 1 == 1) == b
                &&& (f2 >> 7) & 1 == (lower8(v) >> 7) & 1
                &&& (f2 >> 6) & 1 == (lower8(v) >> 6) & 1
                &&& (f2 >> 5) & 1 == (lower8(v) >> 5) & 1
                &&& f2 & 0xf == lower8(v) & 0xf
                &&& upper8(with_lower8(v, (lower8(v) & 0xef) | (if b { 0x10u8 } else { 0u8 }))) == upper8(v)
            }) by (bit_vector);
        }
        let flags = self.get_f();
        let cleared_flags = flags & 0xef;
        let set_flags = cleared_flags | (if val { 0x10 } else { 0 });
        self.put_f(set_flags);
    }

    pub fn get_af(&self) -> (r: u16)
        ensures
            r == self.af,
    {
        self.af
    }

    pub fn get_bc(&self) -> (r: u16)
        ensures
            r == self.bc,
    {
        self.bc
    }

    pub fn get_de(&self) -> (r: u16)
        ensures
            r == self.de,
    {
        self.de
    }

    pub fn get_hl(&self) -> (r: u16)
        ensures
            r == self.hl,
    {
        self.hl
    }

    pub fn get_sp(&self) -> (r: u16)
        ensures
            r == self.sp,
    {
        self.sp
    }

    pub fn get_pc(&self) -> (r: u16)
        ensures
            r == self.pc,
    {
        self.pc
    }

    pub fn put_af(&mut self, val: u16)
        ensures
            *final(self) == (Registers { af: val, ..*old(self) }),
    {
        self.af = val;
    }

    pub fn put_bc(&mut self, val: u16)
        ensures
            *final(self) == (Registers { bc: val, ..*old(self) }),
    {
        self.bc = val;
    }

    pub fn put_de(&mut self, val: u16)
        ensures
            *final(self) == (Registers { de: val, ..*old(self) }),
    {
        self.de = val;
    }

    pub fn put_hl(&mut self, val: u16)
        ensures
            *final(self) == (Registers { hl: val, ..*old(self) }),
    {
        self.hl = val;
    }

    pub fn put_sp(&mut self, val: u16)
        ensures
            *final(self) == (Registers { sp: val, ..*old(self) }),
    {
        self.sp = val;
    }

    pub fn put_pc(&mut self, val: u16)
        ensures
            *final(self) == (Registers { pc: val, ..*old(self) }),
    {
        self.pc = val;
    }
}

} // verus!
