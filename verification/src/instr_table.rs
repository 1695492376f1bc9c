//! The two fixed 256-entry decode tables: each opcode maps to an
//! operation tag and a cycle cost, for the primary table and for the
//! CB-prefixed extension table.

use vstd::prelude::*;

verus! {

/// The operation a table entry dispatches to. The first group appears in
/// the primary table, the group from `Rlc` on in the CB-prefixed table;
/// `Rrc` stands in both, as the engine has always shared that handler.
#[derive(Clone, Copy, PartialEq, Eq, Structural, Debug)]
pub enum Operation {
    Noop,
    Stop,
    Halt,
    Ei,
    Di,
    Undef,
    Ld,
    LdU8Imm,
    LdU16Imm,
    LdToMem,
    LdFromMem,
    LdSpToImmMem,
    LdFromMemToA,
    LdFromAToMem,
    LdHlToSp,
    LdSpPlusSignedImmToHl,
    IncU8,
    DecU8,
    IncU16,
    DecU16,
    Add,
    AddHl,
    AddSp,
    Adc,
    Sub,
    Sbc,
    And,
    Xor,
    Or,
    Cp,
    Rlca,
    Rla,
    Rrca,
    Rrc,
    JrImm8,
    JpImm16,
    JpHl,
    Restart,
    Call,
    Ret,
    Push,
    Pop,
    Daa,
    Cpl,
    Scf,
    Ccf,
    Cb,
    Rlc,
    Rl,
    Rr,
    Sla,
    Sra,
    Swap,
    Srl,
    TestBit(u8),
    ResBit(u8),
    SetBit(u8),
}

/// One decode-table entry: the opcode, its operation and its cycle cost.
#[derive(Clone, Copy, PartialEq, Eq, Structural, Debug)]
pub struct Instruction {
    pub opcode: u8,
    pub op: Operation,
    pub cycles: u8,
}

/// The primary table's operation for each opcode.
pub open spec fn spec_instr_op(x: u8) -> Operation {
    if x == 0x00 {
        Operation::Noop
    } else if x == 0x01 || x == 0x11 || x == 0x21 || x == 0x31 {
        Operation::LdU16Imm
    } else if x == 0x02 || x == 0x12 || x == 0x22 || x == 0x32 {
        Operation::LdToMem
    } else if x == 0x03 || x == 0x13 || x == 0x23 || x == 0x33 {
        Operation::IncU16
    } else if x == 0x04 || x == 0x0c || x == 0x14 || x == 0x1c || x == 0x24 || x == 0x2c || x
        == 0x34 || x == 0x3c {
        Operation::IncU8
    } else if x == 0x05 || x == 0x0d || x == 0x15 || x == 0x1d || x == 0x25 || x == 0x2d || x
        == 0x35 || x == 0x3d {
        Operation::DecU8
    } else if x == 0x06 || x == 0x0e || x == 0x16 || x == 0x1e || x == 0x26 || x == 0x2e || x
        == 0x36 || x == 0x3e {
        Operation::LdU8Imm
    } else if x == 0x07 {
        Operation::Rlca
    } else if x == 0x08 {
        Operation::LdSpToImmMem
    } else if x == 0x09 || x == 0x19 || x == 0x29 || x == 0x39 {
        Operation::AddHl
    } else if x == 0x0a || x == 0x1a || x == 0x2a || x == 0x3a {
        Operation::LdFromMem
    } else if x == 0x0b || x == 0x1b || x == 0x2b || x == 0x3b {
        Operation::DecU16
    } else if x == 0x0f {
        Operation::Rrca
    } else if x == 0x10 {
        Operation::Stop
    } else if x == 0x17 {
        Operation::Rla
    } else if x == 0x18 || x == 0x20 || x == 0x28 || x == 0x30 || x == 0x38 {
        Operation::JrImm8
    } else if x == 0x1f {
        Operation::Rrc
    } else if x == 0x27 {
        Operation::Daa
    } else if x == 0x2f {
        Operation::Cpl
    } else if x == 0x37 {
        Operation::Scf
    } else if x == 0x3f {
        Operation::Ccf
    } else if x == 0x76 {
        Operation::Halt
    } else if 0x40 <= x && x <= 0x7f {
        Operation::Ld
    } else if (0x80 <= x && x <= 0x87) || x == 0xc6 {
        Operation::Add
    } else if (0x88 <= x && x <= 0x8f) || x == 0xce {
        Operation::Adc
    } else if (0x90 <= x && x <= 0x97) || x == 0xd6 {
        Operation::Sub
    } else if (0x98 <= x && x <= 0x9f) || x == 0xde {
        Operation::Sbc
    } else if (0xa0 <= x && x <= 0xa7) || x == 0xe6 {
        Operation::And
    } else if (0xa8 <= x && x <= 0xaf) || x == 0xee {
        Operation::Xor
    } else if (0xb0 <= x && x <= 0xb7) || x == 0xf6 {
        Operation::Or
    } else if (0xb8 <= x && x <= 0xbf) || x == 0xfe {
        Operation::Cp
    } else if x == 0xc0 || x == 0xc8 || x == 0xc9 || x == 0xd0 || x == 0xd8 || x == 0xd9 {
        Operation::Ret
    } else if x == 0xc1 || x == 0xd1 || x == 0xe1 || x == 0xf1 {
        Operation::Pop
    } else if x == 0xc2 || x == 0xc3 || x == 0xca || x == 0xd2 || x == 0xda {
        Operation::JpImm16
    } else if x == 0xc4 || x == 0xcc || x == 0xcd || x == 0xd4 || x == 0xdc {
        Operation::Call
    } else if x == 0xc5 || x == 0xd5 || x == 0xe5 || x == 0xf5 {
        Operation::Push
    } else if x == 0xc7 || x == 0xcf || x == 0xd7 || x == 0xdf || x == 0xe7 || x == 0xef || x
        == 0xf7 || x == 0xff {
        Operation::Restart
    } else if x == 0xcb {
        Operation::Cb
    } else if x == 0xe0 || x == 0xe2 || x == 0xea {
        Operation::LdFromAToMem
    } else if x == 0xe8 {
        Operation::AddSp
    } else if x == 0xe9 {
        Operation::JpHl
    } else if x == 0xf0 || x == 0xf2 || x == 0xfa {
        Operation::LdFromMemToA
    } else if x == 0xf3 {
        Operation::Di
    } else if x == 0xf8 {
        Operation::LdSpPlusSignedImmToHl
    } else if x == 0xf9 {
        Operation::LdHlToSp
    } else if x == 0xfb {
        Operation::Ei
    } else {
        Operation::Undef
    }
}

/// The primary table's cycle cost for each opcode.
pub open spec fn spec_instr_cycles(x: u8) -> u8 {
    if x == 0x01 || x == 0x11 || x == 0x21 || x == 0x31 {
        12
    } else if x == 0x02 || x == 0x12 || x == 0x22 || x == 0x32 {
        8
    } else if x == 0x03 || x == 0x13 || x == 0x23 || x == 0x33 {
        8
    } else if x == 0x34 || x == 0x35 || x == 0x36 {
        12
    } else if x == 0x06 || x == 0x0e || x == 0x16 || x == 0x1e || x == 0x26 || x == 0x2e || x
        == 0x3e {
        8
    } else if x == 0x08 {
        20
    } else if x == 0x09 || x == 0x19 || x == 0x29 || x == 0x39 {
        8
    } else if x == 0x0a || x == 0x1a || x == 0x2a || x == 0x3a {
        8
    } else if x == 0x0b || x == 0x1b || x == 0x2b || x == 0x3b {
        8
    } else if x == 0x18 || x == 0x20 || x == 0x28 || x == 0x30 || x == 0x38 {
        12
    } else if x == 0x46 || x == 0x4e || x == 0x56 || x == 0x5e || x == 0x66 || x == 0x6e || x
        == 0x7e {
        8
    } else if x == 0x86 || x == 0x8e || x == 0x96 || x == 0x9e || x == 0xa6 || x == 0xae || x
        == 0xb6 || x == 0xbe {
        8
    } else if x == 0xc6 || x == 0xce || x == 0xd6 || x == 0xde || x == 0xe6 || x == 0xee || x
        == 0xf6 || x == 0xfe {
        8
    } else if x == 0xc0 || x == 0xc8 || x == 0xd0 || x == 0xd8 {
        20
    } else if x == 0xc9 || x == 0xd9 {
        16
    } else if x == 0xc1 || x == 0xd1 || x == 0xe1 || x == 0xf1 {
        12
    } else if x == 0xc2 || x == 0xc3 || x == 0xca || x == 0xd2 || x == 0xda {
        16
    } else if x == 0xc4 || x == 0xcc || x == 0xcd || x == 0xd4 || x == 0xdc {
        24
    } else if x == 0xc5 || x == 0xd5 || x == 0xe5 || x == 0xf5 {
        16
    } else if x == 0xc7 || x == 0xcf || x == 0xd7 || x == 0xdf || x == 0xe7 || x == 0xef || x
        == 0xf7 || x == 0xff {
        16
    } else if x == 0xd3 || x == 0xdb || x == 0xdd || x == 0xe3 || x == 0xe4 || x == 0xeb || x
        == 0xec || x == 0xed || x == 0xf4 || x == 0xfc || x == 0xfd {
        0
    } else if x == 0xe0 || x == 0xf0 {
        12
    } else if x == 0xe2 || x == 0xf2 {
        8
    } else if x == 0xe8 {
        16
    } else if x == 0xea || x == 0xfa {
        16
    } else if x == 0xf8 {
        12
    } else if x == 0xf9 {
        8
    } else {
        4
    }
}

/// The CB-prefixed table's operation for each opcode: eight shift and
/// rotate rows, then the bit-test, bit-reset and bit-set families, whose
/// target bit sits in opcode bits 5-3.
pub open spec fn spec_cb_op(x: u8) -> Operation {
    if x < 0x08 {
        Operation::Rlc
    } else if x < 0x10 {
        Operation::Rrc
    } else if x < 0x18 {
        Operation::Rl
    } else if x < 0x20 {
        Operation::Rr
    } else if x < 0x28 {
        Operation::Sla
    } else if x < 0x30 {
        Operation::Sra
    } else if x < 0x38 {
        Operation::Swap
    } else if x < 0x40 {
        Operation::Srl
    } else if x < 0x80 {
        Operation::TestBit(((x - 0x40) / 8) as u8)
    } else if x < 0xc0 {
        Operation::ResBit(((x - 0x80) / 8) as u8)
    } else {
        Operation::SetBit(((x - 0xc0) / 8) as u8)
    }
}

/// The CB-prefixed table's cycle cost: 16 for the (HL) column, 8
/// elsewhere.
pub open spec fn spec_cb_cycles(x: u8) -> u8 {
    if x % 8 == 6 {
        16
    } else {
        8
    }
}

/// The primary table entry for an opcode.
pub fn instr_entry(opcode: u8) -> (r: Instruction)
    ensures
        r.opcode == opcode,
        r.op == spec_instr_op(opcode),
        r.cycles == spec_instr_cycles(opcode),
{
    let x = opcode;
    let op = if x == 0x00 {
        Operation::Noop
    } else if x == 0x01 || x == 0x11 || x == 0x21 || x == 0x31 {
        Operation::LdU16Imm
    } else if x == 0x02 || x == 0x12 || x == 0x22 || x == 0x32 {
        Operation::LdToMem
    } else if x == 0x03 || x == 0x13 || x == 0x23 || x == 0x33 {
        Operation::IncU16
    } else if x == 0x04 || x == 0x0c || x == 0x14 || x == 0x1c || x == 0x24 || x == 0x2c || x
        == 0x34 || x == 0x3c {
        Operation::IncU8
    } else if x == 0x05 || x == 0x0d || x == 0x15 || x == 0x1d || x == 0x25 || x == 0x2d || x
        == 0x35 || x == 0x3d {
        Operation::DecU8
    } else if x == 0x06 || x == 0x0e || x == 0x16 || x == 0x1e || x == 0x26 || x == 0x2e || x
        == 0x36 || x == 0x3e {
        Operation::LdU8Imm
    } else if x == 0x07 {
        Operation::Rlca
    } else if x == 0x08 {
        Operation::LdSpToImmMem
    } else if x == 0x09 || x == 0x19 || x == 0x29 || x == 0x39 {
        Operation::AddHl
    } else if x == 0x0a || x == 0x1a || x == 0x2a || x == 0x3a {
        Operation::LdFromMem
    } else if x == 0x0b || x == 0x1b || x == 0x2b || x == 0x3b {
        Operation::DecU16
    } else if x == 0x0f {
        Operation::Rrca
    } else if x == 0x10 {
        Operation::Stop
    } else if x == 0x17 {
        Operation::Rla
    } else if x == 0x18 || x == 0x20 || x == 0x28 || x == 0x30 || x == 0x38 {
        Operation::JrImm8
    } else if x == 0x1f {
        Operation::Rrc
    } else if x == 0x27 {
        Operation::Daa
    } else if x == 0x2f {
        Operation::Cpl
    } else if x == 0x37 {
        Operation::Scf
    } else if x == 0x3f {
        Operation::Ccf
    } else if x == 0x76 {
        Operation::Halt
    } else if 0x40 <= x && x <= 0x7f {
        Operation::Ld
    } else if (0x80 <= x && x <= 0x87) || x == 0xc6 {
        Operation::Add
    } else if (0x88 <= x && x <= 0x8f) || x == 0xce {
        Operation::Adc
    } else if (0x90 <= x && x <= 0x97) || x == 0xd6 {
        Operation::Sub
    } else if (0x98 <= x && x <= 0x9f) || x == 0xde {
        Operation::Sbc
    } else if (0xa0 <= x && x <= 0xa7) || x == 0xe6 {
        Operation::And
    } else if (0xa8 <= x && x <= 0xaf) || x == 0xee {
        Operation::Xor
    } else if (0xb0 <= x && x <= 0xb7) || x == 0xf6 {
        Operation::Or
    } else if (0xb8 <= x && x <= 0xbf) || x == 0xfe {
        Operation::Cp
    } else if x == 0xc0 || x == 0xc8 || x == 0xc9 || x == 0xd0 || x == 0xd8 || x == 0xd9 {
        Operation::Ret
    } else if x == 0xc1 || x == 0xd1 || x == 0xe1 || x == 0xf1 {
        Operation::Pop
    } else if x == 0xc2 || x == 0xc3 || x == 0xca || x == 0xd2 || x == 0xda {
        Operation::JpImm16
    } else if x == 0xc4 || x == 0xcc || x == 0xcd || x == 0xd4 || x == 0xdc {
        Operation::Call
    } else if x == 0xc5 || x == 0xd5 || x == 0xe5 || x == 0xf5 {
        Operation::Push
    } else if x == 0xc7 || x == 0xcf || x == 0xd7 || x == 0xdf || x == 0xe7 || x == 0xef || x
        == 0xf7 || x == 0xff {
        Operation::Restart
    } else if x == 0xcb {
        Operation::Cb
    } else if x == 0xe0 || x == 0xe2 || x == 0xea {
        Operation::LdFromAToMem
    } else if x == 0xe8 {
        Operation::AddSp
    } else if x == 0xe9 {
        Operation::JpHl
    } else if x == 0xf0 || x == 0xf2 || x == 0xfa {
        Operation::LdFromMemToA
    } else if x == 0xf3 {
        Operation::Di
    } else if x == 0xf8 {
        Operation::LdSpPlusSignedImmToHl
    } else if x == 0xf9 {
        Operation::LdHlToSp
    } else if x == 0xfb {
        Operation::Ei
    } else {
        Operation::Undef
    };
    let cycles: u8 = if x == 0x01 || x == 0x11 || x == 0x21 || x == 0x31 {
        12
    } else if x == 0x02 || x == 0x12 || x == 0x22 || x == 0x32 {
        8
    } else if x == 0x03 || x == 0x13 || x == 0x23 || x == 0x33 {
        8
    } else if x == 0x34 || x == 0x35 || x == 0x36 {
        12
    } else if x == 0x06 || x == 0x0e || x == 0x16 || x == 0x1e || x == 0x26 || x == 0x2e || x
        == 0x3e {
        8
    } else if x == 0x08 {
        20
    } else if x == 0x09 || x == 0x19 || x == 0x29 || x == 0x39 {
        8
    } else if x == 0x0a || x == 0x1a || x == 0x2a || x == 0x3a {
        8
    } else if x == 0x0b || x == 0x1b || x == 0x2b || x == 0x3b {
        8
    } else if x == 0x18 || x == 0x20 || x == 0x28 || x == 0x30 || x == 0x38 {
        12
    } else if x == 0x46 || x == 0x4e || x == 0x56 || x == 0x5e || x == 0x66 || x == 0x6e || x
        == 0x7e {
        8
    } else if x == 0x86 || x == 0x8e || x == 0x96 || x == 0x9e || x == 0xa6 || x == 0xae || x
        == 0xb6 || x == 0xbe {
        8
    } else if x == 0xc6 || x == 0xce || x == 0xd6 || x == 0xde || x == 0xe6 || x == 0xee || x
        == 0xf6 || x == 0xfe {
        8
    } else if x == 0xc0 || x == 0xc8 || x == 0xd0 || x == 0xd8 {
        20
    } else if x == 0xc9 || x == 0xd9 {
        16
    } else if x == 0xc1 || x == 0xd1 || x == 0xe1 || x == 0xf1 {
        12
    } else if x == 0xc2 || x == 0xc3 || x == 0xca || x == 0xd2 || x == 0xda {
        16
    } else if x == 0xc4 || x == 0xcc || x == 0xcd || x == 0xd4 || x == 0xdc {
        24
    } else if x == 0xc5 || x == 0xd5 || x == 0xe5 || x == 0xf5 {
        16
    } else if x == 0xc7 || x == 0xcf || x == 0xd7 || x == 0xdf || x == 0xe7 || x == 0xef || x
        == 0xf7 || x == 0xff {
        16
    } else if x == 0xd3 || x == 0xdb || x == 0xdd || x == 0xe3 || x == 0xe4 || x == 0xeb || x
        == 0xec || x == 0xed || x == 0xf4 || x == 0xfc || x == 0xfd {
        0
    } else if x == 0xe0 || x == 0xf0 {
        12
    } else if x == 0xe2 || x == 0xf2 {
        8
    } else if x == 0xe8 {
        16
    } else if x == 0xea || x == 0xfa {
        16
    } else if x == 0xf8 {
        12
    } else if x == 0xf9 {
        8
    } else {
        4
    };
    Instruction { opcode, op, cycles }
}

/// The CB-prefixed table entry for an opcode.
pub fn cb_instr_entry(opcode: u8) -> (r: Instruction)
    ensures
        r.opcode == opcode,
        r.op == spec_cb_op(opcode),
        r.cycles == spec_cb_cycles(opcode),
{
    let op = if opcode < 0x08 {
        Operation::Rlc
    } else if opcode < 0x10 {
        Operation::Rrc
    } else if opcode < 0x18 {
        Operation::Rl
    } else if opcode < 0x20 {
        Operation::Rr
    } else if opcode < 0x28 {
        Operation::Sla
    } else if opcode < 0x30 {
        Operation::Sra
    } else if opcode < 0x38 {
        Operation::Swap
    } else if opcode < 0x40 {
        Operation::Srl
    } else if opcode < 0x80 {
        Operation::TestBit((opcode - 0x40) / 8)
    } else if opcode < 0xc0 {
        Operation::ResBit((opcode - 0x80) / 8)
    } else {
        Operation::SetBit((opcode - 0xc0) / 8)
    };
    let cycles: u8 = if opcode % 8 == 6 {
        16
    } else {
        8
    };
    Instruction { opcode, op, cycles }
}

} // verus!
