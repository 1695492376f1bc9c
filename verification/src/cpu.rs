//! The SM83 instruction engine: fetch, dispatch through the 256-entry
//! primary and CB-prefixed tables, execute, and advance the program
//! counter; flag computation, stack operations and branch resolution.

use vstd::prelude::*;

use crate::bus::{lemma_word_of_bytes, word_of, Bus};
use crate::instr_table::{cb_instr_entry, instr_entry, spec_cb_op, spec_instr_op, Operation};
use crate::memory::{
    lemma_write_read_storage, mem_wf, mirror_pair, spec_mem_read8, spec_mem_write8, storage_addr,
    MemView, Memory,
};
use crate::registers::{
    flag_c, flag_h, flag_n, flag_z, lower8, spec_put_a, spec_put_b, spec_put_c, spec_put_d,
    spec_put_e,
    spec_put_flag_c, spec_put_flag_h, spec_put_flag_n, spec_put_flag_z, spec_put_h, spec_put_l,
    upper8, with_lower8, with_upper8, Registers,
};

verus! {

/// What a control-flow handler reports: whether its branch was taken.
#[derive(Clone, Copy, PartialEq, Eq, Structural, Debug)]
pub enum BranchResult {
    NoBranch,
    BranchTaken,
    BranchNotTaken,
}

/// A handler's outcome; `Err` ends the run loop (STOP, HALT and the
/// undefined opcodes).
pub type InstructionRetType = Result<BranchResult, ()>;

/// The abstract state of the processor: the register file, the whole bus
/// and the master interrupt flag.
pub struct CpuView {
    pub regs: Registers,
    pub mem: MemView,
    pub master_interrupt: bool,
}

pub struct Cpu {
    pub regs: Registers,
    pub memory: Memory,
    pub global_interrupt_flag: bool,
}

impl View for Cpu {
    type V = CpuView;

    closed spec fn view(&self) -> CpuView {
        CpuView {
            regs: self.regs,
            mem: self.memory@,
            master_interrupt: self.global_interrupt_flag,
        }
    }
}

pub open spec fn cpu_wf(c: CpuView) -> bool {
    mem_wf(c.mem)
}

/// The byte at the program counter.
pub open spec fn spec_fetch(c: CpuView) -> u8 {
    spec_mem_read8(c.mem, c.regs.pc)
}

/// The processor after the program counter advances by one, wrapping.
pub open spec fn spec_incr_pc(c: CpuView) -> CpuView {
    CpuView { regs: Registers { pc: c.regs.pc.wrapping_add(1), ..c.regs }, ..c }
}

/// The processor after a byte push: the byte is stored at SP, then SP
/// moves down by one.
pub open spec fn spec_push_u8(c: CpuView, val: u8) -> CpuView {
    CpuView {
        regs: Registers { sp: c.regs.sp.wrapping_sub(1), ..c.regs },
        mem: spec_mem_write8(c.mem, c.regs.sp, val),
        ..c
    }
}

/// The processor after a word push: the word is stored little-endian at
/// SP, upper byte first, then SP moves down by two.
pub open spec fn spec_push_u16(c: CpuView, val: u16) -> CpuView {
    CpuView {
        regs: Registers { sp: c.regs.sp.wrapping_sub(2), ..c.regs },
        mem: spec_mem_write8(
            spec_mem_write8(c.mem, (c.regs.sp + 1) as u16, (val >> 8) as u8),
            c.regs.sp,
            (val & 0xff) as u8,
        ),
        ..c
    }
}

/// The processor after a byte pop, with the byte read: SP moves up by
/// one first, and the byte is read at the new SP.
pub open spec fn spec_pop_u8(c: CpuView) -> (CpuView, u8) {
    let new_sp = c.regs.sp.wrapping_add(1);
    (CpuView { regs: Registers { sp: new_sp, ..c.regs }, ..c }, spec_mem_read8(c.mem, new_sp))
}

/// The processor after a word pop, with the word read: SP moves up by
/// two first, and the word is read little-endian at the new SP.
pub open spec fn spec_pop_u16(c: CpuView) -> (CpuView, u16) {
    let new_sp = c.regs.sp.wrapping_add(2);
    (
        CpuView { regs: Registers { sp: new_sp, ..c.regs }, ..c },
        word_of(spec_mem_read8(c.mem, new_sp), spec_mem_read8(c.mem, (new_sp + 1) as u16)),
    )
}

/// The processor after a jump to `addr`: because the engine advances PC
/// by one after every instruction, the handler stores `addr - 1`.
pub open spec fn spec_jump(c: CpuView, addr: u16) -> CpuView {
    CpuView { regs: Registers { pc: addr.wrapping_sub(1), ..c.regs }, ..c }
}

impl Cpu {
    pub open spec fn wf(&self) -> bool {
        cpu_wf(self@)
    }

    /// A processor at the documented boot register values, owning `memory`.
    pub fn new(memory: Memory) -> (r: Cpu)
        ensures
            r@ == (CpuView {
                regs: crate::registers::boot_registers(),
                mem: memory@,
                master_interrupt: false,
            }),
    {
        Cpu { regs: Registers::new(), memory, global_interrupt_flag: false }
    }

    /// The byte at the program counter.
    pub fn get_opcode(&self) -> (r: u8)
        requires
            self.wf(),
        ensures
            r == spec_fetch(self@),
    {
        let pc = self.regs.get_pc();
        self.read8(pc)
    }

    /// Advances the program counter by one, wrapping.
    pub fn incr_pc(&mut self)
        requires
            old(self).wf(),
        ensures
            final(self).wf(),
            final(self)@ == spec_incr_pc(old(self)@),
    {
        let pc = self.regs.get_pc();
        self.regs.put_pc(pc.wrapping_add(1));
    }

    pub fn write8(&mut self, addr: u16, data: u8)
        requires
            old(self).wf(),
        ensures
            final(self).wf(),
            final(self)@ == (CpuView { mem: spec_mem_write8(old(self)@.mem, addr, data), ..old(self)@ }),
    {
        self.memory.write8(addr, data);
    }

    pub fn read8(&self, addr: u16) -> (r: u8)
        requires
            self.wf(),
        ensures
            r == spec_mem_read8(self@.mem, addr),
    {
        self.memory.read8(addr)
    }

    pub fn write16(&mut self, addr: u16, data: u16)
        requires
            old(self).wf(),
            addr < 0xffff,
        ensures
            final(self).wf(),
            final(self)@ == (CpuView {
                mem: spec_mem_write8(
                    spec_mem_write8(old(self)@.mem, (addr + 1) as u16, (data >> 8) as u8),
                    addr,
                    (data & 0xff) as u8,
                ),
                ..old(self)@
            }),
    {
        self.memory.write16(addr, data);
    }

    pub fn read16(&self, addr: u16) -> (r: u16)
        requires
            self.wf(),
            addr < 0xffff,
        ensures
            r == word_of(
                spec_mem_read8(self@.mem, addr),
                spec_mem_read8(self@.mem, (addr + 1) as u16),
            ),
    {
        self.memory.read16(addr)
    }

    /// Pushes a byte: stores at SP, then decrements SP.
    pub fn push_u8(&mut self, val: u8)
        requires
            old(self).wf(),
        ensures
            final(self).wf(),
            final(self)@ == spec_push_u8(old(self)@, val),
    {
        let sp = self.regs.get_sp();
        self.write8(sp, val);
        self.regs.put_sp(sp.wrapping_sub(1));
    }

    /// Pushes a word: stores little-endian at SP and SP+1, then moves SP
    /// down by two.
    pub fn push_u16(&mut self, val: u16)
        requires
            old(self).wf(),
            old(self)@.regs.sp < 0xffff,
        ensures
            final(self).wf(),
            final(self)@ == spec_push_u16(old(self)@, val),
    {
        let sp = self.regs.get_sp();
        self.write16(sp, val);
        self.regs.put_sp(sp.wrapping_sub(2));
    }

    /// Pops a byte: increments SP, then reads at the new SP.
    pub fn pop_u8(&mut self) -> (r: u8)
        requires
            old(self).wf(),
        ensures
            final(self).wf(),
            final(self)@ == spec_pop_u8(old(self)@).0,
            r == spec_pop_u8(old(self)@).1,
    {
        let new_sp = self.regs.get_sp().wrapping_add(1);
        self.regs.put_sp(new_sp);
        self.read8(new_sp)
    }

    /// Pops a word: moves SP up by two, then reads little-endian at the
    /// new SP.
    pub fn pop_u16(&mut self) -> (r: u16)
        requires
            old(self).wf(),
            old(self)@.regs.sp.wrapping_add(2) < 0xffff,
        ensures
            final(self).wf(),
            final(self)@ == spec_pop_u16(old(self)@).0,
            r == spec_pop_u16(old(self)@).1,
    {
        let new_sp = self.regs.get_sp().wrapping_add(2);
        self.regs.put_sp(new_sp);
        self.read16(new_sp)
    }

    /// Jumps to `addr`, storing `addr - 1` so that the unconditional
    /// post-instruction increment lands on `addr`.
    pub fn jump(&mut self, addr: u16)
        requires
            old(self).wf(),
        ensures
            final(self).wf(),
            final(self)@ == spec_jump(old(self)@, addr),
    {
        self.regs.put_pc(addr.wrapping_sub(1));
    }
}

impl Bus for Cpu {
    open spec fn inv(&self) -> bool {
        self.wf()
    }

    open spec fn addr_ok(addr: u16) -> bool {
        true
    }

    open spec fn spec_read8(&self, addr: u16) -> u8 {
        spec_mem_read8(self@.mem, addr)
    }

    fn read8(&self, addr: u16) -> u8 {
        Cpu::read8(self, addr)
    }

    fn write8(&mut self, addr: u16, data: u8) {
        Cpu::write8(self, addr, data)
    }
}

/// The 8-bit operand that the low three opcode bits select, in the fixed
/// order B, C, D, E, H, L, the byte at (HL), A.
pub open spec fn spec_reg8(c: CpuView, idx: u8) -> u8 {
    if idx == 0 {
        upper8(c.regs.bc)
    } else if idx == 1 {
        lower8(c.regs.bc)
    } else if idx == 2 {
        upper8(c.regs.de)
    } else if idx == 3 {
        lower8(c.regs.de)
    } else if idx == 4 {
        upper8(c.regs.hl)
    } else if idx == 5 {
        lower8(c.regs.hl)
    } else if idx == 6 {
        spec_mem_read8(c.mem, c.regs.hl)
    } else {
        upper8(c.regs.af)
    }
}

/// The processor after storing to the 8-bit operand the low three opcode
/// bits select; index 6 stores through the bus at (HL).
pub open spec fn spec_put_reg8(c: CpuView, idx: u8, val: u8) -> CpuView {
    if idx == 0 {
        CpuView { regs: spec_put_b(c.regs, val), ..c }
    } else if idx == 1 {
        CpuView { regs: spec_put_c(c.regs, val), ..c }
    } else if idx == 2 {
        CpuView { regs: spec_put_d(c.regs, val), ..c }
    } else if idx == 3 {
        CpuView { regs: spec_put_e(c.regs, val), ..c }
    } else if idx == 4 {
        CpuView { regs: spec_put_h(c.regs, val), ..c }
    } else if idx == 5 {
        CpuView { regs: spec_put_l(c.regs, val), ..c }
    } else if idx == 6 {
        CpuView { mem: spec_mem_write8(c.mem, c.regs.hl, val), ..c }
    } else {
        CpuView { regs: spec_put_a(c.regs, val), ..c }
    }
}

/// The dual-mode ALU operand: the family's immediate opcode consumes the
/// next byte, every other opcode selects a register operand.
pub open spec fn spec_alu_operand(c: CpuView, opcode: u8, imm_opcode: u8) -> (CpuView, u8) {
    if opcode == imm_opcode {
        let c1 = spec_incr_pc(c);
        (c1, spec_fetch(c1))
    } else {
        (c, spec_reg8(c, opcode % 8))
    }
}

fn get_type_a_reg(cpu: &Cpu, opcode: u8) -> (r: u8)
    requires
        cpu.wf(),
    ensures
        r == spec_reg8(cpu@, opcode % 8),
{
    match opcode % 8 {
        0 => cpu.regs.get_b(),
        1 => cpu.regs.get_c(),
        2 => cpu.regs.get_d(),
        3 => cpu.regs.get_e(),
        4 => cpu.regs.get_h(),
        5 => cpu.regs.get_l(),
        6 => cpu.read8(cpu.regs.get_hl()),
        _ => cpu.regs.get_a(),
    }
}

fn put_type_a_reg(cpu: &mut Cpu, opcode: u8, val: u8)
    requires
        old(cpu).wf(),
    ensures
        final(cpu).wf(),
        final(cpu)@ == spec_put_reg8(old(cpu)@, opcode % 8, val),
{
    match opcode % 8 {
        0 => cpu.regs.put_b(val),
        1 => cpu.regs.put_c(val),
        2 => cpu.regs.put_d(val),
        3 => cpu.regs.put_e(val),
        4 => cpu.regs.put_h(val),
        5 => cpu.regs.put_l(val),
        6 => {
            let hl = cpu.regs.get_hl();
            cpu.write8(hl, val);
        },
        _ => cpu.regs.put_a(val),
    }
}

fn type_a_reg_or_imm(cpu: &mut Cpu, opcode: u8, imm_opcode: u8) -> (r: u8)
    requires
        old(cpu).wf(),
    ensures
        final(cpu).wf(),
        final(cpu)@ == spec_alu_operand(old(cpu)@, opcode, imm_opcode).0,
        r == spec_alu_operand(old(cpu)@, opcode, imm_opcode).1,
{
    if imm_opcode == opcode {
        cpu.incr_pc();
        cpu.get_opcode()
    } else {
        get_type_a_reg(cpu, opcode)
    }
}

/// The register file after the ALU flag stores Z, H, C, N, in the order
/// the arithmetic handlers perform them.
pub open spec fn spec_arith_flags(r: Registers, z: bool, h: bool, cy: bool, n: bool) -> Registers {
    spec_put_flag_n(spec_put_flag_c(spec_put_flag_h(spec_put_flag_z(r, z), h), cy), n)
}

/// The register file after the logic flag stores Z, N, H, C, in the
/// order the AND/XOR/OR handlers perform them.
pub open spec fn spec_logic_flags(r: Registers, z: bool, n: bool, h: bool, cy: bool) -> Registers {
    spec_put_flag_c(spec_put_flag_h(spec_put_flag_n(spec_put_flag_z(r, z), n), h), cy)
}

pub fn noop_instr(cpu: &mut Cpu) -> (r: InstructionRetType)
    ensures
        final(cpu)@ == old(cpu)@,
        r == Ok::<BranchResult, ()>(BranchResult::NoBranch),
{
    Ok(BranchResult::NoBranch)
}

/// Low-power stop is not modelled; it ends the run.
pub fn stop_instr(cpu: &mut Cpu) -> (r: InstructionRetType)
    ensures
        final(cpu)@ == old(cpu)@,
        r == Err::<BranchResult, ()>(()),
{
    Err(())
}

/// Halt-until-interrupt is not modelled; it ends the run.
pub fn halt_instr(cpu: &mut Cpu) -> (r: InstructionRetType)
    ensures
        final(cpu)@ == old(cpu)@,
        r == Err::<BranchResult, ()>(()),
{
    Err(())
}

/// Sets the master interrupt enable.
pub fn ei_instr(cpu: &mut Cpu) -> (r: InstructionRetType)
    ensures
        final(cpu)@ == (CpuView { master_interrupt: true, ..old(cpu)@ }),
        r == Ok::<BranchResult, ()>(BranchResult::NoBranch),
{
    cpu.global_interrupt_flag = true;
    Ok(BranchResult::NoBranch)
}

/// Clears the master interrupt enable.
pub fn di_instr(cpu: &mut Cpu) -> (r: InstructionRetType)
    ensures
        final(cpu)@ == (CpuView { master_interrupt: false, ..old(cpu)@ }),
        r == Ok::<BranchResult, ()>(BranchResult::NoBranch),
{
    cpu.global_interrupt_flag = false;
    Ok(BranchResult::NoBranch)
}

/// An undefined opcode ends the run.
pub fn undef_instr(cpu: &mut Cpu) -> (r: InstructionRetType)
    ensures
        final(cpu)@ == old(cpu)@,
        r == Err::<BranchResult, ()>(()),
{
    Err(())
}

/// ADD A,operand: the sum, with Z from the 8-bit result, H the carry out
/// of bit 3, C the carry out of bit 7, N clear.
pub open spec fn spec_add_instr(c: CpuView) -> CpuView {
    let opcode = spec_fetch(c);
    let t = spec_alu_operand(c, opcode, 0xc6);
    let c1 = t.0;
    let arg = t.1;
    let a = upper8(c1.regs.af);
    let sum = a + arg;
    let res = (sum % 256) as u8;
    let regs = spec_put_a(
        spec_arith_flags(c1.regs, res == 0, (a % 16) + (arg % 16) > 15, sum > 255, false),
        res,
    );
    CpuView { regs, ..c1 }
}

pub fn add_instr(cpu: &mut Cpu) -> (r: InstructionRetType)
    requires
        old(cpu).wf(),
    ensures
        final(cpu).wf(),
        final(cpu)@ == spec_add_instr(old(cpu)@),
        r == Ok::<BranchResult, ()>(BranchResult::NoBranch),
{
    let opcode = cpu.get_opcode();
    let arg_val = type_a_reg_or_imm(cpu, opcode, 0xc6);
    let a_val = cpu.regs.get_a();
    let sum = (a_val as u16) + (arg_val as u16);
    let new_val = (sum % 256) as u8;

    cpu.regs.put_flag_z(new_val == 0);
    cpu.regs.put_flag_h((a_val % 16) + (arg_val % 16) > 15);
    cpu.regs.put_flag_c(sum > 255);
    cpu.regs.put_flag_n(false);

    cpu.regs.put_a(new_val);
    Ok(BranchResult::NoBranch)
}

/// ADC A,operand: the sum plus the carry flag, flags as for ADD.
pub open spec fn spec_adc_instr(c: CpuView) -> CpuView {
    let opcode = spec_fetch(c);
    let t = spec_alu_operand(c, opcode, 0xce);
    let c1 = t.0;
    let arg = t.1;
    let a = upper8(c1.regs.af);
    let carry: int = if flag_c(c1.regs) {
        1
    } else {
        0
    };
    let sum = a + arg + carry;
    let res = (sum % 256) as u8;
    let regs = spec_put_a(
        spec_arith_flags(c1.regs, res == 0, (a % 16) + (arg % 16) + carry > 15, sum > 255, false),
        res,
    );
    CpuView { regs, ..c1 }
}

pub fn adc_instr(cpu: &mut Cpu) -> (r: InstructionRetType)
    requires
        old(cpu).wf(),
    ensures
        final(cpu).wf(),
        final(cpu)@ == spec_adc_instr(old(cpu)@),
        r == Ok::<BranchResult, ()>(BranchResult::NoBranch),
{
    let opcode = cpu.get_opcode();
    let arg_val = type_a_reg_or_imm(cpu, opcode, 0xce);
    let a_val = cpu.regs.get_a();
    let carry_val: u16 = if cpu.regs.get_flag_c() {
        1
    } else {
        0
    };
    let sum = (a_val as u16) + (arg_val as u16) + carry_val;
    let new_val = (sum % 256) as u8;

    cpu.regs.put_flag_z(new_val == 0);
    cpu.regs.put_flag_h((a_val % 16) as u16 + (arg_val % 16) as u16 + carry_val > 15);
    cpu.regs.put_flag_c(sum > 255);
    cpu.regs.put_flag_n(false);

    cpu.regs.put_a(new_val);
    Ok(BranchResult::NoBranch)
}

/// SUB A,operand: the difference, with Z from the 8-bit result, H the
/// borrow out of bit 4, C the borrow out of bit 8, N set.
pub open spec fn spec_sub_instr(c: CpuView) -> CpuView {
    let opcode = spec_fetch(c);
    let t = spec_alu_operand(c, opcode, 0xd6);
    let c1 = t.0;
    let arg = t.1;
    let a = upper8(c1.regs.af);
    let res = ((a - arg + 256) % 256) as u8;
    let regs = spec_put_a(
        spec_arith_flags(c1.regs, res == 0, (a % 16) < (arg % 16), a < arg, true),
        res,
    );
    CpuView { regs, ..c1 }
}

pub fn sub_instr(cpu: &mut Cpu) -> (r: InstructionRetType)
    requires
        old(cpu).wf(),
    ensures
        final(cpu).wf(),
        final(cpu)@ == spec_sub_instr(old(cpu)@),
        r == Ok::<BranchResult, ()>(BranchResult::NoBranch),
{
    let opcode = cpu.get_opcode();
    let arg_val = type_a_reg_or_imm(cpu, opcode, 0xd6);
    let a_val = cpu.regs.get_a();
    let new_val = a_val.wrapping_sub(arg_val);

    cpu.regs.put_flag_z(new_val == 0);
    cpu.regs.put_flag_h(a_val % 16 < arg_val % 16);
    cpu.regs.put_flag_c(a_val < arg_val);
    cpu.regs.put_flag_n(true);

    cpu.regs.put_a(new_val);
    Ok(BranchResult::NoBranch)
}

/// SBC A,operand: the difference less the carry flag, flags as for SUB.
pub open spec fn spec_sbc_instr(c: CpuView) -> CpuView {
    let opcode = spec_fetch(c);
    let t = spec_alu_operand(c, opcode, 0xde);
    let c1 = t.0;
    let arg = t.1;
    let a = upper8(c1.regs.af);
    let carry: int = if flag_c(c1.regs) {
        1
    } else {
        0
    };
    let res = ((a - arg - carry + 512) % 256) as u8;
    let regs = spec_put_a(
        spec_arith_flags(c1.regs, res == 0, (a % 16) < (arg % 16) + carry, a < arg + carry, true),
        res,
    );
    CpuView { regs, ..c1 }
}

#[verifier::rlimit(30)]
pub fn sbc_instr(cpu: &mut Cpu) -> (r: InstructionRetType)
    requires
        old(cpu).wf(),
    ensures
        final(cpu).wf(),
        final(cpu)@ == spec_sbc_instr(old(cpu)@),
        r == Ok::<BranchResult, ()>(BranchResult::NoBranch),
{
    let opcode = cpu.get_opcode();
    let arg_val = type_a_reg_or_imm(cpu, opcode, 0xde);
    let a_val = cpu.regs.get_a();
    let carry_val: u8 = if cpu.regs.get_flag_c() {
        1
    } else {
        0
    };
    let new_val = a_val.wrapping_sub(arg_val).wrapping_sub(carry_val);

    cpu.regs.put_flag_z(new_val == 0);
    cpu.regs.put_flag_h(((a_val % 16) as u16) < ((arg_val % 16) as u16) + (carry_val as u16));
    cpu.regs.put_flag_c((a_val as u16) < (arg_val as u16) + (carry_val as u16));
    cpu.regs.put_flag_n(true);

    cpu.regs.put_a(new_val);
    Ok(BranchResult::NoBranch)
}

/// AND A,operand: Z from the result, N clear, H set, C clear.
pub open spec fn spec_and_instr(c: CpuView) -> CpuView {
    let opcode = spec_fetch(c);
    let t = spec_alu_operand(c, opcode, 0xe6);
    let c1 = t.0;
    let arg = t.1;
    let res = upper8(c1.regs.af) & arg;
    let regs = spec_put_a(spec_logic_flags(c1.regs, res == 0, false, true, false), res);
    CpuView { regs, ..c1 }
}

pub fn and_instr(cpu: &mut Cpu) -> (r: InstructionRetType)
    requires
        old(cpu).wf(),
    ensures
        final(cpu).wf(),
        final(cpu)@ == spec_and_instr(old(cpu)@),
        r == Ok::<BranchResult, ()>(BranchResult::NoBranch),
{
    let opcode = cpu.get_opcode();
    let arg_val = type_a_reg_or_imm(cpu, opcode, 0xe6);
    let a_val = cpu.regs.get_a();
    let new_val = a_val & arg_val;

    cpu.regs.put_flag_z(new_val == 0);
    cpu.regs.put_flag_n(false);
    cpu.regs.put_flag_h(true);
    cpu.regs.put_flag_c(false);

    cpu.regs.put_a(new_val);
    Ok(BranchResult::NoBranch)
}

/// XOR A,operand: Z from the result, N, H, C all clear.
pub open spec fn spec_xor_instr(c: CpuView) -> CpuView {
    let opcode = spec_fetch(c);
    let t = spec_alu_operand(c, opcode, 0xee);
    let c1 = t.0;
    let arg = t.1;
    let res = upper8(c1.regs.af) ^ arg;
    let regs = spec_put_a(spec_logic_flags(c1.regs, res == 0, false, false, false), res);
    CpuView { regs, ..c1 }
}

pub fn xor_instr(cpu: &mut Cpu) -> (r: InstructionRetType)
    requires
        old(cpu).wf(),
    ensures
        final(cpu).wf(),
        final(cpu)@ == spec_xor_instr(old(cpu)@),
        r == Ok::<BranchResult, ()>(BranchResult::NoBranch),
{
    let opcode = cpu.get_opcode();
    let arg_val = type_a_reg_or_imm(cpu, opcode, 0xee);
    let a_val = cpu.regs.get_a();
    let new_val = a_val ^ arg_val;

    cpu.regs.put_flag_z(new_val == 0);
    cpu.regs.put_flag_n(false);
    cpu.regs.put_flag_h(false);
    cpu.regs.put_flag_c(false);

    cpu.regs.put_a(new_val);
    Ok(BranchResult::NoBranch)
}

/// OR A,operand: Z from the result, N, H, C all clear.
pub open spec fn spec_or_instr(c: CpuView) -> CpuView {
    let opcode = spec_fetch(c);
    let t = spec_alu_operand(c, opcode, 0xf6);
    let c1 = t.0;
    let arg = t.1;
    let res = upper8(c1.regs.af) | arg;
    let regs = spec_put_a(spec_logic_flags(c1.regs, res == 0, false, false, false), res);
    CpuView { regs, ..c1 }
}

pub fn or_instr(cpu: &mut Cpu) -> (r: InstructionRetType)
    requires
        old(cpu).wf(),
    ensures
        final(cpu).wf(),
        final(cpu)@ == spec_or_instr(old(cpu)@),
        r == Ok::<BranchResult, ()>(BranchResult::NoBranch),
{
    let opcode = cpu.get_opcode();
    let arg_val = type_a_reg_or_imm(cpu, opcode, 0xf6);
    let a_val = cpu.regs.get_a();
    let new_val = a_val | arg_val;

    cpu.regs.put_flag_z(new_val == 0);
    cpu.regs.put_flag_n(false);
    cpu.regs.put_flag_h(false);
    cpu.regs.put_flag_c(false);

    cpu.regs.put_a(new_val);
    Ok(BranchResult::NoBranch)
}

/// CP A,operand: the flags of SUB without storing the difference.
pub open spec fn spec_cp_instr(c: CpuView) -> CpuView {
    let opcode = spec_fetch(c);
    let t = spec_alu_operand(c, opcode, 0xfe);
    let c1 = t.0;
    let arg = t.1;
    let a = upper8(c1.regs.af);
    let res = ((a - arg + 256) % 256) as u8;
    let regs = spec_arith_flags(c1.regs, res == 0, (a % 16) < (arg % 16), a < arg, true);
    CpuView { regs, ..c1 }
}

pub fn cp_instr(cpu: &mut Cpu) -> (r: InstructionRetType)
    requires
        old(cpu).wf(),
    ensures
        final(cpu).wf(),
        final(cpu)@ == spec_cp_instr(old(cpu)@),
        r == Ok::<BranchResult, ()>(BranchResult::NoBranch),
{
    let opcode = cpu.get_opcode();
    let arg_val = type_a_reg_or_imm(cpu, opcode, 0xfe);
    let a_val = cpu.regs.get_a();
    let new_val = a_val.wrapping_sub(arg_val);

    cpu.regs.put_flag_z(new_val == 0);
    cpu.regs.put_flag_h(a_val % 16 < arg_val % 16);
    cpu.regs.put_flag_c(a_val < arg_val);
    cpu.regs.put_flag_n(true);

    Ok(BranchResult::NoBranch)
}

/// The 16-bit pair the ADD HL family reads, by opcode.
pub open spec fn spec_addhl_arg(c: CpuView, opcode: u8) -> u16 {
    if opcode == 0x09 {
        c.regs.bc
    } else if opcode == 0x19 {
        c.regs.de
    } else if opcode == 0x29 {
        c.regs.hl
    } else {
        c.regs.sp
    }
}

/// ADD HL,pair: the 16-bit sum into HL, N clear, H the carry out of bit
/// 11, C the carry out of bit 15, Z untouched.
pub open spec fn spec_add_hl_instr(c: CpuView) -> CpuView {
    let opcode = spec_fetch(c);
    let hl = c.regs.hl;
    let arg = spec_addhl_arg(c, opcode);
    let sum = hl + arg;
    let h = (hl % 0x1000) + (arg % 0x1000) > 0xfff;
    let regs = spec_put_flag_c(spec_put_flag_h(spec_put_flag_n(c.regs, false), h), sum > 0xffff);
    CpuView { regs: Registers { hl: (sum % 0x10000) as u16, ..regs }, ..c }
}

/// The ADD HL opcodes.
pub open spec fn is_add_hl_opcode(opcode: u8) -> bool {
    opcode == 0x09 || opcode == 0x19 || opcode == 0x29 || opcode == 0x39
}

pub fn add_hl_instr(cpu: &mut Cpu) -> (r: InstructionRetType)
    requires
        old(cpu).wf(),
        is_add_hl_opcode(spec_fetch(old(cpu)@)),
    ensures
        final(cpu).wf(),
        final(cpu)@ == spec_add_hl_instr(old(cpu)@),
        r == Ok::<BranchResult, ()>(BranchResult::NoBranch),
{
    let opcode = cpu.get_opcode();
    let hl_val = cpu.regs.get_hl() as u32;
    let arg_val = (match opcode {
        0x09 => cpu.regs.get_bc(),
        0x19 => cpu.regs.get_de(),
        0x29 => cpu.regs.get_hl(),
        _ => cpu.regs.get_sp(),
    }) as u32;

    let new_val = hl_val + arg_val;
    let h_flag = (hl_val % 0x1000) + (arg_val % 0x1000) > 0xfff;

    cpu.regs.put_flag_n(false);
    cpu.regs.put_flag_h(h_flag);
    cpu.regs.put_flag_c(new_val > 0xffff);

    cpu.regs.put_hl((new_val % 0x10000) as u16);
    Ok(BranchResult::NoBranch)
}

/// A 16-bit value displaced by a signed byte, wrapping.
pub open spec fn spec_u16_plus_i8(val1: u16, val2: i8) -> u16 {
    ((val1 + val2 + 0x10000) % 0x10000) as u16
}

/// Adds a signed 8-bit displacement to a 16-bit value, wrapping at the
/// 16-bit boundary in both directions.
pub fn u16_plus_i8(val1_u16: u16, val2_i8: i8) -> (r: u16)
    ensures
        r == spec_u16_plus_i8(val1_u16, val2_i8),
{
    if val2_i8 >= 0 {
        val1_u16.wrapping_add(val2_i8 as u16)
    } else {
        val1_u16.wrapping_sub((-(val2_i8 as i32)) as u16)
    }
}

/// ADD SP,imm8: SP displaced by the signed immediate; Z and N clear, H
/// and C from the changes of bits 4 and 7 of SP, as the engine has
/// always computed them.
pub open spec fn spec_add_sp_instr(c: CpuView) -> CpuView {
    let c1 = spec_incr_pc(c);
    let imm = spec_fetch(c1) as i8;
    let old_sp = c1.regs.sp;
    let new_sp = spec_u16_plus_i8(old_sp, imm);
    let h = (old_sp >> 4) & 1 != (new_sp >> 4) & 1;
    let cy = (old_sp >> 7) != (new_sp >> 7);
    let regs = spec_put_flag_c(
        spec_put_flag_h(
            spec_put_flag_n(spec_put_flag_z(Registers { sp: new_sp, ..c1.regs }, false), false),
            h,
        ),
        cy,
    );
    CpuView { regs, ..c1 }
}

pub fn add_sp_instr(cpu: &mut Cpu) -> (r: InstructionRetType)
    requires
        old(cpu).wf(),
    ensures
        final(cpu).wf(),
        final(cpu)@ == spec_add_sp_instr(old(cpu)@),
        r == Ok::<BranchResult, ()>(BranchResult::NoBranch),
{
    cpu.incr_pc();
    let imm_val = cpu.get_opcode() as i8;
    let old_sp = cpu.regs.get_sp();
    let new_sp = u16_plus_i8(old_sp, imm_val);

    let h_flag = (old_sp >> 4) & 1 != (new_sp >> 4) & 1;
    let c_flag = (old_sp >> 7) != (new_sp >> 7);

    cpu.regs.put_sp(new_sp);
    cpu.regs.put_flag_z(false);
    cpu.regs.put_flag_n(false);
    cpu.regs.put_flag_h(h_flag);
    cpu.regs.put_flag_c(c_flag);

    Ok(BranchResult::NoBranch)
}

/// The operand index of the 8-bit INC/DEC family: opcodes 0x04/0x05
/// through 0x3C/0x3D step by eight over B, C, D, E, H, L, (HL), A.
pub open spec fn spec_incdec_idx(opcode: u8) -> u8 {
    ((opcode - 4) / 8) as u8
}

pub open spec fn is_inc_u8_opcode(opcode: u8) -> bool {
    opcode == 0x04 || opcode == 0x0c || opcode == 0x14 || opcode == 0x1c || opcode == 0x24
        || opcode == 0x2c || opcode == 0x34 || opcode == 0x3c
}

pub open spec fn is_dec_u8_opcode(opcode: u8) -> bool {
    opcode == 0x05 || opcode == 0x0d || opcode == 0x15 || opcode == 0x1d || opcode == 0x25
        || opcode == 0x2d || opcode == 0x35 || opcode == 0x3d
}

fn u8_inc_dec_get_val(cpu: &Cpu, opcode: u8) -> (r: u8)
    requires
        cpu.wf(),
        is_inc_u8_opcode(opcode) || is_dec_u8_opcode(opcode),
    ensures
        r == spec_reg8(cpu@, spec_incdec_idx(opcode)),
{
    match opcode {
        0x04 | 0x05 => cpu.regs.get_b(),
        0x0c | 0x0d => cpu.regs.get_c(),
        0x14 | 0x15 => cpu.regs.get_d(),
        0x1c | 0x1d => cpu.regs.get_e(),
        0x24 | 0x25 => cpu.regs.get_h(),
        0x2c | 0x2d => cpu.regs.get_l(),
        0x34 | 0x35 => {
            let addr = cpu.regs.get_hl();
            cpu.read8(addr)
        },
        _ => cpu.regs.get_a(),
    }
}

fn u8_inc_dec_put_val(cpu: &mut Cpu, opcode: u8, new_val: u8)
    requires
        old(cpu).wf(),
        is_inc_u8_opcode(opcode) || is_dec_u8_opcode(opcode),
    ensures
        final(cpu).wf(),
        final(cpu)@ == spec_put_reg8(old(cpu)@, spec_incdec_idx(opcode), new_val),
{
    match opcode {
        0x04 | 0x05 => cpu.regs.put_b(new_val),
        0x0c | 0x0d => cpu.regs.put_c(new_val),
        0x14 | 0x15 => cpu.regs.put_d(new_val),
        0x1c | 0x1d => cpu.regs.put_e(new_val),
        0x24 | 0x25 => cpu.regs.put_h(new_val),
        0x2c | 0x2d => cpu.regs.put_l(new_val),
        0x34 | 0x35 => {
            let addr = cpu.regs.get_hl();
            cpu.write8(addr, new_val);
        },
        _ => cpu.regs.put_a(new_val),
    }
}

/// INC r: the operand plus one, wrapping; Z from the result, H the carry
/// out of bit 3, N clear, C untouched.
pub open spec fn spec_inc_u8_instr(c: CpuView) -> CpuView {
    let opcode = spec_fetch(c);
    let idx = spec_incdec_idx(opcode);
    let old_val = spec_reg8(c, idx);
    let new_val = ((old_val + 1) % 256) as u8;
    let regs = spec_put_flag_n(
        spec_put_flag_h(spec_put_flag_z(c.regs, new_val == 0), old_val % 16 == 15),
        false,
    );
    spec_put_reg8(CpuView { regs, ..c }, idx, new_val)
}

pub fn inc_u8_instr(cpu: &mut Cpu) -> (r: InstructionRetType)
    requires
        old(cpu).wf(),
        is_inc_u8_opcode(spec_fetch(old(cpu)@)),
    ensures
        final(cpu).wf(),
        final(cpu)@ == spec_inc_u8_instr(old(cpu)@),
        r == Ok::<BranchResult, ()>(BranchResult::NoBranch),
{
    let opcode = cpu.get_opcode();
    let old_val = u8_inc_dec_get_val(cpu, opcode);
    let new_val = old_val.wrapping_add(1);

    cpu.regs.put_flag_z(new_val == 0);
    cpu.regs.put_flag_h(old_val % 16 == 15);
    cpu.regs.put_flag_n(false);

    u8_inc_dec_put_val(cpu, opcode, new_val);

    Ok(BranchResult::NoBranch)
}

/// DEC r: the operand less one, wrapping; Z from the result, H the
/// borrow out of bit 4, N set, C untouched.
pub open spec fn spec_dec_u8_instr(c: CpuView) -> CpuView {
    let opcode = spec_fetch(c);
    let idx = spec_incdec_idx(opcode);
    let old_val = spec_reg8(c, idx);
    let new_val = ((old_val - 1 + 256) % 256) as u8;
    let regs = spec_put_flag_n(
        spec_put_flag_h(spec_put_flag_z(c.regs, new_val == 0), old_val % 16 == 0),
        true,
    );
    spec_put_reg8(CpuView { regs, ..c }, idx, new_val)
}

pub fn dec_u8_instr(cpu: &mut Cpu) -> (r: InstructionRetType)
    requires
        old(cpu).wf(),
        is_dec_u8_opcode(spec_fetch(old(cpu)@)),
    ensures
        final(cpu).wf(),
        final(cpu)@ == spec_dec_u8_instr(old(cpu)@),
        r == Ok::<BranchResult, ()>(BranchResult::NoBranch),
{
    let opcode = cpu.get_opcode();
    let old_val = u8_inc_dec_get_val(cpu, opcode);
    let new_val = old_val.wrapping_sub(1);

    cpu.regs.put_flag_z(new_val == 0);
    cpu.regs.put_flag_h(old_val % 16 == 0);
    cpu.regs.put_flag_n(true);

    u8_inc_dec_put_val(cpu, opcode, new_val);

    Ok(BranchResult::NoBranch)
}

pub open spec fn is_inc_u16_opcode(opcode: u8) -> bool {
    opcode == 0x03 || opcode == 0x13 || opcode == 0x23 || opcode == 0x33
}

pub open spec fn is_dec_u16_opcode(opcode: u8) -> bool {
    opcode == 0x0b || opcode == 0x1b || opcode == 0x2b || opcode == 0x3b
}

/// The 16-bit pair the opcode's bits 5-4 select: BC, DE, HL, SP.
pub open spec fn spec_reg16_get(c: CpuView, opcode: u8) -> u16 {
    let sel = (opcode / 16) % 4;
    if sel == 0 {
        c.regs.bc
    } else if sel == 1 {
        c.regs.de
    } else if sel == 2 {
        c.regs.hl
    } else {
        c.regs.sp
    }
}

/// The processor after storing to the pair the opcode's bits 5-4 select.
pub open spec fn spec_reg16_put(c: CpuView, opcode: u8, val: u16) -> CpuView {
    let sel = (opcode / 16) % 4;
    if sel == 0 {
        CpuView { regs: Registers { bc: val, ..c.regs }, ..c }
    } else if sel == 1 {
        CpuView { regs: Registers { de: val, ..c.regs }, ..c }
    } else if sel == 2 {
        CpuView { regs: Registers { hl: val, ..c.regs }, ..c }
    } else {
        CpuView { regs: Registers { sp: val, ..c.regs }, ..c }
    }
}

fn u16_inc_dec_get_val(cpu: &Cpu, opcode: u8) -> (r: u16)
    requires
        is_inc_u16_opcode(opcode) || is_dec_u16_opcode(opcode),
    ensures
        r == spec_reg16_get(cpu@, opcode),
{
    match opcode {
        0x03 | 0x0b => cpu.regs.get_bc(),
        0x13 | 0x1b => cpu.regs.get_de(),
        0x23 | 0x2b => cpu.regs.get_hl(),
        _ => cpu.regs.get_sp(),
    }
}

fn u16_inc_dec_put_val(cpu: &mut Cpu, opcode: u8, new_val: u16)
    requires
        is_inc_u16_opcode(opcode) || is_dec_u16_opcode(opcode),
    ensures
        final(cpu)@ == spec_reg16_put(old(cpu)@, opcode, new_val),
{
    match opcode {
        0x03 | 0x0b => cpu.regs.put_bc(new_val),
        0x13 | 0x1b => cpu.regs.put_de(new_val),
        0x23 | 0x2b => cpu.regs.put_hl(new_val),
        _ => cpu.regs.put_sp(new_val),
    }
}

/// INC pair: the pair plus one, wrapping; no flags.
pub open spec fn spec_inc_u16_instr(c: CpuView) -> CpuView {
    let opcode = spec_fetch(c);
    spec_reg16_put(c, opcode, spec_reg16_get(c, opcode).wrapping_add(1))
}

pub fn inc_u16_instr(cpu: &mut Cpu) -> (r: InstructionRetType)
    requires
        old(cpu).wf(),
        is_inc_u16_opcode(spec_fetch(old(cpu)@)),
    ensures
        final(cpu).wf(),
        final(cpu)@ == spec_inc_u16_instr(old(cpu)@),
        r == Ok::<BranchResult, ()>(BranchResult::NoBranch),
{
    let opcode = cpu.get_opcode();
    let old_val = u16_inc_dec_get_val(cpu, opcode);
    let new_val = old_val.wrapping_add(1);
    u16_inc_dec_put_val(cpu, opcode, new_val);
    Ok(BranchResult::NoBranch)
}

/// DEC pair: the pair less one, wrapping; no flags.
pub open spec fn spec_dec_u16_instr(c: CpuView) -> CpuView {
    let opcode = spec_fetch(c);
    spec_reg16_put(c, opcode, spec_reg16_get(c, opcode).wrapping_sub(1))
}

pub fn dec_u16_instr(cpu: &mut Cpu) -> (r: InstructionRetType)
    requires
        old(cpu).wf(),
        is_dec_u16_opcode(spec_fetch(old(cpu)@)),
    ensures
        final(cpu).wf(),
        final(cpu)@ == spec_dec_u16_instr(old(cpu)@),
        r == Ok::<BranchResult, ()>(BranchResult::NoBranch),
{
    let opcode = cpu.get_opcode();
    let old_val = u16_inc_dec_get_val(cpu, opcode);
    let new_val = old_val.wrapping_sub(1);
    u16_inc_dec_put_val(cpu, opcode, new_val);
    Ok(BranchResult::NoBranch)
}

/// The register file after the rotate-accumulator flag stores Z, N, H, C.
pub open spec fn spec_rot_flags(r: Registers, z: bool, cy: bool) -> Registers {
    spec_put_flag_c(spec_put_flag_h(spec_put_flag_n(spec_put_flag_z(r, z), false), false), cy)
}

/// RLCA: A rotated left by one; Z from the result, N and H clear, C the
/// bit rotated out.
pub open spec fn spec_rlca_instr(c: CpuView) -> CpuView {
    let a = upper8(c.regs.af);
    let new_a = (a << 1) | (a >> 7);
    CpuView { regs: spec_rot_flags(spec_put_a(c.regs, new_a), new_a == 0, a >> 7 == 1), ..c }
}

pub fn rlca_instr(cpu: &mut Cpu) -> (r: InstructionRetType)
    ensures
        final(cpu)@ == spec_rlca_instr(old(cpu)@),
        r == Ok::<BranchResult, ()>(BranchResult::NoBranch),
{
    let a_val = cpu.regs.get_a();
    let new_a_val = (a_val << 1) | (a_val >> 7);

    cpu.regs.put_a(new_a_val);
    cpu.regs.put_flag_z(new_a_val == 0);
    cpu.regs.put_flag_n(false);
    cpu.regs.put_flag_h(false);
    cpu.regs.put_flag_c((a_val >> 7) == 1);

    Ok(BranchResult::NoBranch)
}

/// RLA: A shifted left with the carry flag entering bit 0; Z from the
/// result, N and H clear, C the bit shifted out.
pub open spec fn spec_rla_instr(c: CpuView) -> CpuView {
    let a = upper8(c.regs.af);
    let new_a = (a << 1) | (if flag_c(c.regs) {
        1u8
    } else {
        0u8
    });
    CpuView { regs: spec_rot_flags(spec_put_a(c.regs, new_a), new_a == 0, a >> 7 == 1), ..c }
}

pub fn rla_instr(cpu: &mut Cpu) -> (r: InstructionRetType)
    ensures
        final(cpu)@ == spec_rla_instr(old(cpu)@),
        r == Ok::<BranchResult, ()>(BranchResult::NoBranch),
{
    let a_val = cpu.regs.get_a();
    let old_c_flag = cpu.regs.get_flag_c();

    let new_a_val = (a_val << 1) | (if old_c_flag {
        1
    } else {
        0
    });

    cpu.regs.put_a(new_a_val);
    cpu.regs.put_flag_z(new_a_val == 0);
    cpu.regs.put_flag_n(false);
    cpu.regs.put_flag_h(false);
    cpu.regs.put_flag_c((a_val >> 7) == 1);

    Ok(BranchResult::NoBranch)
}

/// RRCA: A rotated right by one; Z from the result, N and H clear, C the
/// bit rotated out.
pub open spec fn spec_rrca_instr(c: CpuView) -> CpuView {
    let a = upper8(c.regs.af);
    let new_a = (a >> 1) | (a << 7);
    CpuView { regs: spec_rot_flags(spec_put_a(c.regs, new_a), new_a == 0, a & 1 == 1), ..c }
}

pub fn rrca_instr(cpu: &mut Cpu) -> (r: InstructionRetType)
    ensures
        final(cpu)@ == spec_rrca_instr(old(cpu)@),
        r == Ok::<BranchResult, ()>(BranchResult::NoBranch),
{
    let a_val = cpu.regs.get_a();
    let new_a_val = (a_val >> 1) | (a_val << 7);

    cpu.regs.put_a(new_a_val);
    cpu.regs.put_flag_z(new_a_val == 0);
    cpu.regs.put_flag_n(false);
    cpu.regs.put_flag_h(false);
    cpu.regs.put_flag_c((a_val & 1) == 1);

    Ok(BranchResult::NoBranch)
}

/// RRA-style rotate: A shifted right with the carry flag entering bit 7;
/// Z from the result, N and H clear, C the bit shifted out.
pub open spec fn spec_rrc_instr(c: CpuView) -> CpuView {
    let a = upper8(c.regs.af);
    let new_a = (a >> 1) | ((if flag_c(c.regs) {
        1u8
    } else {
        0u8
    }) << 7);
    CpuView { regs: spec_rot_flags(spec_put_a(c.regs, new_a), new_a == 0, a & 1 == 1), ..c }
}

pub fn rrc_instr(cpu: &mut Cpu) -> (r: InstructionRetType)
    ensures
        final(cpu)@ == spec_rrc_instr(old(cpu)@),
        r == Ok::<BranchResult, ()>(BranchResult::NoBranch),
{
    let a_val = cpu.regs.get_a();
    let old_c_flag = cpu.regs.get_flag_c();

    let new_a_val = (a_val >> 1) | ((if old_c_flag {
        1u8
    } else {
        0u8
    }) << 7);

    cpu.regs.put_a(new_a_val);
    cpu.regs.put_flag_z(new_a_val == 0);
    cpu.regs.put_flag_n(false);
    cpu.regs.put_flag_h(false);
    cpu.regs.put_flag_c((a_val & 1) == 1);

    Ok(BranchResult::NoBranch)
}

/// The register file after the CB-shift flag stores Z, N, H, C.
pub open spec fn spec_shift_flags(r: Registers, z: bool, cy: bool) -> Registers {
    spec_put_flag_c(spec_put_flag_h(spec_put_flag_n(spec_put_flag_z(r, z), false), false), cy)
}

/// RLC r: the operand rotated left by one; Z from the result, N and H
/// clear, C the bit rotated out.
pub open spec fn spec_rlc_instr(c: CpuView) -> CpuView {
    let opcode = spec_fetch(c);
    let old_val = spec_reg8(c, opcode % 8);
    let new_val = (old_val << 1) | (old_val >> 7);
    let regs = spec_shift_flags(c.regs, new_val == 0, old_val >> 7 == 1);
    spec_put_reg8(CpuView { regs, ..c }, opcode % 8, new_val)
}

pub fn rlc_instr(cpu: &mut Cpu) -> (r: InstructionRetType)
    requires
        old(cpu).wf(),
    ensures
        final(cpu).wf(),
        final(cpu)@ == spec_rlc_instr(old(cpu)@),
        r == Ok::<BranchResult, ()>(BranchResult::NoBranch),
{
    let opcode = cpu.get_opcode();
    let old_val = get_type_a_reg(cpu, opcode);

    let new_val = (old_val << 1) | (old_val >> 7);

    cpu.regs.put_flag_z(new_val == 0);
    cpu.regs.put_flag_n(false);
    cpu.regs.put_flag_h(false);
    cpu.regs.put_flag_c(old_val >> 7 == 1);
    put_type_a_reg(cpu, opcode, new_val);

    Ok(BranchResult::NoBranch)
}

/// A right rotation of the selected operand that computes its flags but,
/// as the engine has always done, never stores the rotated value; no
/// dispatch table entry reaches it.
pub open spec fn spec_rcc_instr(c: CpuView) -> CpuView {
    let opcode = spec_fetch(c);
    let old_val = spec_reg8(c, opcode % 8);
    let new_val = (old_val >> 1) | (old_val << 7);
    CpuView { regs: spec_shift_flags(c.regs, new_val == 0, old_val & 1 == 1), ..c }
}

pub fn rcc_instr(cpu: &mut Cpu) -> (r: InstructionRetType)
    requires
        old(cpu).wf(),
    ensures
        final(cpu).wf(),
        final(cpu)@ == spec_rcc_instr(old(cpu)@),
        r == Ok::<BranchResult, ()>(BranchResult::NoBranch),
{
    let opcode = cpu.get_opcode();
    let old_val = get_type_a_reg(cpu, opcode);

    let new_val = (old_val >> 1) | (old_val << 7);

    cpu.regs.put_flag_z(new_val == 0);
    cpu.regs.put_flag_n(false);
    cpu.regs.put_flag_h(false);
    cpu.regs.put_flag_c(old_val & 1 == 1);

    Ok(BranchResult::NoBranch)
}

/// RL r: the operand shifted left with the carry flag entering bit 0; Z
/// from the result, N and H clear, C the bit shifted out.
pub open spec fn spec_rl_instr(c: CpuView) -> CpuView {
    let opcode = spec_fetch(c);
    let old_val = spec_reg8(c, opcode % 8);
    let new_val = (old_val << 1) | (if flag_c(c.regs) {
        1u8
    } else {
        0u8
    });
    let regs = spec_shift_flags(c.regs, new_val == 0, old_val >> 7 == 1);
    spec_put_reg8(CpuView { regs, ..c }, opcode % 8, new_val)
}

pub fn rl_instr(cpu: &mut Cpu) -> (r: InstructionRetType)
    requires
        old(cpu).wf(),
    ensures
        final(cpu).wf(),
        final(cpu)@ == spec_rl_instr(old(cpu)@),
        r == Ok::<BranchResult, ()>(BranchResult::NoBranch),
{
    let opcode = cpu.get_opcode();
    let old_val = get_type_a_reg(cpu, opcode);

    let new_carry = (old_val >> 7) == 1;
    let new_val = (old_val << 1) | (if cpu.regs.get_flag_c() {
        1u8
    } else {
        0u8
    });

    cpu.regs.put_flag_z(new_val == 0);
    cpu.regs.put_flag_n(false);
    cpu.regs.put_flag_h(false);
    cpu.regs.put_flag_c(new_carry);
    put_type_a_reg(cpu, opcode, new_val);

    Ok(BranchResult::NoBranch)
}

/// RR r: the operand shifted right with the carry flag entering bit 7; Z
/// from the result, N and H clear, C the bit shifted out.
pub open spec fn spec_rr_instr(c: CpuView) -> CpuView {
    let opcode = spec_fetch(c);
    let old_val = spec_reg8(c, opcode % 8);
    let new_val = (old_val >> 1) | ((if flag_c(c.regs) {
        1u8
    } else {
        0u8
    }) << 7);
    let regs = spec_shift_flags(c.regs, new_val == 0, old_val & 1 == 1);
    spec_put_reg8(CpuView { regs, ..c }, opcode % 8, new_val)
}

pub fn rr_instr(cpu: &mut Cpu) -> (r: InstructionRetType)
    requires
        old(cpu).wf(),
    ensures
        final(cpu).wf(),
        final(cpu)@ == spec_rr_instr(old(cpu)@),
        r == Ok::<BranchResult, ()>(BranchResult::NoBranch),
{
    let opcode = cpu.get_opcode();
    let old_val = get_type_a_reg(cpu, opcode);

    let new_carry = old_val & 1 == 1;
    let new_val = (old_val >> 1) | ((if cpu.regs.get_flag_c() {
        1u8
    } else {
        0u8
    }) << 7);

    cpu.regs.put_flag_z(new_val == 0);
    cpu.regs.put_flag_n(false);
    cpu.regs.put_flag_h(false);
    cpu.regs.put_flag_c(new_carry);
    put_type_a_reg(cpu, opcode, new_val);

    Ok(BranchResult::NoBranch)
}

/// SLA r: the operand shifted left, bit 0 cleared; Z from the result, N
/// and H clear, C the bit shifted out.
pub open spec fn spec_sla_instr(c: CpuView) -> CpuView {
    let opcode = spec_fetch(c);
    let old_val = spec_reg8(c, opcode % 8);
    let new_val = old_val << 1;
    let regs = spec_shift_flags(c.regs, new_val == 0, old_val >> 7 != 0);
    spec_put_reg8(CpuView { regs, ..c }, opcode % 8, new_val)
}

pub fn sla_instr(cpu: &mut Cpu) -> (r: InstructionRetType)
    requires
        old(cpu).wf(),
    ensures
        final(cpu).wf(),
        final(cpu)@ == spec_sla_instr(old(cpu)@),
        r == Ok::<BranchResult, ()>(BranchResult::NoBranch),
{
    let opcode = cpu.get_opcode();
    let old_val = get_type_a_reg(cpu, opcode);

    let new_carry = (old_val >> 7) != 0;
    let new_val = old_val << 1;

    cpu.regs.put_flag_z(new_val == 0);
    cpu.regs.put_flag_n(false);
    cpu.regs.put_flag_h(false);
    cpu.regs.put_flag_c(new_carry);
    put_type_a_reg(cpu, opcode, new_val);

    Ok(BranchResult::NoBranch)
}

/// SRA r: the operand shifted right with bit 7 kept; Z from the result,
/// N and H clear, C the bit shifted out.
pub open spec fn spec_sra_instr(c: CpuView) -> CpuView {
    let opcode = spec_fetch(c);
    let old_val = spec_reg8(c, opcode % 8);
    let new_val = (old_val >> 1) | (old_val & 0x80);
    let regs = spec_shift_flags(c.regs, new_val == 0, old_val & 1 != 0);
    spec_put_reg8(CpuView { regs, ..c }, opcode % 8, new_val)
}

pub fn sra_instr(cpu: &mut Cpu) -> (r: InstructionRetType)
    requires
        old(cpu).wf(),
    ensures
        final(cpu).wf(),
        final(cpu)@ == spec_sra_instr(old(cpu)@),
        r == Ok::<BranchResult, ()>(BranchResult::NoBranch),
{
    let opcode = cpu.get_opcode();
    let old_val = get_type_a_reg(cpu, opcode);

    let new_carry = (old_val & 1) != 0;
    let new_val = (old_val >> 1) | (old_val & 0x80);

    cpu.regs.put_flag_z(new_val == 0);
    cpu.regs.put_flag_n(false);
    cpu.regs.put_flag_h(false);
    cpu.regs.put_flag_c(new_carry);
    put_type_a_reg(cpu, opcode, new_val);

    Ok(BranchResult::NoBranch)
}

/// SWAP r: the operand's nibbles exchanged; Z from the result, N, H and
/// C clear.
pub open spec fn spec_swap_instr(c: CpuView) -> CpuView {
    let opcode = spec_fetch(c);
    let old_val = spec_reg8(c, opcode % 8);
    let new_val = (old_val >> 4) | ((old_val & 0xf) << 4);
    let regs = spec_shift_flags(c.regs, new_val == 0, false);
    spec_put_reg8(CpuView { regs, ..c }, opcode % 8, new_val)
}

pub fn swap_instr(cpu: &mut Cpu) -> (r: InstructionRetType)
    requires
        old(cpu).wf(),
    ensures
        final(cpu).wf(),
        final(cpu)@ == spec_swap_instr(old(cpu)@),
        r == Ok::<BranchResult, ()>(BranchResult::NoBranch),
{
    let opcode = cpu.get_opcode();
    let old_val = get_type_a_reg(cpu, opcode);

    let old_upper_nibble = old_val >> 4;
    let old_lower_nibble = old_val & 0xf;
    let new_val = old_upper_nibble | (old_lower_nibble << 4);

    cpu.regs.put_flag_z(new_val == 0);
    cpu.regs.put_flag_n(false);
    cpu.regs.put_flag_h(false);
    cpu.regs.put_flag_c(false);
    put_type_a_reg(cpu, opcode, new_val);

    Ok(BranchResult::NoBranch)
}

/// SRL r: the operand shifted right, bit 7 cleared; Z from the result, N
/// and H clear, C the bit shifted out.
pub open spec fn spec_srl_instr(c: CpuView) -> CpuView {
    let opcode = spec_fetch(c);
    let old_val = spec_reg8(c, opcode % 8);
    let new_val = old_val >> 1;
    let regs = spec_shift_flags(c.regs, new_val == 0, old_val & 1 != 0);
    spec_put_reg8(CpuView { regs, ..c }, opcode % 8, new_val)
}

pub fn srl_instr(cpu: &mut Cpu) -> (r: InstructionRetType)
    requires
        old(cpu).wf(),
    ensures
        final(cpu).wf(),
        final(cpu)@ == spec_srl_instr(old(cpu)@),
        r == Ok::<BranchResult, ()>(BranchResult::NoBranch),
{
    let opcode = cpu.get_opcode();
    let old_val = get_type_a_reg(cpu, opcode);

    let new_carry = (old_val & 1) != 0;
    let new_val = old_val >> 1;

    cpu.regs.put_flag_z(new_val == 0);
    cpu.regs.put_flag_n(false);
    cpu.regs.put_flag_h(false);
    cpu.regs.put_flag_c(new_carry);
    put_type_a_reg(cpu, opcode, new_val);

    Ok(BranchResult::NoBranch)
}

/// BIT b,r: Z holds whether the tested bit is set, as the engine has
/// always reported it; N clear, H set, C and the operand untouched.
pub open spec fn spec_bit_test_instr(c: CpuView, bit: u8) -> CpuView {
    let opcode = spec_fetch(c);
    let test_val = spec_reg8(c, opcode % 8);
    let z = test_val & (1u8 << bit) != 0;
    CpuView {
        regs: spec_put_flag_h(spec_put_flag_n(spec_put_flag_z(c.regs, z), false), true),
        ..c
    }
}

pub fn bit_test_instr(cpu: &mut Cpu, bit: u8) -> (r: InstructionRetType)
    requires
        old(cpu).wf(),
        bit < 8,
    ensures
        final(cpu).wf(),
        final(cpu)@ == spec_bit_test_instr(old(cpu)@, bit),
        r == Ok::<BranchResult, ()>(BranchResult::NoBranch),
{
    let opcode = cpu.get_opcode();
    let test_val = get_type_a_reg(cpu, opcode);

    let test_bit_mask = 1u8 << bit;
    cpu.regs.put_flag_z((test_val & test_bit_mask) != 0);
    cpu.regs.put_flag_n(false);
    cpu.regs.put_flag_h(true);

    Ok(BranchResult::NoBranch)
}

/// RES b,r: the tested bit cleared in the operand; no flags.
pub open spec fn spec_res_bit_instr(c: CpuView, bit: u8) -> CpuView {
    let opcode = spec_fetch(c);
    let old_val = spec_reg8(c, opcode % 8);
    spec_put_reg8(c, opcode % 8, old_val & !(1u8 << bit))
}

pub fn res_bit_instr(cpu: &mut Cpu, bit: u8) -> (r: InstructionRetType)
    requires
        old(cpu).wf(),
        bit < 8,
    ensures
        final(cpu).wf(),
        final(cpu)@ == spec_res_bit_instr(old(cpu)@, bit),
        r == Ok::<BranchResult, ()>(BranchResult::NoBranch),
{
    let opcode = cpu.get_opcode();
    let old_val = get_type_a_reg(cpu, opcode);

    put_type_a_reg(cpu, opcode, old_val & !(1u8 << bit));

    Ok(BranchResult::NoBranch)
}

/// SET b,r: the tested bit set in the operand; no flags.
pub open spec fn spec_set_bit_instr(c: CpuView, bit: u8) -> CpuView {
    let opcode = spec_fetch(c);
    let old_val = spec_reg8(c, opcode % 8);
    spec_put_reg8(c, opcode % 8, old_val | (1u8 << bit))
}

pub fn set_bit_instr(cpu: &mut Cpu, bit: u8) -> (r: InstructionRetType)
    requires
        old(cpu).wf(),
        bit < 8,
    ensures
        final(cpu).wf(),
        final(cpu)@ == spec_set_bit_instr(old(cpu)@, bit),
        r == Ok::<BranchResult, ()>(BranchResult::NoBranch),
{
    let opcode = cpu.get_opcode();
    let old_val = get_type_a_reg(cpu, opcode);

    put_type_a_reg(cpu, opcode, old_val | (1u8 << bit));

    Ok(BranchResult::NoBranch)
}

pub open spec fn is_ld_u8_imm_opcode(opcode: u8) -> bool {
    opcode == 0x06 || opcode == 0x0e || opcode == 0x16 || opcode == 0x1e || opcode == 0x26
        || opcode == 0x2e || opcode == 0x36 || opcode == 0x3e
}

/// LD r,imm8: the next byte into the operand that opcode bits 5-3
/// select; the (HL) form stores through the bus.
pub open spec fn spec_ld_u8_imm_instr(c: CpuView) -> CpuView {
    let opcode = spec_fetch(c);
    let c1 = spec_incr_pc(c);
    let imm = spec_fetch(c1);
    spec_put_reg8(c1, ((opcode - 6) / 8) as u8, imm)
}

pub fn ld_u8_imm_instr(cpu: &mut Cpu) -> (r: InstructionRetType)
    requires
        old(cpu).wf(),
        is_ld_u8_imm_opcode(spec_fetch(old(cpu)@)),
    ensures
        final(cpu).wf(),
        final(cpu)@ == spec_ld_u8_imm_instr(old(cpu)@),
        r == Ok::<BranchResult, ()>(BranchResult::NoBranch),
{
    let opcode = cpu.get_opcode();
    cpu.incr_pc();
    let imm_val = cpu.get_opcode();
    match opcode {
        0x06 => cpu.regs.put_b(imm_val),
        0x0e => cpu.regs.put_c(imm_val),
        0x16 => cpu.regs.put_d(imm_val),
        0x1e => cpu.regs.put_e(imm_val),
        0x26 => cpu.regs.put_h(imm_val),
        0x2e => cpu.regs.put_l(imm_val),
        0x36 => {
            let reg_hl = cpu.regs.get_hl();
            cpu.write8(reg_hl, imm_val);
        },
        _ => cpu.regs.put_a(imm_val),
    }
    Ok(BranchResult::NoBranch)
}

pub open spec fn is_ld_u16_imm_opcode(opcode: u8) -> bool {
    opcode == 0x01 || opcode == 0x11 || opcode == 0x21 || opcode == 0x31
}

/// LD pair,imm16: the next two bytes, little-endian, into the pair that
/// opcode bits 5-4 select.
pub open spec fn spec_ld_u16_imm_instr(c: CpuView) -> CpuView {
    let opcode = spec_fetch(c);
    let c1 = spec_incr_pc(c);
    let lower = spec_fetch(c1);
    let c2 = spec_incr_pc(c1);
    let upper = spec_fetch(c2);
    spec_reg16_put(c2, opcode, word_of(lower, upper))
}

pub fn ld_u16_imm_instr(cpu: &mut Cpu) -> (r: InstructionRetType)
    requires
        old(cpu).wf(),
        is_ld_u16_imm_opcode(spec_fetch(old(cpu)@)),
    ensures
        final(cpu).wf(),
        final(cpu)@ == spec_ld_u16_imm_instr(old(cpu)@),
        r == Ok::<BranchResult, ()>(BranchResult::NoBranch),
{
    let opcode = cpu.get_opcode();

    cpu.incr_pc();
    let lower_imm_val = cpu.get_opcode() as u16;
    cpu.incr_pc();
    let upper_imm_val = cpu.get_opcode() as u16;
    let imm_val = (upper_imm_val << 8) | lower_imm_val;

    match opcode {
        0x01 => cpu.regs.put_bc(imm_val),
        0x11 => cpu.regs.put_de(imm_val),
        0x21 => cpu.regs.put_hl(imm_val),
        _ => cpu.regs.put_sp(imm_val),
    }
    Ok(BranchResult::NoBranch)
}

/// LD r,r within the block 0x40-0x7F: the operand that the low three
/// bits select, stored to the operand that bits 5-3 select.
pub open spec fn spec_ld_instr(c: CpuView) -> CpuView {
    let opcode = spec_fetch(c);
    let from_val = spec_reg8(c, opcode % 8);
    spec_put_reg8(c, ((opcode / 8) % 8) as u8, from_val)
}

pub fn ld_instr(cpu: &mut Cpu) -> (r: InstructionRetType)
    requires
        old(cpu).wf(),
    ensures
        final(cpu).wf(),
        final(cpu)@ == spec_ld_instr(old(cpu)@),
        r == Ok::<BranchResult, ()>(BranchResult::NoBranch),
{
    let opcode = cpu.get_opcode();
    let from_val = get_type_a_reg(cpu, opcode);
    match (opcode / 8) % 8 {
        0 => cpu.regs.put_b(from_val),
        1 => cpu.regs.put_c(from_val),
        2 => cpu.regs.put_d(from_val),
        3 => cpu.regs.put_e(from_val),
        4 => cpu.regs.put_h(from_val),
        5 => cpu.regs.put_l(from_val),
        6 => {
            let reg_hl = cpu.regs.get_hl();
            cpu.write8(reg_hl, from_val);
        },
        _ => cpu.regs.put_a(from_val),
    }
    Ok(BranchResult::NoBranch)
}

pub open spec fn is_ld_from_mem_opcode(opcode: u8) -> bool {
    opcode == 0x0a || opcode == 0x1a || opcode == 0x2a || opcode == 0x3a
}

/// The source address of the LD A,(pair) family, with HL post-increment
/// and post-decrement for 0x2A and 0x3A.
pub open spec fn spec_ld_mem_addr(c: CpuView, opcode: u8) -> (CpuView, u16) {
    if opcode == 0x0a || opcode == 0x02 {
        (c, c.regs.bc)
    } else if opcode == 0x1a || opcode == 0x12 {
        (c, c.regs.de)
    } else if opcode == 0x2a || opcode == 0x22 {
        (CpuView { regs: Registers { hl: c.regs.hl.wrapping_add(1), ..c.regs }, ..c }, c.regs.hl)
    } else {
        (CpuView { regs: Registers { hl: c.regs.hl.wrapping_sub(1), ..c.regs }, ..c }, c.regs.hl)
    }
}

/// LD A,(pair): the byte at the selected address into A.
pub open spec fn spec_ld_from_mem_instr(c: CpuView) -> CpuView {
    let opcode = spec_fetch(c);
    let t = spec_ld_mem_addr(c, opcode);
    let c1 = t.0;
    let from_val = spec_mem_read8(c1.mem, t.1);
    CpuView { regs: spec_put_a(c1.regs, from_val), ..c1 }
}

pub fn ld_from_mem_instr(cpu: &mut Cpu) -> (r: InstructionRetType)
    requires
        old(cpu).wf(),
        is_ld_from_mem_opcode(spec_fetch(old(cpu)@)),
    ensures
        final(cpu).wf(),
        final(cpu)@ == spec_ld_from_mem_instr(old(cpu)@),
        r == Ok::<BranchResult, ()>(BranchResult::NoBranch),
{
    let opcode = cpu.get_opcode();
    let from_addr = match opcode {
        0x0a => cpu.regs.get_bc(),
        0x1a => cpu.regs.get_de(),
        0x2a => {
            let val = cpu.regs.get_hl();
            cpu.regs.put_hl(val.wrapping_add(1));
            val
        },
        _ => {
            let val = cpu.regs.get_hl();
            cpu.regs.put_hl(val.wrapping_sub(1));
            val
        },
    };
    let from_val = cpu.read8(from_addr);
    cpu.regs.put_a(from_val);
    Ok(BranchResult::NoBranch)
}

pub open spec fn is_ld_to_mem_opcode(opcode: u8) -> bool {
    opcode == 0x02 || opcode == 0x12 || opcode == 0x22 || opcode == 0x32
}

/// LD (pair),A: A stored at the selected address.
pub open spec fn spec_ld_to_mem_instr(c: CpuView) -> CpuView {
    let opcode = spec_fetch(c);
    let t = spec_ld_mem_addr(c, opcode);
    let c1 = t.0;
    CpuView { mem: spec_mem_write8(c1.mem, t.1, upper8(c1.regs.af)), ..c1 }
}

pub fn ld_to_mem_instr(cpu: &mut Cpu) -> (r: InstructionRetType)
    requires
        old(cpu).wf(),
        is_ld_to_mem_opcode(spec_fetch(old(cpu)@)),
    ensures
        final(cpu).wf(),
        final(cpu)@ == spec_ld_to_mem_instr(old(cpu)@),
        r == Ok::<BranchResult, ()>(BranchResult::NoBranch),
{
    let opcode = cpu.get_opcode();
    let to_addr = match opcode {
        0x02 => cpu.regs.get_bc(),
        0x12 => cpu.regs.get_de(),
        0x22 => {
            let val = cpu.regs.get_hl();
            cpu.regs.put_hl(val.wrapping_add(1));
            val
        },
        _ => {
            let val = cpu.regs.get_hl();
            cpu.regs.put_hl(val.wrapping_sub(1));
            val
        },
    };
    let a_val = cpu.regs.get_a();
    cpu.write8(to_addr, a_val);
    Ok(BranchResult::NoBranch)
}

/// The immediate target address of LD (imm16),SP.
pub open spec fn spec_ld_sp_imm_addr(c: CpuView) -> u16 {
    word_of(spec_fetch(spec_incr_pc(c)), spec_fetch(spec_incr_pc(spec_incr_pc(c))))
}

/// LD (imm16),SP: SP stored little-endian at the immediate address.
pub open spec fn spec_ld_sp_to_imm_mem_instr(c: CpuView) -> CpuView {
    let c2 = spec_incr_pc(spec_incr_pc(c));
    let to_addr = spec_ld_sp_imm_addr(c);
    let sp = c2.regs.sp;
    CpuView {
        mem: spec_mem_write8(
            spec_mem_write8(c2.mem, (to_addr + 1) as u16, (sp >> 8) as u8),
            to_addr,
            (sp & 0xff) as u8,
        ),
        ..c2
    }
}

pub fn ld_sp_to_imm_mem_instr(cpu: &mut Cpu) -> (r: InstructionRetType)
    requires
        old(cpu).wf(),
        spec_ld_sp_imm_addr(old(cpu)@) < 0xffff,
    ensures
        final(cpu).wf(),
        final(cpu)@ == spec_ld_sp_to_imm_mem_instr(old(cpu)@),
        r == Ok::<BranchResult, ()>(BranchResult::NoBranch),
{
    cpu.incr_pc();
    let to_addr_lower = cpu.get_opcode() as u16;
    cpu.incr_pc();
    let to_addr_upper = cpu.get_opcode() as u16;

    let to_addr = (to_addr_upper << 8) | to_addr_lower;
    let value = cpu.regs.get_sp();
    cpu.write16(to_addr, value);
    Ok(BranchResult::NoBranch)
}

pub open spec fn is_ld_specialized_opcode(opcode: u8) -> bool {
    opcode % 16 == 0 || opcode % 16 == 2 || opcode % 16 == 0xa
}

/// The target address of the 0xE0/0xF0 block: the high page displaced by
/// an immediate, the high page displaced by C, or a full immediate
/// address.
pub open spec fn spec_ld_specialized_mem_addr(c: CpuView, opcode: u8) -> (CpuView, u16) {
    if opcode % 16 == 0 {
        let c1 = spec_incr_pc(c);
        (c1, (0xff00u16 | (spec_fetch(c1) as u16)) as u16)
    } else if opcode % 16 == 2 {
        (c, (0xff00u16 | (lower8(c.regs.bc) as u16)) as u16)
    } else {
        let c1 = spec_incr_pc(c);
        let lower = spec_fetch(c1);
        let c2 = spec_incr_pc(c1);
        (c2, word_of(lower, spec_fetch(c2)))
    }
}

fn ld_specialized_mem_addr(cpu: &mut Cpu, opcode: u8) -> (r: u16)
    requires
        old(cpu).wf(),
        is_ld_specialized_opcode(opcode),
    ensures
        final(cpu).wf(),
        final(cpu)@ == spec_ld_specialized_mem_addr(old(cpu)@, opcode).0,
        r == spec_ld_specialized_mem_addr(old(cpu)@, opcode).1,
{
    match opcode % 16 {
        0x0 => {
            cpu.incr_pc();
            let imm_val = cpu.get_opcode() as u16;
            0xff00 | imm_val
        },
        0x2 => 0xff00 | (cpu.regs.get_c() as u16),
        _ => {
            cpu.incr_pc();
            let addr_lower = cpu.get_opcode() as u16;
            cpu.incr_pc();
            let addr_upper = cpu.get_opcode() as u16;
            (addr_upper << 8) | addr_lower
        },
    }
}

/// LD A,(0xFF00+imm8 | 0xFF00+C | imm16): the byte at the specialized
/// address into A.
pub open spec fn spec_ld_from_mem_to_a_instr(c: CpuView) -> CpuView {
    let opcode = spec_fetch(c);
    let t = spec_ld_specialized_mem_addr(c, opcode);
    let c1 = t.0;
    CpuView { regs: spec_put_a(c1.regs, spec_mem_read8(c1.mem, t.1)), ..c1 }
}

pub fn ld_from_mem_to_a_instr(cpu: &mut Cpu) -> (r: InstructionRetType)
    requires
        old(cpu).wf(),
        is_ld_specialized_opcode(spec_fetch(old(cpu)@)),
    ensures
        final(cpu).wf(),
        final(cpu)@ == spec_ld_from_mem_to_a_instr(old(cpu)@),
        r == Ok::<BranchResult, ()>(BranchResult::NoBranch),
{
    let opcode = cpu.get_opcode();

    let mem_addr = ld_specialized_mem_addr(cpu, opcode);
    let mem_val = cpu.read8(mem_addr);
    cpu.regs.put_a(mem_val);
    Ok(BranchResult::NoBranch)
}

/// LD (0xFF00+imm8 | 0xFF00+C | imm16),A: A stored at the specialized
/// address.
pub open spec fn spec_ld_from_a_to_mem_instr(c: CpuView) -> CpuView {
    let opcode = spec_fetch(c);
    let t = spec_ld_specialized_mem_addr(c, opcode);
    let c1 = t.0;
    CpuView { mem: spec_mem_write8(c1.mem, t.1, upper8(c1.regs.af)), ..c1 }
}

pub fn ld_from_a_to_mem_instr(cpu: &mut Cpu) -> (r: InstructionRetType)
    requires
        old(cpu).wf(),
        is_ld_specialized_opcode(spec_fetch(old(cpu)@)),
    ensures
        final(cpu).wf(),
        final(cpu)@ == spec_ld_from_a_to_mem_instr(old(cpu)@),
        r == Ok::<BranchResult, ()>(BranchResult::NoBranch),
{
    let opcode = cpu.get_opcode();

    let mem_addr = ld_specialized_mem_addr(cpu, opcode);
    let a_val = cpu.regs.get_a();
    cpu.write8(mem_addr, a_val);
    Ok(BranchResult::NoBranch)
}

/// LD SP,HL.
pub open spec fn spec_ld_hl_to_sp_instr(c: CpuView) -> CpuView {
    CpuView { regs: Registers { sp: c.regs.hl, ..c.regs }, ..c }
}

pub fn ld_hl_to_sp_instr(cpu: &mut Cpu) -> (r: InstructionRetType)
    ensures
        final(cpu)@ == spec_ld_hl_to_sp_instr(old(cpu)@),
        r == Ok::<BranchResult, ()>(BranchResult::NoBranch),
{
    let hl_val = cpu.regs.get_hl();
    cpu.regs.put_sp(hl_val);
    Ok(BranchResult::NoBranch)
}

/// LD HL,SP+imm8: SP displaced by the signed immediate into HL; no
/// flags, as the engine has always left them.
pub open spec fn spec_ld_sp_plus_signed_imm_to_hl_instr(c: CpuView) -> CpuView {
    let sp_val = c.regs.sp;
    let c1 = spec_incr_pc(c);
    let imm = spec_fetch(c1) as i8;
    CpuView { regs: Registers { hl: spec_u16_plus_i8(sp_val, imm), ..c1.regs }, ..c1 }
}

pub fn ld_sp_plus_signed_imm_to_hl_instr(cpu: &mut Cpu) -> (r: InstructionRetType)
    requires
        old(cpu).wf(),
    ensures
        final(cpu).wf(),
        final(cpu)@ == spec_ld_sp_plus_signed_imm_to_hl_instr(old(cpu)@),
        r == Ok::<BranchResult, ()>(BranchResult::NoBranch),
{
    let sp_val = cpu.regs.get_sp();
    cpu.incr_pc();
    let signed_imm = cpu.get_opcode() as i8;
    let new_sp_val = u16_plus_i8(sp_val, signed_imm);
    cpu.regs.put_hl(new_sp_val);
    Ok(BranchResult::NoBranch)
}

pub open spec fn is_jr_opcode(opcode: u8) -> bool {
    opcode == 0x18 || opcode == 0x20 || opcode == 0x28 || opcode == 0x30 || opcode == 0x38
}

/// The branch predicate of the relative-jump family: always, Z clear, Z
/// set, C clear, C set.
pub open spec fn spec_jr_cond(c: CpuView, opcode: u8) -> bool {
    if opcode == 0x18 {
        true
    } else if opcode == 0x20 {
        !flag_z(c.regs)
    } else if opcode == 0x28 {
        flag_z(c.regs)
    } else if opcode == 0x30 {
        !flag_c(c.regs)
    } else {
        flag_c(c.regs)
    }
}

/// JR cond,imm8: when the condition holds, the signed immediate is added
/// to the address of the following instruction.
pub open spec fn spec_jr_imm8_instr(c: CpuView) -> (CpuView, InstructionRetType) {
    let opcode = spec_fetch(c);
    let should_jump = spec_jr_cond(c, opcode);
    let c1 = spec_incr_pc(c);
    let imm = spec_fetch(c1) as i8;
    if !should_jump {
        (c1, Ok(BranchResult::BranchNotTaken))
    } else {
        (
            spec_jump(c1, spec_u16_plus_i8(c.regs.pc.wrapping_add(2), imm)),
            Ok(BranchResult::BranchTaken),
        )
    }
}

pub fn jr_imm8_instr(cpu: &mut Cpu) -> (r: InstructionRetType)
    requires
        old(cpu).wf(),
        is_jr_opcode(spec_fetch(old(cpu)@)),
    ensures
        final(cpu).wf(),
        final(cpu)@ == spec_jr_imm8_instr(old(cpu)@).0,
        r == spec_jr_imm8_instr(old(cpu)@).1,
{
    let opcode = cpu.get_opcode();
    let orig_pc = cpu.regs.get_pc();

    let should_jump = match opcode {
        0x18 => true,
        0x20 => !cpu.regs.get_flag_z(),
        0x28 => cpu.regs.get_flag_z(),
        0x30 => !cpu.regs.get_flag_c(),
        _ => cpu.regs.get_flag_c(),
    };

    cpu.incr_pc();
    let imm_val = cpu.get_opcode() as i8;

    if !should_jump {
        return Ok(BranchResult::BranchNotTaken);
    }
    let new_pc = u16_plus_i8(orig_pc.wrapping_add(2), imm_val);
    cpu.jump(new_pc);
    Ok(BranchResult::BranchTaken)
}

pub open spec fn is_jp_opcode(opcode: u8) -> bool {
    opcode == 0xc3 || opcode == 0xc2 || opcode == 0xca || opcode == 0xd2 || opcode == 0xda
}

/// The branch predicate of the absolute-jump family.
pub open spec fn spec_jp_cond(c: CpuView, opcode: u8) -> bool {
    if opcode == 0xc3 {
        true
    } else if opcode == 0xc2 {
        !flag_z(c.regs)
    } else if opcode == 0xca {
        flag_z(c.regs)
    } else if opcode == 0xd2 {
        !flag_c(c.regs)
    } else {
        flag_c(c.regs)
    }
}

/// JP cond,imm16: the two immediate bytes are always consumed; when the
/// condition holds the little-endian immediate becomes the target.
pub open spec fn spec_jp_imm16_instr(c: CpuView) -> (CpuView, InstructionRetType) {
    let opcode = spec_fetch(c);
    let should_jump = spec_jp_cond(c, opcode);
    let c1 = spec_incr_pc(c);
    let lower = spec_fetch(c1);
    let c2 = spec_incr_pc(c1);
    let upper = spec_fetch(c2);
    if !should_jump {
        (c2, Ok(BranchResult::BranchNotTaken))
    } else {
        (spec_jump(c2, word_of(lower, upper)), Ok(BranchResult::BranchTaken))
    }
}

pub fn jp_imm16_instr(cpu: &mut Cpu) -> (r: InstructionRetType)
    requires
        old(cpu).wf(),
        is_jp_opcode(spec_fetch(old(cpu)@)),
    ensures
        final(cpu).wf(),
        final(cpu)@ == spec_jp_imm16_instr(old(cpu)@).0,
        r == spec_jp_imm16_instr(old(cpu)@).1,
{
    let opcode = cpu.get_opcode();

    let should_jump = match opcode {
        0xc3 => true,
        0xc2 => !cpu.regs.get_flag_z(),
        0xca => cpu.regs.get_flag_z(),
        0xd2 => !cpu.regs.get_flag_c(),
        _ => cpu.regs.get_flag_c(),
    };

    cpu.incr_pc();
    let lower_imm_val = cpu.get_opcode() as u16;
    cpu.incr_pc();
    let upper_imm_val = cpu.get_opcode() as u16;

    if !should_jump {
        return Ok(BranchResult::BranchNotTaken);
    }
    let new_pc = (upper_imm_val << 8) | lower_imm_val;
    cpu.jump(new_pc);
    Ok(BranchResult::BranchTaken)
}

/// JP (HL): the word read at HL becomes the target; the engine has
/// always reported this one as no branch taken.
pub open spec fn spec_jp_hl_instr(c: CpuView) -> (CpuView, InstructionRetType) {
    let addr = c.regs.hl;
    let jump_addr = word_of(
        spec_mem_read8(c.mem, addr),
        spec_mem_read8(c.mem, (addr + 1) as u16),
    );
    (spec_jump(c, jump_addr), Ok(BranchResult::BranchNotTaken))
}

pub fn jp_hl_instr(cpu: &mut Cpu) -> (r: InstructionRetType)
    requires
        old(cpu).wf(),
        old(cpu)@.regs.hl < 0xffff,
    ensures
        final(cpu).wf(),
        final(cpu)@ == spec_jp_hl_instr(old(cpu)@).0,
        r == spec_jp_hl_instr(old(cpu)@).1,
{
    let addr = cpu.regs.get_hl();
    let jump_addr = cpu.read16(addr);

    cpu.jump(jump_addr);
    Ok(BranchResult::BranchNotTaken)
}

pub open spec fn is_restart_opcode(opcode: u8) -> bool {
    opcode == 0xc7 || opcode == 0xcf || opcode == 0xd7 || opcode == 0xdf || opcode == 0xe7
        || opcode == 0xef || opcode == 0xf7 || opcode == 0xff
}

/// The fixed low-memory vector of a restart opcode.
pub open spec fn spec_restart_addr(opcode: u8) -> u16 {
    ((opcode - 0xc7) / 8 * 8) as u16
}

/// RST: a jump to one of the eight fixed low-memory vectors.
pub open spec fn spec_restart_instr(c: CpuView) -> CpuView {
    spec_jump(c, spec_restart_addr(spec_fetch(c)))
}

pub fn restart_instr(cpu: &mut Cpu) -> (r: InstructionRetType)
    requires
        old(cpu).wf(),
        is_restart_opcode(spec_fetch(old(cpu)@)),
    ensures
        final(cpu).wf(),
        final(cpu)@ == spec_restart_instr(old(cpu)@),
        r == Ok::<BranchResult, ()>(BranchResult::NoBranch),
{
    let opcode = cpu.get_opcode();

    let restart_addr: u16 = match opcode {
        0xc7 => 0x00,
        0xcf => 0x08,
        0xd7 => 0x10,
        0xdf => 0x18,
        0xe7 => 0x20,
        0xef => 0x28,
        0xf7 => 0x30,
        _ => 0x38,
    };

    cpu.jump(restart_addr);
    Ok(BranchResult::NoBranch)
}

pub open spec fn is_call_opcode(opcode: u8) -> bool {
    opcode == 0xc4 || opcode == 0xcc || opcode == 0xcd || opcode == 0xd4 || opcode == 0xdc
}

/// The branch predicate of the call family.
pub open spec fn spec_call_cond(c: CpuView, opcode: u8) -> bool {
    if opcode == 0xc4 {
        !flag_z(c.regs)
    } else if opcode == 0xcc {
        flag_z(c.regs)
    } else if opcode == 0xcd {
        true
    } else if opcode == 0xd4 {
        !flag_c(c.regs)
    } else {
        flag_c(c.regs)
    }
}

/// CALL cond,imm16: when the condition holds, the address of the next
/// instruction is pushed and the immediate becomes the target; when it
/// does not, the two immediate bytes are still consumed, so the next
/// fetch lands past the full three-byte instruction.
pub open spec fn spec_call_instr(c: CpuView) -> (CpuView, InstructionRetType) {
    let opcode = spec_fetch(c);
    if !spec_call_cond(c, opcode) {
        (spec_incr_pc(spec_incr_pc(c)), Ok(BranchResult::BranchNotTaken))
    } else {
        let pc = c.regs.pc;
        let imm_at = pc.wrapping_add(1);
        let jump_addr = word_of(
            spec_mem_read8(c.mem, imm_at),
            spec_mem_read8(c.mem, (imm_at + 1) as u16),
        );
        let c1 = spec_push_u16(c, pc.wrapping_add(3));
        (spec_jump(c1, jump_addr), Ok(BranchResult::BranchTaken))
    }
}

pub fn call_instr(cpu: &mut Cpu) -> (r: InstructionRetType)
    requires
        old(cpu).wf(),
        is_call_opcode(spec_fetch(old(cpu)@)),
        spec_call_cond(old(cpu)@, spec_fetch(old(cpu)@)) ==> old(cpu)@.regs.pc.wrapping_add(1)
            < 0xffff && old(cpu)@.regs.sp < 0xffff,
    ensures
        final(cpu).wf(),
        final(cpu)@ == spec_call_instr(old(cpu)@).0,
        r == spec_call_instr(old(cpu)@).1,
{
    let opcode = cpu.get_opcode();

    let should_call = match opcode {
        0xc4 => !cpu.regs.get_flag_z(),
        0xcc => cpu.regs.get_flag_z(),
        0xcd => true,
        0xd4 => !cpu.regs.get_flag_c(),
        _ => cpu.regs.get_flag_c(),
    };

    if !should_call {
        cpu.incr_pc();
        cpu.incr_pc();
        return Ok(BranchResult::BranchNotTaken);
    }
    let pc = cpu.regs.get_pc();
    let jump_addr = cpu.read16(pc.wrapping_add(1));

    cpu.push_u16(pc.wrapping_add(3));

    cpu.jump(jump_addr);

    Ok(BranchResult::BranchTaken)
}

pub open spec fn is_ret_opcode(opcode: u8) -> bool {
    opcode == 0xc0 || opcode == 0xc8 || opcode == 0xc9 || opcode == 0xd0 || opcode == 0xd8
        || opcode == 0xd9
}

/// The branch predicate of the return family; 0xD9 is the
/// interrupt-return form, taken unconditionally.
pub open spec fn spec_ret_cond(c: CpuView, opcode: u8) -> bool {
    if opcode == 0xc0 {
        !flag_z(c.regs)
    } else if opcode == 0xc8 {
        flag_z(c.regs)
    } else if opcode == 0xc9 {
        true
    } else if opcode == 0xd0 {
        !flag_c(c.regs)
    } else if opcode == 0xd8 {
        flag_c(c.regs)
    } else {
        true
    }
}

/// RET cond: when the condition holds, the return address is popped and
/// becomes the target.
pub open spec fn spec_ret_instr(c: CpuView) -> (CpuView, InstructionRetType) {
    let opcode = spec_fetch(c);
    if !spec_ret_cond(c, opcode) {
        (c, Ok(BranchResult::BranchNotTaken))
    } else {
        let t = spec_pop_u16(c);
        (spec_jump(t.0, t.1), Ok(BranchResult::BranchTaken))
    }
}

pub fn ret_instr(cpu: &mut Cpu) -> (r: InstructionRetType)
    requires
        old(cpu).wf(),
        is_ret_opcode(spec_fetch(old(cpu)@)),
        spec_ret_cond(old(cpu)@, spec_fetch(old(cpu)@)) ==> old(cpu)@.regs.sp.wrapping_add(2)
            < 0xffff,
    ensures
        final(cpu).wf(),
        final(cpu)@ == spec_ret_instr(old(cpu)@).0,
        r == spec_ret_instr(old(cpu)@).1,
{
    let opcode = cpu.get_opcode();

    let should_return = match opcode {
        0xc0 => !cpu.regs.get_flag_z(),
        0xc8 => cpu.regs.get_flag_z(),
        0xc9 => true,
        0xd0 => !cpu.regs.get_flag_c(),
        0xd8 => cpu.regs.get_flag_c(),
        _ => true,
    };

    if !should_return {
        return Ok(BranchResult::BranchNotTaken);
    }
    let ret_addr = cpu.pop_u16();

    cpu.jump(ret_addr);

    Ok(BranchResult::BranchTaken)
}

pub open spec fn is_push_opcode(opcode: u8) -> bool {
    opcode == 0xc5 || opcode == 0xd5 || opcode == 0xe5 || opcode == 0xf5
}

/// The pair the push/pop families move, by opcode bits 5-4: BC, DE, HL,
/// AF.
pub open spec fn spec_push_arg(c: CpuView, opcode: u8) -> u16 {
    if opcode == 0xc5 {
        c.regs.bc
    } else if opcode == 0xd5 {
        c.regs.de
    } else if opcode == 0xe5 {
        c.regs.hl
    } else {
        c.regs.af
    }
}

/// PUSH pair.
pub open spec fn spec_push_instr(c: CpuView) -> CpuView {
    spec_push_u16(c, spec_push_arg(c, spec_fetch(c)))
}

pub fn push_instr(cpu: &mut Cpu) -> (r: InstructionRetType)
    requires
        old(cpu).wf(),
        is_push_opcode(spec_fetch(old(cpu)@)),
        old(cpu)@.regs.sp < 0xffff,
    ensures
        final(cpu).wf(),
        final(cpu)@ == spec_push_instr(old(cpu)@),
        r == Ok::<BranchResult, ()>(BranchResult::NoBranch),
{
    let opcode = cpu.get_opcode();

    let val = match opcode {
        0xc5 => cpu.regs.get_bc(),
        0xd5 => cpu.regs.get_de(),
        0xe5 => cpu.regs.get_hl(),
        _ => cpu.regs.get_af(),
    };

    cpu.push_u16(val);

    Ok(BranchResult::NoBranch)
}

pub open spec fn is_pop_opcode(opcode: u8) -> bool {
    opcode == 0xc1 || opcode == 0xd1 || opcode == 0xe1 || opcode == 0xf1
}

/// POP pair.
pub open spec fn spec_pop_instr(c: CpuView) -> CpuView {
    let opcode = spec_fetch(c);
    let t = spec_pop_u16(c);
    let c1 = t.0;
    let val = t.1;
    if opcode == 0xc1 {
        CpuView { regs: Registers { bc: val, ..c1.regs }, ..c1 }
    } else if opcode == 0xd1 {
        CpuView { regs: Registers { de: val, ..c1.regs }, ..c1 }
    } else if opcode == 0xe1 {
        CpuView { regs: Registers { hl: val, ..c1.regs }, ..c1 }
    } else {
        CpuView { regs: Registers { af: val, ..c1.regs }, ..c1 }
    }
}

pub fn pop_instr(cpu: &mut Cpu) -> (r: InstructionRetType)
    requires
        old(cpu).wf(),
        is_pop_opcode(spec_fetch(old(cpu)@)),
        old(cpu)@.regs.sp.wrapping_add(2) < 0xffff,
    ensures
        final(cpu).wf(),
        final(cpu)@ == spec_pop_instr(old(cpu)@),
        r == Ok::<BranchResult, ()>(BranchResult::NoBranch),
{
    let opcode = cpu.get_opcode();

    let val = cpu.pop_u16();

    match opcode {
        0xc1 => cpu.regs.put_bc(val),
        0xd1 => cpu.regs.put_de(val),
        0xe1 => cpu.regs.put_hl(val),
        _ => cpu.regs.put_af(val),
    }

    Ok(BranchResult::NoBranch)
}

/// The accumulator and carry after the standard SM83 decimal adjustment:
/// after an addition, 0x60 and 0x06 corrections when the carries or
/// ranges ask for them; after a subtraction, corrections only when the
/// carries do.
pub open spec fn spec_daa_adjust(c: CpuView) -> (u8, bool) {
    let a = upper8(c.regs.af);
    if !flag_n(c.regs) {
        let carry = flag_c(c.regs) || a > 0x99;
        let a1 = if carry {
            a.wrapping_add(0x60)
        } else {
            a
        };
        let a2 = if flag_h(c.regs) || a1 % 16 > 9 {
            a1.wrapping_add(6)
        } else {
            a1
        };
        (a2, carry)
    } else {
        let a1 = if flag_c(c.regs) {
            a.wrapping_sub(0x60)
        } else {
            a
        };
        let a2 = if flag_h(c.regs) {
            a1.wrapping_sub(6)
        } else {
            a1
        };
        (a2, flag_c(c.regs))
    }
}

/// DAA: the binary-coded-decimal correction of A; Z from the result, H
/// cleared, C set when the high correction was applied, N untouched.
pub open spec fn spec_daa_instr(c: CpuView) -> CpuView {
    let t = spec_daa_adjust(c);
    let res = t.0;
    let regs = spec_put_flag_c(
        spec_put_flag_h(spec_put_flag_z(spec_put_a(c.regs, res), res == 0), false),
        t.1,
    );
    CpuView { regs, ..c }
}

#[verifier::rlimit(60)]
pub fn daa_instr(cpu: &mut Cpu) -> (r: InstructionRetType)
    ensures
        final(cpu)@ == spec_daa_instr(old(cpu)@),
        r == Ok::<BranchResult, ()>(BranchResult::NoBranch),
{
    let a_val = cpu.regs.get_a();
    let n_flag = cpu.regs.get_flag_n();
    let h_flag = cpu.regs.get_flag_h();
    let c_flag = cpu.regs.get_flag_c();

    let mut new_a_val = a_val;
    let mut new_c_flag = c_flag;
    if !n_flag {
        if c_flag || a_val > 0x99 {
            new_a_val = new_a_val.wrapping_add(0x60);
            new_c_flag = true;
        }
        if h_flag || new_a_val % 16 > 9 {
            new_a_val = new_a_val.wrapping_add(0x6);
        }
    } else {
        if c_flag {
            new_a_val = new_a_val.wrapping_sub(0x60);
        }
        if h_flag {
            new_a_val = new_a_val.wrapping_sub(0x6);
        }
    }

    cpu.regs.put_a(new_a_val);
    cpu.regs.put_flag_z(new_a_val == 0);
    cpu.regs.put_flag_h(false);
    cpu.regs.put_flag_c(new_c_flag);
    Ok(BranchResult::NoBranch)
}

/// CPL: A complemented; N and H set.
pub open spec fn spec_cpl_instr(c: CpuView) -> CpuView {
    let regs = spec_put_flag_h(
        spec_put_flag_n(spec_put_a(c.regs, !upper8(c.regs.af)), true),
        true,
    );
    CpuView { regs, ..c }
}

pub fn cpl_instr(cpu: &mut Cpu) -> (r: InstructionRetType)
    ensures
        final(cpu)@ == spec_cpl_instr(old(cpu)@),
        r == Ok::<BranchResult, ()>(BranchResult::NoBranch),
{
    let a_val = cpu.regs.get_a();
    let new_a_val = !a_val;

    cpu.regs.put_a(new_a_val);
    cpu.regs.put_flag_n(true);
    cpu.regs.put_flag_h(true);

    Ok(BranchResult::NoBranch)
}

/// SCF: the carry flag set; N and H cleared.
pub open spec fn spec_scf_instr(c: CpuView) -> CpuView {
    CpuView {
        regs: spec_put_flag_c(spec_put_flag_h(spec_put_flag_n(c.regs, false), false), true),
        ..c
    }
}

pub fn scf_instr(cpu: &mut Cpu) -> (r: InstructionRetType)
    ensures
        final(cpu)@ == spec_scf_instr(old(cpu)@),
        r == Ok::<BranchResult, ()>(BranchResult::NoBranch),
{
    cpu.regs.put_flag_n(false);
    cpu.regs.put_flag_h(false);
    cpu.regs.put_flag_c(true);

    Ok(BranchResult::NoBranch)
}

/// CCF: the carry flag complemented; N and H cleared.
pub open spec fn spec_ccf_instr(c: CpuView) -> CpuView {
    CpuView {
        regs: spec_put_flag_h(
            spec_put_flag_n(spec_put_flag_c(c.regs, !flag_c(c.regs)), false),
            false,
        ),
        ..c
    }
}

pub fn ccf_instr(cpu: &mut Cpu) -> (r: InstructionRetType)
    ensures
        final(cpu)@ == spec_ccf_instr(old(cpu)@),
        r == Ok::<BranchResult, ()>(BranchResult::NoBranch),
{
    let old_c_flag = cpu.regs.get_flag_c();

    cpu.regs.put_flag_c(!old_c_flag);
    cpu.regs.put_flag_n(false);
    cpu.regs.put_flag_h(false);

    Ok(BranchResult::NoBranch)
}

/// The state change and result of one CB-prefixed operation.
pub open spec fn spec_cb_dispatch(c: CpuView, oper: Operation) -> (CpuView, InstructionRetType) {
    match oper {
        Operation::Rlc => (spec_rlc_instr(c), Ok(BranchResult::NoBranch)),
        Operation::Rrc => (spec_rrc_instr(c), Ok(BranchResult::NoBranch)),
        Operation::Rl => (spec_rl_instr(c), Ok(BranchResult::NoBranch)),
        Operation::Rr => (spec_rr_instr(c), Ok(BranchResult::NoBranch)),
        Operation::Sla => (spec_sla_instr(c), Ok(BranchResult::NoBranch)),
        Operation::Sra => (spec_sra_instr(c), Ok(BranchResult::NoBranch)),
        Operation::Swap => (spec_swap_instr(c), Ok(BranchResult::NoBranch)),
        Operation::Srl => (spec_srl_instr(c), Ok(BranchResult::NoBranch)),
        Operation::TestBit(bit) => (spec_bit_test_instr(c, bit), Ok(BranchResult::NoBranch)),
        Operation::ResBit(bit) => (spec_res_bit_instr(c, bit), Ok(BranchResult::NoBranch)),
        Operation::SetBit(bit) => (spec_set_bit_instr(c, bit), Ok(BranchResult::NoBranch)),
        _ => (c, Err(())),
    }
}

/// The CB prefix: the counter advances past the prefix, the next byte is
/// fetched and dispatched through the extension table.
pub open spec fn spec_cb_instr(c: CpuView) -> (CpuView, InstructionRetType) {
    let c1 = spec_incr_pc(c);
    spec_cb_dispatch(c1, spec_cb_op(spec_fetch(c1)))
}

pub fn cb_instr(cpu: &mut Cpu) -> (r: InstructionRetType)
    requires
        old(cpu).wf(),
    ensures
        final(cpu).wf(),
        final(cpu)@ == spec_cb_instr(old(cpu)@).0,
        r == spec_cb_instr(old(cpu)@).1,
{
    cpu.incr_pc();
    let entry = cb_instr_entry(cpu.get_opcode());
    match entry.op {
        Operation::Rlc => rlc_instr(cpu),
        Operation::Rrc => rrc_instr(cpu),
        Operation::Rl => rl_instr(cpu),
        Operation::Rr => rr_instr(cpu),
        Operation::Sla => sla_instr(cpu),
        Operation::Sra => sra_instr(cpu),
        Operation::Swap => swap_instr(cpu),
        Operation::Srl => srl_instr(cpu),
        Operation::TestBit(bit) => bit_test_instr(cpu, bit),
        Operation::ResBit(bit) => res_bit_instr(cpu, bit),
        Operation::SetBit(bit) => set_bit_instr(cpu, bit),
        _ => undef_instr(cpu),
    }
}

/// The state change and result of one primary-table operation, before
/// the engine's unconditional program-counter increment.
pub open spec fn spec_dispatch(c: CpuView, oper: Operation) -> (CpuView, InstructionRetType) {
    match oper {
        Operation::Noop => (c, Ok(BranchResult::NoBranch)),
        Operation::Stop => (c, Err(())),
        Operation::Halt => (c, Err(())),
        Operation::Ei => (CpuView { master_interrupt: true, ..c }, Ok(BranchResult::NoBranch)),
        Operation::Di => (CpuView { master_interrupt: false, ..c }, Ok(BranchResult::NoBranch)),
        Operation::Undef => (c, Err(())),
        Operation::Ld => (spec_ld_instr(c), Ok(BranchResult::NoBranch)),
        Operation::LdU8Imm => (spec_ld_u8_imm_instr(c), Ok(BranchResult::NoBranch)),
        Operation::LdU16Imm => (spec_ld_u16_imm_instr(c), Ok(BranchResult::NoBranch)),
        Operation::LdToMem => (spec_ld_to_mem_instr(c), Ok(BranchResult::NoBranch)),
        Operation::LdFromMem => (spec_ld_from_mem_instr(c), Ok(BranchResult::NoBranch)),
        Operation::LdSpToImmMem => (spec_ld_sp_to_imm_mem_instr(c), Ok(BranchResult::NoBranch)),
        Operation::LdFromMemToA => (spec_ld_from_mem_to_a_instr(c), Ok(BranchResult::NoBranch)),
        Operation::LdFromAToMem => (spec_ld_from_a_to_mem_instr(c), Ok(BranchResult::NoBranch)),
        Operation::LdHlToSp => (spec_ld_hl_to_sp_instr(c), Ok(BranchResult::NoBranch)),
        Operation::LdSpPlusSignedImmToHl => (
            spec_ld_sp_plus_signed_imm_to_hl_instr(c),
            Ok(BranchResult::NoBranch),
        ),
        Operation::IncU8 => (spec_inc_u8_instr(c), Ok(BranchResult::NoBranch)),
        Operation::DecU8 => (spec_dec_u8_instr(c), Ok(BranchResult::NoBranch)),
        Operation::IncU16 => (spec_inc_u16_instr(c), Ok(BranchResult::NoBranch)),
        Operation::DecU16 => (spec_dec_u16_instr(c), Ok(BranchResult::NoBranch)),
        Operation::Add => (spec_add_instr(c), Ok(BranchResult::NoBranch)),
        Operation::AddHl => (spec_add_hl_instr(c), Ok(BranchResult::NoBranch)),
        Operation::AddSp => (spec_add_sp_instr(c), Ok(BranchResult::NoBranch)),
        Operation::Adc => (spec_adc_instr(c), Ok(BranchResult::NoBranch)),
        Operation::Sub => (spec_sub_instr(c), Ok(BranchResult::NoBranch)),
        Operation::Sbc => (spec_sbc_instr(c), Ok(BranchResult::NoBranch)),
        Operation::And => (spec_and_instr(c), Ok(BranchResult::NoBranch)),
        Operation::Xor => (spec_xor_instr(c), Ok(BranchResult::NoBranch)),
        Operation::Or => (spec_or_instr(c), Ok(BranchResult::NoBranch)),
        Operation::Cp => (spec_cp_instr(c), Ok(BranchResult::NoBranch)),
        Operation::Rlca => (spec_rlca_instr(c), Ok(BranchResult::NoBranch)),
        Operation::Rla => (spec_rla_instr(c), Ok(BranchResult::NoBranch)),
        Operation::Rrca => (spec_rrca_instr(c), Ok(BranchResult::NoBranch)),
        Operation::Rrc => (spec_rrc_instr(c), Ok(BranchResult::NoBranch)),
        Operation::JrImm8 => spec_jr_imm8_instr(c),
        Operation::JpImm16 => spec_jp_imm16_instr(c),
        Operation::JpHl => spec_jp_hl_instr(c),
        Operation::Restart => (spec_restart_instr(c), Ok(BranchResult::NoBranch)),
        Operation::Call => spec_call_instr(c),
        Operation::Ret => spec_ret_instr(c),
        Operation::Push => (spec_push_instr(c), Ok(BranchResult::NoBranch)),
        Operation::Pop => (spec_pop_instr(c), Ok(BranchResult::NoBranch)),
        Operation::Daa => (spec_daa_instr(c), Ok(BranchResult::NoBranch)),
        Operation::Cpl => (spec_cpl_instr(c), Ok(BranchResult::NoBranch)),
        Operation::Scf => (spec_scf_instr(c), Ok(BranchResult::NoBranch)),
        Operation::Ccf => (spec_ccf_instr(c), Ok(BranchResult::NoBranch)),
        Operation::Cb => spec_cb_instr(c),
        _ => spec_cb_dispatch(c, oper),
    }
}

/// One full engine step: fetch at PC, dispatch through the primary
/// table, then advance PC by one unconditionally.
pub open spec fn spec_step(c: CpuView) -> (CpuView, InstructionRetType) {
    let t = spec_dispatch(c, spec_instr_op(spec_fetch(c)));
    (spec_incr_pc(t.0), t.1)
}

/// The machine-limit conditions under which a step's bus accesses stay
/// in range: the 16-bit stack and pointer accesses must not run past the
/// top of the address space.
pub open spec fn spec_step_ok(c: CpuView) -> bool {
    let opcode = spec_fetch(c);
    match spec_instr_op(opcode) {
        Operation::Push => c.regs.sp < 0xffff,
        Operation::Pop => c.regs.sp.wrapping_add(2) < 0xffff,
        Operation::Call => spec_call_cond(c, opcode) ==> c.regs.pc.wrapping_add(1) < 0xffff
            && c.regs.sp < 0xffff,
        Operation::Ret => spec_ret_cond(c, opcode) ==> c.regs.sp.wrapping_add(2) < 0xffff,
        Operation::JpHl => c.regs.hl < 0xffff,
        Operation::LdSpToImmMem => spec_ld_sp_imm_addr(c) < 0xffff,
        _ => true,
    }
}

impl Cpu {
    /// Decides whether the next instruction's bus accesses stay in
    /// range, so a host loop can refuse a step that would run the
    /// 16-bit stack or pointer accesses past the top of memory.
    pub fn step_ok(&self) -> (r: bool)
        requires
            self.wf(),
        ensures
            r == spec_step_ok(self@),
    {
        let opcode = self.get_opcode();
        let entry = instr_entry(opcode);
        match entry.op {
            Operation::Push => self.regs.get_sp() < 0xffff,
            Operation::Pop => self.regs.get_sp().wrapping_add(2) < 0xffff,
            Operation::Call => {
                let cond = match opcode {
                    0xc4 => !self.regs.get_flag_z(),
                    0xcc => self.regs.get_flag_z(),
                    0xcd => true,
                    0xd4 => !self.regs.get_flag_c(),
                    _ => self.regs.get_flag_c(),
                };
                !cond || (self.regs.get_pc().wrapping_add(1) < 0xffff && self.regs.get_sp()
                    < 0xffff)
            },
            Operation::Ret => {
                let cond = match opcode {
                    0xc0 => !self.regs.get_flag_z(),
                    0xc8 => self.regs.get_flag_z(),
                    0xd0 => !self.regs.get_flag_c(),
                    0xd8 => self.regs.get_flag_c(),
                    _ => true,
                };
                !cond || self.regs.get_sp().wrapping_add(2) < 0xffff
            },
            Operation::JpHl => self.regs.get_hl() < 0xffff,
            Operation::LdSpToImmMem => {
                let pc = self.regs.get_pc();
                let lower = self.read8(pc.wrapping_add(1)) as u16;
                let upper = self.read8(pc.wrapping_add(2)) as u16;
                ((upper << 8) | lower) < 0xffff
            },
            _ => true,
        }
    }

    /// Executes one instruction: fetch, table dispatch, handler, then
    /// the unconditional program-counter increment.
    #[verifier::rlimit(100)]
    pub fn execute_instr(&mut self) -> (r: InstructionRetType)
        requires
            old(self).wf(),
            spec_step_ok(old(self)@),
        ensures
            final(self).wf(),
            final(self)@ == spec_step(old(self)@).0,
            r == spec_step(old(self)@).1,
    {
        let opcode = self.get_opcode();
        let entry = instr_entry(opcode);
        let result = match entry.op {
            Operation::Noop => noop_instr(self),
            Operation::Stop => stop_instr(self),
            Operation::Halt => halt_instr(self),
            Operation::Ei => ei_instr(self),
            Operation::Di => di_instr(self),
            Operation::Undef => undef_instr(self),
            Operation::Ld => ld_instr(self),
            Operation::LdU8Imm => ld_u8_imm_instr(self),
            Operation::LdU16Imm => ld_u16_imm_instr(self),
            Operation::LdToMem => ld_to_mem_instr(self),
            Operation::LdFromMem => ld_from_mem_instr(self),
            Operation::LdSpToImmMem => ld_sp_to_imm_mem_instr(self),
            Operation::LdFromMemToA => ld_from_mem_to_a_instr(self),
            Operation::LdFromAToMem => ld_from_a_to_mem_instr(self),
            Operation::LdHlToSp => ld_hl_to_sp_instr(self),
            Operation::LdSpPlusSignedImmToHl => ld_sp_plus_signed_imm_to_hl_instr(self),
            Operation::IncU8 => inc_u8_instr(self),
            Operation::DecU8 => dec_u8_instr(self),
            Operation::IncU16 => inc_u16_instr(self),
            Operation::DecU16 => dec_u16_instr(self),
            Operation::Add => add_instr(self),
            Operation::AddHl => add_hl_instr(self),
            Operation::AddSp => add_sp_instr(self),
            Operation::Adc => adc_instr(self),
            Operation::Sub => sub_instr(self),
            Operation::Sbc => sbc_instr(self),
            Operation::And => and_instr(self),
            Operation::Xor => xor_instr(self),
            Operation::Or => or_instr(self),
            Operation::Cp => cp_instr(self),
            Operation::Rlca => rlca_instr(self),
            Operation::Rla => rla_instr(self),
            Operation::Rrca => rrca_instr(self),
            Operation::Rrc => rrc_instr(self),
            Operation::JrImm8 => jr_imm8_instr(self),
            Operation::JpImm16 => jp_imm16_instr(self),
            Operation::JpHl => jp_hl_instr(self),
            Operation::Restart => restart_instr(self),
            Operation::Call => call_instr(self),
            Operation::Ret => ret_instr(self),
            Operation::Push => push_instr(self),
            Operation::Pop => pop_instr(self),
            Operation::Daa => daa_instr(self),
            Operation::Cpl => cpl_instr(self),
            Operation::Scf => scf_instr(self),
            Operation::Ccf => ccf_instr(self),
            Operation::Cb => cb_instr(self),
            Operation::Rlc => rlc_instr(self),
            Operation::Rl => rl_instr(self),
            Operation::Rr => rr_instr(self),
            Operation::Sla => sla_instr(self),
            Operation::Sra => sra_instr(self),
            Operation::Swap => swap_instr(self),
            Operation::Srl => srl_instr(self),
            Operation::TestBit(_) | Operation::ResBit(_) | Operation::SetBit(_) => {
                proof {
                    assert(false);
                }
                undef_instr(self)
            },
        };
        self.incr_pc();
        result
    }
}

/// Executing a NOP leaves every register, every flag and all of memory
/// unchanged, and advances the program counter by exactly one.
pub proof fn lemma_noop_step(c: CpuView)
    requires
        spec_fetch(c) == 0x00,
    ensures
        spec_step(c).0 == (CpuView {
            regs: Registers { pc: c.regs.pc.wrapping_add(1), ..c.regs },
            ..c
        }),
        spec_step(c).1 == Ok::<BranchResult, ()>(BranchResult::NoBranch),
{
}

/// Pushing a register pair and then popping it back is a no-op on the
/// pair and on the stack pointer: after PUSH BC at PC and POP BC at the
/// following address, BC and SP hold their original values and PC sits
/// past the two instructions. The two stack bytes must be backed by
/// plain storage and must not overwrite the POP opcode itself.
pub proof fn lemma_push_pop_roundtrip(c: CpuView)
    requires
        cpu_wf(c),
        spec_fetch(c) == 0xc5,
        spec_mem_read8(c.mem, c.regs.pc.wrapping_add(1)) == 0xc1,
        c.regs.sp < 0xffff,
        storage_addr(c.mem, c.regs.sp),
        storage_addr(c.mem, (c.regs.sp + 1) as u16),
        c.regs.sp != c.regs.pc.wrapping_add(1),
        (c.regs.sp + 1) as u16 != c.regs.pc.wrapping_add(1),
        !mirror_pair(c.regs.sp, c.regs.pc.wrapping_add(1)),
        !mirror_pair((c.regs.sp + 1) as u16, c.regs.pc.wrapping_add(1)),
    ensures
        spec_step(spec_step(c).0).0.regs.bc == c.regs.bc,
        spec_step(spec_step(c).0).0.regs.sp == c.regs.sp,
        spec_step(spec_step(c).0).0.regs.pc == c.regs.pc.wrapping_add(2),
{
    let sp = c.regs.sp;
    let sp1 = (sp + 1) as u16;
    let pc1 = c.regs.pc.wrapping_add(1);
    let lo = (c.regs.bc & 0xff) as u8;
    let hi = (c.regs.bc >> 8) as u8;

    let m_hi = spec_mem_write8(c.mem, sp1, hi);
    let m1 = spec_mem_write8(m_hi, sp, lo);

    lemma_write_read_storage(c.mem, sp1, hi);
    assert(spec_mem_read8(m_hi, sp1) == hi);
    assert(spec_mem_read8(m_hi, sp) == spec_mem_read8(c.mem, sp));
    assert(spec_mem_read8(m_hi, pc1) == 0xc1);
    assert(storage_addr(m_hi, sp));
    lemma_write_read_storage(m_hi, sp, lo);
    assert(spec_mem_read8(m1, sp) == lo);
    assert(!mirror_pair(sp, sp1));
    assert(spec_mem_read8(m1, sp1) == hi);
    assert(spec_mem_read8(m1, pc1) == 0xc1);

    let c1 = spec_step(c).0;
    assert(c1.mem == m1);
    assert(c1.regs.pc == pc1);
    assert(c1.regs.sp == sp.wrapping_sub(2));
    assert(c1.regs.bc == c.regs.bc);

    assert(spec_fetch(c1) == 0xc1);
    assert(c1.regs.sp.wrapping_add(2) == sp);
    let popped = word_of(spec_mem_read8(m1, sp), spec_mem_read8(m1, sp1));
    lemma_word_of_bytes(c.regs.bc);
    assert(popped == c.regs.bc);
}

} // verus!
