use gbemu::cpu::{u16_plus_i8, Cpu};
use gbemu::instr_table::{cb_instr_entry, instr_entry, Operation};
use gbemu::mbc1::MBC1;
use gbemu::memory::Memory;

/// A processor whose program starts at the reset address 0x100, followed
/// by an undefined opcode that ends the run.
fn setup_test(prog: &[u8]) -> Cpu {
    let mut rom = vec![0u8; 0x100];
    rom.extend_from_slice(prog);
    rom.push(0xFD);
    rom.resize(0xFFFF, 0x00);
    let new_cartridge = MBC1::new(rom);
    let new_memory = Memory::new(new_cartridge);
    Cpu::new(new_memory)
}

fn run(cpu: &mut Cpu) {
    loop {
        if cpu.execute_instr().is_err() {
            break;
        }
    }
}

#[test]
fn five_noops() {
    let mut cpu = setup_test(&[0x00, 0x00, 0x00, 0x00, 0x00]);
    run(&mut cpu);
    assert_eq!(cpu.regs.get_pc(), 0x106);
}

#[test]
fn cpu_five_noops() {
    let mut cpu = setup_test(&[0x00, 0x00, 0x00, 0x00, 0x00]);
    run(&mut cpu);
    assert_eq!(cpu.regs.get_pc(), 0x106);
}

#[test]
fn add() {
    let mut cpu = setup_test(&[0x87]);
    cpu.regs.put_a(1);
    run(&mut cpu);
    assert_eq!(cpu.regs.get_a(), 2);
}

#[test]
fn cpu_add() {
    let mut cpu = setup_test(&[0x87]);
    cpu.regs.put_a(1);
    run(&mut cpu);
    assert_eq!(cpu.regs.get_a(), 2);
}

#[test]
fn sub() {
    let mut cpu = setup_test(&[0x97]);
    cpu.regs.put_a(1);
    run(&mut cpu);
    assert_eq!(cpu.regs.get_a(), 0);
}

#[test]
fn ld_imm() {
    let mut cpu = setup_test(&[0x3e, 0x10, 0x06, 0x20]);
    run(&mut cpu);
    assert_eq!(cpu.regs.get_a(), 0x10);
    assert_eq!(cpu.regs.get_b(), 0x20);
}

#[test]
fn ld() {
    let mut cpu = setup_test(&[0x3e, 0xff, 0x47, 0x48]);
    run(&mut cpu);
    assert_eq!(cpu.regs.get_a(), 0xff);
    assert_eq!(cpu.regs.get_b(), 0xff);
    assert_eq!(cpu.regs.get_c(), 0xff);
    assert_eq!(cpu.regs.get_d(), 0x00);
}

#[test]
fn noop_changes_nothing_but_pc() {
    let mut cpu = setup_test(&[0x00]);
    cpu.regs.put_af(0x55F0);
    cpu.regs.put_bc(0x1234);
    cpu.regs.put_de(0x5678);
    cpu.regs.put_hl(0x9ABC);
    let pc = cpu.regs.get_pc();
    let sp = cpu.regs.get_sp();
    assert!(cpu.execute_instr().is_ok());
    assert_eq!(cpu.regs.get_pc(), pc + 1);
    assert_eq!(cpu.regs.get_af(), 0x55F0);
    assert_eq!(cpu.regs.get_bc(), 0x1234);
    assert_eq!(cpu.regs.get_de(), 0x5678);
    assert_eq!(cpu.regs.get_hl(), 0x9ABC);
    assert_eq!(cpu.regs.get_sp(), sp);
}

#[test]
fn add_a_b_flags() {
    // ADD A,B with A=1, B=1: result 2, all flags clear.
    let mut cpu = setup_test(&[0x80]);
    cpu.regs.put_a(1);
    cpu.regs.put_b(1);
    assert!(cpu.execute_instr().is_ok());
    assert_eq!(cpu.regs.get_a(), 2);
    assert!(!cpu.regs.get_flag_z());
    assert!(!cpu.regs.get_flag_n());
    assert!(!cpu.regs.get_flag_h());
    assert!(!cpu.regs.get_flag_c());
}

#[test]
fn add_carry_and_half_carry() {
    // ADD A,B with A=0xFF, B=0x01: result 0, Z set, carries set.
    let mut cpu = setup_test(&[0x80]);
    cpu.regs.put_a(0xFF);
    cpu.regs.put_b(0x01);
    assert!(cpu.execute_instr().is_ok());
    assert_eq!(cpu.regs.get_a(), 0);
    assert!(cpu.regs.get_flag_z());
    assert!(!cpu.regs.get_flag_n());
    assert!(cpu.regs.get_flag_h());
    assert!(cpu.regs.get_flag_c());
}

#[test]
fn sub_a_a_flags() {
    // SUB A,A with A=1: result 0, Z and N set.
    let mut cpu = setup_test(&[0x97]);
    cpu.regs.put_a(1);
    assert!(cpu.execute_instr().is_ok());
    assert_eq!(cpu.regs.get_a(), 0);
    assert!(cpu.regs.get_flag_z());
    assert!(cpu.regs.get_flag_n());
    assert!(!cpu.regs.get_flag_h());
    assert!(!cpu.regs.get_flag_c());
}

#[test]
fn sub_borrow_flags() {
    // SUB A,B with A=0x10, B=0x01: borrow out of bit 4, no full borrow.
    let mut cpu = setup_test(&[0x90]);
    cpu.regs.put_a(0x10);
    cpu.regs.put_b(0x01);
    assert!(cpu.execute_instr().is_ok());
    assert_eq!(cpu.regs.get_a(), 0x0F);
    assert!(!cpu.regs.get_flag_z());
    assert!(cpu.regs.get_flag_n());
    assert!(cpu.regs.get_flag_h());
    assert!(!cpu.regs.get_flag_c());
}

#[test]
fn ld_a_imm_advances_pc_by_two() {
    // LD A,0x10: A loaded and PC moved past opcode and immediate.
    let mut cpu = setup_test(&[0x3e, 0x10]);
    let pc = cpu.regs.get_pc();
    assert!(cpu.execute_instr().is_ok());
    assert_eq!(cpu.regs.get_a(), 0x10);
    assert_eq!(cpu.regs.get_pc(), pc + 2);
}

#[test]
fn push_pop_round_trip() {
    // PUSH BC then POP BC: BC and SP unchanged. SP is placed inside
    // high RAM; at the boot value 0xFFFE the pushed high byte would land
    // on the interrupt-enable stub, which stores nothing.
    let mut cpu = setup_test(&[0xc5, 0xc1]);
    cpu.regs.put_bc(0xBEEF);
    cpu.regs.put_sp(0xFFF0);
    let sp = cpu.regs.get_sp();
    assert!(cpu.execute_instr().is_ok());
    assert_eq!(cpu.regs.get_sp(), sp.wrapping_sub(2));
    assert!(cpu.execute_instr().is_ok());
    assert_eq!(cpu.regs.get_bc(), 0xBEEF);
    assert_eq!(cpu.regs.get_sp(), sp);
}

#[test]
fn push_stores_little_endian() {
    let mut cpu = setup_test(&[0xc5]);
    cpu.regs.put_bc(0xBEEF);
    cpu.regs.put_sp(0xC100);
    assert!(cpu.execute_instr().is_ok());
    assert_eq!(cpu.read8(0xC100), 0xEF);
    assert_eq!(cpu.read8(0xC101), 0xBE);
}

#[test]
fn jr_taken_and_not_taken() {
    // JR NZ,+2 with Z clear jumps over one instruction.
    let mut cpu = setup_test(&[0x20, 0x02, 0x3e, 0x01, 0x3e, 0x02]);
    cpu.regs.put_f(0);
    run(&mut cpu);
    assert_eq!(cpu.regs.get_a(), 0x02);

    // JR Z with Z clear falls through; the load after it runs.
    let mut cpu = setup_test(&[0x28, 0x02, 0x3e, 0x01]);
    cpu.regs.put_af(0);
    run(&mut cpu);
    assert_eq!(cpu.regs.get_a(), 0x01);
}

#[test]
fn call_and_ret() {
    // CALL 0x0110; the callee at 0x0110 is RET, returning to the byte
    // after the call, which ends the run.
    let mut prog = vec![0xcd, 0x10, 0x01];
    prog.resize(0x10, 0x00);
    prog.push(0xc9);
    let mut cpu = setup_test(&prog);
    cpu.regs.put_sp(0xFFF0);
    let sp = cpu.regs.get_sp();
    assert!(cpu.execute_instr().is_ok());
    assert_eq!(cpu.regs.get_pc(), 0x0110);
    assert_eq!(cpu.regs.get_sp(), sp.wrapping_sub(2));
    assert!(cpu.execute_instr().is_ok());
    assert_eq!(cpu.regs.get_pc(), 0x0103);
    assert_eq!(cpu.regs.get_sp(), sp);
}

#[test]
fn call_not_taken_consumes_immediates() {
    // CALL NZ with Z set: no call, but the two immediate bytes are
    // consumed, so the next fetch lands on the following instruction.
    let mut cpu = setup_test(&[0xc4, 0x50, 0x01, 0x3e, 0x07]);
    cpu.regs.put_flag_z(true);
    let sp = cpu.regs.get_sp();
    let pc = cpu.regs.get_pc();
    assert!(cpu.execute_instr().is_ok());
    assert_eq!(cpu.regs.get_pc(), pc + 3);
    assert_eq!(cpu.regs.get_sp(), sp);
    assert!(cpu.execute_instr().is_ok());
    assert_eq!(cpu.regs.get_a(), 0x07);
}

#[test]
fn daa() {
    // LD A,0x10 then DAA. The boot flag byte 0xB0 leaves H and C set,
    // so the standard decimal adjustment applies both corrections:
    // 0x10 + 0x60 + 0x06 = 0x76.
    let mut cpu = setup_test(&[0x3e, 0x10, 0x27]);
    run(&mut cpu);
    assert_eq!(cpu.regs.get_a(), 0x76);
}

#[test]
fn undefined_opcode_ends_run() {
    let mut cpu = setup_test(&[0xd3]);
    assert!(cpu.execute_instr().is_err());
}

#[test]
fn cb_bit_operations() {
    // CB SET 7,B then CB RES 0,B then CB BIT 7,B.
    let mut cpu = setup_test(&[0xcb, 0xf8, 0xcb, 0x80, 0xcb, 0x78]);
    cpu.regs.put_b(0x01);
    assert!(cpu.execute_instr().is_ok());
    assert_eq!(cpu.regs.get_b(), 0x81);
    assert!(cpu.execute_instr().is_ok());
    assert_eq!(cpu.regs.get_b(), 0x80);
    assert!(cpu.execute_instr().is_ok());
    // The engine reports Z as "bit is set", as it always has.
    assert!(cpu.regs.get_flag_z());
}

#[test]
fn cb_swap() {
    let mut cpu = setup_test(&[0xcb, 0x37]);
    cpu.regs.put_a(0xA5);
    assert!(cpu.execute_instr().is_ok());
    assert_eq!(cpu.regs.get_a(), 0x5A);
}

#[test]
fn add_immediate_form() {
    // ADD A,0x05 via the immediate opcode.
    let mut cpu = setup_test(&[0xc6, 0x05]);
    cpu.regs.put_a(0x02);
    let pc = cpu.regs.get_pc();
    assert!(cpu.execute_instr().is_ok());
    assert_eq!(cpu.regs.get_a(), 0x07);
    assert_eq!(cpu.regs.get_pc(), pc + 2);
}

#[test]
fn inc_dec_wrap() {
    // INC B from 0xFF wraps to 0 with Z set and H set; C untouched.
    let mut cpu = setup_test(&[0x04, 0x05]);
    cpu.regs.put_b(0xFF);
    cpu.regs.put_f(0);
    assert!(cpu.execute_instr().is_ok());
    assert_eq!(cpu.regs.get_b(), 0);
    assert!(cpu.regs.get_flag_z());
    assert!(cpu.regs.get_flag_h());
    assert!(!cpu.regs.get_flag_c());
    // DEC B from 0 wraps back with N set and H (borrow) set.
    assert!(cpu.execute_instr().is_ok());
    assert_eq!(cpu.regs.get_b(), 0xFF);
    assert!(cpu.regs.get_flag_n());
    assert!(cpu.regs.get_flag_h());
}

#[test]
fn instruction_table_entries() {
    let e = instr_entry(0x00);
    assert_eq!(e.opcode, 0x00);
    assert!(e.op == Operation::Noop);
    assert_eq!(e.cycles, 4);
    let e = instr_entry(0xc6);
    assert!(e.op == Operation::Add);
    assert_eq!(e.cycles, 8);
    let e = instr_entry(0xdb);
    assert!(e.op == Operation::Undef);
    assert_eq!(e.cycles, 0);
    let e = cb_instr_entry(0x7e);
    assert!(e.op == Operation::TestBit(7));
    assert_eq!(e.cycles, 16);
    let e = cb_instr_entry(0x11);
    assert!(e.op == Operation::Rl);
    assert_eq!(e.cycles, 8);
}

#[test]
fn adc_sbc_use_carry() {
    // ADC A,B with carry set: 1 + 1 + 1 = 3.
    let mut cpu = setup_test(&[0x88]);
    cpu.regs.put_a(1);
    cpu.regs.put_b(1);
    cpu.regs.put_flag_c(true);
    assert!(cpu.execute_instr().is_ok());
    assert_eq!(cpu.regs.get_a(), 3);
    assert!(!cpu.regs.get_flag_c());

    // SBC A,B with carry set: 5 - 1 - 1 = 3, N set.
    let mut cpu = setup_test(&[0x98]);
    cpu.regs.put_a(5);
    cpu.regs.put_b(1);
    cpu.regs.put_flag_c(true);
    assert!(cpu.execute_instr().is_ok());
    assert_eq!(cpu.regs.get_a(), 3);
    assert!(cpu.regs.get_flag_n());
}

#[test]
fn logic_operations_and_flags() {
    // AND: H always set, C cleared.
    let mut cpu = setup_test(&[0xa0]);
    cpu.regs.put_a(0b1100);
    cpu.regs.put_b(0b1010);
    cpu.regs.put_flag_c(true);
    assert!(cpu.execute_instr().is_ok());
    assert_eq!(cpu.regs.get_a(), 0b1000);
    assert!(cpu.regs.get_flag_h());
    assert!(!cpu.regs.get_flag_c());

    // XOR A,A clears A and sets Z.
    let mut cpu = setup_test(&[0xaf]);
    cpu.regs.put_a(0x5A);
    assert!(cpu.execute_instr().is_ok());
    assert_eq!(cpu.regs.get_a(), 0);
    assert!(cpu.regs.get_flag_z());

    // OR with an immediate.
    let mut cpu = setup_test(&[0xf6, 0x0F]);
    cpu.regs.put_a(0xF0);
    assert!(cpu.execute_instr().is_ok());
    assert_eq!(cpu.regs.get_a(), 0xFF);

    // CP leaves A alone but sets the comparison flags.
    let mut cpu = setup_test(&[0xfe, 0x10]);
    cpu.regs.put_a(0x10);
    assert!(cpu.execute_instr().is_ok());
    assert_eq!(cpu.regs.get_a(), 0x10);
    assert!(cpu.regs.get_flag_z());
    assert!(cpu.regs.get_flag_n());
}

#[test]
fn add_hl_sets_sixteen_bit_carries() {
    // ADD HL,BC with HL=0x0FFF, BC=0x0001: half-carry out of bit 11.
    let mut cpu = setup_test(&[0x09]);
    cpu.regs.put_hl(0x0FFF);
    cpu.regs.put_bc(0x0001);
    assert!(cpu.execute_instr().is_ok());
    assert_eq!(cpu.regs.get_hl(), 0x1000);
    assert!(cpu.regs.get_flag_h());
    assert!(!cpu.regs.get_flag_c());

    // ADD HL,SP with HL=0xFFFF, SP=0x0001 wraps and carries.
    let mut cpu = setup_test(&[0x39]);
    cpu.regs.put_hl(0xFFFF);
    cpu.regs.put_sp(0x0001);
    assert!(cpu.execute_instr().is_ok());
    assert_eq!(cpu.regs.get_hl(), 0x0000);
    assert!(cpu.regs.get_flag_c());
}

#[test]
fn inc_dec_sixteen_bit() {
    let mut cpu = setup_test(&[0x03, 0x0b, 0x0b]);
    cpu.regs.put_bc(0xFFFF);
    assert!(cpu.execute_instr().is_ok());
    assert_eq!(cpu.regs.get_bc(), 0x0000);
    assert!(cpu.execute_instr().is_ok());
    assert_eq!(cpu.regs.get_bc(), 0xFFFF);
    assert!(cpu.execute_instr().is_ok());
    assert_eq!(cpu.regs.get_bc(), 0xFFFE);
}

#[test]
fn rotates_on_accumulator() {
    // RLCA rotates bit 7 around into bit 0 and into C.
    let mut cpu = setup_test(&[0x07]);
    cpu.regs.put_a(0x81);
    assert!(cpu.execute_instr().is_ok());
    assert_eq!(cpu.regs.get_a(), 0x03);
    assert!(cpu.regs.get_flag_c());

    // RRCA rotates bit 0 around into bit 7 and into C.
    let mut cpu = setup_test(&[0x0f]);
    cpu.regs.put_a(0x01);
    assert!(cpu.execute_instr().is_ok());
    assert_eq!(cpu.regs.get_a(), 0x80);
    assert!(cpu.regs.get_flag_c());

    // RLA shifts the old carry into bit 0.
    let mut cpu = setup_test(&[0x17]);
    cpu.regs.put_a(0x80);
    cpu.regs.put_flag_c(true);
    assert!(cpu.execute_instr().is_ok());
    assert_eq!(cpu.regs.get_a(), 0x01);
    assert!(cpu.regs.get_flag_c());
}

#[test]
fn cb_shifts() {
    // SLA B doubles and captures bit 7 in C.
    let mut cpu = setup_test(&[0xcb, 0x20]);
    cpu.regs.put_b(0xC1);
    assert!(cpu.execute_instr().is_ok());
    assert_eq!(cpu.regs.get_b(), 0x82);
    assert!(cpu.regs.get_flag_c());

    // SRA keeps the sign bit.
    let mut cpu = setup_test(&[0xcb, 0x28]);
    cpu.regs.put_b(0x81);
    assert!(cpu.execute_instr().is_ok());
    assert_eq!(cpu.regs.get_b(), 0xC0);
    assert!(cpu.regs.get_flag_c());

    // SRL clears the top bit.
    let mut cpu = setup_test(&[0xcb, 0x38]);
    cpu.regs.put_b(0x81);
    assert!(cpu.execute_instr().is_ok());
    assert_eq!(cpu.regs.get_b(), 0x40);
    assert!(cpu.regs.get_flag_c());
}

#[test]
fn hl_indirect_operand() {
    // LD (HL),0x42 then ADD A,(HL) through work RAM.
    let mut cpu = setup_test(&[0x36, 0x42, 0x86]);
    cpu.regs.put_hl(0xC050);
    cpu.regs.put_a(1);
    assert!(cpu.execute_instr().is_ok());
    assert_eq!(cpu.read8(0xC050), 0x42);
    assert!(cpu.execute_instr().is_ok());
    assert_eq!(cpu.regs.get_a(), 0x43);
}

#[test]
fn ld_hl_post_increment_and_decrement() {
    // LD (HL+),A then LD (HL-),A.
    let mut cpu = setup_test(&[0x22, 0x32]);
    cpu.regs.put_a(0x77);
    cpu.regs.put_hl(0xC100);
    assert!(cpu.execute_instr().is_ok());
    assert_eq!(cpu.read8(0xC100), 0x77);
    assert_eq!(cpu.regs.get_hl(), 0xC101);
    assert!(cpu.execute_instr().is_ok());
    assert_eq!(cpu.read8(0xC101), 0x77);
    assert_eq!(cpu.regs.get_hl(), 0xC100);
}

#[test]
fn high_page_loads() {
    // LD (0xFF00+imm),A and LD A,(0xFF00+C).
    let mut cpu = setup_test(&[0xe0, 0x10, 0x0e, 0x10, 0xf2]);
    cpu.regs.put_a(0x9C);
    assert!(cpu.execute_instr().is_ok());
    assert_eq!(cpu.read8(0xFF10), 0x9C);
    assert!(cpu.execute_instr().is_ok());
    cpu.regs.put_a(0);
    assert!(cpu.execute_instr().is_ok());
    assert_eq!(cpu.regs.get_a(), 0x9C);
}

#[test]
fn ld_sp_to_immediate_address() {
    // LD (0xC200),SP stores SP little-endian.
    let mut cpu = setup_test(&[0x08, 0x00, 0xc2]);
    cpu.regs.put_sp(0xBEEF);
    assert!(cpu.execute_instr().is_ok());
    assert_eq!(cpu.read8(0xC200), 0xEF);
    assert_eq!(cpu.read8(0xC201), 0xBE);
}

#[test]
fn ld_hl_sp_family() {
    // LD HL,SP+5 and LD SP,HL.
    let mut cpu = setup_test(&[0xf8, 0x05, 0xf9]);
    cpu.regs.put_sp(0xC000);
    assert!(cpu.execute_instr().is_ok());
    assert_eq!(cpu.regs.get_hl(), 0xC005);
    assert!(cpu.execute_instr().is_ok());
    assert_eq!(cpu.regs.get_sp(), 0xC005);
}

#[test]
fn jp_and_restart() {
    // JP 0x0150 lands exactly there.
    let mut cpu = setup_test(&[0xc3, 0x50, 0x01]);
    assert!(cpu.execute_instr().is_ok());
    assert_eq!(cpu.regs.get_pc(), 0x0150);

    // RST 0x28 jumps to its fixed vector.
    let mut cpu = setup_test(&[0xef]);
    assert!(cpu.execute_instr().is_ok());
    assert_eq!(cpu.regs.get_pc(), 0x0028);
}

#[test]
fn interrupt_flag_instructions() {
    let mut cpu = setup_test(&[0xfb, 0xf3]);
    assert!(!cpu.global_interrupt_flag);
    assert!(cpu.execute_instr().is_ok());
    assert!(cpu.global_interrupt_flag);
    assert!(cpu.execute_instr().is_ok());
    assert!(!cpu.global_interrupt_flag);
}

#[test]
fn stop_and_halt_end_the_run() {
    let mut cpu = setup_test(&[0x10]);
    assert!(cpu.execute_instr().is_err());
    let mut cpu = setup_test(&[0x76]);
    assert!(cpu.execute_instr().is_err());
}

#[test]
fn carry_flag_instructions() {
    // SCF sets C; CCF flips it; CPL complements A.
    let mut cpu = setup_test(&[0x37, 0x3f, 0x2f]);
    cpu.regs.put_af(0);
    assert!(cpu.execute_instr().is_ok());
    assert!(cpu.regs.get_flag_c());
    assert!(cpu.execute_instr().is_ok());
    assert!(!cpu.regs.get_flag_c());
    cpu.regs.put_a(0x0F);
    assert!(cpu.execute_instr().is_ok());
    assert_eq!(cpu.regs.get_a(), 0xF0);
    assert!(cpu.regs.get_flag_n());
    assert!(cpu.regs.get_flag_h());
}

#[test]
fn daa_corrects_bcd_addition() {
    // 0x19 + 0x28 = 0x41 binary; DAA corrects it to the decimal 47.
    let mut cpu = setup_test(&[0x80, 0x27]);
    cpu.regs.put_af(0);
    cpu.regs.put_a(0x19);
    cpu.regs.put_b(0x28);
    assert!(cpu.execute_instr().is_ok());
    assert_eq!(cpu.regs.get_a(), 0x41);
    assert!(cpu.regs.get_flag_h());
    assert!(cpu.execute_instr().is_ok());
    assert_eq!(cpu.regs.get_a(), 0x47);
    assert!(!cpu.regs.get_flag_c());
}

#[test]
fn add_sp_signed_immediate() {
    let mut cpu = setup_test(&[0xe8, 0xfe]);
    cpu.regs.put_sp(0xC005);
    assert!(cpu.execute_instr().is_ok());
    assert_eq!(cpu.regs.get_sp(), 0xC003);
    assert!(!cpu.regs.get_flag_z());
    assert!(!cpu.regs.get_flag_n());
}

#[test]
fn u16_plus_i8_wraps_both_ways() {
    assert_eq!(u16_plus_i8(0x0100, 5), 0x0105);
    assert_eq!(u16_plus_i8(0x0100, -5), 0x00FB);
    assert_eq!(u16_plus_i8(0x0000, -1), 0xFFFF);
    assert_eq!(u16_plus_i8(0xFFFF, 1), 0x0000);
}
