use gbemu::registers::Registers;

#[test]
fn basic_reg_test() {
    let mut regs = Registers::new();
    regs.put_af(0x0);
    regs.put_a(0x1);
    assert_eq!(regs.get_a(), 0x1);
    assert_eq!(regs.get_f(), 0x00);
    regs.put_af(0x1112);
    assert_eq!(regs.get_a(), 0x11);
    assert_eq!(regs.get_f(), 0x12);

    regs.put_a(0x20);
    assert_eq!(regs.get_a(), 0x20);
    assert_eq!(regs.get_f(), 0x12);

    regs.put_f(0x30);
    assert_eq!(regs.get_a(), 0x20);
    assert_eq!(regs.get_f(), 0x30);
}

#[test]
fn flag_test() {
    let mut regs = Registers::new();
    regs.put_af(0);

    regs.put_flag_z(true);
    assert_eq!(regs.get_a(), 0x0);
    assert_eq!(regs.get_f(), 0x80);

    regs.put_flag_n(true);
    assert_eq!(regs.get_a(), 0x0);
    assert_eq!(regs.get_f(), 0xC0);

    regs.put_flag_h(true);
    assert_eq!(regs.get_a(), 0x0);
    assert_eq!(regs.get_f(), 0xE0);

    regs.put_flag_c(true);
    assert_eq!(regs.get_a(), 0x0);
    assert_eq!(regs.get_f(), 0xF0);

    regs.put_flag_c(false);
    assert_eq!(regs.get_a(), 0x0);
    assert_eq!(regs.get_f(), 0xE0);

    regs.put_flag_h(false);
    assert_eq!(regs.get_a(), 0x0);
    assert_eq!(regs.get_f(), 0xC0);

    regs.put_flag_n(false);
    assert_eq!(regs.get_a(), 0x0);
    assert_eq!(regs.get_f(), 0x80);

    regs.put_flag_z(false);
    assert_eq!(regs.get_a(), 0x0);
    assert_eq!(regs.get_f(), 0x0);
}

#[test]
fn boot_values() {
    let regs = Registers::new();
    assert_eq!(regs.get_af(), 0x01B0);
    assert_eq!(regs.get_bc(), 0x13);
    assert_eq!(regs.get_de(), 0xD8);
    assert_eq!(regs.get_hl(), 0x14D);
    assert_eq!(regs.get_sp(), 0xFFFE);
    assert_eq!(regs.get_pc(), 0x100);
}

#[test]
fn sub_register_views() {
    let mut regs = Registers::new();
    regs.put_bc(0xABCD);
    assert_eq!(regs.get_b(), 0xAB);
    assert_eq!(regs.get_c(), 0xCD);
    regs.put_d(0x12);
    regs.put_e(0x34);
    assert_eq!(regs.get_de(), 0x1234);
    regs.put_hl(0x55AA);
    regs.put_h(0x66);
    assert_eq!(regs.get_hl(), 0x66AA);
    regs.put_l(0x77);
    assert_eq!(regs.get_hl(), 0x6677);
}
