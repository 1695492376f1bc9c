use gbemu::debugger::{goto_next_cmd, parse_command, parse_val, Cmds, Debugger};

#[test]
fn parse_val_decimal_and_hex() {
    assert_eq!(parse_val("0"), Ok(0));
    assert_eq!(parse_val("255"), Ok(255));
    assert_eq!(parse_val("65535"), Ok(0xFFFF));
    assert_eq!(parse_val("0x10"), Ok(0x10));
    assert_eq!(parse_val("0xffff"), Ok(0xFFFF));
    assert_eq!(parse_val("0xFE00"), Ok(0xFE00));
    assert_eq!(parse_val("+42"), Ok(42));
}

#[test]
fn parse_val_rejects_garbage() {
    assert!(parse_val("").is_err());
    assert!(parse_val("abc").is_err());
    assert!(parse_val("0x").is_err());
    assert!(parse_val("0xg1").is_err());
    assert!(parse_val("65536").is_err());
    assert!(parse_val("0x10000").is_err());
    assert!(parse_val("12 3").is_err());
    assert!(parse_val("+").is_err());
    assert!(parse_val("-1").is_err());
}

#[test]
fn parse_val_strips_repeated_hex_markers() {
    // Prefix trimming has always removed every leading marker.
    assert_eq!(parse_val("0x0x10"), Ok(0x10));
}

#[test]
fn parse_command_words() {
    assert_eq!(parse_command("n"), Some(Cmds::NextCmd));
    assert_eq!(parse_command("next"), Some(Cmds::NextCmd));
    assert_eq!(parse_command("p"), Some(Cmds::PrintCmd));
    assert_eq!(parse_command("print"), Some(Cmds::PrintCmd));
    assert_eq!(parse_command("c"), Some(Cmds::ContinueCmd));
    assert_eq!(parse_command("continue"), Some(Cmds::ContinueCmd));
    assert_eq!(parse_command("b"), Some(Cmds::BreakCmd));
    assert_eq!(parse_command("break"), Some(Cmds::BreakCmd));
    assert_eq!(parse_command("r"), Some(Cmds::RegistersCmd));
    assert_eq!(parse_command("registers"), Some(Cmds::RegistersCmd));
    assert_eq!(parse_command("bogus"), None);
    assert_eq!(parse_command(""), None);
}

#[test]
fn prompt_loop_commands() {
    assert!(goto_next_cmd(Cmds::NextCmd));
    assert!(goto_next_cmd(Cmds::ContinueCmd));
    assert!(!goto_next_cmd(Cmds::PrintCmd));
    assert!(!goto_next_cmd(Cmds::BreakCmd));
    assert!(!goto_next_cmd(Cmds::RegistersCmd));
}

#[test]
fn tick_gating_and_breakpoints() {
    let mut dbg = Debugger::new();
    // A fresh debugger pauses at once.
    assert!(dbg.check_tick(0x100));
    // After continuing it runs freely.
    dbg.continue_run();
    assert!(!dbg.check_tick(0x100));
    // A breakpoint pauses it exactly at its address, and it stays
    // paused afterwards.
    dbg.add_breakpoint(0x200);
    assert!(!dbg.check_tick(0x1FF));
    assert!(dbg.check_tick(0x200));
    assert!(dbg.check_tick(0x201));
    assert!(dbg.has_breakpoint(0x200));
    assert!(!dbg.has_breakpoint(0x100));
}

#[test]
fn last_command_replay() {
    let mut dbg = Debugger::new();
    assert_eq!(dbg.last_cmd(), Cmds::RegistersCmd);
    dbg.set_last_cmd(Cmds::NextCmd);
    assert_eq!(dbg.last_cmd(), Cmds::NextCmd);
}
