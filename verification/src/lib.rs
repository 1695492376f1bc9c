//! A verified Game Boy (Sharp SM83) emulator core: the CPU instruction
//! engine, the memory-mapped bus router, the MBC1 cartridge controller and
//! the LCD timing state machine, with machine-checked contracts for every
//! instruction and bus operation.

pub mod bus;
pub mod config;
pub mod cpu;
pub mod debugger;
pub mod instr_table;
pub mod io;
pub mod lcd;
pub mod mbc1;
pub mod memory;
pub mod registers;
pub mod util;
