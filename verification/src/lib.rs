//! Headless Game Boy (DMG) emulator core: a cycle-costed LR35902 CPU on a
//! flat memory bus with a hardware timer, interrupt controller and serial
//! capture, together with ROM header parsing, run reports and test-suite
//! files.

pub mod alu;
pub mod bus;
pub mod cpu;
pub mod exec;
pub mod laws;
pub mod machine;
pub mod regs;
pub mod report;
pub mod rom;
pub mod suite;
pub mod text;
pub mod timer;

pub use bus::{
    Bus, DIV_ADDR, IE_ADDR, IF_ADDR, INTERRUPT_JOYPAD, INTERRUPT_LCD, INTERRUPT_SERIAL,
    INTERRUPT_TIMER, INTERRUPT_VBLANK, SB_ADDR, SC_ADDR, TAC_ADDR, TIMA_ADDR, TMA_ADDR,
};
pub use cpu::{Cpu, EmuError};
pub use machine::GameBoy;
pub use regs::Registers;
pub use report::{
    assert_expectations, render_exec_report, render_header, render_serial, run_for_steps,
    str_contains, summarize_serial, ExecutionReport,
};
pub use rom::{CgbMode, HeaderError, Rom, RomError, RomHeader};
pub use suite::{parse_suite, CaseExpectation, ExpectationError, SuiteCase, SuiteError};
pub use timer::Timer;
