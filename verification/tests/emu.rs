use vibegb_core::regs::{FLAG_C, FLAG_H, FLAG_N};
use vibegb_core::{
    Bus, EmuError, GameBoy, IE_ADDR, IF_ADDR, INTERRUPT_JOYPAD, INTERRUPT_LCD, INTERRUPT_SERIAL,
    INTERRUPT_TIMER, INTERRUPT_VBLANK, SB_ADDR, SC_ADDR, TAC_ADDR, TIMA_ADDR, TMA_ADDR,
};

fn run_steps(gb: &mut GameBoy, steps: usize) {
    for _ in 0..steps {
        gb.step().expect("instruction should execute");
    }
}

#[test]
fn decodes_all_base_and_cb_opcodes() {
    let illegal = [
        0xD3, 0xDB, 0xDD, 0xE3, 0xE4, 0xEB, 0xEC, 0xED, 0xF4, 0xFC, 0xFD,
    ];

    for opcode in 0u8..=0xFF {
        let mut gb = GameBoy::with_program(0x0000, &[opcode, 0x00, 0x00, 0x00]);
        gb.bus.write_byte(IE_ADDR, 0);
        gb.bus.write_byte(IF_ADDR, 0);
        gb.cpu.pc = 0;

        let result = gb.step();
        if illegal.contains(&opcode) {
            assert!(
                matches!(result, Err(EmuError::IllegalOpcode(op)) if op == opcode),
                "opcode 0x{:02X} should be illegal",
                opcode
            );
        } else {
            assert!(result.is_ok(), "opcode 0x{:02X} should decode", opcode);
        }
    }

    for cb_opcode in 0u8..=0xFF {
        let mut gb = GameBoy::with_program(0x0000, &[0xCB, cb_opcode, 0x00]);
        gb.cpu.pc = 0;
        let result = gb.step();
        assert!(
            result.is_ok(),
            "CB opcode 0x{:02X} should decode and execute",
            cb_opcode
        );
    }
}

#[test]
fn executes_arithmetic_and_cb_flag_logic() {
    let program = [
        0x3E, 0x15, // LD A, 0x15
        0xC6, 0x27, // ADD A, 0x27
        0x27, // DAA -> 0x42
        0xCB, 0x37, // SWAP A -> 0x24
        0xCB, 0x47, // BIT 0, A -> Z set
        0xCB, 0xC7, // SET 0, A -> A = 0x25
    ];

    let mut gb = GameBoy::with_program(0x0000, &program);
    run_steps(&mut gb, 6);

    assert_eq!(gb.cpu.regs.a, 0x25);
    assert!(!gb.cpu.regs.flag_n());
    assert!(gb.cpu.regs.flag_h());
    assert!(gb.cpu.regs.flag_z());
}

#[test]
fn daa_handles_add_sub_and_carry_edge_cases() {
    // (a, flags, expected_a, expected_z, expected_n, expected_h, expected_c)
    let cases: [(u8, u8, u8, bool, bool, bool, bool); 7] = [
        (0x42, 0, 0x42, false, false, false, false),
        (0x3C, FLAG_H, 0x42, false, false, false, false),
        (0xA0, 0, 0x00, true, false, false, true),
        (0x9A, FLAG_H | FLAG_C, 0x00, true, false, false, true),
        (0x13, FLAG_N | FLAG_H, 0x0D, false, true, false, false),
        (0x40, FLAG_N | FLAG_C, 0xE0, false, true, false, true),
        (0x73, FLAG_N | FLAG_H | FLAG_C, 0x0D, false, true, false, true),
    ];

    for (a, flags, expected_a, expected_z, expected_n, expected_h, expected_c) in cases {
        let mut gb = GameBoy::with_program(0x0000, &[0x27]); // DAA
        gb.cpu.regs.a = a;
        gb.cpu.regs.f = flags;

        gb.step().expect("DAA should execute");

        assert_eq!(
            gb.cpu.regs.a, expected_a,
            "DAA A result mismatch for input A=0x{:02X}, F=0x{:02X}",
            a, flags
        );
        assert_eq!(gb.cpu.regs.flag_z(), expected_z);
        assert_eq!(gb.cpu.regs.flag_n(), expected_n);
        assert_eq!(gb.cpu.regs.flag_h(), expected_h);
        assert_eq!(gb.cpu.regs.flag_c(), expected_c);
    }
}

#[test]
fn services_interrupts_with_priority_and_reti() {
    let mut gb = GameBoy::with_program(0x0000, &[0x00, 0x00, 0x00]);
    gb.bus.load_bytes(0x0040, &[0xD9]); // RETI at VBlank vector
    gb.cpu.ime = true;
    gb.bus.write_byte(IE_ADDR, INTERRUPT_VBLANK | INTERRUPT_TIMER);
    gb.bus.write_byte(IF_ADDR, INTERRUPT_VBLANK | INTERRUPT_TIMER);

    let cycles = gb.step().expect("interrupt should be serviced");
    assert_eq!(cycles, 20);
    assert_eq!(gb.cpu.pc, 0x0040);
    assert_eq!(gb.cpu.sp, 0xFFFC);
    assert_eq!(gb.bus.read_word(0xFFFC), 0x0000);
    assert!(!gb.cpu.ime);

    let cycles = gb.step().expect("reti should run");
    assert_eq!(cycles, 16);
    assert_eq!(gb.cpu.pc, 0x0000);
    assert!(gb.cpu.ime);
}

#[test]
fn interrupt_dispatch_reacts_to_ie_writes_during_stack_push() {
    // High-byte push to IE can cancel dispatch if it disables the pending interrupt.
    let mut cancel = GameBoy::with_program(0x0200, &[0x00]);
    cancel.cpu.pc = 0x0200;
    cancel.cpu.sp = 0x0000;
    cancel.cpu.ime = true;
    cancel.bus.write_byte(IE_ADDR, INTERRUPT_TIMER);
    cancel.bus.write_byte(IF_ADDR, INTERRUPT_TIMER);
    let cycles = cancel.step().expect("interrupt dispatch should run");
    assert_eq!(cycles, 20);
    assert_eq!(cancel.cpu.pc, 0x0000);
    assert_eq!(cancel.cpu.sp, 0xFFFE);
    assert_eq!(cancel.bus.read_byte(IE_ADDR) & 0x1F, INTERRUPT_LCD);
    assert_eq!(
        cancel.bus.read_byte(IF_ADDR) & INTERRUPT_TIMER,
        INTERRUPT_TIMER
    );
    assert!(!cancel.cpu.ime);

    // Low-byte push to IE must not cancel an already selected dispatch.
    let mut no_cancel = GameBoy::with_program(0x3535, &[0x00]);
    no_cancel.cpu.pc = 0x3535;
    no_cancel.cpu.sp = 0x0001;
    no_cancel.cpu.ime = true;
    no_cancel.bus.write_byte(IE_ADDR, INTERRUPT_SERIAL);
    no_cancel.bus.write_byte(IF_ADDR, INTERRUPT_SERIAL);
    let cycles = no_cancel.step().expect("interrupt dispatch should run");
    assert_eq!(cycles, 20);
    assert_eq!(no_cancel.cpu.pc, 0x0058);
    assert_eq!(no_cancel.bus.read_byte(IF_ADDR) & INTERRUPT_SERIAL, 0);

    // High-byte push can retarget to a different pending interrupt.
    let mut retarget = GameBoy::with_program(0x0200, &[0x00]);
    retarget.cpu.pc = 0x0200;
    retarget.cpu.sp = 0x0000;
    retarget.cpu.ime = true;
    retarget
        .bus
        .write_byte(IE_ADDR, INTERRUPT_VBLANK | INTERRUPT_LCD);
    retarget
        .bus
        .write_byte(IF_ADDR, INTERRUPT_VBLANK | INTERRUPT_LCD);
    let cycles = retarget.step().expect("interrupt dispatch should run");
    assert_eq!(cycles, 20);
    assert_eq!(retarget.cpu.pc, 0x0048);
    assert_eq!(
        retarget.bus.read_byte(IF_ADDR) & INTERRUPT_VBLANK,
        INTERRUPT_VBLANK
    );
    assert_eq!(retarget.bus.read_byte(IF_ADDR) & INTERRUPT_LCD, 0);
}

#[test]
fn enables_ime_after_instruction_following_ei() {
    let mut gb = GameBoy::with_program(0x0000, &[0xFB, 0x00, 0x00]); // EI, NOP, NOP
    gb.bus.load_bytes(0x0050, &[0xD9]); // RETI for timer interrupt
    gb.bus.write_byte(IE_ADDR, INTERRUPT_TIMER);
    gb.bus.write_byte(IF_ADDR, INTERRUPT_TIMER);

    gb.step().expect("EI");
    assert!(!gb.cpu.ime);

    gb.step().expect("NOP after EI");
    assert!(gb.cpu.ime);
    assert_eq!(gb.cpu.pc, 0x0002);

    gb.step()
        .expect("interrupt should preempt instruction fetch");
    assert_eq!(gb.cpu.pc, 0x0050);
}

#[test]
fn timer_ticks_and_overflow_reload_request_interrupt() {
    let mut bus = Bus::default();
    bus.write_byte(TAC_ADDR, 0b101); // enable, clock=16 cycles
    bus.write_byte(TIMA_ADDR, 0x00);

    bus.tick(16);
    assert_eq!(bus.read_byte(TIMA_ADDR), 0x01);

    bus.write_byte(TIMA_ADDR, 0xFF);
    bus.write_byte(TMA_ADDR, 0xAC);
    bus.write_byte(IF_ADDR, 0x00);

    bus.tick(16);
    assert_eq!(bus.read_byte(TIMA_ADDR), 0x00);
    assert_eq!(bus.read_byte(IF_ADDR) & INTERRUPT_TIMER, 0);

    bus.tick(4);
    assert_eq!(bus.read_byte(TIMA_ADDR), 0xAC);
    assert_ne!(bus.read_byte(IF_ADDR) & INTERRUPT_TIMER, 0);
}

#[test]
fn serial_port_capture_records_transfer_bytes() {
    let mut bus = Bus::default();
    bus.write_byte(SB_ADDR, b'O');
    bus.write_byte(SC_ADDR, 0x81);
    bus.write_byte(SB_ADDR, b'K');
    bus.write_byte(SC_ADDR, 0x80);
    bus.write_byte(SC_ADDR, 0x81);

    assert_eq!(bus.serial_output(), b"OK");
    assert_eq!(bus.read_byte(SC_ADDR) & 0x80, 0);

    let output = bus.take_serial_output();
    assert_eq!(output.as_slice(), b"OK");
    assert!(bus.serial_output().is_empty());
}

#[test]
fn halt_idles_and_halt_bug_reuses_pc() {
    let mut halted = GameBoy::with_program(0x0000, &[0x76, 0x00]); // HALT, NOP
    halted.step().expect("HALT");
    assert!(halted.cpu.halted);
    let pc = halted.cpu.pc;
    let cycles = halted.step().expect("halted idle");
    assert_eq!(cycles, 4);
    assert_eq!(halted.cpu.pc, pc);

    let mut halt_bug = GameBoy::with_program(0x0000, &[0x76, 0x04, 0x00]); // HALT, INC B, NOP
    halt_bug.cpu.ime = false;
    halt_bug.bus.write_byte(IE_ADDR, INTERRUPT_VBLANK);
    halt_bug.bus.write_byte(IF_ADDR, INTERRUPT_VBLANK);

    halt_bug
        .step()
        .expect("HALT with pending interrupt triggers bug");
    assert!(!halt_bug.cpu.halted);
    assert_eq!(halt_bug.cpu.pc, 0x0001);

    halt_bug.step().expect("INC B with halted bug fetch");
    assert_eq!(halt_bug.cpu.regs.b, 1);
    assert_eq!(halt_bug.cpu.pc, 0x0001);

    halt_bug.step().expect("INC B fetched again");
    assert_eq!(halt_bug.cpu.regs.b, 2);
    assert_eq!(halt_bug.cpu.pc, 0x0002);
}

#[test]
fn stop_state_waits_for_interrupt_and_then_resumes() {
    let mut gb = GameBoy::with_program(0x0000, &[0x10, 0x00, 0x00]); // STOP 00, NOP
    gb.step().expect("STOP");
    assert!(gb.cpu.stopped);
    assert_eq!(gb.cpu.pc, 0x0002);

    gb.step().expect("stopped idle");
    assert_eq!(gb.cpu.pc, 0x0002);

    gb.bus.write_byte(IE_ADDR, INTERRUPT_JOYPAD);
    gb.bus.write_byte(IF_ADDR, INTERRUPT_JOYPAD);
    gb.step().expect("resume from stop");
    assert!(!gb.cpu.stopped);
    assert_eq!(gb.cpu.pc, 0x0003);
}

#[test]
fn flag_low_nibble_stays_clear_after_every_step() {
    let program = [
        0x3E, 0x0F, // LD A, 0x0F
        0xC6, 0x01, // ADD A, 1 (half carry)
        0x27, // DAA
        0x37, // SCF
        0x3F, // CCF
        0x2F, // CPL
        0xCB, 0x37, // SWAP A
        0xE8, 0x80, // ADD SP, -128
    ];
    let mut gb = GameBoy::with_program(0x0000, &program);
    for _ in 0..8 {
        gb.step().expect("step should execute");
        assert_eq!(gb.cpu.regs.f & 0x0F, 0, "flag low nibble must stay clear");
    }
}

#[test]
fn run_steps_sums_the_per_step_cycles() {
    let program = [
        0x3E, 0x15, // LD A, d8: 8 cycles
        0x00, // NOP: 4
        0xC6, 0x27, // ADD A, d8: 8
        0xCB, 0x37, // SWAP A: 8
        0x18, 0x00, // JR +0: 12
        0xCD, 0x00, 0x10, // CALL a16: 24
    ];
    let mut direct = GameBoy::with_program(0x0000, &program);
    let mut summed = GameBoy::with_program(0x0000, &program);

    let mut total = 0u64;
    for _ in 0..6 {
        total += u64::from(direct.step().expect("step should execute"));
    }
    assert_eq!(total, 8 + 4 + 8 + 8 + 12 + 24);

    let reported = summed.run_steps(6).expect("run should succeed");
    assert_eq!(reported, total);
    assert_eq!(summed.cpu.pc, direct.cpu.pc);
}

#[test]
fn run_steps_stops_at_the_first_failure() {
    let mut gb = GameBoy::with_program(0x0000, &[0x00, 0xD3, 0x00]);
    let err = gb.run_steps(3).expect_err("illegal opcode should stop the run");
    assert_eq!(err, EmuError::IllegalOpcode(0xD3));
    assert_eq!(gb.cpu.pc, 0x0002);
}

#[test]
fn tac_and_if_read_back_with_their_masks() {
    for w in [0x00u8, 0x05, 0x07, 0x3A, 0xFF] {
        let mut bus = Bus::default();
        bus.write_byte(TAC_ADDR, w);
        assert_eq!(bus.read_byte(TAC_ADDR), 0xF8 | (w & 0x07));

        let mut bus2 = Bus::default();
        bus2.write_byte(IF_ADDR, w);
        assert_eq!(bus2.read_byte(IF_ADDR), 0xE0 | (w & 0x1F));
    }
}

#[test]
fn div_write_resets_counter_and_can_tick_tima() {
    let mut bus = Bus::default();
    bus.write_byte(TAC_ADDR, 0b101); // enable, select divider bit 3
    bus.tick(8); // divider = 8: selected bit is high
    assert_eq!(bus.read_byte(TIMA_ADDR), 0x00);
    bus.write_byte(vibegb_core::DIV_ADDR, 0xAB); // reset: falling edge
    assert_eq!(bus.read_byte(TIMA_ADDR), 0x01);
    assert_eq!(bus.read_byte(vibegb_core::DIV_ADDR), 0x00);
}

#[test]
fn illegal_opcode_reports_itself() {
    let mut gb = GameBoy::with_program(0x0000, &[0xED]);
    let err = gb.step().expect_err("0xED is illegal");
    assert_eq!(err, EmuError::IllegalOpcode(0xED));
    assert_eq!(err.message(), "illegal opcode 0xED");
}

#[test]
fn sp_offset_arithmetic_sets_half_and_full_carry() {
    // ADD SP, e computes flags from unsigned low-byte arithmetic.
    let mut gb = GameBoy::with_program(0x0000, &[0xE8, 0x01]); // ADD SP, +1
    gb.cpu.sp = 0x00FF;
    gb.step().expect("ADD SP should execute");
    assert_eq!(gb.cpu.sp, 0x0100);
    assert!(!gb.cpu.regs.flag_z());
    assert!(!gb.cpu.regs.flag_n());
    assert!(gb.cpu.regs.flag_h());
    assert!(gb.cpu.regs.flag_c());

    let mut gb2 = GameBoy::with_program(0x0000, &[0xF8, 0xFF]); // LD HL, SP-1
    gb2.cpu.sp = 0x0000;
    gb2.step().expect("LD HL, SP+e should execute");
    assert_eq!(gb2.cpu.regs.hl(), 0xFFFF);
    assert!(!gb2.cpu.regs.flag_h());
    assert!(!gb2.cpu.regs.flag_c());
}
