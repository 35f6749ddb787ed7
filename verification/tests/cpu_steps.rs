use gbcore::cpu::{CpuError, CPU};
use gbcore::instructions::RegisterID;
use gbcore::memory::Memory;

/// A 32 KiB ROM_ONLY cartridge with `program` placed at the entry point
/// 0x0100, and a CPU started there.
fn boot(program: &[u8]) -> (CPU, Memory) {
    let mut rom = vec![0u8; 0x8000];
    for (i, &b) in program.iter().enumerate() {
        rom[0x0100 + i] = b;
    }
    let mem = Memory::from(rom).unwrap();
    let cpu = CPU::new(0x0100, false, 0);
    (cpu, mem)
}

fn step(cpu: &mut CPU, mem: &mut Memory) {
    cpu.fetch_decode_execute(mem).unwrap();
}

#[test]
fn nop_loop_termination() {
    let (mut cpu, mut mem) = boot(&[0x00, 0x00, 0xc3, 0x00, 0x01]);
    step(&mut cpu, &mut mem);
    assert_eq!(cpu.pc, 0x0101);
    step(&mut cpu, &mut mem);
    assert_eq!(cpu.pc, 0x0102);
    step(&mut cpu, &mut mem); // JP 0x0100 loops back to the start
    assert_eq!(cpu.pc, 0x0100);
}

#[test]
fn add_immediate_flag_set() {
    // LD A, 0x0F; ADD A, 0x01
    let (mut cpu, mut mem) = boot(&[0x3e, 0x0f, 0xc6, 0x01]);
    step(&mut cpu, &mut mem);
    step(&mut cpu, &mut mem);
    assert_eq!(cpu.a, 0x10);
    assert!(!cpu.zero_flag);
    assert!(!cpu.subtraction_flag);
    assert!(cpu.halfcarry_flag);
    assert!(!cpu.carry_flag);
    assert_eq!(cpu.pc, 0x0104);
}

#[test]
fn load_immediate_16bit() {
    // LD HL, 0x1234
    let (mut cpu, mut mem) = boot(&[0x21, 0x34, 0x12]);
    step(&mut cpu, &mut mem);
    assert_eq!(cpu.hl(), 0x1234);
    assert_eq!(cpu.pc, 0x0103);
}

#[test]
fn stack_push_pop_roundtrip() {
    // LD BC, 0xBEEF; PUSH BC; LD BC, 0x0000; POP BC
    let (mut cpu, mut mem) = boot(&[0x01, 0xef, 0xbe, 0xc5, 0x01, 0x00, 0x00, 0xc1]);
    cpu.sp = 0xfffe;
    step(&mut cpu, &mut mem);
    assert_eq!(cpu.bc(), 0xbeef);
    step(&mut cpu, &mut mem);
    assert_eq!(cpu.sp, 0xfffc);
    step(&mut cpu, &mut mem);
    assert_eq!(cpu.bc(), 0x0000);
    step(&mut cpu, &mut mem);
    assert_eq!(cpu.bc(), 0xbeef);
    assert_eq!(cpu.sp, 0xfffe);
}

#[test]
fn push_pop_af_masks_low_nibble() {
    // LD BC, 0x12FF; PUSH BC; POP AF; PUSH AF; POP DE
    let (mut cpu, mut mem) = boot(&[0x01, 0xff, 0x12, 0xc5, 0xf1, 0xf5, 0xd1]);
    cpu.sp = 0xfffe;
    for _ in 0..4 {
        step(&mut cpu, &mut mem);
    }
    // POP AF dropped the pushed low nibble, so AF reads 0x12F0...
    assert_eq!(cpu.af(), 0x12f0);
    step(&mut cpu, &mut mem);
    // ...and pushing AF back gives the masked value.
    assert_eq!(cpu.de(), 0x12f0);
    assert_eq!(cpu.sp, 0xfffe);
}

#[test]
fn conditional_jump_taken() {
    // XOR A, A sets Z; JR Z, +4 jumps from the post-instruction PC 0x0103.
    let (mut cpu, mut mem) = boot(&[0xaf, 0x28, 0x04]);
    step(&mut cpu, &mut mem);
    assert_eq!(cpu.a, 0);
    assert!(cpu.zero_flag);
    step(&mut cpu, &mut mem);
    assert_eq!(cpu.pc, 0x0107);
}

#[test]
fn conditional_jump_not_taken() {
    // INC A clears Z; JR Z, +4 falls through.
    let (mut cpu, mut mem) = boot(&[0x3c, 0x28, 0x04]);
    step(&mut cpu, &mut mem);
    step(&mut cpu, &mut mem);
    assert_eq!(cpu.pc, 0x0103);
}

#[test]
fn illegal_opcode() {
    let (mut cpu, mut mem) = boot(&[0xd3]);
    let r = cpu.fetch_decode_execute(&mut mem);
    assert_eq!(r, Err(CpuError::IllegalInstruction { pc: 0x0100 }));
    assert_eq!(cpu.pc, 0x0100);
}

#[test]
fn fetch_outside_cartridge_window() {
    let (mut cpu, mut mem) = boot(&[]);
    cpu.pc = 0x8000;
    let r = cpu.fetch_decode_execute(&mut mem);
    assert_eq!(r, Err(CpuError::FetchError { pc: 0x8000 }));
    assert_eq!(cpu.pc, 0x8000);
}

#[test]
fn ld_rp_nn_all_pairs_and_extremes() {
    for &(op, nn) in &[
        (0x01u8, 0x0000u16),
        (0x01, 0xffff),
        (0x11, 0x0000),
        (0x11, 0xffff),
        (0x21, 0x0000),
        (0x21, 0xffff),
        (0x31, 0x0000),
        (0x31, 0xffff),
    ] {
        let (mut cpu, mut mem) = boot(&[op, (nn % 256) as u8, (nn / 256) as u8]);
        step(&mut cpu, &mut mem);
        let got = match op {
            0x01 => cpu.bc(),
            0x11 => cpu.de(),
            0x21 => cpu.hl(),
            _ => cpu.sp,
        };
        assert_eq!(got, nn);
        assert_eq!(cpu.pc, 0x0103);
    }
}

#[test]
fn jr_extreme_displacements() {
    // JR +127 from 0x0100: 0x0102 + 127
    let (mut cpu, mut mem) = boot(&[0x18, 0x7f]);
    step(&mut cpu, &mut mem);
    assert_eq!(cpu.pc, 0x0181);

    // JR -128 from 0x0100: 0x0102 - 128
    let (mut cpu2, mut mem2) = boot(&[0x18, 0x80]);
    step(&mut cpu2, &mut mem2);
    assert_eq!(cpu2.pc, 0x0082);
}

#[test]
fn pc_and_sp_wrap_modulo_2_16() {
    // JR -3 from PC 0x0000 wraps to the top of the address space.
    let (mut cpu, mut mem) = boot(&[]);
    let mut rom = vec![0u8; 0x8000];
    rom[0] = 0x18;
    rom[1] = 0xfd; // JR -3
    mem = Memory::from(rom).unwrap();
    cpu.pc = 0x0000;
    step(&mut cpu, &mut mem);
    assert_eq!(cpu.pc, 0xffff);

    // PUSH BC at SP 0x0001 wraps SP below zero.
    let (mut cpu2, mut mem2) = boot(&[0xc5]);
    cpu2.sp = 0x0001;
    step(&mut cpu2, &mut mem2);
    assert_eq!(cpu2.sp, 0xffff);
}

#[test]
fn add_a_n_boundary() {
    // LD A, 0xFF; ADD A, 0x01 sets Z, H, C; result 0x00.
    let (mut cpu, mut mem) = boot(&[0x3e, 0xff, 0xc6, 0x01]);
    step(&mut cpu, &mut mem);
    step(&mut cpu, &mut mem);
    assert_eq!(cpu.a, 0x00);
    assert!(cpu.zero_flag);
    assert!(!cpu.subtraction_flag);
    assert!(cpu.halfcarry_flag);
    assert!(cpu.carry_flag);
}

#[test]
fn sub_a_n_boundary() {
    // LD A, 0x00; SUB A, 0x01 sets N, H, C; result 0xFF; Z clear.
    let (mut cpu, mut mem) = boot(&[0x3e, 0x00, 0xd6, 0x01]);
    step(&mut cpu, &mut mem);
    step(&mut cpu, &mut mem);
    assert_eq!(cpu.a, 0xff);
    assert!(!cpu.zero_flag);
    assert!(cpu.subtraction_flag);
    assert!(cpu.halfcarry_flag);
    assert!(cpu.carry_flag);
}

#[test]
fn add_hl_hl_boundary() {
    // LD HL, 0x8000; ADD HL, HL sets C, clears H; result 0x0000; Z untouched.
    let (mut cpu, mut mem) = boot(&[0x21, 0x00, 0x80, 0x29]);
    step(&mut cpu, &mut mem);
    step(&mut cpu, &mut mem);
    assert_eq!(cpu.hl(), 0x0000);
    assert!(cpu.carry_flag);
    assert!(!cpu.halfcarry_flag);
    assert!(!cpu.subtraction_flag);
    assert!(!cpu.zero_flag); // untouched from reset
}

#[test]
fn flag_byte_low_nibble_always_zero() {
    // After every step of a flag-heavy program, F's low nibble stays zero.
    let program = [
        0x3e, 0xff, // LD A, 0xFF
        0xc6, 0x01, // ADD A, 0x01
        0x2f, // CPL
        0x37, // SCF
        0x3f, // CCF
        0x07, // RLCA
        0xd6, 0x05, // SUB A, 0x05
    ];
    let (mut cpu, mut mem) = boot(&program);
    for _ in 0..7 {
        step(&mut cpu, &mut mem);
        assert_eq!(cpu.f() % 16, 0);
        assert_eq!(cpu.af() % 16, 0);
    }
}

#[test]
fn swap_twice_is_identity() {
    // LD A, 0x5A; SWAP A; SWAP A (CB 37)
    let (mut cpu, mut mem) = boot(&[0x3e, 0x5a, 0xcb, 0x37, 0xcb, 0x37]);
    step(&mut cpu, &mut mem);
    step(&mut cpu, &mut mem);
    assert_eq!(cpu.a, 0xa5);
    step(&mut cpu, &mut mem);
    assert_eq!(cpu.a, 0x5a);
    assert!(!cpu.zero_flag);
    assert!(!cpu.subtraction_flag);
    assert!(!cpu.halfcarry_flag);
    assert!(!cpu.carry_flag);
}

#[test]
fn cpl_twice_is_identity() {
    let (mut cpu, mut mem) = boot(&[0x3e, 0x3c, 0x2f, 0x2f]);
    step(&mut cpu, &mut mem);
    step(&mut cpu, &mut mem);
    assert_eq!(cpu.a, 0xc3);
    assert!(cpu.subtraction_flag);
    assert!(cpu.halfcarry_flag);
    step(&mut cpu, &mut mem);
    assert_eq!(cpu.a, 0x3c);
    assert!(cpu.subtraction_flag);
    assert!(cpu.halfcarry_flag);
}

#[test]
fn inc_then_dec_is_identity_on_value() {
    // LD A, 0x2F; INC A; DEC A
    let (mut cpu, mut mem) = boot(&[0x3e, 0x2f, 0x3c, 0x3d]);
    step(&mut cpu, &mut mem);
    step(&mut cpu, &mut mem);
    assert_eq!(cpu.a, 0x30);
    assert!(cpu.halfcarry_flag); // INC out of low nibble 0xF
    step(&mut cpu, &mut mem);
    assert_eq!(cpu.a, 0x2f);
    assert!(!cpu.zero_flag);
    assert!(cpu.subtraction_flag);
    assert!(cpu.halfcarry_flag); // DEC of 0x30 borrows out of the low nibble
    assert!(!cpu.carry_flag); // untouched by INC and DEC
}

#[test]
fn inc_dec_leave_carry_alone() {
    // SCF; INC B; DEC B
    let (mut cpu, mut mem) = boot(&[0x37, 0x04, 0x05]);
    for _ in 0..3 {
        step(&mut cpu, &mut mem);
        assert!(cpu.carry_flag);
    }
    assert_eq!(cpu.b, 0);
    assert!(cpu.zero_flag);
}

#[test]
fn daa_adjusts_bcd_addition() {
    // LD A, 0x45; ADD A, 0x38; DAA: 45 + 38 = 83 in BCD.
    let (mut cpu, mut mem) = boot(&[0x3e, 0x45, 0xc6, 0x38, 0x27]);
    step(&mut cpu, &mut mem);
    step(&mut cpu, &mut mem);
    assert_eq!(cpu.a, 0x7d);
    step(&mut cpu, &mut mem);
    assert_eq!(cpu.a, 0x83);
    assert!(!cpu.carry_flag);
    assert!(!cpu.halfcarry_flag);
}

#[test]
fn ld_hl_plus_and_minus_move_hl() {
    // LD HL, 0xC000; LD (HL+), A; LD (HL-), A
    let (mut cpu, mut mem) = boot(&[0x21, 0x00, 0xc0, 0x22, 0x32]);
    cpu.a = 0x42;
    step(&mut cpu, &mut mem);
    step(&mut cpu, &mut mem);
    assert_eq!(cpu.hl(), 0xc001);
    assert_eq!(mem.read_byte(0xc000), 0x42);
    step(&mut cpu, &mut mem);
    assert_eq!(cpu.hl(), 0xc000);
    assert_eq!(mem.read_byte(0xc001), 0x42);
}

#[test]
fn call_and_ret_roundtrip() {
    // CALL 0x0180; at 0x0180 a RET comes back to 0x0103.
    let mut program = vec![0xcd, 0x80, 0x01];
    program.resize(0x81, 0x00);
    program[0x80] = 0xc9; // RET at 0x0180
    let (mut cpu, mut mem) = boot(&program);
    cpu.sp = 0xfffe;
    step(&mut cpu, &mut mem);
    assert_eq!(cpu.pc, 0x0180);
    assert_eq!(cpu.sp, 0xfffc);
    step(&mut cpu, &mut mem);
    assert_eq!(cpu.pc, 0x0103);
    assert_eq!(cpu.sp, 0xfffe);
}

#[test]
fn rst_pushes_and_vectors() {
    let (mut cpu, mut mem) = boot(&[0xef]); // RST 0x28
    cpu.sp = 0xfffe;
    step(&mut cpu, &mut mem);
    assert_eq!(cpu.pc, 0x0028);
    assert_eq!(cpu.sp, 0xfffc);
    assert_eq!(mem.read_byte(0xfffd), 0x01);
    assert_eq!(mem.read_byte(0xfffc), 0x01); // pushed return address 0x0101
}

#[test]
fn zero_page_loads_and_stores() {
    // LD A, 0x99; LDH (0x80), A; LD A, 0x00; LDH A, (0x80)
    let (mut cpu, mut mem) = boot(&[0x3e, 0x99, 0xe0, 0x80, 0x3e, 0x00, 0xf0, 0x80]);
    for _ in 0..4 {
        step(&mut cpu, &mut mem);
    }
    assert_eq!(mem.read_byte(0xff80), 0x99);
    assert_eq!(cpu.a, 0x99);
}

#[test]
fn store_sp_little_endian() {
    // LD SP, 0xBEEF... via field, then LD (nn), SP at 0xC100
    let (mut cpu, mut mem) = boot(&[0x08, 0x00, 0xc1]);
    cpu.sp = 0xbeef;
    step(&mut cpu, &mut mem);
    assert_eq!(mem.read_byte(0xc100), 0xef);
    assert_eq!(mem.read_byte(0xc101), 0xbe);
}

#[test]
fn bit_res_set_operations() {
    // LD A, 0x00; BIT 7,A (Z set); SET 7,A; BIT 7,A (Z clear); RES 7,A
    let program = [0x3e, 0x00, 0xcb, 0x7f, 0xcb, 0xff, 0xcb, 0x7f, 0xcb, 0xbf];
    let (mut cpu, mut mem) = boot(&program);
    step(&mut cpu, &mut mem);
    step(&mut cpu, &mut mem);
    assert!(cpu.zero_flag);
    assert!(cpu.halfcarry_flag);
    step(&mut cpu, &mut mem);
    assert_eq!(cpu.a, 0x80);
    step(&mut cpu, &mut mem);
    assert!(!cpu.zero_flag);
    step(&mut cpu, &mut mem);
    assert_eq!(cpu.a, 0x00);
}

#[test]
fn ei_enables_after_one_instruction() {
    let (mut cpu, mut mem) = boot(&[0xfb, 0x00, 0x00]); // EI; NOP; NOP
    step(&mut cpu, &mut mem);
    assert!(!cpu.interrupts_enabled());
    step(&mut cpu, &mut mem);
    assert!(cpu.interrupts_enabled());
}

#[test]
fn di_disables_immediately() {
    let (mut cpu, mut mem) = boot(&[0xf3]);
    let mut cpu2 = CPU::new(0x0100, true, 0);
    assert!(cpu2.interrupts_enabled());
    step(&mut cpu2, &mut mem);
    assert!(!cpu2.interrupts_enabled());
    let _ = cpu;
}

#[test]
fn interrupt_service_vectors_and_clears_if() {
    let (_, mut mem) = boot(&[0x00]);
    let mut cpu = CPU::new(0x0100, true, 0);
    cpu.sp = 0xfffe;
    mem.write_byte(0xffff, 0x01); // enable VBlank in IE
    mem.request_interrupt(0); // latch VBlank in IF
    step(&mut cpu, &mut mem);
    assert_eq!(cpu.pc, 0x0040);
    assert_eq!(cpu.sp, 0xfffc);
    assert!(!cpu.interrupts_enabled());
    assert_eq!(mem.read_byte(0xff0f), 0x00); // serviced bit cleared
    assert_eq!(mem.read_byte(0xfffd), 0x01);
    assert_eq!(mem.read_byte(0xfffc), 0x00); // pushed PC 0x0100
}

#[test]
fn halt_idles_until_interrupt_pending() {
    let (mut cpu, mut mem) = boot(&[0x76, 0x00]); // HALT; NOP
    step(&mut cpu, &mut mem);
    assert!(cpu.halted);
    let pc = cpu.pc;
    step(&mut cpu, &mut mem);
    assert_eq!(cpu.pc, pc); // idempotent while nothing is pending
    mem.write_byte(0xffff, 0x04);
    mem.request_interrupt(2);
    step(&mut cpu, &mut mem); // wakes
    assert!(!cpu.halted);
    assert_eq!(cpu.pc, pc);
}

#[test]
fn executor_rejects_wide_operand_in_r_table() {
    let (mut cpu, mut mem) = boot(&[0x00]);
    let r = cpu.add_register(RegisterID::BC, &mem);
    assert_eq!(
        r,
        Err(CpuError::ReadingFromInvalidReg {
            r: RegisterID::BC,
            pc: 0x0100
        })
    );
    let r2 = cpu.load_immediate16(RegisterID::A, 5);
    assert_eq!(
        r2,
        Err(CpuError::ReadingIntoInvalidReg {
            r: RegisterID::A,
            pc: 0x0100
        })
    );
    let _ = &mut mem;
}

#[test]
fn alu_register_operand_through_hl() {
    // LD HL, 0xC050; LD (HL), 0x07; LD A, 0x08; ADD A, (HL)
    let (mut cpu, mut mem) = boot(&[0x21, 0x50, 0xc0, 0x36, 0x07, 0x3e, 0x08, 0x86]);
    for _ in 0..4 {
        step(&mut cpu, &mut mem);
    }
    assert_eq!(cpu.a, 0x0f);
    assert!(!cpu.carry_flag);
    assert!(!cpu.halfcarry_flag);
}

#[test]
fn rotates_on_accumulator_clear_zero_flag() {
    // LD A, 0x80; RLCA -> A=0x01, C=1, Z=0
    let (mut cpu, mut mem) = boot(&[0x3e, 0x80, 0x07]);
    step(&mut cpu, &mut mem);
    step(&mut cpu, &mut mem);
    assert_eq!(cpu.a, 0x01);
    assert!(cpu.carry_flag);
    assert!(!cpu.zero_flag);
}

#[test]
fn daa_adjusts_bcd_subtraction() {
    // LD A, 0x42; SUB A, 0x09; DAA: 42 - 09 = 33 in BCD.
    let (mut cpu, mut mem) = boot(&[0x3e, 0x42, 0xd6, 0x09, 0x27]);
    step(&mut cpu, &mut mem);
    step(&mut cpu, &mut mem);
    assert_eq!(cpu.a, 0x39);
    assert!(cpu.subtraction_flag);
    assert!(cpu.halfcarry_flag);
    step(&mut cpu, &mut mem);
    assert_eq!(cpu.a, 0x33);
    assert!(!cpu.carry_flag);
}

#[test]
fn stop_idles_until_joypad_interrupt() {
    let (mut cpu, mut mem) = boot(&[0x10, 0x00]);
    step(&mut cpu, &mut mem);
    assert!(cpu.stopped);
    let pc = cpu.pc;
    step(&mut cpu, &mut mem);
    assert!(cpu.stopped);
    assert_eq!(cpu.pc, pc);
    mem.request_interrupt(4); // joypad
    step(&mut cpu, &mut mem);
    assert!(!cpu.stopped);
}

#[test]
fn absolute_loads_and_stores() {
    // LD A, 0x77; LD (0xC234), A; LD A, 0x00; LD A, (0xC234)
    let program = [0x3e, 0x77, 0xea, 0x34, 0xc2, 0x3e, 0x00, 0xfa, 0x34, 0xc2];
    let (mut cpu, mut mem) = boot(&program);
    for _ in 0..4 {
        step(&mut cpu, &mut mem);
    }
    assert_eq!(mem.read_byte(0xc234), 0x77);
    assert_eq!(cpu.a, 0x77);
}

#[test]
fn io_port_loads_through_register_c() {
    // LD C, 0x42; LD A, 0x9A; LD (0xFF00+C), A; LD A, (0xFF00+C)
    let program = [0x0e, 0x42, 0x3e, 0x9a, 0xe2, 0xf2];
    let (mut cpu, mut mem) = boot(&program);
    for _ in 0..3 {
        step(&mut cpu, &mut mem);
    }
    assert_eq!(mem.read_byte(0xff42), 0x9a);
    cpu.a = 0;
    step(&mut cpu, &mut mem);
    assert_eq!(cpu.a, 0x9a);
}

#[test]
fn conditional_call_and_ret() {
    // SCF; CALL C, 0x0180; at 0x0180: RET NC (not taken); RET C (taken)
    let mut program = vec![0x37, 0xdc, 0x80, 0x01];
    program.resize(0x82, 0x00);
    program[0x80] = 0xd0; // RET NC
    program[0x81] = 0xd8; // RET C
    let (mut cpu, mut mem) = boot(&program);
    cpu.sp = 0xfffe;
    step(&mut cpu, &mut mem);
    step(&mut cpu, &mut mem);
    assert_eq!(cpu.pc, 0x0180);
    step(&mut cpu, &mut mem); // RET NC falls through
    assert_eq!(cpu.pc, 0x0181);
    step(&mut cpu, &mut mem); // RET C returns
    assert_eq!(cpu.pc, 0x0104);
    assert_eq!(cpu.sp, 0xfffe);
}

#[test]
fn conditional_call_not_taken() {
    // CALL C, nn with carry clear falls through without pushing.
    let (mut cpu, mut mem) = boot(&[0xdc, 0x80, 0x01]);
    cpu.sp = 0xfffe;
    step(&mut cpu, &mut mem);
    assert_eq!(cpu.pc, 0x0103);
    assert_eq!(cpu.sp, 0xfffe);
}

#[test]
fn ld_sp_hl_and_jp_hl() {
    // LD HL, 0x0123; LD SP, HL; JP HL
    let (mut cpu, mut mem) = boot(&[0x21, 0x23, 0x01, 0xf9, 0xe9]);
    step(&mut cpu, &mut mem);
    step(&mut cpu, &mut mem);
    assert_eq!(cpu.sp, 0x0123);
    step(&mut cpu, &mut mem);
    assert_eq!(cpu.pc, 0x0123);
}

#[test]
fn ld_hl_sp_plus_d_flags() {
    // LD HL, SP+1 with SP = 0x00FF carries out of both nibble and byte.
    let (mut cpu, mut mem) = boot(&[0xf8, 0x01]);
    cpu.sp = 0x00ff;
    step(&mut cpu, &mut mem);
    assert_eq!(cpu.hl(), 0x0100);
    assert!(!cpu.zero_flag);
    assert!(!cpu.subtraction_flag);
    assert!(cpu.halfcarry_flag);
    assert!(cpu.carry_flag);
    assert_eq!(cpu.sp, 0x00ff); // SP itself is untouched
}

#[test]
fn add_sp_signed_displacement() {
    // ADD SP, -2 from 0x0001 wraps; H and C come from the low-byte addition.
    let (mut cpu, mut mem) = boot(&[0xe8, 0xfe]);
    cpu.sp = 0x0001;
    step(&mut cpu, &mut mem);
    assert_eq!(cpu.sp, 0xffff);
    assert!(!cpu.zero_flag);
    assert!(!cpu.subtraction_flag);
    // low byte: 0x01 + 0xFE = 0xFF, no carries
    assert!(!cpu.halfcarry_flag);
    assert!(!cpu.carry_flag);
}

#[test]
fn cb_shifts_on_memory_operand() {
    // LD HL, 0xC080; LD (HL), 0x81; SLA (HL); SRL (HL)
    let program = [0x21, 0x80, 0xc0, 0x36, 0x81, 0xcb, 0x26, 0xcb, 0x3e];
    let (mut cpu, mut mem) = boot(&program);
    for _ in 0..3 {
        step(&mut cpu, &mut mem);
    }
    assert_eq!(mem.read_byte(0xc080), 0x02); // 0x81 << 1
    assert!(cpu.carry_flag); // bit 7 rotated out
    step(&mut cpu, &mut mem);
    assert_eq!(mem.read_byte(0xc080), 0x01);
    assert!(!cpu.carry_flag);
}

#[test]
fn rotate_through_carry_chain() {
    // SCF; LD A, 0x80; RRA: carry enters bit 7, bit 0 leaves clear.
    let (mut cpu, mut mem) = boot(&[0x37, 0x3e, 0x80, 0x1f]);
    for _ in 0..3 {
        step(&mut cpu, &mut mem);
    }
    assert_eq!(cpu.a, 0xc0);
    assert!(!cpu.carry_flag);
}
