//! The laws the machine keeps: the flag-byte invariant, 16-bit wrapping,
//! read-after-write and the echo mirror on the bus, the push/pop and
//! header-window round trips, and the involution laws of SWAP, CPL and
//! INC/DEC.

use vstd::prelude::*;

use crate::arithmetic::{spec_dec8_flags, spec_dec8_val, spec_inc8_flags, spec_inc8_val};
use crate::bits::spec_get_bit;
use crate::cartridgeheader::{
    parsed_from, spec_header_byte, valid_header_bytes, CartridgeHeader,
};
use crate::cpu::{
    exec_effect, r_ok, rp_ok, spec_wrap16, wf_instr, CPU, CpuError,
};
use crate::instructions::{
    spec_decode, spec_decode_cb, spec_decode_x0, spec_decode_x1, spec_decode_x2, spec_decode_x3,
    spec_x, spec_first_byte, spec_second_byte, Instruction, RegisterID,
};
use crate::jump::spec_jr;
use crate::memory::{spec_norm, write_effect, Memory};
use crate::shifting::{spec_cpl_val, spec_swap_val};
use crate::stack::{pushed16, spec_pop_value};

verus! {

/// The low nibble of the flag byte F is always zero, and so is the low
/// nibble of AF.
pub proof fn lemma_flag_low_nibble_zero(c: CPU)
    ensures
        c.spec_f() % 16 == 0,
        c.spec_af() % 16 == 0,
{
}

/// The four flags read back from their bits of the flag byte.
pub proof fn lemma_flag_byte_bits(c: CPU)
    ensures
        spec_get_bit(c.spec_f(), 7) == c.zero_flag,
        spec_get_bit(c.spec_f(), 6) == c.subtraction_flag,
        spec_get_bit(c.spec_f(), 5) == c.halfcarry_flag,
        spec_get_bit(c.spec_f(), 4) == c.carry_flag,
{
    if c.zero_flag && c.subtraction_flag && c.halfcarry_flag && c.carry_flag {
        assert(c.spec_f() == 240);
    }
    if c.zero_flag && c.subtraction_flag && c.halfcarry_flag && !c.carry_flag {
        assert(c.spec_f() == 224);
    }
    if c.zero_flag && c.subtraction_flag && !c.halfcarry_flag && c.carry_flag {
        assert(c.spec_f() == 208);
    }
    if c.zero_flag && c.subtraction_flag && !c.halfcarry_flag && !c.carry_flag {
        assert(c.spec_f() == 192);
    }
    if c.zero_flag && !c.subtraction_flag && c.halfcarry_flag && c.carry_flag {
        assert(c.spec_f() == 176);
    }
    if c.zero_flag && !c.subtraction_flag && c.halfcarry_flag && !c.carry_flag {
        assert(c.spec_f() == 160);
    }
    if c.zero_flag && !c.subtraction_flag && !c.halfcarry_flag && c.carry_flag {
        assert(c.spec_f() == 144);
    }
    if c.zero_flag && !c.subtraction_flag && !c.halfcarry_flag && !c.carry_flag {
        assert(c.spec_f() == 128);
    }
    if !c.zero_flag && c.subtraction_flag && c.halfcarry_flag && c.carry_flag {
        assert(c.spec_f() == 112);
    }
    if !c.zero_flag && c.subtraction_flag && c.halfcarry_flag && !c.carry_flag {
        assert(c.spec_f() == 96);
    }
    if !c.zero_flag && c.subtraction_flag && !c.halfcarry_flag && c.carry_flag {
        assert(c.spec_f() == 80);
    }
    if !c.zero_flag && c.subtraction_flag && !c.halfcarry_flag && !c.carry_flag {
        assert(c.spec_f() == 64);
    }
    if !c.zero_flag && !c.subtraction_flag && c.halfcarry_flag && c.carry_flag {
        assert(c.spec_f() == 48);
    }
    if !c.zero_flag && !c.subtraction_flag && c.halfcarry_flag && !c.carry_flag {
        assert(c.spec_f() == 32);
    }
    if !c.zero_flag && !c.subtraction_flag && !c.halfcarry_flag && c.carry_flag {
        assert(c.spec_f() == 16);
    }
    if !c.zero_flag && !c.subtraction_flag && !c.halfcarry_flag && !c.carry_flag {
        assert(c.spec_f() == 0);
    }
}

/// PC and SP arithmetic wraps modulo 2^16: every wide update goes through
/// `spec_wrap16`, which is reduction modulo 0x10000, and a relative jump
/// lands on (PC + d) mod 2^16.
pub proof fn lemma_pc_sp_wrap(v: int, c: CPU, d: i8)
    ensures
        spec_wrap16(v) == v % 0x10000,
        0 <= spec_wrap16(v) < 0x10000,
        spec_jr(c, d).pc == (c.pc + d) % 0x10000,
{
}

/// A bus write keeps every region at its hardware size.
pub proof fn lemma_write_preserves_wf(m0: Memory, m1: Memory, addr: int, v: u8)
    requires
        m0.wf(),
        write_effect(m0, addr, v, m1),
    ensures
        m1.wf(),
{
}

/// Read-after-write: a write into backing storage reads back as the written
/// byte, and a write into the ROM region (an MBC command) leaves the read at
/// that address unchanged.
pub proof fn lemma_write_then_read(m0: Memory, m1: Memory, addr: int, v: u8)
    requires
        m0.wf(),
        write_effect(m0, addr, v, m1),
    ensures
        m0.spec_writable(addr) ==> m1.spec_read(addr) == v,
        0 <= addr < 0x8000 ==> m1.spec_read(addr) == m0.spec_read(addr),
{
}

/// A write into backing storage leaves every other normalized address
/// reading what it read before, and leaves the banking controls alone.
pub proof fn lemma_write_preserves_other_reads(m0: Memory, m1: Memory, addr: int, v: u8, a: int)
    requires
        m0.wf(),
        write_effect(m0, addr, v, m1),
        spec_norm(addr) >= 0x8000,
        spec_norm(a) != spec_norm(addr),
    ensures
        m1.spec_read(a) == m0.spec_read(a),
{
}

/// Echo-RAM equivalence: an address in [0xE000, 0xFE00) reads the WRAM byte
/// 0x2000 below it, and a write to either address is the same bus write.
pub proof fn lemma_echo_ram(m: Memory, a: int, v: u8, m1: Memory)
    requires
        m.wf(),
        0xe000 <= a < 0xfe00,
    ensures
        m.spec_read(a) == m.spec_read(a - 0x2000),
        write_effect(m, a, v, m1) == write_effect(m, a - 0x2000, v, m1),
{
    assert(spec_norm(a) == spec_norm(a - 0x2000));
}

/// PUSH r16 followed by POP r16 restores the pair and SP exactly — for AF
/// because the flag byte's low nibble is zero on both sides of the trip —
/// provided the two stack bytes land in backed storage.
pub proof fn lemma_push_pop_restores(c0: CPU, m0: Memory, m1: Memory, r: RegisterID)
    requires
        m0.wf(),
        r == RegisterID::BC || r == RegisterID::DE || r == RegisterID::HL || r == RegisterID::AF,
        m0.spec_writable(spec_wrap16(c0.sp - 1) as int),
        m0.spec_writable(spec_wrap16(c0.sp - 2) as int),
        pushed16(m0, c0.sp, c0.spec_wide_value(r), m1),
    ensures
        ({
            let c1 = CPU { sp: spec_wrap16(c0.sp - 2), ..c0 };
            let popped = spec_pop_value(c1, m1);
            let c2 = match r {
                RegisterID::AF => CPU { sp: spec_wrap16(c1.sp + 2), ..c1.spec_set_af(popped) },
                _ => CPU { sp: spec_wrap16(c1.sp + 2), ..c1.spec_set_wide(r, popped) },
            };
            c2 == c0
        }),
{
    let val = c0.spec_wide_value(r);
    let a1 = spec_wrap16(c0.sp - 1) as int;
    let a2 = spec_wrap16(c0.sp - 2) as int;
    let hi = crate::cpu::spec_hi_byte(val);
    let lo = crate::cpu::spec_lo_byte(val);
    let mid = choose|mid: Memory|
        {
            &&& #[trigger] write_effect(m0, a1, hi, mid)
            &&& write_effect(mid, a2, lo, m1)
        };
    lemma_write_preserves_wf(m0, mid, a1, hi);
    lemma_write_preserves_wf(mid, m1, a2, lo);

    // The two stack slots normalize to distinct cells.
    assert(spec_norm(a1) != spec_norm(a2));

    // The bank-control state is untouched, so what was writable stays so.
    assert(mid.spec_writable(a2));
    lemma_write_then_read(mid, m1, a2, lo);
    lemma_write_then_read(m0, mid, a1, hi);
    assert(spec_norm(a1) >= 0x8000);
    lemma_write_preserves_other_reads(mid, m1, a2, lo, a1);
    assert(m1.spec_read(a1) == hi);
    assert(m1.spec_read(a2) == lo);

    let c1 = CPU { sp: spec_wrap16(c0.sp - 2), ..c0 };
    assert(spec_wrap16(c1.sp + 1) as int == a1);
    assert(c1.sp as int == a2);
    assert(spec_pop_value(c1, m1) == val);
    assert(spec_wrap16(c1.sp + 2) == c0.sp);

    if r == RegisterID::AF {
        lemma_flag_byte_bits(c0);
        assert(crate::cpu::spec_lo_byte(val) == c0.spec_f());
        assert(crate::cpu::spec_hi_byte(val) == c0.a);
    }
}

/// Header parse followed by serialization of the 80-byte window is the
/// identity on all valid headers: windows whose SGB flag, cartridge-type tag
/// and RAM-size tag are ones the parse keeps.
pub proof fn lemma_header_roundtrip(h: CartridgeHeader, data: Seq<u8>)
    requires
        valid_header_bytes(data),
        parsed_from(h, data),
    ensures
        forall|i: int| 0 <= i < 80 ==> spec_header_byte(h, i) == data[i],
{
    assert forall|i: int| 0 <= i < 80 implies spec_header_byte(h, i) == data[i] by {
        if i < 4 {
            assert(h.entry_point@[i] == data.subrange(0, 4)[i]);
        } else if i < 52 {
            assert(h.nintendo_logo@[i - 4] == data.subrange(4, 52)[i - 4]);
        } else if i < 68 {
            assert(h.title@[i - 52] == data.subrange(52, 68)[i - 52]);
        } else if i < 70 {
            assert(h.new_licensee@[i - 68] == data.subrange(68, 70)[i - 68]);
        } else if i == 78 || i == 79 {
            assert(h.global_checksum@[i - 78] == data.subrange(78, 80)[i - 78]);
        }
    }
}

/// SWAP is an involution on bytes.
pub proof fn lemma_swap_involution(b: u8)
    ensures
        spec_swap_val(spec_swap_val(b)) == b,
{
    assert(spec_swap_val(spec_swap_val(b)) == b) by (nonlinear_arith);
}

/// Two SWAPs on a plain register restore its value; the flags left behind
/// are Z from that value with N, H and C clear.
pub proof fn lemma_swap_twice(c0: CPU, m: Memory, r: RegisterID)
    requires
        CPU::is_narrow(r),
    ensures
        ({
            let v = c0.spec_r_value(m, r);
            let c1 = c0.spec_with_flags(spec_swap_val(v) == 0, false, false, false).spec_set_narrow(
                r,
                spec_swap_val(v),
            );
            let v1 = c1.spec_r_value(m, r);
            let c2 = c1.spec_with_flags(spec_swap_val(v1) == 0, false, false, false)
                .spec_set_narrow(r, spec_swap_val(v1));
            &&& c2.spec_r_value(m, r) == v
            &&& c2.zero_flag == (v == 0)
            &&& !c2.subtraction_flag
            &&& !c2.halfcarry_flag
            &&& !c2.carry_flag
        }),
{
    let v = c0.spec_r_value(m, r);
    lemma_swap_involution(v);
    assert(spec_swap_val(v) == 0 <==> v == 0) by (nonlinear_arith);
}

/// CPL twice restores the accumulator; N and H are set after each step, and
/// Z and C ride through untouched.
pub proof fn lemma_cpl_involution(c0: CPU)
    ensures
        ({
            let c1 = CPU {
                a: spec_cpl_val(c0.a),
                subtraction_flag: true,
                halfcarry_flag: true,
                ..c0
            };
            let c2 = CPU {
                a: spec_cpl_val(c1.a),
                subtraction_flag: true,
                halfcarry_flag: true,
                ..c1
            };
            &&& c2.a == c0.a
            &&& c2.subtraction_flag
            &&& c2.halfcarry_flag
            &&& c2.zero_flag == c0.zero_flag
            &&& c2.carry_flag == c0.carry_flag
            &&& c2.pc == c0.pc
            &&& c2.sp == c0.sp
        }),
{
}

/// INC r then DEC r restores the register's value; the flags after the pair
/// are Z from that value, N set, H computed on the DEC step, and C untouched
/// by both.
pub proof fn lemma_inc_dec_identity(c0: CPU, m: Memory, r: RegisterID)
    requires
        CPU::is_narrow(r),
    ensures
        ({
            let v = c0.spec_r_value(m, r);
            let c1 = spec_inc8_flags(c0, v).spec_set_narrow(r, spec_inc8_val(v));
            let v1 = c1.spec_r_value(m, r);
            let c2 = spec_dec8_flags(c1, v1).spec_set_narrow(r, spec_dec8_val(v1));
            &&& c2.spec_r_value(m, r) == v
            &&& c2.zero_flag == (v == 0)
            &&& c2.subtraction_flag
            &&& c2.halfcarry_flag == (spec_inc8_val(v) % 16 == 0)
            &&& c2.carry_flag == c0.carry_flag
        }),
{
}

/// Operands the executor accepts: what a decoded instruction's register
/// fields must be so that no decoder-contract error can come back.
pub open spec fn decoded_ok(i: Instruction) -> bool {
    match i {
        Instruction::Load16 { r, nn } => rp_ok(r),
        Instruction::Load8 { r, n } => r_ok(r),
        Instruction::LoadReg16 { r1, r2 } => {
            ||| (r1 == RegisterID::SP && r2 == RegisterID::HL)
            ||| (r1 == RegisterID::A && (r2 == RegisterID::BC || r2 == RegisterID::DE || r2
                == RegisterID::HLplus || r2 == RegisterID::HLminus))
            ||| ((r1 == RegisterID::BC || r1 == RegisterID::DE || r1 == RegisterID::HLplus || r1
                == RegisterID::HLminus) && r2 == RegisterID::A)
        },
        Instruction::LoadReg8 { r1, r2 } => r_ok(r1) && r_ok(r2),
        Instruction::StoreReg { r1, loc } => r1 == RegisterID::SP,
        Instruction::AddSigned { r, d } => r == RegisterID::SP,
        Instruction::RLC { r } => r_ok(r),
        Instruction::RRC { r } => r_ok(r),
        Instruction::RL { r } => r_ok(r),
        Instruction::RR { r } => r_ok(r),
        Instruction::SLA { r } => r_ok(r),
        Instruction::SRA { r } => r_ok(r),
        Instruction::SWAP { r } => r_ok(r),
        Instruction::SRL { r } => r_ok(r),
        Instruction::BIT { y, r } => r_ok(r) && y < 8,
        Instruction::RES { y, r } => r_ok(r) && y < 8,
        Instruction::SET { y, r } => r_ok(r) && y < 8,
        Instruction::INC8b { r } => r_ok(r),
        Instruction::DEC8b { r } => r_ok(r),
        Instruction::INC16b { r } => rp_ok(r),
        Instruction::DEC16b { r } => rp_ok(r),
        Instruction::AddHLAndR16 { r } => rp_ok(r),
        Instruction::POP { r } => r == RegisterID::BC || r == RegisterID::DE || r
            == RegisterID::HL || r == RegisterID::AF,
        Instruction::PUSH { r } => r == RegisterID::BC || r == RegisterID::DE || r
            == RegisterID::HL || r == RegisterID::AF,
        Instruction::AddRegister { r } => r_ok(r),
        Instruction::AdcRegister { r } => r_ok(r),
        Instruction::SubRegister { r } => r_ok(r),
        Instruction::SbcRegister { r } => r_ok(r),
        Instruction::AndRegister { r } => r_ok(r),
        Instruction::XorRegister { r } => r_ok(r),
        Instruction::OrRegister { r } => r_ok(r),
        Instruction::CpRegister { r } => r_ok(r),
        _ => true,
    }
}

/// Decode is total and feeds the executor only operands it accepts: every
/// register field a decoded instruction carries comes out of the r, rp, rp2
/// or cc tables, and every bit index is below eight.
pub proof fn lemma_decode_operands_accepted(bytes: u32)
    ensures
        decoded_ok(spec_decode(bytes)),
        wf_instr(spec_decode(bytes)),
{
    if spec_first_byte(bytes) == 0xcb {
        assert(decoded_ok(spec_decode_cb(spec_second_byte(bytes))));
    } else {
        let x = spec_x(spec_first_byte(bytes));
        if x == 0 {
            assert(decoded_ok(spec_decode_x0(bytes)));
        } else if x == 1 {
            assert(decoded_ok(spec_decode_x1(bytes)));
        } else if x == 2 {
            assert(decoded_ok(spec_decode_x2(bytes)));
        } else {
            assert(decoded_ok(spec_decode_x3(bytes)));
        }
    }
}

/// The executor is exhaustive on decoded instructions: with operands the
/// decoder produces, the only failing execution is the encoded-illegal
/// opcode. Every other instruction's effect resolves with Ok.
pub proof fn lemma_executor_total_on_decoded(
    c0: CPU,
    m0: Memory,
    instr: Instruction,
    c1: CPU,
    m1: Memory,
    res: Result<(), CpuError>,
)
    requires
        decoded_ok(instr),
        instr != Instruction::ILLEGAL,
        exec_effect(c0, m0, instr, c1, m1, res),
    ensures
        res is Ok,
{
    reveal(exec_effect);
}

} // verus!
