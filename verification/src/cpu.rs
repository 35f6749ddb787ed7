//! The Sharp LR35902 register file and the fetch-decode-execute engine.
//!
//! Registers are held as 8-bit halves and the four condition flags as
//! booleans, so the flag byte's low nibble is zero by construction.

use vstd::prelude::*;

use crate::arithmetic::{
    spec_add_hl, spec_add_sp, spec_dec8_flags, spec_dec8_val, spec_inc8_flags, spec_inc8_val,
    spec_logical_a, LogicalOp,
};
use crate::bits::{clear_bit, get_bit, spec_clear_bit, spec_get_bit};
use crate::checks::{spec_add_a, spec_cp_a, spec_sub_a};
use crate::instructions::{
    spec_decode, spec_instr_len, FlagID, Instruction, RegisterID,
};
use crate::jump::spec_jr;
use crate::load::{spec_ld_hl_sp_d, stored16};
use crate::memory::{write_effect, Memory};
use crate::shifting::{
    spec_cpl_val, spec_daa, spec_rl_val, spec_rlc_val, spec_rr_val, spec_rrc_val, spec_sla_val,
    spec_sra_val, spec_srl_val, spec_swap_val,
};
use crate::stack::{pushed16, spec_pop_value};

verus! {

/// The interrupt-master-enable state machine: DI forces the first state,
/// EI passes through the pending state for one instruction, RETI and the
/// instruction-boundary tick reach the last.
#[derive(Debug, Clone, Copy, PartialEq, Eq)]
pub enum ImeState {
    DisabledImmediate,
    EnablePending,
    Enabled,
}

/// Why a step failed: a fetch outside the cartridge window, an
/// encoded-illegal opcode, a decoder operand naming a register the
/// executor cannot use, or a computed address outside the bus.
#[derive(Debug, Clone, Copy, PartialEq, Eq)]
pub enum CpuError {
    FetchError { pc: u16 },
    IllegalInstruction { pc: u16 },
    ReadingIntoInvalidReg { r: RegisterID, pc: u16 },
    ReadingFromInvalidReg { r: RegisterID, pc: u16 },
    IndexOutOfBounds { index: usize, pc: u16 },
}

/// The CPU state: eight 8-bit registers (F kept as four flag booleans),
/// SP, PC, the IME state machine, and the HALT/STOP pauses.
#[derive(Debug, Clone, Copy, PartialEq, Eq)]
pub struct CPU {
    pub a: u8,
    pub b: u8,
    pub c: u8,
    pub d: u8,
    pub e: u8,
    pub h: u8,
    pub l: u8,

    pub zero_flag: bool,
    pub subtraction_flag: bool,
    pub halfcarry_flag: bool,
    pub carry_flag: bool,

    pub sp: u16,
    pub pc: u16,

    pub ime: ImeState,
    pub halted: bool,
    pub stopped: bool,
}

/// The high byte of a 16-bit word.
pub open spec fn spec_hi_byte(x: u16) -> u8 {
    (x / 0x100) as u8
}

/// The low byte of a 16-bit word.
pub open spec fn spec_lo_byte(x: u16) -> u8 {
    (x % 0x100) as u8
}

/// A 16-bit value reduced modulo 2^16, for PC and SP arithmetic that wraps.
pub open spec fn spec_wrap16(v: int) -> u16 {
    (v % 0x10000) as u16
}

pub fn hi_byte(x: u16) -> (b: u8)
    ensures
        b == spec_hi_byte(x),
{
    (x / 0x100) as u8
}

pub fn lo_byte(x: u16) -> (b: u8)
    ensures
        b == spec_lo_byte(x),
{
    (x % 0x100) as u8
}

impl CPU {
    /// The flag byte: Z, N, H, C in bits 7..4, low nibble zero.
    pub open spec fn spec_f(self) -> u8 {
        ((if self.zero_flag {
            0x80int
        } else {
            0
        }) + (if self.subtraction_flag {
            0x40int
        } else {
            0
        }) + (if self.halfcarry_flag {
            0x20int
        } else {
            0
        }) + (if self.carry_flag {
            0x10int
        } else {
            0
        })) as u8
    }

    pub open spec fn spec_af(self) -> u16 {
        (self.a as int * 0x100 + self.spec_f() as int) as u16
    }

    pub open spec fn spec_bc(self) -> u16 {
        (self.b as int * 0x100 + self.c as int) as u16
    }

    pub open spec fn spec_de(self) -> u16 {
        (self.d as int * 0x100 + self.e as int) as u16
    }

    pub open spec fn spec_hl(self) -> u16 {
        (self.h as int * 0x100 + self.l as int) as u16
    }

    /// The condition a cc operand tests.
    pub open spec fn spec_condition(self, f: FlagID) -> bool {
        match f {
            FlagID::NZ => !self.zero_flag,
            FlagID::Z => self.zero_flag,
            FlagID::NC => !self.carry_flag,
            FlagID::C => self.carry_flag,
        }
    }

    /// The wide value an rp-style operand names; the HL spellings all read
    /// HL, the 8-bit names read their register zero-extended.
    pub open spec fn spec_wide_value(self, r: RegisterID) -> u16 {
        match r {
            RegisterID::AF => self.spec_af(),
            RegisterID::BC => self.spec_bc(),
            RegisterID::DE => self.spec_de(),
            RegisterID::HL | RegisterID::HLplus | RegisterID::HLminus | RegisterID::HLaddress
                => self.spec_hl(),
            RegisterID::SP => self.sp,
            RegisterID::A => self.a as u16,
            RegisterID::B => self.b as u16,
            RegisterID::C => self.c as u16,
            RegisterID::D => self.d as u16,
            RegisterID::E => self.e as u16,
            RegisterID::H => self.h as u16,
            RegisterID::L => self.l as u16,
        }
    }

    /// Whether `r` is one of the plain 8-bit registers of the r table.
    pub open spec fn is_narrow(r: RegisterID) -> bool {
        r == RegisterID::A || r == RegisterID::B || r == RegisterID::C || r == RegisterID::D || r
            == RegisterID::E || r == RegisterID::H || r == RegisterID::L
    }

    /// The byte an r-table operand names: a plain register, or the byte at
    /// memory[HL].
    pub open spec fn spec_r_value(self, m: Memory, r: RegisterID) -> u8 {
        match r {
            RegisterID::A => self.a,
            RegisterID::B => self.b,
            RegisterID::C => self.c,
            RegisterID::D => self.d,
            RegisterID::E => self.e,
            RegisterID::H => self.h,
            RegisterID::L => self.l,
            RegisterID::HLaddress => m.spec_read(self.spec_hl() as int),
            _ => 0,
        }
    }

    /// This CPU with one plain 8-bit register replaced.
    pub open spec fn spec_set_narrow(self, r: RegisterID, val: u8) -> CPU {
        match r {
            RegisterID::A => CPU { a: val, ..self },
            RegisterID::B => CPU { b: val, ..self },
            RegisterID::C => CPU { c: val, ..self },
            RegisterID::D => CPU { d: val, ..self },
            RegisterID::E => CPU { e: val, ..self },
            RegisterID::H => CPU { h: val, ..self },
            RegisterID::L => CPU { l: val, ..self },
            _ => self,
        }
    }

    /// This CPU with one rp-table pair replaced (BC, DE, HL by halves,
    /// SP whole).
    pub open spec fn spec_set_wide(self, r: RegisterID, val: u16) -> CPU {
        match r {
            RegisterID::BC => CPU { b: spec_hi_byte(val), c: spec_lo_byte(val), ..self },
            RegisterID::DE => CPU { d: spec_hi_byte(val), e: spec_lo_byte(val), ..self },
            RegisterID::HL => CPU { h: spec_hi_byte(val), l: spec_lo_byte(val), ..self },
            RegisterID::SP => CPU { sp: val, ..self },
            _ => self,
        }
    }

    /// This CPU with AF replaced: A from the high byte, the four flags from
    /// bits 7..4 of the low byte, whose low nibble is discarded.
    pub open spec fn spec_set_af(self, val: u16) -> CPU {
        let lo = spec_lo_byte(val);
        CPU {
            a: spec_hi_byte(val),
            zero_flag: spec_get_bit(lo, 7),
            subtraction_flag: spec_get_bit(lo, 6),
            halfcarry_flag: spec_get_bit(lo, 5),
            carry_flag: spec_get_bit(lo, 4),
            ..self
        }
    }

    /// This CPU with all four flags replaced.
    pub open spec fn spec_with_flags(self, z: bool, n: bool, hc: bool, cy: bool) -> CPU {
        CPU { zero_flag: z, subtraction_flag: n, halfcarry_flag: hc, carry_flag: cy, ..self }
    }
}

/// The one step every "write the result to r[z]" instruction shares: a plain
/// register of `c0` is replaced, or the byte at memory[HL] is written through
/// the bus while the CPU stays `c0`.
pub open spec fn assign_r(c0: CPU, m0: Memory, r: RegisterID, val: u8, c1: CPU, m1: Memory) -> bool {
    if CPU::is_narrow(r) {
        c1 == c0.spec_set_narrow(r, val) && m1 == m0
    } else if r == RegisterID::HLaddress {
        c1 == c0 && crate::memory::write_effect(m0, c0.spec_hl() as int, val, m1)
    } else {
        false
    }
}

impl CPU {
    /// A CPU at the power-up hand-off: every register zero but the
    /// accumulator, flags clear, execution starting at `initial_pc`.
    pub fn new(initial_pc: u16, initial_ime: bool, initial_a: u8) -> (cpu: CPU)
        ensures
            cpu == (CPU {
                a: initial_a,
                b: 0,
                c: 0,
                d: 0,
                e: 0,
                h: 0,
                l: 0,
                zero_flag: false,
                subtraction_flag: false,
                halfcarry_flag: false,
                carry_flag: false,
                sp: 0,
                pc: initial_pc,
                ime: if initial_ime {
                    ImeState::Enabled
                } else {
                    ImeState::DisabledImmediate
                },
                halted: false,
                stopped: false,
            }),
    {
        CPU {
            a: initial_a,
            b: 0,
            c: 0,
            d: 0,
            e: 0,
            h: 0,
            l: 0,
            zero_flag: false,
            subtraction_flag: false,
            halfcarry_flag: false,
            carry_flag: false,
            sp: 0,
            pc: initial_pc,
            ime: if initial_ime {
                ImeState::Enabled
            } else {
                ImeState::DisabledImmediate
            },
            halted: false,
            stopped: false,
        }
    }

    /// The flag byte F. Its low nibble is always zero.
    pub fn f(&self) -> (flags: u8)
        ensures
            flags == self.spec_f(),
            flags % 16 == 0,
    {
        let mut flags: u8 = 0;
        if self.zero_flag {
            flags = flags + 0x80;
        }
        if self.subtraction_flag {
            flags = flags + 0x40;
        }
        if self.halfcarry_flag {
            flags = flags + 0x20;
        }
        if self.carry_flag {
            flags = flags + 0x10;
        }
        flags
    }

    pub fn af(&self) -> (v: u16)
        ensures
            v == self.spec_af(),
    {
        (self.a as u16) * 0x100 + (self.f() as u16)
    }

    pub fn bc(&self) -> (v: u16)
        ensures
            v == self.spec_bc(),
    {
        (self.b as u16) * 0x100 + (self.c as u16)
    }

    pub fn de(&self) -> (v: u16)
        ensures
            v == self.spec_de(),
    {
        (self.d as u16) * 0x100 + (self.e as u16)
    }

    pub fn hl(&self) -> (v: u16)
        ensures
            v == self.spec_hl(),
    {
        (self.h as u16) * 0x100 + (self.l as u16)
    }

    /// Whether the interrupt-master-enable is on right now.
    pub fn interrupts_enabled(&self) -> (on: bool)
        ensures
            on == (self.ime == ImeState::Enabled),
    {
        match self.ime {
            ImeState::Enabled => true,
            _ => false,
        }
    }

    /// Whether condition `f` holds of the current flags.
    pub fn condition_holds(&self, f: FlagID) -> (holds: bool)
        ensures
            holds == self.spec_condition(f),
    {
        match f {
            FlagID::NZ => !self.zero_flag,
            FlagID::Z => self.zero_flag,
            FlagID::NC => !self.carry_flag,
            FlagID::C => self.carry_flag,
        }
    }

    /// The wide value an operand names, as the 16-bit loads use it.
    pub fn registerid_to_u16(&self, r: RegisterID) -> (v: u16)
        ensures
            v == self.spec_wide_value(r),
    {
        match r {
            RegisterID::AF => self.af(),
            RegisterID::BC => self.bc(),
            RegisterID::DE => self.de(),
            RegisterID::HL | RegisterID::HLplus | RegisterID::HLminus | RegisterID::HLaddress => {
                self.hl()
            },
            RegisterID::SP => self.sp,
            RegisterID::A => self.a as u16,
            RegisterID::B => self.b as u16,
            RegisterID::C => self.c as u16,
            RegisterID::D => self.d as u16,
            RegisterID::E => self.e as u16,
            RegisterID::H => self.h as u16,
            RegisterID::L => self.l as u16,
        }
    }

    /// Read an rp-table pair; any other operand is a decoder contract
    /// violation.
    pub fn rp_table_lookup(&self, r: RegisterID) -> (v: Result<u16, CpuError>)
        ensures
            match r {
                RegisterID::BC => v == Ok::<u16, CpuError>(self.spec_bc()),
                RegisterID::DE => v == Ok::<u16, CpuError>(self.spec_de()),
                RegisterID::HL => v == Ok::<u16, CpuError>(self.spec_hl()),
                RegisterID::SP => v == Ok::<u16, CpuError>(self.sp),
                _ => v == Err::<u16, CpuError>(
                    CpuError::ReadingFromInvalidReg { r, pc: self.pc },
                ),
            },
    {
        match r {
            RegisterID::BC => Ok(self.bc()),
            RegisterID::DE => Ok(self.de()),
            RegisterID::HL => Ok(self.hl()),
            RegisterID::SP => Ok(self.sp),
            _ => Err(CpuError::ReadingFromInvalidReg { r, pc: self.pc }),
        }
    }

    /// Write an rp-table pair; any other operand is a decoder contract
    /// violation.
    pub fn rp_table_assign(&mut self, r: RegisterID, val: u16) -> (res: Result<(), CpuError>)
        ensures
            match r {
                RegisterID::BC | RegisterID::DE | RegisterID::HL | RegisterID::SP => {
                    &&& res == Ok::<(), CpuError>(())
                    &&& *final(self) == old(self).spec_set_wide(r, val)
                },
                _ => {
                    &&& res == Err::<(), CpuError>(
                        CpuError::ReadingIntoInvalidReg { r, pc: old(self).pc },
                    )
                    &&& *final(self) == *old(self)
                },
            },
    {
        match r {
            RegisterID::BC => {
                self.b = hi_byte(val);
                self.c = lo_byte(val);
            },
            RegisterID::DE => {
                self.d = hi_byte(val);
                self.e = lo_byte(val);
            },
            RegisterID::HL => {
                self.h = hi_byte(val);
                self.l = lo_byte(val);
            },
            RegisterID::SP => {
                self.sp = val;
            },
            _ => {
                return Err(CpuError::ReadingIntoInvalidReg { r, pc: self.pc });
            },
        }
        Ok(())
    }

    /// Read an r-table operand: a plain register, or the byte at memory[HL].
    pub fn r_table_lookup(&self, r: RegisterID, mem: &Memory) -> (v: Result<u8, CpuError>)
        requires
            mem.wf(),
        ensures
            if CPU::is_narrow(r) || r == RegisterID::HLaddress {
                v == Ok::<u8, CpuError>(self.spec_r_value(*mem, r))
            } else {
                v == Err::<u8, CpuError>(CpuError::ReadingFromInvalidReg { r, pc: self.pc })
            },
    {
        match r {
            RegisterID::A => Ok(self.a),
            RegisterID::B => Ok(self.b),
            RegisterID::C => Ok(self.c),
            RegisterID::D => Ok(self.d),
            RegisterID::E => Ok(self.e),
            RegisterID::H => Ok(self.h),
            RegisterID::L => Ok(self.l),
            RegisterID::HLaddress => Ok(mem.read_byte(self.hl() as usize)),
            _ => Err(CpuError::ReadingFromInvalidReg { r, pc: self.pc }),
        }
    }

    /// Write an r-table operand: a plain register, or the byte at memory[HL]
    /// through the bus.
    pub fn r_table_assign(&mut self, r: RegisterID, val: u8, mem: &mut Memory) -> (res: Result<
        (),
        CpuError,
    >)
        requires
            old(mem).wf(),
        ensures
            final(mem).wf(),
            if CPU::is_narrow(r) || r == RegisterID::HLaddress {
                &&& res == Ok::<(), CpuError>(())
                &&& assign_r(*old(self), *old(mem), r, val, *final(self), *final(mem))
            } else {
                &&& res == Err::<(), CpuError>(
                    CpuError::ReadingIntoInvalidReg { r, pc: old(self).pc },
                )
                &&& *final(self) == *old(self)
                &&& *final(mem) == *old(mem)
            },
    {
        match r {
            RegisterID::A => self.a = val,
            RegisterID::B => self.b = val,
            RegisterID::C => self.c = val,
            RegisterID::D => self.d = val,
            RegisterID::E => self.e = val,
            RegisterID::H => self.h = val,
            RegisterID::L => self.l = val,
            RegisterID::HLaddress => {
                let addr = self.hl();
                mem.write_byte(addr as usize, val);
            },
            _ => {
                return Err(CpuError::ReadingIntoInvalidReg { r, pc: self.pc });
            },
        }
        Ok(())
    }

    /// Replace the accumulator.
    pub fn set_register_a(&mut self, new_val: u8)
        ensures
            *final(self) == old(self).spec_set_narrow(RegisterID::A, new_val),
    {
        self.a = new_val;
    }

    pub fn set_carry_flag_on(&mut self)
        ensures
            *final(self) == (CPU { carry_flag: true, ..*old(self) }),
    {
        self.carry_flag = true;
    }

    pub fn set_carry_flag_off(&mut self)
        ensures
            *final(self) == (CPU { carry_flag: false, ..*old(self) }),
    {
        self.carry_flag = false;
    }

    pub fn complement_carry_flag(&mut self)
        ensures
            *final(self) == (CPU { carry_flag: !old(self).carry_flag, ..*old(self) }),
    {
        self.carry_flag = !self.carry_flag;
    }

    pub fn set_zero_flag_on(&mut self)
        ensures
            *final(self) == (CPU { zero_flag: true, ..*old(self) }),
    {
        self.zero_flag = true;
    }

    pub fn set_zero_flag_off(&mut self)
        ensures
            *final(self) == (CPU { zero_flag: false, ..*old(self) }),
    {
        self.zero_flag = false;
    }

    pub fn set_halfcarry_flag_on(&mut self)
        ensures
            *final(self) == (CPU { halfcarry_flag: true, ..*old(self) }),
    {
        self.halfcarry_flag = true;
    }

    pub fn set_halfcarry_flag_off(&mut self)
        ensures
            *final(self) == (CPU { halfcarry_flag: false, ..*old(self) }),
    {
        self.halfcarry_flag = false;
    }

    pub fn set_subtraction_flag_on(&mut self)
        ensures
            *final(self) == (CPU { subtraction_flag: true, ..*old(self) }),
    {
        self.subtraction_flag = true;
    }

    pub fn set_subtraction_flag_off(&mut self)
        ensures
            *final(self) == (CPU { subtraction_flag: false, ..*old(self) }),
    {
        self.subtraction_flag = false;
    }

    /// Clear all four flags.
    pub fn reset_flags(&mut self)
        ensures
            *final(self) == old(self).spec_with_flags(false, false, false, false),
    {
        self.zero_flag = false;
        self.subtraction_flag = false;
        self.halfcarry_flag = false;
        self.carry_flag = false;
    }
}

/// Decoded instructions keep their bit-field operands in range; only the
/// single-bit operations carry one.
pub open spec fn wf_instr(instr: Instruction) -> bool {
    match instr {
        Instruction::BIT { y, r } => y < 8,
        Instruction::RES { y, r } => y < 8,
        Instruction::SET { y, r } => y < 8,
        _ => true,
    }
}

/// What EI does to the interrupt-master-enable machine: only the disabled
/// state moves to pending; enabling is never undone by EI.
pub open spec fn spec_ei_state(s: ImeState) -> ImeState {
    match s {
        ImeState::DisabledImmediate => ImeState::EnablePending,
        _ => s,
    }
}

/// An r-table operand is one the executor accepts.
pub open spec fn r_ok(r: RegisterID) -> bool {
    CPU::is_narrow(r) || r == RegisterID::HLaddress
}

/// An rp-table operand is one the executor accepts.
pub open spec fn rp_ok(r: RegisterID) -> bool {
    r == RegisterID::BC || r == RegisterID::DE || r == RegisterID::HL || r == RegisterID::SP
}

/// The state is unchanged and the step failed because operand `r` cannot be
/// read: a decoder contract violation.
pub open spec fn eff_err_from(
    c0: CPU,
    m0: Memory,
    r: RegisterID,
    c1: CPU,
    m1: Memory,
    res: Result<(), CpuError>,
) -> bool {
    &&& res == Err::<(), CpuError>(CpuError::ReadingFromInvalidReg { r, pc: c0.pc })
    &&& c1 == c0
    &&& m1 == m0
}

/// The state is unchanged and the step failed because operand `r` cannot be
/// written: a decoder contract violation.
pub open spec fn eff_err_into(
    c0: CPU,
    m0: Memory,
    r: RegisterID,
    c1: CPU,
    m1: Memory,
    res: Result<(), CpuError>,
) -> bool {
    &&& res == Err::<(), CpuError>(CpuError::ReadingIntoInvalidReg { r, pc: c0.pc })
    &&& c1 == c0
    &&& m1 == m0
}

/// The instruction succeeded, left memory alone, and turned the CPU into
/// `target`.
pub open spec fn eff_pure(
    m0: Memory,
    c1: CPU,
    m1: Memory,
    res: Result<(), CpuError>,
    target: CPU,
) -> bool {
    &&& res is Ok
    &&& m1 == m0
    &&& c1 == target
}

/// A read-modify-write on r[z]: with a readable operand the flags become
/// those of `flagged` and `out` is assigned back through `assign_r`;
/// otherwise the read is refused.
pub open spec fn eff_rmw(
    c0: CPU,
    m0: Memory,
    r: RegisterID,
    flagged: CPU,
    out: u8,
    c1: CPU,
    m1: Memory,
    res: Result<(), CpuError>,
) -> bool {
    if r_ok(r) {
        res is Ok && assign_r(flagged, m0, r, out, c1, m1)
    } else {
        eff_err_from(c0, m0, r, c1, m1, res)
    }
}

/// An ALU step whose operand is r[z]: with a readable operand the CPU
/// becomes `target` and memory is untouched; otherwise the read is refused.
pub open spec fn eff_alu_r(
    c0: CPU,
    m0: Memory,
    r: RegisterID,
    target: CPU,
    c1: CPU,
    m1: Memory,
    res: Result<(), CpuError>,
) -> bool {
    if r_ok(r) {
        res is Ok && m1 == m0 && c1 == target
    } else {
        eff_err_from(c0, m0, r, c1, m1, res)
    }
}

/// A step on an rp-table pair: with a valid pair the CPU becomes `target`
/// and memory is untouched; otherwise the pair is refused.
pub open spec fn eff_rp(
    c0: CPU,
    m0: Memory,
    r: RegisterID,
    target: CPU,
    c1: CPU,
    m1: Memory,
    res: Result<(), CpuError>,
) -> bool {
    if rp_ok(r) {
        res is Ok && m1 == m0 && c1 == target
    } else {
        eff_err_from(c0, m0, r, c1, m1, res)
    }
}

/// A push of `val` with control continuing at `newpc`: SP moves down two and
/// the value sits below the old SP.
pub open spec fn eff_push(
    c0: CPU,
    m0: Memory,
    val: u16,
    newpc: u16,
    c1: CPU,
    m1: Memory,
    res: Result<(), CpuError>,
) -> bool {
    &&& res is Ok
    &&& c1 == (CPU { pc: newpc, sp: spec_wrap16(c0.sp - 2), ..c0 })
    &&& pushed16(m0, c0.sp, val, m1)
}

/// One bus write of `v` at `addr`, the CPU untouched.
pub open spec fn eff_store(
    c0: CPU,
    m0: Memory,
    addr: int,
    v: u8,
    c1: CPU,
    m1: Memory,
    res: Result<(), CpuError>,
) -> bool {
    &&& res is Ok
    &&& c1 == c0
    &&& write_effect(m0, addr, v, m1)
}

/// LD rp[p], nn; loading AF masks the flag byte's low nibble.
pub open spec fn eff_load16(
    c0: CPU,
    m0: Memory,
    r: RegisterID,
    nn: u16,
    c1: CPU,
    m1: Memory,
    res: Result<(), CpuError>,
) -> bool {
    match r {
        RegisterID::BC | RegisterID::DE | RegisterID::HL | RegisterID::SP => {
            eff_pure(m0, c1, m1, res, c0.spec_set_wide(r, nn))
        },
        RegisterID::AF => eff_pure(m0, c1, m1, res, c0.spec_set_af(nn)),
        _ => eff_err_into(c0, m0, r, c1, m1, res),
    }
}

/// LD r[y], n.
pub open spec fn eff_load8(
    c0: CPU,
    m0: Memory,
    r: RegisterID,
    n: u8,
    c1: CPU,
    m1: Memory,
    res: Result<(), CpuError>,
) -> bool {
    if r_ok(r) {
        res is Ok && assign_r(c0, m0, r, n, c1, m1)
    } else {
        eff_err_into(c0, m0, r, c1, m1, res)
    }
}

/// LD r[y], r[z].
pub open spec fn eff_loadreg8(
    c0: CPU,
    m0: Memory,
    r1: RegisterID,
    r2: RegisterID,
    c1: CPU,
    m1: Memory,
    res: Result<(), CpuError>,
) -> bool {
    if r_ok(r2) {
        if r_ok(r1) {
            res is Ok && assign_r(c0, m0, r1, c0.spec_r_value(m0, r2), c1, m1)
        } else {
            eff_err_into(c0, m0, r1, c1, m1, res)
        }
    } else {
        eff_err_from(c0, m0, r2, c1, m1, res)
    }
}

/// The 16-bit transfer family: LD SP, HL and the accumulator moves through
/// (BC), (DE), (HL+) and (HL-).
pub open spec fn eff_loadreg16(
    c0: CPU,
    m0: Memory,
    r1: RegisterID,
    r2: RegisterID,
    c1: CPU,
    m1: Memory,
    res: Result<(), CpuError>,
) -> bool {
    match r1 {
        RegisterID::SP => eff_pure(m0, c1, m1, res, CPU { sp: c0.spec_wide_value(r2), ..c0 }),
        RegisterID::A => match r2 {
            RegisterID::BC => eff_pure(
                m0,
                c1,
                m1,
                res,
                c0.spec_set_narrow(RegisterID::A, m0.spec_read(c0.spec_bc() as int)),
            ),
            RegisterID::DE => eff_pure(
                m0,
                c1,
                m1,
                res,
                c0.spec_set_narrow(RegisterID::A, m0.spec_read(c0.spec_de() as int)),
            ),
            RegisterID::HLplus => eff_pure(
                m0,
                c1,
                m1,
                res,
                CPU {
                    a: m0.spec_read(c0.spec_hl() as int),
                    ..c0.spec_set_wide(RegisterID::HL, spec_wrap16(c0.spec_hl() + 1))
                },
            ),
            RegisterID::HLminus => eff_pure(
                m0,
                c1,
                m1,
                res,
                CPU {
                    a: m0.spec_read(c0.spec_hl() as int),
                    ..c0.spec_set_wide(RegisterID::HL, spec_wrap16(c0.spec_hl() - 1))
                },
            ),
            _ => eff_err_from(c0, m0, r2, c1, m1, res),
        },
        RegisterID::BC => eff_store(c0, m0, c0.spec_bc() as int, c0.a, c1, m1, res),
        RegisterID::DE => eff_store(c0, m0, c0.spec_de() as int, c0.a, c1, m1, res),
        RegisterID::HLplus => {
            &&& res is Ok
            &&& c1 == c0.spec_set_wide(RegisterID::HL, spec_wrap16(c0.spec_hl() + 1))
            &&& write_effect(m0, c0.spec_hl() as int, c0.a, m1)
        },
        RegisterID::HLminus => {
            &&& res is Ok
            &&& c1 == c0.spec_set_wide(RegisterID::HL, spec_wrap16(c0.spec_hl() - 1))
            &&& write_effect(m0, c0.spec_hl() as int, c0.a, m1)
        },
        _ => eff_err_into(c0, m0, r1, c1, m1, res),
    }
}

/// POP rp2[p]; popping into AF masks the flag byte's low nibble.
pub open spec fn eff_pop(
    c0: CPU,
    m0: Memory,
    r: RegisterID,
    c1: CPU,
    m1: Memory,
    res: Result<(), CpuError>,
) -> bool {
    match r {
        RegisterID::BC | RegisterID::DE | RegisterID::HL => eff_pure(
            m0,
            c1,
            m1,
            res,
            CPU { sp: spec_wrap16(c0.sp + 2), ..c0.spec_set_wide(r, spec_pop_value(c0, m0)) },
        ),
        RegisterID::AF => eff_pure(
            m0,
            c1,
            m1,
            res,
            CPU { sp: spec_wrap16(c0.sp + 2), ..c0.spec_set_af(spec_pop_value(c0, m0)) },
        ),
        _ => eff_err_into(c0, m0, r, c1, m1, res),
    }
}

/// Exactly what one executed instruction does to the CPU and the bus. The
/// pre-state `c0` already has PC advanced past the instruction bytes; the
/// error cases are the executor's decoder-contract violations.
#[verifier::opaque]
pub open spec fn exec_effect(
    c0: CPU,
    m0: Memory,
    instr: Instruction,
    c1: CPU,
    m1: Memory,
    res: Result<(), CpuError>,
) -> bool {
    match instr {
        Instruction::NOP => eff_pure(m0, c1, m1, res, c0),
        Instruction::STOP => eff_pure(m0, c1, m1, res, CPU { stopped: true, ..c0 }),
        Instruction::HALT => eff_pure(m0, c1, m1, res, CPU { halted: true, ..c0 }),
        Instruction::ILLEGAL => {
            &&& res == Err::<(), CpuError>(CpuError::IllegalInstruction { pc: c0.pc })
            &&& c1 == c0
            &&& m1 == m0
        },
        Instruction::Load16 { r, nn } => eff_load16(c0, m0, r, nn, c1, m1, res),
        Instruction::Load8 { r, n } => eff_load8(c0, m0, r, n, c1, m1, res),
        Instruction::LoadReg16 { r1, r2 } => eff_loadreg16(c0, m0, r1, r2, c1, m1, res),
        Instruction::LoadReg8 { r1, r2 } => eff_loadreg8(c0, m0, r1, r2, c1, m1, res),
        Instruction::LoadSPToHLWithOffset { d } => eff_pure(
            m0,
            c1,
            m1,
            res,
            spec_ld_hl_sp_d(c0, d),
        ),
        Instruction::LoadFF00PlusC => eff_pure(
            m0,
            c1,
            m1,
            res,
            c0.spec_set_narrow(RegisterID::A, m0.spec_read(0xff00 + c0.c as int)),
        ),
        Instruction::LoadFF00PlusImmediate { n } => eff_pure(
            m0,
            c1,
            m1,
            res,
            c0.spec_set_narrow(RegisterID::A, m0.spec_read(0xff00 + n as int)),
        ),
        Instruction::LoadAddress { loc } => eff_pure(
            m0,
            c1,
            m1,
            res,
            c0.spec_set_narrow(RegisterID::A, m0.spec_read(loc as int)),
        ),
        Instruction::StoreFF00Plus { r, n } => eff_store(
            c0,
            m0,
            0xff00 + n as int,
            c0.a,
            c1,
            m1,
            res,
        ),
        Instruction::StoreReg { r1, loc } => {
            if r1 == RegisterID::SP {
                res is Ok && c1 == c0 && stored16(m0, loc, c0.sp, m1)
            } else {
                eff_err_from(c0, m0, r1, c1, m1, res)
            }
        },
        Instruction::StoreImmediate { loc } => eff_store(c0, m0, loc as int, c0.a, c1, m1, res),
        Instruction::StoreFF00PlusC => eff_store(
            c0,
            m0,
            0xff00 + c0.c as int,
            c0.a,
            c1,
            m1,
            res,
        ),
        Instruction::Jump { nn } => eff_pure(m0, c1, m1, res, CPU { pc: nn, ..c0 }),
        Instruction::JumpConditional { f, nn } => eff_pure(
            m0,
            c1,
            m1,
            res,
            if c0.spec_condition(f) {
                CPU { pc: nn, ..c0 }
            } else {
                c0
            },
        ),
        Instruction::JR { d } => eff_pure(m0, c1, m1, res, spec_jr(c0, d)),
        Instruction::JumpRegConditional { f, d } => eff_pure(
            m0,
            c1,
            m1,
            res,
            if c0.spec_condition(f) {
                spec_jr(c0, d)
            } else {
                c0
            },
        ),
        Instruction::JumpToHL => eff_pure(m0, c1, m1, res, CPU { pc: c0.spec_hl(), ..c0 }),
        Instruction::RLC { r } => {
            let v = c0.spec_r_value(m0, r);
            eff_rmw(
                c0,
                m0,
                r,
                c0.spec_with_flags(spec_rlc_val(v) == 0, false, false, v >= 128),
                spec_rlc_val(v),
                c1,
                m1,
                res,
            )
        },
        Instruction::RRC { r } => {
            let v = c0.spec_r_value(m0, r);
            eff_rmw(
                c0,
                m0,
                r,
                c0.spec_with_flags(spec_rrc_val(v) == 0, false, false, v % 2 == 1),
                spec_rrc_val(v),
                c1,
                m1,
                res,
            )
        },
        Instruction::RL { r } => {
            let v = c0.spec_r_value(m0, r);
            let out = spec_rl_val(v, c0.carry_flag);
            eff_rmw(
                c0,
                m0,
                r,
                c0.spec_with_flags(out == 0, false, false, v >= 128),
                out,
                c1,
                m1,
                res,
            )
        },
        Instruction::RR { r } => {
            let v = c0.spec_r_value(m0, r);
            let out = spec_rr_val(v, c0.carry_flag);
            eff_rmw(
                c0,
                m0,
                r,
                c0.spec_with_flags(out == 0, false, false, v % 2 == 1),
                out,
                c1,
                m1,
                res,
            )
        },
        Instruction::SLA { r } => {
            let v = c0.spec_r_value(m0, r);
            eff_rmw(
                c0,
                m0,
                r,
                c0.spec_with_flags(spec_sla_val(v) == 0, false, false, v >= 128),
                spec_sla_val(v),
                c1,
                m1,
                res,
            )
        },
        Instruction::SRA { r } => {
            let v = c0.spec_r_value(m0, r);
            eff_rmw(
                c0,
                m0,
                r,
                c0.spec_with_flags(spec_sra_val(v) == 0, false, false, v % 2 == 1),
                spec_sra_val(v),
                c1,
                m1,
                res,
            )
        },
        Instruction::SWAP { r } => {
            let v = c0.spec_r_value(m0, r);
            eff_rmw(
                c0,
                m0,
                r,
                c0.spec_with_flags(spec_swap_val(v) == 0, false, false, false),
                spec_swap_val(v),
                c1,
                m1,
                res,
            )
        },
        Instruction::SRL { r } => {
            let v = c0.spec_r_value(m0, r);
            eff_rmw(
                c0,
                m0,
                r,
                c0.spec_with_flags(spec_srl_val(v) == 0, false, false, v % 2 == 1),
                spec_srl_val(v),
                c1,
                m1,
                res,
            )
        },
        Instruction::BIT { y, r } => {
            let v = c0.spec_r_value(m0, r);
            eff_alu_r(
                c0,
                m0,
                r,
                c0.spec_with_flags(!spec_get_bit(v, y as int), false, true, c0.carry_flag),
                c1,
                m1,
                res,
            )
        },
        Instruction::RES { y, r } => {
            let v = c0.spec_r_value(m0, r);
            eff_rmw(c0, m0, r, c0, spec_clear_bit(v, y as int), c1, m1, res)
        },
        Instruction::SET { y, r } => {
            let v = c0.spec_r_value(m0, r);
            eff_rmw(c0, m0, r, c0, crate::bits::spec_set_bit(v, y as int), c1, m1, res)
        },
        Instruction::AddSigned { r, d } => {
            if r == RegisterID::SP {
                eff_pure(m0, c1, m1, res, spec_add_sp(c0, d))
            } else {
                eff_err_into(c0, m0, r, c1, m1, res)
            }
        },
        Instruction::DEC8b { r } => {
            let v = c0.spec_r_value(m0, r);
            eff_rmw(c0, m0, r, spec_dec8_flags(c0, v), spec_dec8_val(v), c1, m1, res)
        },
        Instruction::INC8b { r } => {
            let v = c0.spec_r_value(m0, r);
            eff_rmw(c0, m0, r, spec_inc8_flags(c0, v), spec_inc8_val(v), c1, m1, res)
        },
        Instruction::DEC16b { r } => eff_rp(
            c0,
            m0,
            r,
            c0.spec_set_wide(r, spec_wrap16(c0.spec_wide_value(r) - 1)),
            c1,
            m1,
            res,
        ),
        Instruction::INC16b { r } => eff_rp(
            c0,
            m0,
            r,
            c0.spec_set_wide(r, spec_wrap16(c0.spec_wide_value(r) + 1)),
            c1,
            m1,
            res,
        ),
        Instruction::AddHLAndR16 { r } => eff_rp(
            c0,
            m0,
            r,
            spec_add_hl(c0, c0.spec_wide_value(r)),
            c1,
            m1,
            res,
        ),
        Instruction::RLCA => eff_pure(
            m0,
            c1,
            m1,
            res,
            CPU { a: spec_rlc_val(c0.a), ..c0.spec_with_flags(false, false, false, c0.a >= 128) },
        ),
        Instruction::RRCA => eff_pure(
            m0,
            c1,
            m1,
            res,
            CPU {
                a: spec_rrc_val(c0.a),
                ..c0.spec_with_flags(false, false, false, c0.a % 2 == 1)
            },
        ),
        Instruction::RLA => eff_pure(
            m0,
            c1,
            m1,
            res,
            CPU {
                a: spec_rl_val(c0.a, c0.carry_flag),
                ..c0.spec_with_flags(false, false, false, c0.a >= 128)
            },
        ),
        Instruction::RRA => eff_pure(
            m0,
            c1,
            m1,
            res,
            CPU {
                a: spec_rr_val(c0.a, c0.carry_flag),
                ..c0.spec_with_flags(false, false, false, c0.a % 2 == 1)
            },
        ),
        Instruction::DAA => eff_pure(m0, c1, m1, res, spec_daa(c0)),
        Instruction::CPL => eff_pure(
            m0,
            c1,
            m1,
            res,
            CPU { a: spec_cpl_val(c0.a), subtraction_flag: true, halfcarry_flag: true, ..c0 },
        ),
        Instruction::SCF => eff_pure(
            m0,
            c1,
            m1,
            res,
            CPU { carry_flag: true, subtraction_flag: false, halfcarry_flag: false, ..c0 },
        ),
        Instruction::CCF => eff_pure(
            m0,
            c1,
            m1,
            res,
            CPU {
                carry_flag: !c0.carry_flag,
                subtraction_flag: false,
                halfcarry_flag: false,
                ..c0
            },
        ),
        Instruction::RET { f } => eff_pure(
            m0,
            c1,
            m1,
            res,
            if c0.spec_condition(f) {
                CPU { pc: spec_pop_value(c0, m0), sp: spec_wrap16(c0.sp + 2), ..c0 }
            } else {
                c0
            },
        ),
        Instruction::RETNoParam => eff_pure(
            m0,
            c1,
            m1,
            res,
            CPU { pc: spec_pop_value(c0, m0), sp: spec_wrap16(c0.sp + 2), ..c0 },
        ),
        Instruction::RETI => eff_pure(
            m0,
            c1,
            m1,
            res,
            CPU {
                pc: spec_pop_value(c0, m0),
                sp: spec_wrap16(c0.sp + 2),
                ime: ImeState::Enabled,
                ..c0
            },
        ),
        Instruction::POP { r } => eff_pop(c0, m0, r, c1, m1, res),
        Instruction::DI => eff_pure(
            m0,
            c1,
            m1,
            res,
            CPU { ime: ImeState::DisabledImmediate, ..c0 },
        ),
        Instruction::EI => eff_pure(m0, c1, m1, res, CPU { ime: spec_ei_state(c0.ime), ..c0 }),
        Instruction::CallConditional { f, nn } => {
            if c0.spec_condition(f) {
                eff_push(c0, m0, c0.pc, nn, c1, m1, res)
            } else {
                eff_pure(m0, c1, m1, res, c0)
            }
        },
        Instruction::Call { nn } => eff_push(c0, m0, c0.pc, nn, c1, m1, res),
        Instruction::PUSH { r } => match r {
            RegisterID::BC | RegisterID::DE | RegisterID::HL | RegisterID::AF => eff_push(
                c0,
                m0,
                c0.spec_wide_value(r),
                c0.pc,
                c1,
                m1,
                res,
            ),
            _ => eff_err_from(c0, m0, r, c1, m1, res),
        },
        Instruction::RST { arg } => eff_push(c0, m0, c0.pc, arg as u16, c1, m1, res),
        Instruction::AddImmediate { n } => eff_pure(m0, c1, m1, res, spec_add_a(c0, n, false)),
        Instruction::AdcImmediate { n } => eff_pure(
            m0,
            c1,
            m1,
            res,
            spec_add_a(c0, n, c0.carry_flag),
        ),
        Instruction::SubImmediate { n } => eff_pure(m0, c1, m1, res, spec_sub_a(c0, n, false)),
        Instruction::SbcImmediate { n } => eff_pure(
            m0,
            c1,
            m1,
            res,
            spec_sub_a(c0, n, c0.carry_flag),
        ),
        Instruction::AndImmediate { n } => eff_pure(
            m0,
            c1,
            m1,
            res,
            spec_logical_a(c0, LogicalOp::And, n),
        ),
        Instruction::XorImmediate { n } => eff_pure(
            m0,
            c1,
            m1,
            res,
            spec_logical_a(c0, LogicalOp::Xor, n),
        ),
        Instruction::OrImmediate { n } => eff_pure(
            m0,
            c1,
            m1,
            res,
            spec_logical_a(c0, LogicalOp::Or, n),
        ),
        Instruction::CpImmediate { n } => eff_pure(m0, c1, m1, res, spec_cp_a(c0, n)),
        Instruction::AddRegister { r } => eff_alu_r(
            c0,
            m0,
            r,
            spec_add_a(c0, c0.spec_r_value(m0, r), false),
            c1,
            m1,
            res,
        ),
        Instruction::AdcRegister { r } => eff_alu_r(
            c0,
            m0,
            r,
            spec_add_a(c0, c0.spec_r_value(m0, r), c0.carry_flag),
            c1,
            m1,
            res,
        ),
        Instruction::SubRegister { r } => eff_alu_r(
            c0,
            m0,
            r,
            spec_sub_a(c0, c0.spec_r_value(m0, r), false),
            c1,
            m1,
            res,
        ),
        Instruction::SbcRegister { r } => eff_alu_r(
            c0,
            m0,
            r,
            spec_sub_a(c0, c0.spec_r_value(m0, r), c0.carry_flag),
            c1,
            m1,
            res,
        ),
        Instruction::AndRegister { r } => eff_alu_r(
            c0,
            m0,
            r,
            spec_logical_a(c0, LogicalOp::And, c0.spec_r_value(m0, r)),
            c1,
            m1,
            res,
        ),
        Instruction::XorRegister { r } => eff_alu_r(
            c0,
            m0,
            r,
            spec_logical_a(c0, LogicalOp::Xor, c0.spec_r_value(m0, r)),
            c1,
            m1,
            res,
        ),
        Instruction::OrRegister { r } => eff_alu_r(
            c0,
            m0,
            r,
            spec_logical_a(c0, LogicalOp::Or, c0.spec_r_value(m0, r)),
            c1,
            m1,
            res,
        ),
        Instruction::CpRegister { r } => eff_alu_r(
            c0,
            m0,
            r,
            spec_cp_a(c0, c0.spec_r_value(m0, r)),
            c1,
            m1,
            res,
        ),
    }
}


impl CPU {
    /// Execute one decoded instruction against the registers and the bus.
    /// PC must already point past the instruction bytes; control flow
    /// overwrites it from there.
    pub fn execute(&mut self, instr: Instruction, mem: &mut Memory) -> (res: Result<(), CpuError>)
        requires
            old(mem).wf(),
            wf_instr(instr),
        ensures
            final(mem).wf(),
            exec_effect(*old(self), *old(mem), instr, *final(self), *final(mem), res),
    {
        match instr {
            Instruction::NOP | Instruction::STOP | Instruction::HALT | Instruction::ILLEGAL
            | Instruction::Jump { .. } | Instruction::JumpConditional { .. }
            | Instruction::JR { .. } | Instruction::JumpRegConditional { .. }
            | Instruction::JumpToHL | Instruction::RET { .. } | Instruction::RETNoParam
            | Instruction::RETI | Instruction::POP { .. } | Instruction::DI | Instruction::EI
            | Instruction::CallConditional { .. } | Instruction::Call { .. }
            | Instruction::PUSH { .. } | Instruction::RST { .. } => self.execute_control(
                instr,
                mem,
            ),
            Instruction::Load16 { .. } | Instruction::Load8 { .. }
            | Instruction::LoadReg16 { .. } | Instruction::LoadReg8 { .. }
            | Instruction::LoadSPToHLWithOffset { .. } | Instruction::LoadFF00PlusC
            | Instruction::LoadFF00PlusImmediate { .. } | Instruction::LoadAddress { .. }
            | Instruction::StoreFF00Plus { .. } | Instruction::StoreReg { .. }
            | Instruction::StoreImmediate { .. } | Instruction::StoreFF00PlusC => self
                .execute_load_store(instr, mem),
            Instruction::RLC { .. } | Instruction::RRC { .. } | Instruction::RL { .. }
            | Instruction::RR { .. } | Instruction::SLA { .. } | Instruction::SRA { .. }
            | Instruction::SWAP { .. } | Instruction::SRL { .. } | Instruction::BIT { .. }
            | Instruction::RES { .. } | Instruction::SET { .. } => self.execute_prefixed(
                instr,
                mem,
            ),
            Instruction::AddImmediate { .. } | Instruction::AdcImmediate { .. }
            | Instruction::SubImmediate { .. } | Instruction::SbcImmediate { .. }
            | Instruction::AndImmediate { .. } | Instruction::XorImmediate { .. }
            | Instruction::OrImmediate { .. } | Instruction::CpImmediate { .. }
            | Instruction::RLCA | Instruction::RRCA | Instruction::RLA | Instruction::RRA
            | Instruction::DAA | Instruction::CPL | Instruction::SCF | Instruction::CCF => self
                .execute_accumulator(instr, mem),
            Instruction::AddRegister { .. } | Instruction::AdcRegister { .. }
            | Instruction::SubRegister { .. } | Instruction::SbcRegister { .. }
            | Instruction::AndRegister { .. } | Instruction::XorRegister { .. }
            | Instruction::OrRegister { .. } | Instruction::CpRegister { .. }
            | Instruction::INC8b { .. } | Instruction::DEC8b { .. }
            | Instruction::INC16b { .. } | Instruction::DEC16b { .. }
            | Instruction::AddHLAndR16 { .. } | Instruction::AddSigned { .. } => self
                .execute_alu_operand(instr, mem),
        }
    }

    /// Control flow, stack, interrupt switches and the pauses.
    #[verifier::rlimit(100)]
    #[verifier::spinoff_prover]
    fn execute_control(&mut self, instr: Instruction, mem: &mut Memory) -> (res: Result<
        (),
        CpuError,
    >)
        requires
            old(mem).wf(),
            instr is NOP || instr is STOP || instr is HALT || instr is ILLEGAL || instr is Jump
                || instr is JumpConditional || instr is JR || instr is JumpRegConditional
                || instr is JumpToHL || instr is RET || instr is RETNoParam || instr is RETI
                || instr is POP || instr is DI || instr is EI || instr is CallConditional
                || instr is Call || instr is PUSH || instr is RST,
        ensures
            final(mem).wf(),
            exec_effect(*old(self), *old(mem), instr, *final(self), *final(mem), res),
    {
        proof {
            reveal(exec_effect);
        }
        match instr {
            Instruction::NOP => Ok(()),
            Instruction::STOP => {
                self.stopped = true;
                Ok(())
            },
            Instruction::HALT => {
                self.halted = true;
                Ok(())
            },
            Instruction::ILLEGAL => Err(CpuError::IllegalInstruction { pc: self.pc }),
            Instruction::Jump { nn } => {
                self.jump(nn);
                Ok(())
            },
            Instruction::JumpConditional { f, nn } => {
                self.jump_conditional(f, nn);
                Ok(())
            },
            Instruction::JR { d } => {
                self.jump_reg(d);
                Ok(())
            },
            Instruction::JumpRegConditional { f, d } => {
                self.jump_reg_conditional(f, d);
                Ok(())
            },
            Instruction::JumpToHL => {
                self.jump_to_hl();
                Ok(())
            },
            Instruction::RET { f } => {
                self.ret_conditional(f, mem);
                Ok(())
            },
            Instruction::RETNoParam => {
                self.ret(mem);
                Ok(())
            },
            Instruction::RETI => {
                self.reti(mem);
                Ok(())
            },
            Instruction::POP { r } => self.pop_r16(r, mem),
            Instruction::DI => {
                self.disable_interrupts();
                Ok(())
            },
            Instruction::EI => {
                self.enable_interrupts();
                Ok(())
            },
            Instruction::CallConditional { f, nn } => {
                self.call_conditional(f, nn, mem);
                Ok(())
            },
            Instruction::Call { nn } => {
                self.call(nn, mem);
                Ok(())
            },
            Instruction::PUSH { r } => self.push_r16(r, mem),
            Instruction::RST { arg } => {
                self.rst(arg, mem);
                Ok(())
            },
            _ => {
                // excluded by this function's requires clause
                proof {
                    assert(false);
                }
                Ok(())
            },
        }
    }

    /// The load and store family.
    #[verifier::rlimit(100)]
    #[verifier::spinoff_prover]
    fn execute_load_store(&mut self, instr: Instruction, mem: &mut Memory) -> (res: Result<
        (),
        CpuError,
    >)
        requires
            old(mem).wf(),
            instr is Load16 || instr is Load8 || instr is LoadReg16 || instr is LoadReg8
                || instr is LoadSPToHLWithOffset || instr is LoadFF00PlusC
                || instr is LoadFF00PlusImmediate || instr is LoadAddress
                || instr is StoreFF00Plus || instr is StoreReg || instr is StoreImmediate
                || instr is StoreFF00PlusC,
        ensures
            final(mem).wf(),
            exec_effect(*old(self), *old(mem), instr, *final(self), *final(mem), res),
    {
        proof {
            reveal(exec_effect);
        }
        match instr {
            Instruction::Load16 { r, nn } => self.load_immediate16(r, nn),
            Instruction::Load8 { r, n } => self.load_immediate8(r, n, mem),
            Instruction::LoadReg16 { r1, r2 } => self.load_registers16(r1, r2, mem),
            Instruction::LoadReg8 { r1, r2 } => self.load_registers8(r1, r2, mem),
            Instruction::LoadSPToHLWithOffset { d } => {
                self.load_sp_to_hl_with_offset(d);
                Ok(())
            },
            Instruction::LoadFF00PlusC => {
                self.load_ff00_plus_c(mem);
                Ok(())
            },
            Instruction::LoadFF00PlusImmediate { n } => {
                self.load_ff00_plus_n(mem, n);
                Ok(())
            },
            Instruction::LoadAddress { loc } => {
                self.load_a_from(mem, loc);
                Ok(())
            },
            Instruction::StoreFF00Plus { r: _, n } => {
                self.store_ff00_plus_n(mem, n);
                Ok(())
            },
            Instruction::StoreReg { r1, loc } => match r1 {
                RegisterID::SP => {
                    self.store_sp_at(mem, loc);
                    Ok(())
                },
                _ => Err(CpuError::ReadingFromInvalidReg { r: r1, pc: self.pc }),
            },
            Instruction::StoreImmediate { loc } => {
                self.store_a_at(mem, loc);
                Ok(())
            },
            Instruction::StoreFF00PlusC => {
                self.store_ff00_plus_c(mem);
                Ok(())
            },
            _ => {
                // excluded by this function's requires clause
                proof {
                    assert(false);
                }
                Ok(())
            },
        }
    }

    /// The CB-prefixed family: rotates, shifts, swap and the bit operations.
    #[verifier::rlimit(100)]
    #[verifier::spinoff_prover]
    fn execute_prefixed(&mut self, instr: Instruction, mem: &mut Memory) -> (res: Result<
        (),
        CpuError,
    >)
        requires
            old(mem).wf(),
            wf_instr(instr),
            instr is RLC || instr is RRC || instr is RL || instr is RR || instr is SLA
                || instr is SRA || instr is SWAP || instr is SRL || instr is BIT || instr is RES
                || instr is SET,
        ensures
            final(mem).wf(),
            exec_effect(*old(self), *old(mem), instr, *final(self), *final(mem), res),
    {
        proof {
            reveal(exec_effect);
        }
        match instr {
            Instruction::RLC { r } => self.rotate_left(r, mem),
            Instruction::RRC { r } => self.rotate_right(r, mem),
            Instruction::RL { r } => self.rotate_left_thru_carry(r, mem),
            Instruction::RR { r } => self.rotate_right_thru_carry(r, mem),
            Instruction::SLA { r } => self.shift_left_arithmetic(r, mem),
            Instruction::SRA { r } => self.shift_right_arithmetic(r, mem),
            Instruction::SWAP { r } => self.swap_nibbles_instr(r, mem),
            Instruction::SRL { r } => self.shift_right_logical(r, mem),
            Instruction::BIT { y, r } => self.bit_test(y, r, mem),
            Instruction::RES { y, r } => self.bit_reset(y, r, mem),
            Instruction::SET { y, r } => self.bit_set(y, r, mem),
            _ => {
                // excluded by this function's requires clause
                proof {
                    assert(false);
                }
                Ok(())
            },
        }
    }

    /// The accumulator family: ALU immediates, the accumulator rotates, DAA,
    /// CPL and the carry-flag instructions.
    #[verifier::rlimit(100)]
    #[verifier::spinoff_prover]
    fn execute_accumulator(&mut self, instr: Instruction, mem: &mut Memory) -> (res: Result<
        (),
        CpuError,
    >)
        requires
            old(mem).wf(),
            instr is AddImmediate || instr is AdcImmediate || instr is SubImmediate
                || instr is SbcImmediate || instr is AndImmediate || instr is XorImmediate
                || instr is OrImmediate || instr is CpImmediate || instr is RLCA
                || instr is RRCA || instr is RLA || instr is RRA || instr is DAA
                || instr is CPL || instr is SCF || instr is CCF,
        ensures
            final(mem).wf(),
            exec_effect(*old(self), *old(mem), instr, *final(self), *final(mem), res),
    {
        proof {
            reveal(exec_effect);
        }
        match instr {
            Instruction::AddImmediate { n } => {
                self.add_immediate(n);
                Ok(())
            },
            Instruction::AdcImmediate { n } => {
                self.adc_immediate(n);
                Ok(())
            },
            Instruction::SubImmediate { n } => {
                self.sub_immediate(n);
                Ok(())
            },
            Instruction::SbcImmediate { n } => {
                self.sbc_immediate(n);
                Ok(())
            },
            Instruction::AndImmediate { n } => {
                self.logical_template(n, LogicalOp::And);
                Ok(())
            },
            Instruction::XorImmediate { n } => {
                self.logical_template(n, LogicalOp::Xor);
                Ok(())
            },
            Instruction::OrImmediate { n } => {
                self.logical_template(n, LogicalOp::Or);
                Ok(())
            },
            Instruction::CpImmediate { n } => {
                self.compare_immediate(n);
                Ok(())
            },
            Instruction::RLCA => {
                self.rotate_left_accumulator();
                Ok(())
            },
            Instruction::RRCA => {
                self.rotate_right_accumulator();
                Ok(())
            },
            Instruction::RLA => {
                self.rotate_left_thru_carry_accumulator();
                Ok(())
            },
            Instruction::RRA => {
                self.rotate_right_thru_carry_accumulator();
                Ok(())
            },
            Instruction::DAA => {
                self.decimal_adjust();
                Ok(())
            },
            Instruction::CPL => {
                self.complement_accumulator();
                Ok(())
            },
            Instruction::SCF => {
                self.carry_flag = true;
                self.subtraction_flag = false;
                self.halfcarry_flag = false;
                Ok(())
            },
            Instruction::CCF => {
                self.carry_flag = !self.carry_flag;
                self.subtraction_flag = false;
                self.halfcarry_flag = false;
                Ok(())
            },
            _ => {
                // excluded by this function's requires clause
                proof {
                    assert(false);
                }
                Ok(())
            },
        }
    }

    /// The operand-taking ALU family: register ALU operations, the 8- and
    /// 16-bit increments and decrements, and the 16-bit adds.
    #[verifier::rlimit(100)]
    #[verifier::spinoff_prover]
    fn execute_alu_operand(&mut self, instr: Instruction, mem: &mut Memory) -> (res: Result<
        (),
        CpuError,
    >)
        requires
            old(mem).wf(),
            instr is AddRegister || instr is AdcRegister || instr is SubRegister
                || instr is SbcRegister || instr is AndRegister || instr is XorRegister
                || instr is OrRegister || instr is CpRegister || instr is INC8b
                || instr is DEC8b || instr is INC16b || instr is DEC16b
                || instr is AddHLAndR16 || instr is AddSigned,
        ensures
            final(mem).wf(),
            exec_effect(*old(self), *old(mem), instr, *final(self), *final(mem), res),
    {
        proof {
            reveal(exec_effect);
        }
        match instr {
            Instruction::AddRegister { r } => self.add_register(r, mem),
            Instruction::AdcRegister { r } => self.adc_register(r, mem),
            Instruction::SubRegister { r } => self.sub_register(r, mem),
            Instruction::SbcRegister { r } => self.sbc_register(r, mem),
            Instruction::AndRegister { r } => self.logical_reg_template(r, mem, LogicalOp::And),
            Instruction::XorRegister { r } => self.logical_reg_template(r, mem, LogicalOp::Xor),
            Instruction::OrRegister { r } => self.logical_reg_template(r, mem, LogicalOp::Or),
            Instruction::CpRegister { r } => self.compare_register(r, mem),
            Instruction::INC8b { r } => self.increment_8b(r, mem),
            Instruction::DEC8b { r } => self.decrement_8b(r, mem),
            Instruction::INC16b { r } => self.increment_16b(r),
            Instruction::DEC16b { r } => self.decrement_16b(r),
            Instruction::AddHLAndR16 { r } => self.add_hl_and_r16(r),
            Instruction::AddSigned { r, d } => match r {
                RegisterID::SP => {
                    self.add_sp_signed(d);
                    Ok(())
                },
                _ => Err(CpuError::ReadingIntoInvalidReg { r, pc: self.pc }),
            },
            _ => {
                // excluded by this function's requires clause
                proof {
                    assert(false);
                }
                Ok(())
            },
        }
    }
}


/// The interrupt-flag latch IF, at I/O register 0x0F.
pub open spec fn spec_if_reg(m: Memory) -> u8 {
    m.io_registers@[0x0f]
}

/// Interrupt `i` is both enabled in IE and latched in IF.
pub open spec fn spec_pending_bit(m: Memory, i: int) -> bool {
    spec_get_bit(m.interrupt_enable_reg, i) && spec_get_bit(spec_if_reg(m), i)
}

/// Some interrupt is pending.
pub open spec fn spec_any_pending(m: Memory) -> bool {
    ||| spec_pending_bit(m, 0)
    ||| spec_pending_bit(m, 1)
    ||| spec_pending_bit(m, 2)
    ||| spec_pending_bit(m, 3)
    ||| spec_pending_bit(m, 4)
}

/// The highest-priority pending interrupt: VBlank, LCD-STAT, Timer, Serial,
/// Joypad, in that order.
pub open spec fn spec_first_pending(m: Memory) -> int {
    if spec_pending_bit(m, 0) {
        0
    } else if spec_pending_bit(m, 1) {
        1
    } else if spec_pending_bit(m, 2) {
        2
    } else if spec_pending_bit(m, 3) {
        3
    } else {
        4
    }
}

/// Servicing an interrupt between instructions: the IME goes off, the
/// serviced IF bit is cleared through the bus, PC is pushed, and control
/// lands on the fixed vector; a halted CPU wakes.
#[verifier::opaque]
pub open spec fn service_effect(c0: CPU, m0: Memory, c1: CPU, m1: Memory) -> bool {
    let i = spec_first_pending(m0);
    &&& (exists|mid: Memory|
        {
            &&& #[trigger] write_effect(
                m0,
                0xff0f,
                spec_clear_bit(spec_if_reg(m0), i),
                mid,
            )
            &&& pushed16(mid, c0.sp, c0.pc, m1)
        })
    &&& c1 == (CPU {
        ime: ImeState::DisabledImmediate,
        halted: false,
        sp: spec_wrap16(c0.sp - 2),
        pc: (0x40 + 8 * i) as u16,
        ..c0
    })
}

/// The fetch-decode-execute part of a step, once the pauses and interrupt
/// service are out of the way: the exact fetch-error window, decode, the
/// illegal-opcode error, PC advanced by the instruction length, the
/// instruction's own effect, and the one-instruction EI delay resolving at
/// the boundary.
#[verifier::opaque]
pub open spec fn step_run_effect(
    c0: CPU,
    m0: Memory,
    c1: CPU,
    m1: Memory,
    res: Result<(), CpuError>,
) -> bool {
    if c0.pc > 0x7fff {
        &&& res == Err::<(), CpuError>(CpuError::FetchError { pc: c0.pc })
        &&& c1 == c0
        &&& m1 == m0
    } else {
        let op = m0.spec_read(c0.pc as int);
        let len = spec_instr_len(op);
        if len >= 2 && c0.pc + 1 > 0x7fff {
            &&& res == Err::<(), CpuError>(CpuError::FetchError { pc: (c0.pc + 1) as u16 })
            &&& c1 == c0
            &&& m1 == m0
        } else if len == 3 && c0.pc + 2 > 0x7fff {
            &&& res == Err::<(), CpuError>(CpuError::FetchError { pc: (c0.pc + 2) as u16 })
            &&& c1 == c0
            &&& m1 == m0
        } else {
            let b2: u8 = if len >= 2 {
                m0.spec_read(c0.pc + 1)
            } else {
                0
            };
            let b3: u8 = if len == 3 {
                m0.spec_read(c0.pc + 2)
            } else {
                0
            };
            let bytes = (op as int * 0x1000000 + b2 as int * 0x10000 + b3 as int * 0x100) as u32;
            let instr = spec_decode(bytes);
            if instr == Instruction::ILLEGAL {
                &&& res == Err::<(), CpuError>(CpuError::IllegalInstruction { pc: c0.pc })
                &&& c1 == c0
                &&& m1 == m0
            } else {
                let c_adv = CPU { pc: (c0.pc + len) as u16, ..c0 };
                if c0.ime == ImeState::EnablePending {
                    // Either the EI delay elapsed at this boundary, or the
                    // instruction itself moved the machine off the pending
                    // state (DI, RETI) and no tick fired.
                    ||| (c1.ime == ImeState::Enabled && exec_effect(
                        c_adv,
                        m0,
                        instr,
                        CPU { ime: ImeState::EnablePending, ..c1 },
                        m1,
                        res,
                    ))
                    ||| (c1.ime != ImeState::EnablePending && exec_effect(
                        c_adv,
                        m0,
                        instr,
                        c1,
                        m1,
                        res,
                    ))
                } else {
                    exec_effect(c_adv, m0, instr, c1, m1, res)
                }
            }
        }
    }
}

/// Everything one call of `fetch_decode_execute` does: interrupt service
/// when IME is on and something is pending; otherwise the HALT/STOP pauses;
/// otherwise one fetch-decode-execute cycle.
pub open spec fn step_effect(
    c0: CPU,
    m0: Memory,
    c1: CPU,
    m1: Memory,
    res: Result<(), CpuError>,
) -> bool {
    if c0.ime == ImeState::Enabled && spec_any_pending(m0) {
        res is Ok && service_effect(c0, m0, c1, m1)
    } else if c0.halted {
        &&& res is Ok
        &&& m1 == m0
        &&& c1 == if spec_any_pending(m0) {
            CPU { halted: false, ..c0 }
        } else {
            c0
        }
    } else if c0.stopped {
        &&& res is Ok
        &&& m1 == m0
        &&& c1 == if spec_get_bit(spec_if_reg(m0), 4) {
            CPU { stopped: false, ..c0 }
        } else {
            c0
        }
    } else {
        step_run_effect(c0, m0, c1, m1, res)
    }
}

impl CPU {
    /// Fetch one instruction byte; PC may only fetch from the cartridge
    /// window below 0x8000.
    fn fetch_pc_u8(&self, mem: &Memory, addr: u16) -> (res: Result<u8, CpuError>)
        requires
            mem.wf(),
        ensures
            addr <= 0x7fff ==> res == Ok::<u8, CpuError>(mem.spec_read(addr as int)),
            addr > 0x7fff ==> res == Err::<u8, CpuError>(CpuError::FetchError { pc: addr }),
    {
        if addr > 0x7fff {
            Err(CpuError::FetchError { pc: addr })
        } else {
            Ok(mem.read_byte(addr as usize))
        }
    }

    /// Service the highest-priority pending interrupt if the master enable
    /// is on; says whether it did.
    #[verifier::rlimit(100)]
    #[verifier::spinoff_prover]
    fn service_interrupt(&mut self, mem: &mut Memory) -> (did: bool)
        requires
            old(mem).wf(),
        ensures
            final(mem).wf(),
            did == (old(self).ime == ImeState::Enabled && spec_any_pending(*old(mem))),
            did ==> service_effect(*old(self), *old(mem), *final(self), *final(mem)),
            !did ==> *final(self) == *old(self) && *final(mem) == *old(mem),
    {
        proof {
            reveal(service_effect);
        }
        if !self.interrupts_enabled() {
            return false;
        }
        let ie = mem.interrupt_enable_reg;
        let iflags = mem.read_byte(0xff0f);
        let mut which: u8 = 5;
        if get_bit(ie, 0) && get_bit(iflags, 0) {
            which = 0;
        } else if get_bit(ie, 1) && get_bit(iflags, 1) {
            which = 1;
        } else if get_bit(ie, 2) && get_bit(iflags, 2) {
            which = 2;
        } else if get_bit(ie, 3) && get_bit(iflags, 3) {
            which = 3;
        } else if get_bit(ie, 4) && get_bit(iflags, 4) {
            which = 4;
        }
        if which == 5 {
            return false;
        }
        mem.write_byte(0xff0f, clear_bit(iflags, which));
        let ghost m_if = *mem;
        let pc = self.pc;
        self.push16(mem, pc);
        self.pc = 0x40 + 8 * (which as u16);
        self.ime = ImeState::DisabledImmediate;
        self.halted = false;
        proof {
            assert(write_effect(
                *old(mem),
                0xff0f,
                spec_clear_bit(spec_if_reg(*old(mem)), spec_first_pending(*old(mem))),
                m_if,
            ));
        }
        true
    }

    /// One fetch-decode-execute cycle, the pauses already ruled out.
    #[verifier::rlimit(100)]
    #[verifier::spinoff_prover]
    fn step_instruction(&mut self, mem: &mut Memory) -> (res: Result<(), CpuError>)
        requires
            old(mem).wf(),
        ensures
            final(mem).wf(),
            step_run_effect(*old(self), *old(mem), *final(self), *final(mem), res),
    {
        proof {
            reveal(step_run_effect);
        }
        // Fetch: the opcode, then only the operand bytes the opcode needs.
        let pc0 = self.pc;
        let op = match self.fetch_pc_u8(mem, pc0) {
            Ok(b) => b,
            Err(e) => {
                return Err(e);
            },
        };
        let len = Instruction::length_of(op);
        let b2: u8 = if len >= 2 {
            match self.fetch_pc_u8(mem, pc0 + 1) {
                Ok(b) => b,
                Err(e) => {
                    return Err(e);
                },
            }
        } else {
            0
        };
        let b3: u8 = if len == 3 {
            match self.fetch_pc_u8(mem, pc0 + 2) {
                Ok(b) => b,
                Err(e) => {
                    return Err(e);
                },
            }
        } else {
            0
        };
        let bytes: u32 = (op as u32) * 0x1000000 + (b2 as u32) * 0x10000 + (b3 as u32) * 0x100;

        // Decode; an encoded-illegal opcode stops before PC moves.
        let instr = Instruction::from_bytes(bytes);
        match instr {
            Instruction::ILLEGAL => {
                return Err(CpuError::IllegalInstruction { pc: pc0 });
            },
            _ => {},
        }

        // Advance PC by the instruction length, then execute.
        self.pc = pc0 + (len as u16);
        let ghost c_adv = *self;
        let pending_before = match self.ime {
            ImeState::EnablePending => true,
            _ => false,
        };
        let res = self.execute(instr, mem);
        let ghost c_mid = *self;

        // The EI delay resolves at the instruction boundary.
        if pending_before {
            match self.ime {
                ImeState::EnablePending => {
                    self.ime = ImeState::Enabled;
                },
                _ => {},
            }
        }
        proof {
            assert(exec_effect(c_adv, *old(mem), instr, c_mid, *mem, res));
            if old(self).ime == ImeState::EnablePending && c_mid.ime == ImeState::EnablePending {
                assert(*self == CPU { ime: ImeState::Enabled, ..c_mid });
                assert(c_mid == CPU { ime: ImeState::EnablePending, ..*self });
            }
        }
        res
    }

    /// Perform exactly one fetch-decode-execute cycle (or one interrupt
    /// service, or one idle tick of a paused CPU). On success PC has
    /// advanced by the instruction's byte length before the instruction's
    /// own control flow applies; on an error the state is left as it was.
    #[verifier::rlimit(100)]
    #[verifier::spinoff_prover]
    pub fn fetch_decode_execute(&mut self, mem: &mut Memory) -> (res: Result<(), CpuError>)
        requires
            old(mem).wf(),
        ensures
            final(mem).wf(),
            step_effect(*old(self), *old(mem), *final(self), *final(mem), res),
    {
        proof {
            reveal(step_effect);
        }
        // Interrupt service between instructions.
        if self.service_interrupt(mem) {
            return Ok(());
        }

        // A halted CPU idles until an interrupt is pending.
        if self.halted {
            let ie = mem.interrupt_enable_reg;
            let iflags = mem.read_byte(0xff0f);
            let mut pending = false;
            if get_bit(ie, 0) && get_bit(iflags, 0) {
                pending = true;
            }
            if get_bit(ie, 1) && get_bit(iflags, 1) {
                pending = true;
            }
            if get_bit(ie, 2) && get_bit(iflags, 2) {
                pending = true;
            }
            if get_bit(ie, 3) && get_bit(iflags, 3) {
                pending = true;
            }
            if get_bit(ie, 4) && get_bit(iflags, 4) {
                pending = true;
            }
            if pending {
                self.halted = false;
            }
            return Ok(());
        }

        // A stopped CPU idles until the joypad interrupt is latched.
        if self.stopped {
            let iflags = mem.read_byte(0xff0f);
            if get_bit(iflags, 4) {
                self.stopped = false;
            }
            return Ok(());
        }

        self.step_instruction(mem)
    }
}

} // verus!
