//! The 8-bit ALU family, the 16-bit increments and decrements, and the
//! 16-bit adds, with the exact Game Boy flag rules.

use vstd::prelude::*;

use crate::checks::{spec_add_a, spec_cp_a, spec_sub_a};
use crate::cpu::{assign_r, spec_hi_byte, spec_lo_byte, spec_wrap16, CpuError, CPU};
use crate::instructions::RegisterID;
use crate::memory::Memory;

verus! {

/// The three bitwise ALU operations.
#[derive(Debug, Clone, Copy, PartialEq, Eq)]
pub enum LogicalOp {
    And,
    Xor,
    Or,
}

pub open spec fn spec_logical_val(op: LogicalOp, a: u8, n: u8) -> u8 {
    match op {
        LogicalOp::And => a & n,
        LogicalOp::Xor => a ^ n,
        LogicalOp::Or => a | n,
    }
}

/// The accumulator and flags after a bitwise operation: Z from the result,
/// N and C clear, H set exactly for AND.
pub open spec fn spec_logical_a(c: CPU, op: LogicalOp, n: u8) -> CPU {
    let res = spec_logical_val(op, c.a, n);
    CPU {
        a: res,
        zero_flag: res == 0,
        subtraction_flag: false,
        halfcarry_flag: op == LogicalOp::And,
        carry_flag: false,
        ..c
    }
}

/// An 8-bit value after INC, wrapping.
pub open spec fn spec_inc8_val(v: u8) -> u8 {
    ((v + 1) % 256) as u8
}

/// The flags after INC of a value `v`: Z from the result, N clear, H when the
/// low nibble was 0xF, C untouched.
pub open spec fn spec_inc8_flags(c: CPU, v: u8) -> CPU {
    c.spec_with_flags(spec_inc8_val(v) == 0, false, v % 16 == 15, c.carry_flag)
}

/// An 8-bit value after DEC, wrapping.
pub open spec fn spec_dec8_val(v: u8) -> u8 {
    ((v - 1) % 256) as u8
}

/// The flags after DEC of a value `v`: Z from the result, N set, H when the
/// low nibble was 0x0, C untouched.
pub open spec fn spec_dec8_flags(c: CPU, v: u8) -> CPU {
    c.spec_with_flags(spec_dec8_val(v) == 0, true, v % 16 == 0, c.carry_flag)
}

/// HL after ADD HL, rhs: N clear, H from the carry out of bit 11, C from the
/// carry out of bit 15, Z untouched.
pub open spec fn spec_add_hl(c: CPU, rhs: u16) -> CPU {
    let hl = c.spec_hl();
    let res = spec_wrap16(hl + rhs);
    CPU {
        h: spec_hi_byte(res),
        l: spec_lo_byte(res),
        subtraction_flag: false,
        halfcarry_flag: (hl % 0x1000) + (rhs % 0x1000) > 0xfff,
        carry_flag: hl + rhs > 0xffff,
        ..c
    }
}

/// The unsigned byte that a signed displacement occupies in memory.
pub open spec fn spec_d_byte(d: i8) -> int {
    (d as int) % 256
}

/// SP after ADD SP, d: Z and N clear, H and C from the unsigned 8-bit
/// addition of SP's low byte with the displacement byte.
pub open spec fn spec_add_sp(c: CPU, d: i8) -> CPU {
    let du = spec_d_byte(d);
    CPU {
        sp: spec_wrap16(c.sp + d),
        zero_flag: false,
        subtraction_flag: false,
        halfcarry_flag: (c.sp % 16) + (du % 16) > 15,
        carry_flag: (c.sp % 256) + du > 255,
        ..c
    }
}

/// The displacement's unsigned byte, computed without a truncating cast.
pub fn d_byte(d: i8) -> (du: u8)
    ensures
        du as int == spec_d_byte(d),
{
    if d >= 0 {
        d as u8
    } else {
        ((d as i16) + 256) as u8
    }
}

impl CPU {
    /// ADD A, n.
    pub fn add_immediate(&mut self, n: u8)
        ensures
            *final(self) == spec_add_a(*old(self), n, false),
    {
        self.add_flag_checks(n, false);
    }

    /// ADC A, n: the carry joins the addition before the flag checks.
    pub fn adc_immediate(&mut self, n: u8)
        ensures
            *final(self) == spec_add_a(*old(self), n, old(self).carry_flag),
    {
        let carry = self.carry_flag;
        self.add_flag_checks(n, carry);
    }

    /// SUB A, n.
    pub fn sub_immediate(&mut self, n: u8)
        ensures
            *final(self) == spec_sub_a(*old(self), n, false),
    {
        self.sub_flag_checks(n, false);
    }

    /// SBC A, n: the borrow joins the subtraction before the flag checks.
    pub fn sbc_immediate(&mut self, n: u8)
        ensures
            *final(self) == spec_sub_a(*old(self), n, old(self).carry_flag),
    {
        let carry = self.carry_flag;
        self.sub_flag_checks(n, carry);
    }

    /// CP n: the flags of SUB A, n with the accumulator kept.
    pub fn compare_immediate(&mut self, n: u8)
        ensures
            *final(self) == spec_cp_a(*old(self), n),
    {
        let a = self.a;
        self.sub_flag_checks(n, false);
        self.set_register_a(a);
    }

    /// AND/XOR/OR A, n.
    pub fn logical_template(&mut self, n: u8, op: LogicalOp)
        ensures
            *final(self) == spec_logical_a(*old(self), op, n),
    {
        let res = match op {
            LogicalOp::And => self.a & n,
            LogicalOp::Xor => self.a ^ n,
            LogicalOp::Or => self.a | n,
        };
        self.a = res;
        self.zero_flag = res == 0;
        self.subtraction_flag = false;
        self.halfcarry_flag = match op {
            LogicalOp::And => true,
            _ => false,
        };
        self.carry_flag = false;
    }

    /// ADD A, r[z].
    pub fn add_register(&mut self, r: RegisterID, mem: &Memory) -> (res: Result<(), CpuError>)
        requires
            mem.wf(),
        ensures
            if CPU::is_narrow(r) || r == RegisterID::HLaddress {
                &&& res == Ok::<(), CpuError>(())
                &&& *final(self) == spec_add_a(
                    *old(self),
                    old(self).spec_r_value(*mem, r),
                    false,
                )
            } else {
                &&& res == Err::<(), CpuError>(
                    CpuError::ReadingFromInvalidReg { r, pc: old(self).pc },
                )
                &&& *final(self) == *old(self)
            },
    {
        let n = self.r_table_lookup(r, mem)?;
        self.add_immediate(n);
        Ok(())
    }

    /// ADC A, r[z].
    pub fn adc_register(&mut self, r: RegisterID, mem: &Memory) -> (res: Result<(), CpuError>)
        requires
            mem.wf(),
        ensures
            if CPU::is_narrow(r) || r == RegisterID::HLaddress {
                &&& res == Ok::<(), CpuError>(())
                &&& *final(self) == spec_add_a(
                    *old(self),
                    old(self).spec_r_value(*mem, r),
                    old(self).carry_flag,
                )
            } else {
                &&& res == Err::<(), CpuError>(
                    CpuError::ReadingFromInvalidReg { r, pc: old(self).pc },
                )
                &&& *final(self) == *old(self)
            },
    {
        let n = self.r_table_lookup(r, mem)?;
        self.adc_immediate(n);
        Ok(())
    }

    /// SUB A, r[z].
    pub fn sub_register(&mut self, r: RegisterID, mem: &Memory) -> (res: Result<(), CpuError>)
        requires
            mem.wf(),
        ensures
            if CPU::is_narrow(r) || r == RegisterID::HLaddress {
                &&& res == Ok::<(), CpuError>(())
                &&& *final(self) == spec_sub_a(
                    *old(self),
                    old(self).spec_r_value(*mem, r),
                    false,
                )
            } else {
                &&& res == Err::<(), CpuError>(
                    CpuError::ReadingFromInvalidReg { r, pc: old(self).pc },
                )
                &&& *final(self) == *old(self)
            },
    {
        let n = self.r_table_lookup(r, mem)?;
        self.sub_immediate(n);
        Ok(())
    }

    /// SBC A, r[z].
    pub fn sbc_register(&mut self, r: RegisterID, mem: &Memory) -> (res: Result<(), CpuError>)
        requires
            mem.wf(),
        ensures
            if CPU::is_narrow(r) || r == RegisterID::HLaddress {
                &&& res == Ok::<(), CpuError>(())
                &&& *final(self) == spec_sub_a(
                    *old(self),
                    old(self).spec_r_value(*mem, r),
                    old(self).carry_flag,
                )
            } else {
                &&& res == Err::<(), CpuError>(
                    CpuError::ReadingFromInvalidReg { r, pc: old(self).pc },
                )
                &&& *final(self) == *old(self)
            },
    {
        let n = self.r_table_lookup(r, mem)?;
        self.sbc_immediate(n);
        Ok(())
    }

    /// CP r[z].
    pub fn compare_register(&mut self, r: RegisterID, mem: &Memory) -> (res: Result<(), CpuError>)
        requires
            mem.wf(),
        ensures
            if CPU::is_narrow(r) || r == RegisterID::HLaddress {
                &&& res == Ok::<(), CpuError>(())
                &&& *final(self) == spec_cp_a(*old(self), old(self).spec_r_value(*mem, r))
            } else {
                &&& res == Err::<(), CpuError>(
                    CpuError::ReadingFromInvalidReg { r, pc: old(self).pc },
                )
                &&& *final(self) == *old(self)
            },
    {
        let n = self.r_table_lookup(r, mem)?;
        self.compare_immediate(n);
        Ok(())
    }

    /// AND/XOR/OR A, r[z].
    pub fn logical_reg_template(&mut self, r: RegisterID, mem: &Memory, op: LogicalOp) -> (res:
        Result<(), CpuError>)
        requires
            mem.wf(),
        ensures
            if CPU::is_narrow(r) || r == RegisterID::HLaddress {
                &&& res == Ok::<(), CpuError>(())
                &&& *final(self) == spec_logical_a(
                    *old(self),
                    op,
                    old(self).spec_r_value(*mem, r),
                )
            } else {
                &&& res == Err::<(), CpuError>(
                    CpuError::ReadingFromInvalidReg { r, pc: old(self).pc },
                )
                &&& *final(self) == *old(self)
            },
    {
        let n = self.r_table_lookup(r, mem)?;
        self.logical_template(n, op);
        Ok(())
    }

    /// INC r[z]: C is untouched, unlike an add of one.
    pub fn increment_8b(&mut self, r: RegisterID, mem: &mut Memory) -> (res: Result<(), CpuError>)
        requires
            old(mem).wf(),
        ensures
            final(mem).wf(),
            if CPU::is_narrow(r) || r == RegisterID::HLaddress {
                let v = old(self).spec_r_value(*old(mem), r);
                &&& res == Ok::<(), CpuError>(())
                &&& assign_r(
                    spec_inc8_flags(*old(self), v),
                    *old(mem),
                    r,
                    spec_inc8_val(v),
                    *final(self),
                    *final(mem),
                )
            } else {
                &&& res == Err::<(), CpuError>(
                    CpuError::ReadingFromInvalidReg { r, pc: old(self).pc },
                )
                &&& *final(self) == *old(self)
                &&& *final(mem) == *old(mem)
            },
    {
        let v = self.r_table_lookup(r, mem)?;
        let result: u8 = (((v as u16) + 1) % 256) as u8;
        self.zero_flag = result == 0;
        self.subtraction_flag = false;
        self.halfcarry_flag = v % 16 == 15;
        match self.r_table_assign(r, result, mem) {
            Ok(()) => Ok(()),
            Err(e) => Err(e),
        }
    }

    /// DEC r[z]: C is untouched, unlike a subtract of one.
    pub fn decrement_8b(&mut self, r: RegisterID, mem: &mut Memory) -> (res: Result<(), CpuError>)
        requires
            old(mem).wf(),
        ensures
            final(mem).wf(),
            if CPU::is_narrow(r) || r == RegisterID::HLaddress {
                let v = old(self).spec_r_value(*old(mem), r);
                &&& res == Ok::<(), CpuError>(())
                &&& assign_r(
                    spec_dec8_flags(*old(self), v),
                    *old(mem),
                    r,
                    spec_dec8_val(v),
                    *final(self),
                    *final(mem),
                )
            } else {
                &&& res == Err::<(), CpuError>(
                    CpuError::ReadingFromInvalidReg { r, pc: old(self).pc },
                )
                &&& *final(self) == *old(self)
                &&& *final(mem) == *old(mem)
            },
    {
        let v = self.r_table_lookup(r, mem)?;
        let result: u8 = (((v as u16) + 256 - 1) % 256) as u8;
        self.zero_flag = result == 0;
        self.subtraction_flag = true;
        self.halfcarry_flag = v % 16 == 0;
        match self.r_table_assign(r, result, mem) {
            Ok(()) => Ok(()),
            Err(e) => Err(e),
        }
    }

    /// INC rp[p]: a wrapping 16-bit increment, no flags.
    pub fn increment_16b(&mut self, r: RegisterID) -> (res: Result<(), CpuError>)
        ensures
            match r {
                RegisterID::BC | RegisterID::DE | RegisterID::HL | RegisterID::SP => {
                    &&& res == Ok::<(), CpuError>(())
                    &&& *final(self) == old(self).spec_set_wide(
                        r,
                        spec_wrap16(old(self).spec_wide_value(r) + 1),
                    )
                },
                _ => {
                    &&& res == Err::<(), CpuError>(
                        CpuError::ReadingFromInvalidReg { r, pc: old(self).pc },
                    )
                    &&& *final(self) == *old(self)
                },
            },
    {
        let val = self.rp_table_lookup(r)?;
        let new_val = val.wrapping_add(1);
        match self.rp_table_assign(r, new_val) {
            Ok(()) => Ok(()),
            Err(e) => Err(e),
        }
    }

    /// DEC rp[p]: a wrapping 16-bit decrement, no flags.
    pub fn decrement_16b(&mut self, r: RegisterID) -> (res: Result<(), CpuError>)
        ensures
            match r {
                RegisterID::BC | RegisterID::DE | RegisterID::HL | RegisterID::SP => {
                    &&& res == Ok::<(), CpuError>(())
                    &&& *final(self) == old(self).spec_set_wide(
                        r,
                        spec_wrap16(old(self).spec_wide_value(r) - 1),
                    )
                },
                _ => {
                    &&& res == Err::<(), CpuError>(
                        CpuError::ReadingFromInvalidReg { r, pc: old(self).pc },
                    )
                    &&& *final(self) == *old(self)
                },
            },
    {
        let val = self.rp_table_lookup(r)?;
        let new_val = val.wrapping_sub(1);
        match self.rp_table_assign(r, new_val) {
            Ok(()) => Ok(()),
            Err(e) => Err(e),
        }
    }

    /// ADD HL, rp[p].
    pub fn add_hl_and_r16(&mut self, r: RegisterID) -> (res: Result<(), CpuError>)
        ensures
            match r {
                RegisterID::BC | RegisterID::DE | RegisterID::HL | RegisterID::SP => {
                    &&& res == Ok::<(), CpuError>(())
                    &&& *final(self) == spec_add_hl(*old(self), old(self).spec_wide_value(r))
                },
                _ => {
                    &&& res == Err::<(), CpuError>(
                        CpuError::ReadingFromInvalidReg { r, pc: old(self).pc },
                    )
                    &&& *final(self) == *old(self)
                },
            },
    {
        let rhs = self.rp_table_lookup(r)?;
        let hl = self.hl();
        let sum: u32 = (hl as u32) + (rhs as u32);
        let res16: u16 = (sum % 0x10000) as u16;
        self.subtraction_flag = false;
        self.halfcarry_flag = (hl % 0x1000) + (rhs % 0x1000) > 0xfff;
        self.carry_flag = sum > 0xffff;
        self.h = crate::cpu::hi_byte(res16);
        self.l = crate::cpu::lo_byte(res16);
        Ok(())
    }

    /// ADD SP, d.
    pub fn add_sp_signed(&mut self, d: i8)
        ensures
            *final(self) == spec_add_sp(*old(self), d),
    {
        let du = d_byte(d);
        let res = self.sp.wrapping_add_signed(d as i16);
        self.zero_flag = false;
        self.subtraction_flag = false;
        self.halfcarry_flag = (self.sp % 16) + ((du % 16) as u16) > 15;
        self.carry_flag = (self.sp % 256) + (du as u16) > 255;
        self.sp = res;
    }
}

} // verus!
