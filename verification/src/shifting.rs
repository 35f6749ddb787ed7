//! Rotates, shifts, nibble swap, complement, single-bit operations and the
//! decimal adjust, with their flag rules.

use vstd::prelude::*;

use crate::bits::{clear_bit, get_bit, set_bit, spec_clear_bit, spec_get_bit, spec_set_bit};
use crate::cpu::{assign_r, CpuError, CPU};
use crate::instructions::RegisterID;
use crate::memory::Memory;

verus! {

/// RLC: rotate left, bit 7 into bit 0 and into C.
pub open spec fn spec_rlc_val(v: u8) -> u8 {
    ((v * 2) % 256 + if v >= 128 {
        1int
    } else {
        0
    }) as u8
}

/// RRC: rotate right, bit 0 into bit 7 and into C.
pub open spec fn spec_rrc_val(v: u8) -> u8 {
    (v / 2 + if v % 2 == 1 {
        128int
    } else {
        0
    }) as u8
}

/// RL: rotate left through the carry.
pub open spec fn spec_rl_val(v: u8, cin: bool) -> u8 {
    ((v * 2) % 256 + if cin {
        1int
    } else {
        0
    }) as u8
}

/// RR: rotate right through the carry.
pub open spec fn spec_rr_val(v: u8, cin: bool) -> u8 {
    (v / 2 + if cin {
        128int
    } else {
        0
    }) as u8
}

/// SLA: shift left, bit 0 becomes zero.
pub open spec fn spec_sla_val(v: u8) -> u8 {
    ((v * 2) % 256) as u8
}

/// SRA: arithmetic shift right, bit 7 preserved.
pub open spec fn spec_sra_val(v: u8) -> u8 {
    (v / 2 + if v >= 128 {
        128int
    } else {
        0
    }) as u8
}

/// SWAP: exchange the nibbles.
pub open spec fn spec_swap_val(v: u8) -> u8 {
    ((v % 16) * 16 + v / 16) as u8
}

/// SRL: logical shift right, bit 7 becomes zero.
pub open spec fn spec_srl_val(v: u8) -> u8 {
    v / 2
}

/// The bitwise complement of a byte.
pub open spec fn spec_cpl_val(v: u8) -> u8 {
    (255 - v) as u8
}

/// DAA: decimal-adjust the accumulator after a BCD add or subtract, using
/// N, H and C; Z from the result, H cleared, C set when the high-digit
/// adjustment fired (and kept through a subtract).
pub open spec fn spec_daa(c: CPU) -> CPU {
    if !c.subtraction_flag {
        let adj_lo = c.halfcarry_flag || c.a % 16 > 9;
        let adj_hi = c.carry_flag || c.a > 0x99;
        let res = ((c.a + (if adj_lo {
            0x06int
        } else {
            0
        }) + (if adj_hi {
            0x60int
        } else {
            0
        })) % 256) as u8;
        CPU { a: res, zero_flag: res == 0, halfcarry_flag: false, carry_flag: adj_hi, ..c }
    } else {
        let res = ((c.a - (if c.halfcarry_flag {
            0x06int
        } else {
            0
        }) - (if c.carry_flag {
            0x60int
        } else {
            0
        })) % 256) as u8;
        CPU { a: res, zero_flag: res == 0, halfcarry_flag: false, ..c }
    }
}

impl CPU {
    /// RLC r[z]: Z from the result, N and H clear, C from the rotated-out
    /// bit 7.
    pub fn rotate_left(&mut self, r: RegisterID, mem: &mut Memory) -> (res: Result<(), CpuError>)
        requires
            old(mem).wf(),
        ensures
            final(mem).wf(),
            if CPU::is_narrow(r) || r == RegisterID::HLaddress {
                let v = old(self).spec_r_value(*old(mem), r);
                &&& res == Ok::<(), CpuError>(())
                &&& assign_r(
                    old(self).spec_with_flags(spec_rlc_val(v) == 0, false, false, v >= 128),
                    *old(mem),
                    r,
                    spec_rlc_val(v),
                    *final(self),
                    *final(mem),
                )
            } else {
                &&& res == Err::<(), CpuError>(
                    CpuError::ReadingFromInvalidReg { r, pc: old(self).pc },
                )
                &&& *final(self) == *old(self)
                &&& *final(mem) == *old(mem)
            },
    {
        let v = self.r_table_lookup(r, mem)?;
        let result: u8 = ((v as u16 * 2) % 256) as u8 + if v >= 128 {
            1
        } else {
            0
        };
        self.zero_flag = result == 0;
        self.subtraction_flag = false;
        self.halfcarry_flag = false;
        self.carry_flag = v >= 128;
        match self.r_table_assign(r, result, mem) {
            Ok(()) => Ok(()),
            Err(e) => Err(e),
        }
    }

    /// RRC r[z]: Z from the result, N and H clear, C from the rotated-out
    /// bit 0.
    pub fn rotate_right(&mut self, r: RegisterID, mem: &mut Memory) -> (res: Result<(), CpuError>)
        requires
            old(mem).wf(),
        ensures
            final(mem).wf(),
            if CPU::is_narrow(r) || r == RegisterID::HLaddress {
                let v = old(self).spec_r_value(*old(mem), r);
                &&& res == Ok::<(), CpuError>(())
                &&& assign_r(
                    old(self).spec_with_flags(spec_rrc_val(v) == 0, false, false, v % 2 == 1),
                    *old(mem),
                    r,
                    spec_rrc_val(v),
                    *final(self),
                    *final(mem),
                )
            } else {
                &&& res == Err::<(), CpuError>(
                    CpuError::ReadingFromInvalidReg { r, pc: old(self).pc },
                )
                &&& *final(self) == *old(self)
                &&& *final(mem) == *old(mem)
            },
    {
        let v = self.r_table_lookup(r, mem)?;
        let result: u8 = v / 2 + if v % 2 == 1 {
            128
        } else {
            0
        };
        self.zero_flag = result == 0;
        self.subtraction_flag = false;
        self.halfcarry_flag = false;
        self.carry_flag = v % 2 == 1;
        match self.r_table_assign(r, result, mem) {
            Ok(()) => Ok(()),
            Err(e) => Err(e),
        }
    }

    /// RL r[z]: the old carry enters bit 0, bit 7 leaves into C.
    pub fn rotate_left_thru_carry(&mut self, r: RegisterID, mem: &mut Memory) -> (res: Result<
        (),
        CpuError,
    >)
        requires
            old(mem).wf(),
        ensures
            final(mem).wf(),
            if CPU::is_narrow(r) || r == RegisterID::HLaddress {
                let v = old(self).spec_r_value(*old(mem), r);
                let out = spec_rl_val(v, old(self).carry_flag);
                &&& res == Ok::<(), CpuError>(())
                &&& assign_r(
                    old(self).spec_with_flags(out == 0, false, false, v >= 128),
                    *old(mem),
                    r,
                    out,
                    *final(self),
                    *final(mem),
                )
            } else {
                &&& res == Err::<(), CpuError>(
                    CpuError::ReadingFromInvalidReg { r, pc: old(self).pc },
                )
                &&& *final(self) == *old(self)
                &&& *final(mem) == *old(mem)
            },
    {
        let v = self.r_table_lookup(r, mem)?;
        let result: u8 = ((v as u16 * 2) % 256) as u8 + if self.carry_flag {
            1
        } else {
            0
        };
        self.zero_flag = result == 0;
        self.subtraction_flag = false;
        self.halfcarry_flag = false;
        self.carry_flag = v >= 128;
        match self.r_table_assign(r, result, mem) {
            Ok(()) => Ok(()),
            Err(e) => Err(e),
        }
    }

    /// RR r[z]: the old carry enters bit 7, bit 0 leaves into C.
    pub fn rotate_right_thru_carry(&mut self, r: RegisterID, mem: &mut Memory) -> (res: Result<
        (),
        CpuError,
    >)
        requires
            old(mem).wf(),
        ensures
            final(mem).wf(),
            if CPU::is_narrow(r) || r == RegisterID::HLaddress {
                let v = old(self).spec_r_value(*old(mem), r);
                let out = spec_rr_val(v, old(self).carry_flag);
                &&& res == Ok::<(), CpuError>(())
                &&& assign_r(
                    old(self).spec_with_flags(out == 0, false, false, v % 2 == 1),
                    *old(mem),
                    r,
                    out,
                    *final(self),
                    *final(mem),
                )
            } else {
                &&& res == Err::<(), CpuError>(
                    CpuError::ReadingFromInvalidReg { r, pc: old(self).pc },
                )
                &&& *final(self) == *old(self)
                &&& *final(mem) == *old(mem)
            },
    {
        let v = self.r_table_lookup(r, mem)?;
        let result: u8 = v / 2 + if self.carry_flag {
            128
        } else {
            0
        };
        self.zero_flag = result == 0;
        self.subtraction_flag = false;
        self.halfcarry_flag = false;
        self.carry_flag = v % 2 == 1;
        match self.r_table_assign(r, result, mem) {
            Ok(()) => Ok(()),
            Err(e) => Err(e),
        }
    }

    /// SLA r[z].
    pub fn shift_left_arithmetic(&mut self, r: RegisterID, mem: &mut Memory) -> (res: Result<
        (),
        CpuError,
    >)
        requires
            old(mem).wf(),
        ensures
            final(mem).wf(),
            if CPU::is_narrow(r) || r == RegisterID::HLaddress {
                let v = old(self).spec_r_value(*old(mem), r);
                &&& res == Ok::<(), CpuError>(())
                &&& assign_r(
                    old(self).spec_with_flags(spec_sla_val(v) == 0, false, false, v >= 128),
                    *old(mem),
                    r,
                    spec_sla_val(v),
                    *final(self),
                    *final(mem),
                )
            } else {
                &&& res == Err::<(), CpuError>(
                    CpuError::ReadingFromInvalidReg { r, pc: old(self).pc },
                )
                &&& *final(self) == *old(self)
                &&& *final(mem) == *old(mem)
            },
    {
        let v = self.r_table_lookup(r, mem)?;
        let result: u8 = ((v as u16 * 2) % 256) as u8;
        self.zero_flag = result == 0;
        self.subtraction_flag = false;
        self.halfcarry_flag = false;
        self.carry_flag = v >= 128;
        match self.r_table_assign(r, result, mem) {
            Ok(()) => Ok(()),
            Err(e) => Err(e),
        }
    }

    /// SRA r[z]: bit 7 stays.
    pub fn shift_right_arithmetic(&mut self, r: RegisterID, mem: &mut Memory) -> (res: Result<
        (),
        CpuError,
    >)
        requires
            old(mem).wf(),
        ensures
            final(mem).wf(),
            if CPU::is_narrow(r) || r == RegisterID::HLaddress {
                let v = old(self).spec_r_value(*old(mem), r);
                &&& res == Ok::<(), CpuError>(())
                &&& assign_r(
                    old(self).spec_with_flags(spec_sra_val(v) == 0, false, false, v % 2 == 1),
                    *old(mem),
                    r,
                    spec_sra_val(v),
                    *final(self),
                    *final(mem),
                )
            } else {
                &&& res == Err::<(), CpuError>(
                    CpuError::ReadingFromInvalidReg { r, pc: old(self).pc },
                )
                &&& *final(self) == *old(self)
                &&& *final(mem) == *old(mem)
            },
    {
        let v = self.r_table_lookup(r, mem)?;
        let result: u8 = v / 2 + if v >= 128 {
            128
        } else {
            0
        };
        self.zero_flag = result == 0;
        self.subtraction_flag = false;
        self.halfcarry_flag = false;
        self.carry_flag = v % 2 == 1;
        match self.r_table_assign(r, result, mem) {
            Ok(()) => Ok(()),
            Err(e) => Err(e),
        }
    }

    /// SWAP r[z]: Z from the result, N, H and C clear.
    pub fn swap_nibbles_instr(&mut self, r: RegisterID, mem: &mut Memory) -> (res: Result<
        (),
        CpuError,
    >)
        requires
            old(mem).wf(),
        ensures
            final(mem).wf(),
            if CPU::is_narrow(r) || r == RegisterID::HLaddress {
                let v = old(self).spec_r_value(*old(mem), r);
                &&& res == Ok::<(), CpuError>(())
                &&& assign_r(
                    old(self).spec_with_flags(spec_swap_val(v) == 0, false, false, false),
                    *old(mem),
                    r,
                    spec_swap_val(v),
                    *final(self),
                    *final(mem),
                )
            } else {
                &&& res == Err::<(), CpuError>(
                    CpuError::ReadingFromInvalidReg { r, pc: old(self).pc },
                )
                &&& *final(self) == *old(self)
                &&& *final(mem) == *old(mem)
            },
    {
        let v = self.r_table_lookup(r, mem)?;
        let result: u8 = (v % 16) * 16 + v / 16;
        self.zero_flag = result == 0;
        self.subtraction_flag = false;
        self.halfcarry_flag = false;
        self.carry_flag = false;
        match self.r_table_assign(r, result, mem) {
            Ok(()) => Ok(()),
            Err(e) => Err(e),
        }
    }

    /// SRL r[z]: bit 7 becomes zero.
    pub fn shift_right_logical(&mut self, r: RegisterID, mem: &mut Memory) -> (res: Result<
        (),
        CpuError,
    >)
        requires
            old(mem).wf(),
        ensures
            final(mem).wf(),
            if CPU::is_narrow(r) || r == RegisterID::HLaddress {
                let v = old(self).spec_r_value(*old(mem), r);
                &&& res == Ok::<(), CpuError>(())
                &&& assign_r(
                    old(self).spec_with_flags(spec_srl_val(v) == 0, false, false, v % 2 == 1),
                    *old(mem),
                    r,
                    spec_srl_val(v),
                    *final(self),
                    *final(mem),
                )
            } else {
                &&& res == Err::<(), CpuError>(
                    CpuError::ReadingFromInvalidReg { r, pc: old(self).pc },
                )
                &&& *final(self) == *old(self)
                &&& *final(mem) == *old(mem)
            },
    {
        let v = self.r_table_lookup(r, mem)?;
        let result: u8 = v / 2;
        self.zero_flag = result == 0;
        self.subtraction_flag = false;
        self.halfcarry_flag = false;
        self.carry_flag = v % 2 == 1;
        match self.r_table_assign(r, result, mem) {
            Ok(()) => Ok(()),
            Err(e) => Err(e),
        }
    }

    /// BIT y, r[z]: Z is the complement of the tested bit, N clear, H set,
    /// C untouched.
    pub fn bit_test(&mut self, y: u8, r: RegisterID, mem: &Memory) -> (res: Result<(), CpuError>)
        requires
            mem.wf(),
            y < 8,
        ensures
            if CPU::is_narrow(r) || r == RegisterID::HLaddress {
                let v = old(self).spec_r_value(*mem, r);
                &&& res == Ok::<(), CpuError>(())
                &&& *final(self) == old(self).spec_with_flags(
                    !spec_get_bit(v, y as int),
                    false,
                    true,
                    old(self).carry_flag,
                )
            } else {
                &&& res == Err::<(), CpuError>(
                    CpuError::ReadingFromInvalidReg { r, pc: old(self).pc },
                )
                &&& *final(self) == *old(self)
            },
    {
        let v = self.r_table_lookup(r, mem)?;
        self.zero_flag = !get_bit(v, y);
        self.subtraction_flag = false;
        self.halfcarry_flag = true;
        Ok(())
    }

    /// RES y, r[z]: clear one bit, no flags.
    pub fn bit_reset(&mut self, y: u8, r: RegisterID, mem: &mut Memory) -> (res: Result<
        (),
        CpuError,
    >)
        requires
            old(mem).wf(),
            y < 8,
        ensures
            final(mem).wf(),
            if CPU::is_narrow(r) || r == RegisterID::HLaddress {
                let v = old(self).spec_r_value(*old(mem), r);
                &&& res == Ok::<(), CpuError>(())
                &&& assign_r(
                    *old(self),
                    *old(mem),
                    r,
                    spec_clear_bit(v, y as int),
                    *final(self),
                    *final(mem),
                )
            } else {
                &&& res == Err::<(), CpuError>(
                    CpuError::ReadingFromInvalidReg { r, pc: old(self).pc },
                )
                &&& *final(self) == *old(self)
                &&& *final(mem) == *old(mem)
            },
    {
        let v = self.r_table_lookup(r, mem)?;
        let result = clear_bit(v, y);
        match self.r_table_assign(r, result, mem) {
            Ok(()) => Ok(()),
            Err(e) => Err(e),
        }
    }

    /// SET y, r[z]: set one bit, no flags.
    pub fn bit_set(&mut self, y: u8, r: RegisterID, mem: &mut Memory) -> (res: Result<
        (),
        CpuError,
    >)
        requires
            old(mem).wf(),
            y < 8,
        ensures
            final(mem).wf(),
            if CPU::is_narrow(r) || r == RegisterID::HLaddress {
                let v = old(self).spec_r_value(*old(mem), r);
                &&& res == Ok::<(), CpuError>(())
                &&& assign_r(
                    *old(self),
                    *old(mem),
                    r,
                    spec_set_bit(v, y as int),
                    *final(self),
                    *final(mem),
                )
            } else {
                &&& res == Err::<(), CpuError>(
                    CpuError::ReadingFromInvalidReg { r, pc: old(self).pc },
                )
                &&& *final(self) == *old(self)
                &&& *final(mem) == *old(mem)
            },
    {
        let v = self.r_table_lookup(r, mem)?;
        let result = set_bit(v, y);
        match self.r_table_assign(r, result, mem) {
            Ok(()) => Ok(()),
            Err(e) => Err(e),
        }
    }

    /// CPL: complement A, set N and H, leave Z and C.
    pub fn complement_accumulator(&mut self)
        ensures
            *final(self) == (CPU {
                a: spec_cpl_val(old(self).a),
                subtraction_flag: true,
                halfcarry_flag: true,
                ..*old(self)
            }),
    {
        let a = self.a;
        self.set_register_a(255 - a);
        self.set_subtraction_flag_on();
        self.set_halfcarry_flag_on();
    }

    /// RRCA: like RRC on A but Z always cleared.
    pub fn rotate_right_accumulator(&mut self)
        ensures
            *final(self) == (CPU {
                a: spec_rrc_val(old(self).a),
                ..old(self).spec_with_flags(false, false, false, old(self).a % 2 == 1)
            }),
    {
        let a = self.a;
        self.a = a / 2 + if a % 2 == 1 {
            128
        } else {
            0
        };
        self.zero_flag = false;
        self.subtraction_flag = false;
        self.halfcarry_flag = false;
        self.carry_flag = a % 2 == 1;
    }

    /// RLCA: like RLC on A but Z always cleared.
    pub fn rotate_left_accumulator(&mut self)
        ensures
            *final(self) == (CPU {
                a: spec_rlc_val(old(self).a),
                ..old(self).spec_with_flags(false, false, false, old(self).a >= 128)
            }),
    {
        let a = self.a;
        self.a = ((a as u16 * 2) % 256) as u8 + if a >= 128 {
            1
        } else {
            0
        };
        self.zero_flag = false;
        self.subtraction_flag = false;
        self.halfcarry_flag = false;
        self.carry_flag = a >= 128;
    }

    /// RRA: like RR on A but Z always cleared.
    pub fn rotate_right_thru_carry_accumulator(&mut self)
        ensures
            *final(self) == (CPU {
                a: spec_rr_val(old(self).a, old(self).carry_flag),
                ..old(self).spec_with_flags(false, false, false, old(self).a % 2 == 1)
            }),
    {
        let a = self.a;
        self.a = a / 2 + if self.carry_flag {
            128
        } else {
            0
        };
        self.zero_flag = false;
        self.subtraction_flag = false;
        self.halfcarry_flag = false;
        self.carry_flag = a % 2 == 1;
    }

    /// RLA: like RL on A but Z always cleared.
    pub fn rotate_left_thru_carry_accumulator(&mut self)
        ensures
            *final(self) == (CPU {
                a: spec_rl_val(old(self).a, old(self).carry_flag),
                ..old(self).spec_with_flags(false, false, false, old(self).a >= 128)
            }),
    {
        let a = self.a;
        self.a = ((a as u16 * 2) % 256) as u8 + if self.carry_flag {
            1
        } else {
            0
        };
        self.zero_flag = false;
        self.subtraction_flag = false;
        self.halfcarry_flag = false;
        self.carry_flag = a >= 128;
    }

    /// DAA.
    pub fn decimal_adjust(&mut self)
        ensures
            *final(self) == spec_daa(*old(self)),
    {
        if !self.subtraction_flag {
            let adj_lo = self.halfcarry_flag || self.a % 16 > 9;
            let adj_hi = self.carry_flag || self.a > 0x99;
            let mut adj: u16 = 0;
            if adj_lo {
                adj = adj + 0x06;
            }
            if adj_hi {
                adj = adj + 0x60;
            }
            let res: u8 = (((self.a as u16) + adj) % 256) as u8;
            self.a = res;
            self.zero_flag = res == 0;
            self.halfcarry_flag = false;
            self.carry_flag = adj_hi;
        } else {
            let mut adj: u16 = 0;
            if self.halfcarry_flag {
                adj = adj + 0x06;
            }
            if self.carry_flag {
                adj = adj + 0x60;
            }
            let res: u8 = (((self.a as u16) + 256 - adj) % 256) as u8;
            self.a = res;
            self.zero_flag = res == 0;
            self.halfcarry_flag = false;
        }
    }
}

} // verus!
