//! Loads and stores: immediates, register transfers, the HL+/HL- forms,
//! zero-page I/O addressing, and the 16-bit store of SP.

use vstd::prelude::*;

use crate::arithmetic::spec_d_byte;
use crate::cpu::{
    assign_r, spec_hi_byte, spec_lo_byte, spec_wrap16, CpuError, CPU,
};
use crate::instructions::RegisterID;
use crate::memory::{write_effect, Memory};

verus! {

/// LD HL, SP+d: HL takes the wrapped sum, Z and N clear, H and C from the
/// unsigned 8-bit addition of SP's low byte with the displacement byte.
pub open spec fn spec_ld_hl_sp_d(c: CPU, d: i8) -> CPU {
    let du = spec_d_byte(d);
    let res = spec_wrap16(c.sp + d);
    CPU {
        h: spec_hi_byte(res),
        l: spec_lo_byte(res),
        zero_flag: false,
        subtraction_flag: false,
        halfcarry_flag: (c.sp % 16) + (du % 16) > 15,
        carry_flag: (c.sp % 256) + du > 255,
        ..c
    }
}

/// Two bus writes that store `val` little-endian at `loc`: the low byte at
/// loc, the high byte at loc+1, wrapping.
pub open spec fn stored16(m0: Memory, loc: u16, val: u16, m1: Memory) -> bool {
    exists|mid: Memory|
        {
            &&& #[trigger] write_effect(m0, loc as int, spec_lo_byte(val), mid)
            &&& write_effect(mid, spec_wrap16(loc + 1) as int, spec_hi_byte(val), m1)
        }
}

impl CPU {
    /// LD rp[p], nn; loading AF masks the flag byte's low nibble to zero.
    pub fn load_immediate16(&mut self, r: RegisterID, nn: u16) -> (res: Result<(), CpuError>)
        ensures
            match r {
                RegisterID::BC | RegisterID::DE | RegisterID::HL | RegisterID::SP => {
                    &&& res == Ok::<(), CpuError>(())
                    &&& *final(self) == old(self).spec_set_wide(r, nn)
                },
                RegisterID::AF => {
                    &&& res == Ok::<(), CpuError>(())
                    &&& *final(self) == old(self).spec_set_af(nn)
                },
                _ => {
                    &&& res == Err::<(), CpuError>(
                        CpuError::ReadingIntoInvalidReg { r, pc: old(self).pc },
                    )
                    &&& *final(self) == *old(self)
                },
            },
    {
        match r {
            RegisterID::BC | RegisterID::DE | RegisterID::HL | RegisterID::SP => {
                match self.rp_table_assign(r, nn) {
                    Ok(()) => Ok(()),
                    Err(e) => Err(e),
                }
            },
            RegisterID::AF => {
                let lo = crate::cpu::lo_byte(nn);
                self.a = crate::cpu::hi_byte(nn);
                self.zero_flag = crate::bits::get_bit(lo, 7);
                self.subtraction_flag = crate::bits::get_bit(lo, 6);
                self.halfcarry_flag = crate::bits::get_bit(lo, 5);
                self.carry_flag = crate::bits::get_bit(lo, 4);
                Ok(())
            },
            _ => Err(CpuError::ReadingIntoInvalidReg { r, pc: self.pc }),
        }
    }

    /// LD r[y], n.
    pub fn load_immediate8(&mut self, r: RegisterID, n: u8, mem: &mut Memory) -> (res: Result<
        (),
        CpuError,
    >)
        requires
            old(mem).wf(),
        ensures
            final(mem).wf(),
            if CPU::is_narrow(r) || r == RegisterID::HLaddress {
                &&& res == Ok::<(), CpuError>(())
                &&& assign_r(*old(self), *old(mem), r, n, *final(self), *final(mem))
            } else {
                &&& res == Err::<(), CpuError>(
                    CpuError::ReadingIntoInvalidReg { r, pc: old(self).pc },
                )
                &&& *final(self) == *old(self)
                &&& *final(mem) == *old(mem)
            },
    {
        self.r_table_assign(r, n, mem)
    }

    /// LD HL, SP+d.
    #[verifier::rlimit(100)]
    pub fn load_sp_to_hl_with_offset(&mut self, d: i8)
        ensures
            *final(self) == spec_ld_hl_sp_d(*old(self), d),
    {
        let du = crate::arithmetic::d_byte(d);
        let res = self.sp.wrapping_add_signed(d as i16);
        self.zero_flag = false;
        self.subtraction_flag = false;
        self.halfcarry_flag = (self.sp % 16) + ((du % 16) as u16) > 15;
        self.carry_flag = (self.sp % 256) + (du as u16) > 255;
        self.h = crate::cpu::hi_byte(res);
        self.l = crate::cpu::lo_byte(res);
    }

    /// LD A, (0xFF00+n): zero-page read into the accumulator.
    pub fn load_ff00_plus_n(&mut self, mem: &Memory, n: u8)
        requires
            mem.wf(),
        ensures
            *final(self) == old(self).spec_set_narrow(
                RegisterID::A,
                mem.spec_read(0xff00 + n as int),
            ),
    {
        let v = mem.read_byte(0xff00 + (n as usize));
        self.set_register_a(v);
    }

    /// LD A, (0xFF00+C).
    pub fn load_ff00_plus_c(&mut self, mem: &Memory)
        requires
            mem.wf(),
        ensures
            *final(self) == old(self).spec_set_narrow(
                RegisterID::A,
                mem.spec_read(0xff00 + old(self).c as int),
            ),
    {
        let off = self.c;
        let v = mem.read_byte(0xff00 + (off as usize));
        self.set_register_a(v);
    }

    /// LD (0xFF00+n), A: zero-page write of the accumulator.
    pub fn store_ff00_plus_n(&mut self, mem: &mut Memory, n: u8)
        requires
            old(mem).wf(),
        ensures
            final(mem).wf(),
            *final(self) == *old(self),
            write_effect(*old(mem), 0xff00 + n as int, old(self).a, *final(mem)),
    {
        mem.write_byte(0xff00 + (n as usize), self.a);
    }

    /// LD (0xFF00+C), A.
    pub fn store_ff00_plus_c(&mut self, mem: &mut Memory)
        requires
            old(mem).wf(),
        ensures
            final(mem).wf(),
            *final(self) == *old(self),
            write_effect(*old(mem), 0xff00 + old(self).c as int, old(self).a, *final(mem)),
    {
        let off = self.c;
        mem.write_byte(0xff00 + (off as usize), self.a);
    }

    /// LD A, (nn).
    pub fn load_a_from(&mut self, mem: &Memory, loc: u16)
        requires
            mem.wf(),
        ensures
            *final(self) == old(self).spec_set_narrow(RegisterID::A, mem.spec_read(loc as int)),
    {
        let v = mem.read_byte(loc as usize);
        self.set_register_a(v);
    }

    /// LD (nn), A.
    pub fn store_a_at(&mut self, mem: &mut Memory, loc: u16)
        requires
            old(mem).wf(),
        ensures
            final(mem).wf(),
            *final(self) == *old(self),
            write_effect(*old(mem), loc as int, old(self).a, *final(mem)),
    {
        mem.write_byte(loc as usize, self.a);
    }

    /// LD (nn), SP: SP's low byte at nn, high byte at nn+1.
    pub fn store_sp_at(&mut self, mem: &mut Memory, loc: u16)
        requires
            old(mem).wf(),
        ensures
            final(mem).wf(),
            *final(self) == *old(self),
            stored16(*old(mem), loc, old(self).sp, *final(mem)),
    {
        let sp = self.sp;
        mem.write_byte(loc as usize, crate::cpu::lo_byte(sp));
        let ghost mid = *mem;
        mem.write_byte(loc.wrapping_add(1) as usize, crate::cpu::hi_byte(sp));
        proof {
            assert(write_effect(*old(mem), loc as int, spec_lo_byte(old(self).sp), mid));
        }
    }

    /// The 16-bit transfer family decoded as LoadReg16: LD SP, HL; the
    /// accumulator loads and stores through (BC), (DE), (HL+) and (HL-).
    #[verifier::rlimit(100)]
    #[verifier::spinoff_prover]
    pub fn load_registers16(&mut self, r1: RegisterID, r2: RegisterID, mem: &mut Memory) -> (res:
        Result<(), CpuError>)
        requires
            old(mem).wf(),
        ensures
            final(mem).wf(),
            match r1 {
                RegisterID::SP => {
                    &&& res == Ok::<(), CpuError>(())
                    &&& *final(self) == (CPU {
                        sp: old(self).spec_wide_value(r2),
                        ..*old(self)
                    })
                    &&& *final(mem) == *old(mem)
                },
                RegisterID::A => match r2 {
                    RegisterID::BC => {
                        &&& res == Ok::<(), CpuError>(())
                        &&& *final(self) == old(self).spec_set_narrow(
                            RegisterID::A,
                            old(mem).spec_read(old(self).spec_bc() as int),
                        )
                        &&& *final(mem) == *old(mem)
                    },
                    RegisterID::DE => {
                        &&& res == Ok::<(), CpuError>(())
                        &&& *final(self) == old(self).spec_set_narrow(
                            RegisterID::A,
                            old(mem).spec_read(old(self).spec_de() as int),
                        )
                        &&& *final(mem) == *old(mem)
                    },
                    RegisterID::HLplus => {
                        &&& res == Ok::<(), CpuError>(())
                        &&& *final(self) == (CPU {
                            a: old(mem).spec_read(old(self).spec_hl() as int),
                            ..old(self).spec_set_wide(
                                RegisterID::HL,
                                spec_wrap16(old(self).spec_hl() + 1),
                            )
                        })
                        &&& *final(mem) == *old(mem)
                    },
                    RegisterID::HLminus => {
                        &&& res == Ok::<(), CpuError>(())
                        &&& *final(self) == (CPU {
                            a: old(mem).spec_read(old(self).spec_hl() as int),
                            ..old(self).spec_set_wide(
                                RegisterID::HL,
                                spec_wrap16(old(self).spec_hl() - 1),
                            )
                        })
                        &&& *final(mem) == *old(mem)
                    },
                    _ => {
                        &&& res == Err::<(), CpuError>(
                            CpuError::ReadingFromInvalidReg { r: r2, pc: old(self).pc },
                        )
                        &&& *final(self) == *old(self)
                        &&& *final(mem) == *old(mem)
                    },
                },
                RegisterID::BC => {
                    &&& res == Ok::<(), CpuError>(())
                    &&& *final(self) == *old(self)
                    &&& write_effect(
                        *old(mem),
                        old(self).spec_bc() as int,
                        old(self).a,
                        *final(mem),
                    )
                },
                RegisterID::DE => {
                    &&& res == Ok::<(), CpuError>(())
                    &&& *final(self) == *old(self)
                    &&& write_effect(
                        *old(mem),
                        old(self).spec_de() as int,
                        old(self).a,
                        *final(mem),
                    )
                },
                RegisterID::HLplus => {
                    &&& res == Ok::<(), CpuError>(())
                    &&& *final(self) == old(self).spec_set_wide(
                        RegisterID::HL,
                        spec_wrap16(old(self).spec_hl() + 1),
                    )
                    &&& write_effect(
                        *old(mem),
                        old(self).spec_hl() as int,
                        old(self).a,
                        *final(mem),
                    )
                },
                RegisterID::HLminus => {
                    &&& res == Ok::<(), CpuError>(())
                    &&& *final(self) == old(self).spec_set_wide(
                        RegisterID::HL,
                        spec_wrap16(old(self).spec_hl() - 1),
                    )
                    &&& write_effect(
                        *old(mem),
                        old(self).spec_hl() as int,
                        old(self).a,
                        *final(mem),
                    )
                },
                _ => {
                    &&& res == Err::<(), CpuError>(
                        CpuError::ReadingIntoInvalidReg { r: r1, pc: old(self).pc },
                    )
                    &&& *final(self) == *old(self)
                    &&& *final(mem) == *old(mem)
                },
            },
    {
        match r1 {
            RegisterID::SP => {
                self.sp = self.registerid_to_u16(r2);
                Ok(())
            },
            RegisterID::A => {
                match r2 {
                    RegisterID::BC => {
                        let addr = self.bc();
                        let v = mem.read_byte(addr as usize);
                        self.set_register_a(v);
                        Ok(())
                    },
                    RegisterID::DE => {
                        let addr = self.de();
                        let v = mem.read_byte(addr as usize);
                        self.set_register_a(v);
                        Ok(())
                    },
                    RegisterID::HLplus => {
                        let addr = self.hl();
                        let v = mem.read_byte(addr as usize);
                        self.set_register_a(v);
                        let next = addr.wrapping_add(1);
                        self.h = crate::cpu::hi_byte(next);
                        self.l = crate::cpu::lo_byte(next);
                        Ok(())
                    },
                    RegisterID::HLminus => {
                        let addr = self.hl();
                        let v = mem.read_byte(addr as usize);
                        self.set_register_a(v);
                        let next = addr.wrapping_sub(1);
                        self.h = crate::cpu::hi_byte(next);
                        self.l = crate::cpu::lo_byte(next);
                        Ok(())
                    },
                    _ => Err(CpuError::ReadingFromInvalidReg { r: r2, pc: self.pc }),
                }
            },
            RegisterID::BC => {
                let addr = self.bc();
                mem.write_byte(addr as usize, self.a);
                Ok(())
            },
            RegisterID::DE => {
                let addr = self.de();
                mem.write_byte(addr as usize, self.a);
                Ok(())
            },
            RegisterID::HLplus => {
                let addr = self.hl();
                mem.write_byte(addr as usize, self.a);
                let next = addr.wrapping_add(1);
                self.h = crate::cpu::hi_byte(next);
                self.l = crate::cpu::lo_byte(next);
                Ok(())
            },
            RegisterID::HLminus => {
                let addr = self.hl();
                mem.write_byte(addr as usize, self.a);
                let next = addr.wrapping_sub(1);
                self.h = crate::cpu::hi_byte(next);
                self.l = crate::cpu::lo_byte(next);
                Ok(())
            },
            _ => Err(CpuError::ReadingIntoInvalidReg { r: r1, pc: self.pc }),
        }
    }

    /// LD r[y], r[z], both through the r table.
    pub fn load_registers8(&mut self, r1: RegisterID, r2: RegisterID, mem: &mut Memory) -> (res:
        Result<(), CpuError>)
        requires
            old(mem).wf(),
        ensures
            final(mem).wf(),
            if CPU::is_narrow(r2) || r2 == RegisterID::HLaddress {
                if CPU::is_narrow(r1) || r1 == RegisterID::HLaddress {
                    let v = old(self).spec_r_value(*old(mem), r2);
                    &&& res == Ok::<(), CpuError>(())
                    &&& assign_r(*old(self), *old(mem), r1, v, *final(self), *final(mem))
                } else {
                    &&& res == Err::<(), CpuError>(
                        CpuError::ReadingIntoInvalidReg { r: r1, pc: old(self).pc },
                    )
                    &&& *final(self) == *old(self)
                    &&& *final(mem) == *old(mem)
                }
            } else {
                &&& res == Err::<(), CpuError>(
                    CpuError::ReadingFromInvalidReg { r: r2, pc: old(self).pc },
                )
                &&& *final(self) == *old(self)
                &&& *final(mem) == *old(mem)
            },
    {
        let new_val = self.r_table_lookup(r2, mem)?;
        self.r_table_assign(r1, new_val, mem)
    }
}

} // verus!
