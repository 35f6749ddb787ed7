//! The stack: 16-bit pushes and pops through the bus, and the call, return
//! and restart instructions built on them.

use vstd::prelude::*;

use crate::bits::get_bit;
use crate::cpu::{
    spec_hi_byte, spec_lo_byte, spec_wrap16, CpuError, ImeState, CPU,
};
use crate::instructions::{FlagID, RegisterID};
use crate::memory::{write_effect, Memory};

verus! {

/// Two bus writes that push `val` below `sp`: the high byte at sp-1, the low
/// byte at sp-2, both wrapping.
pub open spec fn pushed16(m0: Memory, sp: u16, val: u16, m1: Memory) -> bool {
    exists|mid: Memory|
        {
            &&& #[trigger] write_effect(
                m0,
                spec_wrap16(sp - 1) as int,
                spec_hi_byte(val),
                mid,
            )
            &&& write_effect(mid, spec_wrap16(sp - 2) as int, spec_lo_byte(val), m1)
        }
}

/// The 16-bit value a pop at `sp` reads: low byte at sp, high byte at sp+1,
/// wrapping.
pub open spec fn spec_pop_value(c: CPU, m: Memory) -> u16 {
    (m.spec_read(spec_wrap16(c.sp + 1) as int) as int * 0x100 + m.spec_read(c.sp as int) as int)
        as u16
}

impl CPU {
    /// Push a 16-bit value: SP moves down by two, the bytes go through the
    /// bus.
    pub fn push16(&mut self, mem: &mut Memory, val: u16)
        requires
            old(mem).wf(),
        ensures
            final(mem).wf(),
            *final(self) == (CPU { sp: spec_wrap16(old(self).sp - 2), ..*old(self) }),
            pushed16(*old(mem), old(self).sp, val, *final(mem)),
    {
        let a1 = self.sp.wrapping_sub(1);
        let a2 = self.sp.wrapping_sub(2);
        mem.write_byte(a1 as usize, crate::cpu::hi_byte(val));
        let ghost mid = *mem;
        mem.write_byte(a2 as usize, crate::cpu::lo_byte(val));
        self.sp = a2;
        proof {
            assert(write_effect(*old(mem), spec_wrap16(old(self).sp - 1) as int, spec_hi_byte(val), mid));
        }
    }

    /// Pop a 16-bit value: the bytes at SP and SP+1, SP moves up by two.
    pub fn pop16(&mut self, mem: &Memory) -> (val: u16)
        requires
            mem.wf(),
        ensures
            val == spec_pop_value(*old(self), *mem),
            *final(self) == (CPU { sp: spec_wrap16(old(self).sp + 2), ..*old(self) }),
    {
        let lo = mem.read_byte(self.sp as usize);
        let hi = mem.read_byte(self.sp.wrapping_add(1) as usize);
        self.sp = self.sp.wrapping_add(2);
        (hi as u16) * 0x100 + (lo as u16)
    }

    /// PUSH rp2[p]: BC, DE, HL or AF; AF's low nibble is zero by the flag
    /// representation.
    pub fn push_r16(&mut self, r: RegisterID, mem: &mut Memory) -> (res: Result<(), CpuError>)
        requires
            old(mem).wf(),
        ensures
            final(mem).wf(),
            match r {
                RegisterID::BC | RegisterID::DE | RegisterID::HL | RegisterID::AF => {
                    &&& res == Ok::<(), CpuError>(())
                    &&& *final(self) == (CPU {
                        sp: spec_wrap16(old(self).sp - 2),
                        ..*old(self)
                    })
                    &&& pushed16(
                        *old(mem),
                        old(self).sp,
                        old(self).spec_wide_value(r),
                        *final(mem),
                    )
                },
                _ => {
                    &&& res == Err::<(), CpuError>(
                        CpuError::ReadingFromInvalidReg { r, pc: old(self).pc },
                    )
                    &&& *final(self) == *old(self)
                    &&& *final(mem) == *old(mem)
                },
            },
    {
        let val = match r {
            RegisterID::BC => self.bc(),
            RegisterID::DE => self.de(),
            RegisterID::HL => self.hl(),
            RegisterID::AF => self.af(),
            _ => {
                return Err(CpuError::ReadingFromInvalidReg { r, pc: self.pc });
            },
        };
        self.push16(mem, val);
        Ok(())
    }

    /// POP rp2[p]: BC, DE, HL or AF; popping into AF masks the flag byte's
    /// low nibble to zero.
    pub fn pop_r16(&mut self, r: RegisterID, mem: &Memory) -> (res: Result<(), CpuError>)
        requires
            mem.wf(),
        ensures
            match r {
                RegisterID::BC | RegisterID::DE | RegisterID::HL => {
                    &&& res == Ok::<(), CpuError>(())
                    &&& *final(self) == (CPU {
                        sp: spec_wrap16(old(self).sp + 2),
                        ..old(self).spec_set_wide(r, spec_pop_value(*old(self), *mem))
                    })
                },
                RegisterID::AF => {
                    &&& res == Ok::<(), CpuError>(())
                    &&& *final(self) == (CPU {
                        sp: spec_wrap16(old(self).sp + 2),
                        ..old(self).spec_set_af(spec_pop_value(*old(self), *mem))
                    })
                },
                _ => {
                    &&& res == Err::<(), CpuError>(
                        CpuError::ReadingIntoInvalidReg { r, pc: old(self).pc },
                    )
                    &&& *final(self) == *old(self)
                },
            },
    {
        match r {
            RegisterID::BC | RegisterID::DE | RegisterID::HL | RegisterID::AF => {},
            _ => {
                return Err(CpuError::ReadingIntoInvalidReg { r, pc: self.pc });
            },
        }
        let val = self.pop16(mem);
        match r {
            RegisterID::BC => {
                self.b = crate::cpu::hi_byte(val);
                self.c = crate::cpu::lo_byte(val);
            },
            RegisterID::DE => {
                self.d = crate::cpu::hi_byte(val);
                self.e = crate::cpu::lo_byte(val);
            },
            RegisterID::HL => {
                self.h = crate::cpu::hi_byte(val);
                self.l = crate::cpu::lo_byte(val);
            },
            _ => {
                let lo = crate::cpu::lo_byte(val);
                self.a = crate::cpu::hi_byte(val);
                self.zero_flag = get_bit(lo, 7);
                self.subtraction_flag = get_bit(lo, 6);
                self.halfcarry_flag = get_bit(lo, 5);
                self.carry_flag = get_bit(lo, 4);
            },
        }
        Ok(())
    }

    /// CALL nn: push the post-instruction PC, then jump.
    pub fn call(&mut self, nn: u16, mem: &mut Memory)
        requires
            old(mem).wf(),
        ensures
            final(mem).wf(),
            *final(self) == (CPU { pc: nn, sp: spec_wrap16(old(self).sp - 2), ..*old(self) }),
            pushed16(*old(mem), old(self).sp, old(self).pc, *final(mem)),
    {
        let ret_pc = self.pc;
        self.push16(mem, ret_pc);
        self.pc = nn;
    }

    /// CALL cc, nn: falls through when the condition fails.
    pub fn call_conditional(&mut self, f: FlagID, nn: u16, mem: &mut Memory)
        requires
            old(mem).wf(),
        ensures
            final(mem).wf(),
            old(self).spec_condition(f) ==> {
                &&& *final(self) == (CPU {
                    pc: nn,
                    sp: spec_wrap16(old(self).sp - 2),
                    ..*old(self)
                })
                &&& pushed16(*old(mem), old(self).sp, old(self).pc, *final(mem))
            },
            !old(self).spec_condition(f) ==> {
                &&& *final(self) == *old(self)
                &&& *final(mem) == *old(mem)
            },
    {
        if self.condition_holds(f) {
            self.call(nn, mem);
        }
    }

    /// RET: pop PC.
    pub fn ret(&mut self, mem: &Memory)
        requires
            mem.wf(),
        ensures
            *final(self) == (CPU {
                pc: spec_pop_value(*old(self), *mem),
                sp: spec_wrap16(old(self).sp + 2),
                ..*old(self)
            }),
    {
        let addr = self.pop16(mem);
        self.pc = addr;
    }

    /// RET cc: falls through when the condition fails.
    pub fn ret_conditional(&mut self, f: FlagID, mem: &Memory)
        requires
            mem.wf(),
        ensures
            *final(self) == if old(self).spec_condition(f) {
                CPU {
                    pc: spec_pop_value(*old(self), *mem),
                    sp: spec_wrap16(old(self).sp + 2),
                    ..*old(self)
                }
            } else {
                *old(self)
            },
    {
        if self.condition_holds(f) {
            self.ret(mem);
        }
    }

    /// RETI: RET, and the interrupt master enable comes back on immediately.
    pub fn reti(&mut self, mem: &Memory)
        requires
            mem.wf(),
        ensures
            *final(self) == (CPU {
                pc: spec_pop_value(*old(self), *mem),
                sp: spec_wrap16(old(self).sp + 2),
                ime: ImeState::Enabled,
                ..*old(self)
            }),
    {
        self.ret(mem);
        self.ime = ImeState::Enabled;
    }

    /// RST n: push the post-instruction PC and jump to the fixed vector.
    pub fn rst(&mut self, arg: u8, mem: &mut Memory)
        requires
            old(mem).wf(),
        ensures
            final(mem).wf(),
            *final(self) == (CPU {
                pc: arg as u16,
                sp: spec_wrap16(old(self).sp - 2),
                ..*old(self)
            }),
            pushed16(*old(mem), old(self).sp, old(self).pc, *final(mem)),
    {
        let ret_pc = self.pc;
        self.push16(mem, ret_pc);
        self.pc = arg as u16;
    }
}

} // verus!
