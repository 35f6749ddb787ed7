//! Absolute and relative jumps. The displacement of a relative jump is added
//! to PC after the instruction bytes are consumed, wrapping modulo 2^16.

use vstd::prelude::*;

use crate::cpu::{spec_wrap16, CPU};
use crate::instructions::FlagID;

verus! {

/// PC after JR d.
pub open spec fn spec_jr(c: CPU, d: i8) -> CPU {
    CPU { pc: spec_wrap16(c.pc + d), ..c }
}

impl CPU {
    /// JP nn.
    pub fn jump(&mut self, nn: u16)
        ensures
            *final(self) == (CPU { pc: nn, ..*old(self) }),
    {
        self.pc = nn;
    }

    /// JP HL.
    pub fn jump_to_hl(&mut self)
        ensures
            *final(self) == (CPU { pc: old(self).spec_hl(), ..*old(self) }),
    {
        self.pc = self.hl();
    }

    /// JP cc, nn: falls through when the condition fails.
    pub fn jump_conditional(&mut self, f: FlagID, nn: u16)
        ensures
            *final(self) == if old(self).spec_condition(f) {
                CPU { pc: nn, ..*old(self) }
            } else {
                *old(self)
            },
    {
        if self.condition_holds(f) {
            self.pc = nn;
        }
    }

    /// JR d.
    pub fn jump_reg(&mut self, d: i8)
        ensures
            *final(self) == spec_jr(*old(self), d),
    {
        self.pc = self.pc.wrapping_add_signed(d as i16);
    }

    /// JR cc, d: falls through when the condition fails.
    pub fn jump_reg_conditional(&mut self, f: FlagID, d: i8)
        ensures
            *final(self) == if old(self).spec_condition(f) {
                spec_jr(*old(self), d)
            } else {
                *old(self)
            },
    {
        if self.condition_holds(f) {
            self.pc = self.pc.wrapping_add_signed(d as i16);
        }
    }
}

} // verus!
