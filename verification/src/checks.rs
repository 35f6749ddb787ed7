//! Interrupt-enable switches and the shared flag-and-accumulator updates
//! behind the 8-bit add and subtract family.

use vstd::prelude::*;

use crate::cpu::{CPU, ImeState};

verus! {

/// The accumulator and flags after an 8-bit add of `n` (plus a carry-in for
/// ADC): Z from the result byte, N clear, H from the carry out of bit 3,
/// C from the carry out of bit 7.
pub open spec fn spec_add_a(c: CPU, n: u8, ci: bool) -> CPU {
    let cin = if ci {
        1int
    } else {
        0
    };
    let sum = c.a + n + cin;
    let res = (sum % 256) as u8;
    CPU {
        a: res,
        zero_flag: res == 0,
        subtraction_flag: false,
        halfcarry_flag: (c.a % 16) + (n % 16) + cin > 15,
        carry_flag: sum > 255,
        ..c
    }
}

/// The accumulator and flags after an 8-bit subtract of `n` (plus a borrow-in
/// for SBC): Z from the result byte, N set, H from the borrow out of bit 4,
/// C when the subtrahend exceeds the accumulator.
pub open spec fn spec_sub_a(c: CPU, n: u8, ci: bool) -> CPU {
    let cin = if ci {
        1int
    } else {
        0
    };
    let res = ((c.a - n - cin) % 256) as u8;
    CPU {
        a: res,
        zero_flag: res == 0,
        subtraction_flag: true,
        halfcarry_flag: (c.a % 16) < (n % 16) + cin,
        carry_flag: c.a < n + cin,
        ..c
    }
}

/// CP: the flags of a subtract with the accumulator left alone.
pub open spec fn spec_cp_a(c: CPU, n: u8) -> CPU {
    CPU { a: c.a, ..spec_sub_a(c, n, false) }
}

impl CPU {
    /// EI: enabling is delayed by one instruction, so a disabled machine
    /// only reaches the pending state here.
    pub fn enable_interrupts(&mut self)
        ensures
            *final(self) == (CPU {
                ime: crate::cpu::spec_ei_state(old(self).ime),
                ..*old(self)
            }),
    {
        match self.ime {
            ImeState::DisabledImmediate => {
                self.ime = ImeState::EnablePending;
            },
            _ => {},
        }
    }

    /// DI: disabling takes effect immediately.
    pub fn disable_interrupts(&mut self)
        ensures
            *final(self) == (CPU { ime: ImeState::DisabledImmediate, ..*old(self) }),
    {
        self.ime = ImeState::DisabledImmediate;
    }

    /// A = A + n (+ carry-in), with the add flag rules.
    pub fn add_flag_checks(&mut self, n: u8, carry_in: bool)
        ensures
            *final(self) == spec_add_a(*old(self), n, carry_in),
    {
        let cin: u16 = if carry_in {
            1
        } else {
            0
        };
        let sum: u16 = (self.a as u16) + (n as u16) + cin;
        let res: u8 = (sum % 256) as u8;
        self.zero_flag = res == 0;
        self.subtraction_flag = false;
        self.halfcarry_flag = (self.a % 16) as u16 + (n % 16) as u16 + cin > 15;
        self.carry_flag = sum > 255;
        self.a = res;
    }

    /// A = A - n (- borrow-in), with the subtract flag rules.
    pub fn sub_flag_checks(&mut self, n: u8, carry_in: bool)
        ensures
            *final(self) == spec_sub_a(*old(self), n, carry_in),
    {
        let cin: u16 = if carry_in {
            1
        } else {
            0
        };
        let res: u8 = (((self.a as u16) + 256 - (n as u16) - cin) % 256) as u8;
        self.zero_flag = res == 0;
        self.subtraction_flag = true;
        self.halfcarry_flag = ((self.a % 16) as u16) < ((n % 16) as u16) + cin;
        self.carry_flag = (self.a as u16) < (n as u16) + cin;
        self.a = res;
    }

    /// Z from a result byte, the other flags untouched.
    pub fn zero_flag_check(&mut self, result: u8)
        ensures
            *final(self) == (CPU { zero_flag: result == 0, ..*old(self) }),
    {
        self.zero_flag = result == 0;
    }
}

} // verus!
