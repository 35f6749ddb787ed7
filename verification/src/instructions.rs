//! Structural decoding of the 256 primary opcodes and the 256 CB-prefixed
//! opcodes through the x/y/z/p/q bit fields, into a typed instruction
//! algebra.

use vstd::prelude::*;

verus! {

/// A register operand: a 16-bit pair, an 8-bit half, or one of the
/// memory-through-HL forms from the decode tables.
#[derive(Debug, Clone, Copy, PartialEq, Eq)]
pub enum RegisterID {
    AF,
    BC,
    DE,
    HL,
    SP,

    A,
    B,
    C,
    D,
    E,
    H,
    L,

    HLplus,
    HLminus,
    HLaddress,
}

/// The r[z] table: the 8-bit operand named by a 3-bit field, where index 6
/// means the byte at memory[HL].
pub open spec fn spec_r_lookup(val: u8) -> RegisterID {
    match val {
        0 => RegisterID::B,
        1 => RegisterID::C,
        2 => RegisterID::D,
        3 => RegisterID::E,
        4 => RegisterID::H,
        5 => RegisterID::L,
        6 => RegisterID::HLaddress,
        _ => RegisterID::A,
    }
}

/// The rp[p] table: 16-bit pairs with SP.
pub open spec fn spec_rp_lookup(val: u8) -> RegisterID {
    match val {
        0 => RegisterID::BC,
        1 => RegisterID::DE,
        2 => RegisterID::HL,
        _ => RegisterID::SP,
    }
}

/// The rp2[p] table: 16-bit pairs with AF.
pub open spec fn spec_rp2_lookup(val: u8) -> RegisterID {
    match val {
        0 => RegisterID::BC,
        1 => RegisterID::DE,
        2 => RegisterID::HL,
        _ => RegisterID::AF,
    }
}

impl RegisterID {
    pub fn r_lookup(val: u8) -> (r: RegisterID)
        ensures
            r == spec_r_lookup(val),
    {
        match val {
            0 => RegisterID::B,
            1 => RegisterID::C,
            2 => RegisterID::D,
            3 => RegisterID::E,
            4 => RegisterID::H,
            5 => RegisterID::L,
            6 => RegisterID::HLaddress,
            _ => RegisterID::A,
        }
    }

    pub fn rp_lookup(val: u8) -> (r: RegisterID)
        ensures
            r == spec_rp_lookup(val),
    {
        match val {
            0 => RegisterID::BC,
            1 => RegisterID::DE,
            2 => RegisterID::HL,
            _ => RegisterID::SP,
        }
    }

    pub fn rp2_lookup(val: u8) -> (r: RegisterID)
        ensures
            r == spec_rp2_lookup(val),
    {
        match val {
            0 => RegisterID::BC,
            1 => RegisterID::DE,
            2 => RegisterID::HL,
            _ => RegisterID::AF,
        }
    }
}

/// A branch condition: not-zero, zero, not-carry, carry.
#[derive(Debug, Clone, Copy, PartialEq, Eq)]
pub enum FlagID {
    NZ,
    Z,
    NC,
    C,
}

/// The cc[y] table.
pub open spec fn spec_cc_lookup(val: u8) -> FlagID {
    match val {
        0 => FlagID::NZ,
        1 => FlagID::Z,
        2 => FlagID::NC,
        _ => FlagID::C,
    }
}

impl FlagID {
    pub fn cc_lookup(val: u8) -> (f: FlagID)
        ensures
            f == spec_cc_lookup(val),
    {
        match val {
            0 => FlagID::NZ,
            1 => FlagID::Z,
            2 => FlagID::NC,
            _ => FlagID::C,
        }
    }
}

/// The decoded instruction algebra. Operand bytes are already folded in:
/// `nn` and `loc` are little-endian 16-bit immediates, `n` an 8-bit
/// immediate, `d` a signed displacement.
#[derive(Debug, Clone, Copy, PartialEq, Eq)]
pub enum Instruction {
    NOP,
    STOP,
    HALT,
    ILLEGAL,

    Load16 { r: RegisterID, nn: u16 },
    Load8 { r: RegisterID, n: u8 },
    LoadReg16 { r1: RegisterID, r2: RegisterID },
    LoadReg8 { r1: RegisterID, r2: RegisterID },
    LoadSPToHLWithOffset { d: i8 },
    LoadFF00PlusC,
    LoadFF00PlusImmediate { n: u8 },
    LoadAddress { loc: u16 },

    StoreFF00Plus { r: RegisterID, n: u8 },
    StoreReg { r1: RegisterID, loc: u16 },
    StoreImmediate { loc: u16 },
    StoreFF00PlusC,

    Jump { nn: u16 },
    JumpConditional { f: FlagID, nn: u16 },
    JR { d: i8 },
    JumpRegConditional { f: FlagID, d: i8 },
    JumpToHL,

    RLC { r: RegisterID },
    RRC { r: RegisterID },
    RL { r: RegisterID },
    RR { r: RegisterID },
    SLA { r: RegisterID },
    SRA { r: RegisterID },
    SWAP { r: RegisterID },
    SRL { r: RegisterID },

    BIT { y: u8, r: RegisterID },
    RES { y: u8, r: RegisterID },
    SET { y: u8, r: RegisterID },

    AddSigned { r: RegisterID, d: i8 },

    DEC8b { r: RegisterID },
    DEC16b { r: RegisterID },
    INC8b { r: RegisterID },
    INC16b { r: RegisterID },

    AddHLAndR16 { r: RegisterID },

    RLCA,
    RRCA,
    RLA,
    RRA,
    DAA,
    CPL,
    SCF,
    CCF,

    RET { f: FlagID },

    RETNoParam,
    RETI,

    POP { r: RegisterID },

    DI,
    EI,

    CallConditional { f: FlagID, nn: u16 },
    Call { nn: u16 },

    PUSH { r: RegisterID },

    RST { arg: u8 },

    AddImmediate { n: u8 },
    AdcImmediate { n: u8 },
    SubImmediate { n: u8 },
    SbcImmediate { n: u8 },
    AndImmediate { n: u8 },
    XorImmediate { n: u8 },
    OrImmediate { n: u8 },
    CpImmediate { n: u8 },

    AddRegister { r: RegisterID },
    AdcRegister { r: RegisterID },
    SubRegister { r: RegisterID },
    SbcRegister { r: RegisterID },
    AndRegister { r: RegisterID },
    XorRegister { r: RegisterID },
    OrRegister { r: RegisterID },
    CpRegister { r: RegisterID },
}

/// Fetched bytes travel packed as `first<<24 | second<<16 | third<<8`.
pub open spec fn spec_first_byte(bytes: u32) -> u8 {
    ((bytes / 0x1000000) % 0x100) as u8
}

pub open spec fn spec_second_byte(bytes: u32) -> u8 {
    ((bytes / 0x10000) % 0x100) as u8
}

pub open spec fn spec_third_byte(bytes: u32) -> u8 {
    ((bytes / 0x100) % 0x100) as u8
}

/// The 16-bit immediate: operand bytes are little-endian in memory, so the
/// second fetched byte is the low half and the third the high half.
pub open spec fn spec_nn(bytes: u32) -> u16 {
    (spec_third_byte(bytes) as u16 * 0x100 + spec_second_byte(bytes) as u16) as u16
}

pub open spec fn spec_x(op: u8) -> u8 {
    op / 64
}

pub open spec fn spec_y(op: u8) -> u8 {
    (op / 8) % 8
}

pub open spec fn spec_z(op: u8) -> u8 {
    op % 8
}

pub open spec fn spec_p(op: u8) -> u8 {
    spec_y(op) / 2
}

pub open spec fn spec_q(op: u8) -> bool {
    spec_y(op) % 2 == 1
}

/// How many bytes the instruction whose first byte is `op` occupies,
/// counting the opcode itself (the CB prefix always makes two).
pub open spec fn spec_instr_len(op: u8) -> int {
    if op == 0xcb {
        2
    } else {
        let x = spec_x(op);
        let y = spec_y(op);
        let z = spec_z(op);
        let p = spec_p(op);
        let q = spec_q(op);
        if x == 0 {
            if z == 0 {
                if y == 0 {
                    1
                } else if y == 1 {
                    3
                } else if y == 2 {
                    1
                } else {
                    2
                }
            } else if z == 1 {
                if q {
                    1
                } else {
                    3
                }
            } else if z == 6 {
                2
            } else {
                1
            }
        } else if x == 1 || x == 2 {
            1
        } else {
            if z == 0 {
                if y <= 3 {
                    1
                } else {
                    2
                }
            } else if z == 1 {
                1
            } else if z == 2 {
                if y <= 3 || y == 5 || y == 7 {
                    3
                } else {
                    1
                }
            } else if z == 3 {
                if y == 0 {
                    3
                } else {
                    1
                }
            } else if z == 4 {
                if y <= 3 {
                    3
                } else {
                    1
                }
            } else if z == 5 {
                if q {
                    if p == 0 {
                        3
                    } else {
                        1
                    }
                } else {
                    1
                }
            } else if z == 6 {
                2
            } else {
                1
            }
        }
    }
}

/// The CB-prefixed table, decoded from the second byte.
pub open spec fn spec_decode_cb(op: u8) -> Instruction {
    let y = spec_y(op);
    let z = spec_z(op);
    let r = spec_r_lookup(z);
    if spec_x(op) == 0 {
        match y {
            0 => Instruction::RLC { r },
            1 => Instruction::RRC { r },
            2 => Instruction::RL { r },
            3 => Instruction::RR { r },
            4 => Instruction::SLA { r },
            5 => Instruction::SRA { r },
            6 => Instruction::SWAP { r },
            _ => Instruction::SRL { r },
        }
    } else if spec_x(op) == 1 {
        Instruction::BIT { y, r }
    } else if spec_x(op) == 2 {
        Instruction::RES { y, r }
    } else {
        Instruction::SET { y, r }
    }
}

/// The non-prefixed table for x = 0.
pub open spec fn spec_decode_x0(bytes: u32) -> Instruction {
    let op = spec_first_byte(bytes);
    let y = spec_y(op);
    let z = spec_z(op);
    let p = spec_p(op);
    let q = spec_q(op);
    let n = spec_second_byte(bytes);
    let nn = spec_nn(bytes);
    if z == 0 {
        if y == 0 {
            Instruction::NOP
        } else if y == 1 {
            Instruction::StoreReg { r1: RegisterID::SP, loc: nn }
        } else if y == 2 {
            Instruction::STOP
        } else if y == 3 {
            Instruction::JR { d: n as i8 }
        } else {
            Instruction::JumpRegConditional { f: spec_cc_lookup((y - 4) as u8), d: n as i8 }
        }
    } else if z == 1 {
        if q {
            Instruction::AddHLAndR16 { r: spec_rp_lookup(p) }
        } else {
            Instruction::Load16 { r: spec_rp_lookup(p), nn }
        }
    } else if z == 2 {
        if q {
            match p {
                0 => Instruction::LoadReg16 { r1: RegisterID::A, r2: RegisterID::BC },
                1 => Instruction::LoadReg16 { r1: RegisterID::A, r2: RegisterID::DE },
                2 => Instruction::LoadReg16 { r1: RegisterID::A, r2: RegisterID::HLplus },
                _ => Instruction::LoadReg16 { r1: RegisterID::A, r2: RegisterID::HLminus },
            }
        } else {
            match p {
                0 => Instruction::LoadReg16 { r1: RegisterID::BC, r2: RegisterID::A },
                1 => Instruction::LoadReg16 { r1: RegisterID::DE, r2: RegisterID::A },
                2 => Instruction::LoadReg16 { r1: RegisterID::HLplus, r2: RegisterID::A },
                _ => Instruction::LoadReg16 { r1: RegisterID::HLminus, r2: RegisterID::A },
            }
        }
    } else if z == 3 {
        if q {
            Instruction::DEC16b { r: spec_rp_lookup(p) }
        } else {
            Instruction::INC16b { r: spec_rp_lookup(p) }
        }
    } else if z == 4 {
        Instruction::INC8b { r: spec_r_lookup(y) }
    } else if z == 5 {
        Instruction::DEC8b { r: spec_r_lookup(y) }
    } else if z == 6 {
        Instruction::Load8 { r: spec_r_lookup(y), n }
    } else {
        match y {
            0 => Instruction::RLCA,
            1 => Instruction::RRCA,
            2 => Instruction::RLA,
            3 => Instruction::RRA,
            4 => Instruction::DAA,
            5 => Instruction::CPL,
            6 => Instruction::SCF,
            _ => Instruction::CCF,
        }
    }
}

/// The non-prefixed table for x = 1: register-to-register loads, with the
/// doubly-memory cell carved out as HALT.
pub open spec fn spec_decode_x1(bytes: u32) -> Instruction {
    let op = spec_first_byte(bytes);
    let y = spec_y(op);
    let z = spec_z(op);
    if y == 6 && z == 6 {
        Instruction::HALT
    } else {
        Instruction::LoadReg8 { r1: spec_r_lookup(y), r2: spec_r_lookup(z) }
    }
}

/// The non-prefixed table for x = 2: the eight ALU operations on r[z].
pub open spec fn spec_decode_x2(bytes: u32) -> Instruction {
    let op = spec_first_byte(bytes);
    let r = spec_r_lookup(spec_z(op));
    match spec_y(op) {
        0 => Instruction::AddRegister { r },
        1 => Instruction::AdcRegister { r },
        2 => Instruction::SubRegister { r },
        3 => Instruction::SbcRegister { r },
        4 => Instruction::AndRegister { r },
        5 => Instruction::XorRegister { r },
        6 => Instruction::OrRegister { r },
        _ => Instruction::CpRegister { r },
    }
}

/// The non-prefixed table for x = 3: control flow, stack, zero-page loads,
/// ALU immediates, and the encoded-illegal cells.
pub open spec fn spec_decode_x3(bytes: u32) -> Instruction {
    let op = spec_first_byte(bytes);
    let y = spec_y(op);
    let z = spec_z(op);
    let p = spec_p(op);
    let q = spec_q(op);
    let n = spec_second_byte(bytes);
    let nn = spec_nn(bytes);
    if z == 0 {
        if y <= 3 {
            Instruction::RET { f: spec_cc_lookup(y) }
        } else if y == 4 {
            Instruction::StoreFF00Plus { r: RegisterID::A, n }
        } else if y == 5 {
            Instruction::AddSigned { r: RegisterID::SP, d: n as i8 }
        } else if y == 6 {
            Instruction::LoadFF00PlusImmediate { n }
        } else {
            Instruction::LoadSPToHLWithOffset { d: n as i8 }
        }
    } else if z == 1 {
        if q {
            match p {
                0 => Instruction::RETNoParam,
                1 => Instruction::RETI,
                2 => Instruction::JumpToHL,
                _ => Instruction::LoadReg16 { r1: RegisterID::SP, r2: RegisterID::HL },
            }
        } else {
            Instruction::POP { r: spec_rp2_lookup(p) }
        }
    } else if z == 2 {
        if y <= 3 {
            Instruction::JumpConditional { f: spec_cc_lookup(y), nn }
        } else if y == 4 {
            Instruction::StoreFF00PlusC
        } else if y == 5 {
            Instruction::StoreImmediate { loc: nn }
        } else if y == 6 {
            Instruction::LoadFF00PlusC
        } else {
            Instruction::LoadAddress { loc: nn }
        }
    } else if z == 3 {
        if y == 0 {
            Instruction::Jump { nn }
        } else if y == 6 {
            Instruction::DI
        } else if y == 7 {
            Instruction::EI
        } else {
            Instruction::ILLEGAL
        }
    } else if z == 4 {
        if y <= 3 {
            Instruction::CallConditional { f: spec_cc_lookup(y), nn }
        } else {
            Instruction::ILLEGAL
        }
    } else if z == 5 {
        if q {
            if p == 0 {
                Instruction::Call { nn }
            } else {
                Instruction::ILLEGAL
            }
        } else {
            Instruction::PUSH { r: spec_rp2_lookup(p) }
        }
    } else if z == 6 {
        match y {
            0 => Instruction::AddImmediate { n },
            1 => Instruction::AdcImmediate { n },
            2 => Instruction::SubImmediate { n },
            3 => Instruction::SbcImmediate { n },
            4 => Instruction::AndImmediate { n },
            5 => Instruction::XorImmediate { n },
            6 => Instruction::OrImmediate { n },
            _ => Instruction::CpImmediate { n },
        }
    } else {
        Instruction::RST { arg: (y * 8) as u8 }
    }
}

/// Total decode of a packed fetch: the CB prefix switches to the prefixed
/// table on the second byte, anything else goes through the x field.
pub open spec fn spec_decode(bytes: u32) -> Instruction {
    if spec_first_byte(bytes) == 0xcb {
        spec_decode_cb(spec_second_byte(bytes))
    } else {
        let x = spec_x(spec_first_byte(bytes));
        if x == 0 {
            spec_decode_x0(bytes)
        } else if x == 1 {
            spec_decode_x1(bytes)
        } else if x == 2 {
            spec_decode_x2(bytes)
        } else {
            spec_decode_x3(bytes)
        }
    }
}

impl Instruction {
    fn first_byte(bytes: u32) -> (b: u8)
        ensures
            b == spec_first_byte(bytes),
    {
        ((bytes / 0x1000000) % 0x100) as u8
    }

    fn second_byte(bytes: u32) -> (b: u8)
        ensures
            b == spec_second_byte(bytes),
    {
        ((bytes / 0x10000) % 0x100) as u8
    }

    fn third_byte(bytes: u32) -> (b: u8)
        ensures
            b == spec_third_byte(bytes),
    {
        ((bytes / 0x100) % 0x100) as u8
    }

    fn second_and_third_bytes_reversed(bytes: u32) -> (nn: u16)
        ensures
            nn == spec_nn(bytes),
    {
        let lo = Self::second_byte(bytes) as u16;
        let hi = Self::third_byte(bytes) as u16;
        hi * 0x100 + lo
    }

    fn opcode_x(opcode: u8) -> (x: u8)
        ensures
            x == spec_x(opcode),
    {
        opcode / 64
    }

    fn opcode_y(opcode: u8) -> (y: u8)
        ensures
            y == spec_y(opcode),
    {
        (opcode / 8) % 8
    }

    fn opcode_z(opcode: u8) -> (z: u8)
        ensures
            z == spec_z(opcode),
    {
        opcode % 8
    }

    fn opcode_p(opcode: u8) -> (p: u8)
        ensures
            p == spec_p(opcode),
    {
        Self::opcode_y(opcode) / 2
    }

    fn opcode_q(opcode: u8) -> (q: bool)
        ensures
            q == spec_q(opcode),
    {
        Self::opcode_y(opcode) % 2 == 1
    }

    /// How many bytes the instruction whose first byte is `op` occupies.
    pub fn length_of(op: u8) -> (len: u8)
        ensures
            len as int == spec_instr_len(op),
            1 <= len <= 3,
    {
        if op == 0xcb {
            return 2;
        }
        let x = Self::opcode_x(op);
        let y = Self::opcode_y(op);
        let z = Self::opcode_z(op);
        let p = Self::opcode_p(op);
        let q = Self::opcode_q(op);
        if x == 0 {
            if z == 0 {
                if y == 0 {
                    1
                } else if y == 1 {
                    3
                } else if y == 2 {
                    1
                } else {
                    2
                }
            } else if z == 1 {
                if q {
                    1
                } else {
                    3
                }
            } else if z == 6 {
                2
            } else {
                1
            }
        } else if x == 1 || x == 2 {
            1
        } else {
            if z == 0 {
                if y <= 3 {
                    1
                } else {
                    2
                }
            } else if z == 1 {
                1
            } else if z == 2 {
                if y <= 3 || y == 5 || y == 7 {
                    3
                } else {
                    1
                }
            } else if z == 3 {
                if y == 0 {
                    3
                } else {
                    1
                }
            } else if z == 4 {
                if y <= 3 {
                    3
                } else {
                    1
                }
            } else if z == 5 {
                if q {
                    if p == 0 {
                        3
                    } else {
                        1
                    }
                } else {
                    1
                }
            } else if z == 6 {
                2
            } else {
                1
            }
        }
    }

    /// Decode a packed three-byte fetch into an instruction.
    pub fn from_bytes(bytes: u32) -> (instr: Instruction)
        ensures
            instr == spec_decode(bytes),
    {
        if Self::first_byte(bytes) == 0xcb {
            let op = Self::second_byte(bytes);
            let y = Self::opcode_y(op);
            let z = Self::opcode_z(op);
            let r = RegisterID::r_lookup(z);
            match Self::opcode_x(op) {
                0 => match y {
                    0 => Instruction::RLC { r },
                    1 => Instruction::RRC { r },
                    2 => Instruction::RL { r },
                    3 => Instruction::RR { r },
                    4 => Instruction::SLA { r },
                    5 => Instruction::SRA { r },
                    6 => Instruction::SWAP { r },
                    _ => Instruction::SRL { r },
                },
                1 => Instruction::BIT { y, r },
                2 => Instruction::RES { y, r },
                _ => Instruction::SET { y, r },
            }
        } else {
            match Self::opcode_x(Self::first_byte(bytes)) {
                0 => Self::prefixless_x0(bytes),
                1 => Self::prefixless_x1(bytes),
                2 => Self::prefixless_x2(bytes),
                _ => Self::prefixless_x3(bytes),
            }
        }
    }

    fn prefixless_x0(bytes: u32) -> (instr: Instruction)
        requires
            spec_x(spec_first_byte(bytes)) == 0,
        ensures
            instr == spec_decode_x0(bytes),
    {
        let op = Self::first_byte(bytes);
        let y = Self::opcode_y(op);
        let q = Self::opcode_q(op);
        let p = Self::opcode_p(op);

        match Self::opcode_z(op) {
            0 => match y {
                0 => Instruction::NOP,
                1 => Instruction::StoreReg {
                    r1: RegisterID::SP,
                    loc: Self::second_and_third_bytes_reversed(bytes),
                },
                2 => Instruction::STOP,
                3 => Instruction::JR { d: Self::second_byte(bytes) as i8 },
                _ => Instruction::JumpRegConditional {
                    f: FlagID::cc_lookup(y - 4),
                    d: Self::second_byte(bytes) as i8,
                },
            },
            1 => {
                if q {
                    Instruction::AddHLAndR16 { r: RegisterID::rp_lookup(p) }
                } else {
                    Instruction::Load16 {
                        r: RegisterID::rp_lookup(p),
                        nn: Self::second_and_third_bytes_reversed(bytes),
                    }
                }
            },
            2 => {
                if q {
                    match p {
                        0 => Instruction::LoadReg16 { r1: RegisterID::A, r2: RegisterID::BC },
                        1 => Instruction::LoadReg16 { r1: RegisterID::A, r2: RegisterID::DE },
                        2 => Instruction::LoadReg16 { r1: RegisterID::A, r2: RegisterID::HLplus },
                        _ => Instruction::LoadReg16 { r1: RegisterID::A, r2: RegisterID::HLminus },
                    }
                } else {
                    match p {
                        0 => Instruction::LoadReg16 { r1: RegisterID::BC, r2: RegisterID::A },
                        1 => Instruction::LoadReg16 { r1: RegisterID::DE, r2: RegisterID::A },
                        2 => Instruction::LoadReg16 { r1: RegisterID::HLplus, r2: RegisterID::A },
                        _ => Instruction::LoadReg16 { r1: RegisterID::HLminus, r2: RegisterID::A },
                    }
                }
            },
            3 => {
                if q {
                    Instruction::DEC16b { r: RegisterID::rp_lookup(p) }
                } else {
                    Instruction::INC16b { r: RegisterID::rp_lookup(p) }
                }
            },
            4 => Instruction::INC8b { r: RegisterID::r_lookup(y) },
            5 => Instruction::DEC8b { r: RegisterID::r_lookup(y) },
            6 => Instruction::Load8 { r: RegisterID::r_lookup(y), n: Self::second_byte(bytes) },
            _ => match y {
                0 => Instruction::RLCA,
                1 => Instruction::RRCA,
                2 => Instruction::RLA,
                3 => Instruction::RRA,
                4 => Instruction::DAA,
                5 => Instruction::CPL,
                6 => Instruction::SCF,
                _ => Instruction::CCF,
            },
        }
    }

    fn prefixless_x1(bytes: u32) -> (instr: Instruction)
        requires
            spec_x(spec_first_byte(bytes)) == 1,
        ensures
            instr == spec_decode_x1(bytes),
    {
        let op = Self::first_byte(bytes);
        let y = Self::opcode_y(op);
        let z = Self::opcode_z(op);

        if (z == 6) && (y == 6) {
            Instruction::HALT
        } else {
            Instruction::LoadReg8 { r1: RegisterID::r_lookup(y), r2: RegisterID::r_lookup(z) }
        }
    }

    fn prefixless_x2(bytes: u32) -> (instr: Instruction)
        requires
            spec_x(spec_first_byte(bytes)) == 2,
        ensures
            instr == spec_decode_x2(bytes),
    {
        let op = Self::first_byte(bytes);
        let r = RegisterID::r_lookup(Self::opcode_z(op));

        match Self::opcode_y(op) {
            0 => Instruction::AddRegister { r },
            1 => Instruction::AdcRegister { r },
            2 => Instruction::SubRegister { r },
            3 => Instruction::SbcRegister { r },
            4 => Instruction::AndRegister { r },
            5 => Instruction::XorRegister { r },
            6 => Instruction::OrRegister { r },
            _ => Instruction::CpRegister { r },
        }
    }

    fn prefixless_x3(bytes: u32) -> (instr: Instruction)
        requires
            spec_x(spec_first_byte(bytes)) == 3,
        ensures
            instr == spec_decode_x3(bytes),
    {
        let op = Self::first_byte(bytes);
        let y = Self::opcode_y(op);
        let q = Self::opcode_q(op);
        let p = Self::opcode_p(op);

        match Self::opcode_z(op) {
            0 => match y {
                0 | 1 | 2 | 3 => Instruction::RET { f: FlagID::cc_lookup(y) },
                4 => Instruction::StoreFF00Plus {
                    r: RegisterID::A,
                    n: Self::second_byte(bytes),
                },
                5 => Instruction::AddSigned {
                    r: RegisterID::SP,
                    d: Self::second_byte(bytes) as i8,
                },
                6 => Instruction::LoadFF00PlusImmediate { n: Self::second_byte(bytes) },
                _ => Instruction::LoadSPToHLWithOffset { d: Self::second_byte(bytes) as i8 },
            },
            1 => {
                if q {
                    match p {
                        0 => Instruction::RETNoParam,
                        1 => Instruction::RETI,
                        2 => Instruction::JumpToHL,
                        _ => Instruction::LoadReg16 { r1: RegisterID::SP, r2: RegisterID::HL },
                    }
                } else {
                    Instruction::POP { r: RegisterID::rp2_lookup(p) }
                }
            },
            2 => match y {
                0 | 1 | 2 | 3 => Instruction::JumpConditional {
                    f: FlagID::cc_lookup(y),
                    nn: Self::second_and_third_bytes_reversed(bytes),
                },
                4 => Instruction::StoreFF00PlusC,
                5 => Instruction::StoreImmediate {
                    loc: Self::second_and_third_bytes_reversed(bytes),
                },
                6 => Instruction::LoadFF00PlusC,
                _ => Instruction::LoadAddress { loc: Self::second_and_third_bytes_reversed(bytes) },
            },
            3 => match y {
                0 => Instruction::Jump { nn: Self::second_and_third_bytes_reversed(bytes) },
                6 => Instruction::DI,
                7 => Instruction::EI,
                _ => Instruction::ILLEGAL,
            },
            4 => match y {
                0 | 1 | 2 | 3 => Instruction::CallConditional {
                    f: FlagID::cc_lookup(y),
                    nn: Self::second_and_third_bytes_reversed(bytes),
                },
                _ => Instruction::ILLEGAL,
            },
            5 => {
                if q {
                    if p == 0 {
                        Instruction::Call { nn: Self::second_and_third_bytes_reversed(bytes) }
                    } else {
                        Instruction::ILLEGAL
                    }
                } else {
                    Instruction::PUSH { r: RegisterID::rp2_lookup(p) }
                }
            },
            6 => match y {
                0 => Instruction::AddImmediate { n: Self::second_byte(bytes) },
                1 => Instruction::AdcImmediate { n: Self::second_byte(bytes) },
                2 => Instruction::SubImmediate { n: Self::second_byte(bytes) },
                3 => Instruction::SbcImmediate { n: Self::second_byte(bytes) },
                4 => Instruction::AndImmediate { n: Self::second_byte(bytes) },
                5 => Instruction::XorImmediate { n: Self::second_byte(bytes) },
                6 => Instruction::OrImmediate { n: Self::second_byte(bytes) },
                _ => Instruction::CpImmediate { n: Self::second_byte(bytes) },
            },
            _ => Instruction::RST { arg: y * 8 },
        }
    }
}

} // verus!
