//! The 16-bit address-space router: ROM banks, cartridge RAM, VRAM, WRAM,
//! the echo-RAM mirror, OAM, I/O registers, HRAM and the interrupt-enable
//! register, with MBC1 bank-switch commands on writes into the ROM region.

use vstd::prelude::*;

use crate::bits::{set_bit, spec_set_bit};
use crate::cartridgeheader::{parsed_from, spec_verdict_of, CartridgeHeader, CartridgeType};

verus! {

/// Why a cartridge image was rejected at load time.
#[derive(Debug, Clone, PartialEq, Eq)]
pub enum MemoryError {
    CartTypeMismatch { ct: CartridgeType, reason: String },
    UnsupportedCartType { ct: CartridgeType },
}

/// All byte-addressable regions of the Game Boy bus, plus the MBC1 banking
/// state driven by writes into the ROM region.
pub struct Memory {
    pub header: CartridgeHeader,
    pub rom: Vec<u8>,
    pub switchable_banks: Vec<Vec<u8>>,
    pub ram: Vec<u8>,
    pub vram: Vec<u8>,
    pub wram1: Vec<u8>,
    pub wram2: Vec<u8>,
    pub oam: Vec<u8>,
    pub io_registers: Vec<u8>,
    pub hram: Vec<u8>,
    pub interrupt_enable_reg: u8,
    pub active_rom_bank: usize,
    pub ram_enabled: bool,
    pub banking_mode: bool,
}

/// Byte `i` of `data`, or zero past its end: how cartridge bytes pad out the
/// allocated banks.
pub open spec fn padded_byte(data: Seq<u8>, i: int) -> u8 {
    if 0 <= i < data.len() {
        data[i]
    } else {
        0
    }
}

/// How many switchable 16 KiB banks a supported header allocates (the fixed
/// bank 0 not counted).
pub open spec fn spec_bank_count(h: CartridgeHeader) -> int {
    if h.cartridge_type == CartridgeType::MBC1 {
        if h.rom_shift_count == 0 {
            1
        } else if h.rom_shift_count == 1 {
            3
        } else if h.rom_shift_count == 2 {
            7
        } else if h.rom_shift_count == 3 {
            15
        } else {
            31
        }
    } else {
        1
    }
}

/// The switchable-bank index selected by an MBC1 bank-select command `v`
/// against `nbanks` allocated banks: the low five bits, zero promoted to one,
/// wrapped onto the banks that exist, and shifted down by one because index 0
/// stands for ROM bank 1.
pub open spec fn spec_bank_select(v: u8, nbanks: int) -> int {
    let low5 = v as int % 32;
    let sel = if low5 == 0 {
        1
    } else {
        low5
    };
    (sel - 1) % nbanks
}

/// The echo window [0xE000, 0xFE00) folds onto the WRAM it mirrors; every
/// other address stands for itself.
pub open spec fn spec_norm(addr: int) -> int {
    if 0xe000 <= addr < 0xfe00 {
        addr - 0x2000
    } else {
        addr
    }
}

impl Memory {
    /// Every region has its hardware size and the active bank points at an
    /// allocated bank.
    pub open spec fn wf(self) -> bool {
        &&& self.rom@.len() == 0x4000
        &&& self.switchable_banks@.len() >= 1
        &&& (forall|k: int|
            0 <= k < self.switchable_banks@.len() ==> (
            #[trigger] self.switchable_banks@[k])@.len() == 0x4000)
        &&& (self.active_rom_bank as int) < self.switchable_banks@.len()
        &&& self.vram@.len() == 0x2000
        &&& self.wram1@.len() == 0x1000
        &&& self.wram2@.len() == 0x1000
        &&& self.oam@.len() == 0xa0
        &&& self.io_registers@.len() == 0x80
        &&& self.hram@.len() == 0x7f
    }

    /// The byte the bus yields at `addr`: the routing table of the address
    /// space. Unbacked addresses (the prohibited window, absent or disabled
    /// cartridge RAM, anything past 0xFFFF) read zero.
    pub open spec fn spec_read(self, addr: int) -> u8 {
        let a = spec_norm(addr);
        if 0 <= a < 0x4000 {
            self.rom@[a]
        } else if a < 0x8000 {
            self.switchable_banks@[self.active_rom_bank as int]@[a - 0x4000]
        } else if a < 0xa000 {
            self.vram@[a - 0x8000]
        } else if a < 0xc000 {
            if self.ram_enabled && a - 0xa000 < self.ram@.len() {
                self.ram@[a - 0xa000]
            } else {
                0
            }
        } else if a < 0xd000 {
            self.wram1@[a - 0xc000]
        } else if a < 0xe000 {
            self.wram2@[a - 0xd000]
        } else if 0xfe00 <= a < 0xfea0 {
            self.oam@[a - 0xfe00]
        } else if 0xff00 <= a < 0xff80 {
            self.io_registers@[a - 0xff00]
        } else if 0xff80 <= a < 0xffff {
            self.hram@[a - 0xff80]
        } else if a == 0xffff {
            self.interrupt_enable_reg
        } else {
            0
        }
    }

    /// Addresses where a write lands in backing storage, so that reading the
    /// address afterwards yields the written byte.
    pub open spec fn spec_writable(self, addr: int) -> bool {
        let a = spec_norm(addr);
        ||| 0x8000 <= a < 0xa000
        ||| (0xa000 <= a < 0xc000 && self.ram_enabled && a - 0xa000 < self.ram@.len())
        ||| 0xc000 <= a < 0xe000
        ||| 0xfe00 <= a < 0xfea0
        ||| 0xff00 <= a < 0xff80
        ||| 0xff80 <= a <= 0xffff
    }
}

/// Exactly how one bus write at `addr` turns `pre` into `post`: one region
/// byte updated, or one MBC1 control field updated for writes into the ROM
/// region, and everything else untouched.
pub open spec fn write_effect(pre: Memory, addr: int, v: u8, post: Memory) -> bool {
    let a = spec_norm(addr);
    let mbc1 = pre.header.cartridge_type == CartridgeType::MBC1;
    &&& post.header == pre.header
    &&& post.rom == pre.rom
    &&& post.switchable_banks == pre.switchable_banks
    &&& post.vram@ == if 0x8000 <= a < 0xa000 {
        pre.vram@.update(a - 0x8000, v)
    } else {
        pre.vram@
    }
    &&& post.ram@ == if 0xa000 <= a < 0xc000 && pre.ram_enabled && a - 0xa000 < pre.ram@.len() {
        pre.ram@.update(a - 0xa000, v)
    } else {
        pre.ram@
    }
    &&& post.wram1@ == if 0xc000 <= a < 0xd000 {
        pre.wram1@.update(a - 0xc000, v)
    } else {
        pre.wram1@
    }
    &&& post.wram2@ == if 0xd000 <= a < 0xe000 {
        pre.wram2@.update(a - 0xd000, v)
    } else {
        pre.wram2@
    }
    &&& post.oam@ == if 0xfe00 <= a < 0xfea0 {
        pre.oam@.update(a - 0xfe00, v)
    } else {
        pre.oam@
    }
    &&& post.io_registers@ == if 0xff00 <= a < 0xff80 {
        pre.io_registers@.update(a - 0xff00, v)
    } else {
        pre.io_registers@
    }
    &&& post.hram@ == if 0xff80 <= a < 0xffff {
        pre.hram@.update(a - 0xff80, v)
    } else {
        pre.hram@
    }
    &&& post.interrupt_enable_reg == if a == 0xffff {
        v
    } else {
        pre.interrupt_enable_reg
    }
    &&& post.ram_enabled == if mbc1 && 0 <= a < 0x2000 {
        v % 16 == 0x0a
    } else {
        pre.ram_enabled
    }
    &&& post.active_rom_bank as int == if mbc1 && 0x2000 <= a < 0x4000 {
        spec_bank_select(v, pre.switchable_banks@.len() as int)
    } else {
        pre.active_rom_bank as int
    }
    &&& post.banking_mode == if mbc1 && 0x6000 <= a < 0x8000 {
        v % 2 == 1
    } else {
        pre.banking_mode
    }
}

/// A memory that holds cartridge image `data`: bank 0 and the switchable
/// banks carry the image's bytes in order (zero-padded, excess discarded),
/// every other region is zeroed, and the banking state is at its power-up
/// defaults.
pub open spec fn loaded_from(m: Memory, data: Seq<u8>) -> bool {
    &&& m.wf()
    &&& m.switchable_banks@.len() == spec_bank_count(m.header)
    &&& m.rom@ == Seq::new(0x4000, |i: int| padded_byte(data, i))
    &&& (forall|k: int|
        0 <= k < m.switchable_banks@.len() ==> (#[trigger] m.switchable_banks@[k])@ == Seq::new(
            0x4000,
            |j: int| padded_byte(data, 0x4000 * (k + 1) + j),
        ))
    &&& m.ram@ == Seq::new(m.header.ram_size as nat * 1024, |i: int| 0u8)
    &&& m.vram@ == Seq::new(0x2000, |i: int| 0u8)
    &&& m.wram1@ == Seq::new(0x1000, |i: int| 0u8)
    &&& m.wram2@ == Seq::new(0x1000, |i: int| 0u8)
    &&& m.oam@ == Seq::new(0xa0, |i: int| 0u8)
    &&& m.io_registers@ == Seq::new(0x80, |i: int| 0u8)
    &&& m.hram@ == Seq::new(0x7f, |i: int| 0u8)
    &&& m.interrupt_enable_reg == 0
    &&& m.active_rom_bank == 0
    &&& m.ram_enabled == true
    &&& m.banking_mode == false
}

/// The error a rejected header gives, with the reason the verdict names.
pub open spec fn rejection_of(h: CartridgeHeader, e: MemoryError) -> bool {
    match e {
        MemoryError::CartTypeMismatch { ct, reason } => {
            &&& ct == h.cartridge_type
            &&& (spec_verdict_of(h) == 1 ==> reason@ == "given ROM size is too large"@)
            &&& (spec_verdict_of(h) == 2 ==> reason@
                == "header says RAM included with wrong cartridge type"@)
            &&& (spec_verdict_of(h) == 3 ==> reason@ == "given ROM size is too large or incorrect"@)
            &&& (spec_verdict_of(h) == 1 || spec_verdict_of(h) == 2 || spec_verdict_of(h) == 3)
        },
        MemoryError::UnsupportedCartType { ct } => {
            &&& ct == h.cartridge_type
            &&& spec_verdict_of(h) == 4
        },
    }
}

/// A vector of `n` zero bytes.
fn zero_vec(n: usize) -> (v: Vec<u8>)
    ensures
        v@ == Seq::new(n as nat, |i: int| 0u8),
{
    let mut v: Vec<u8> = Vec::new();
    let mut i: usize = 0;
    while i < n
        invariant
            i <= n,
            v@.len() == i,
            forall|t: int| 0 <= t < i ==> v@[t] == 0u8,
        decreases n - i,
    {
        v.push(0);
        i = i + 1;
    }
    proof {
        assert(v@ =~= Seq::new(n as nat, |i: int| 0u8));
    }
    v
}

/// One 16 KiB bank filled from `data` starting at `start`, zero-padded.
fn build_bank(data: &Vec<u8>, start: usize) -> (bank: Vec<u8>)
    requires
        start <= usize::MAX - 0x4000,
    ensures
        bank@ == Seq::new(0x4000, |j: int| padded_byte(data@, start + j)),
{
    let mut bank: Vec<u8> = Vec::new();
    let mut j: usize = 0;
    while j < 0x4000
        invariant
            j <= 0x4000,
            start <= usize::MAX - 0x4000,
            bank@.len() == j,
            forall|t: int| 0 <= t < j ==> bank@[t] == padded_byte(data@, start + t),
        decreases 0x4000 - j,
    {
        if start + j < data.len() {
            bank.push(data[start + j]);
        } else {
            bank.push(0);
        }
        j = j + 1;
    }
    proof {
        assert(bank@ =~= Seq::new(0x4000, |j: int| padded_byte(data@, start + j)));
    }
    bank
}

impl Memory {
    /// An unloaded memory: blank header, no regions allocated yet.
    pub fn new() -> (m: Memory)
        ensures
            crate::cartridgeheader::is_blank_header(m.header),
            m.rom@.len() == 0,
            m.switchable_banks@.len() == 0,
            m.ram@.len() == 0,
            m.vram@.len() == 0,
            m.wram1@.len() == 0,
            m.wram2@.len() == 0,
            m.oam@.len() == 0,
            m.io_registers@.len() == 0,
            m.hram@.len() == 0,
            m.interrupt_enable_reg == 0,
            m.active_rom_bank == 0,
            m.ram_enabled == true,
            m.banking_mode == false,
    {
        Memory {
            header: CartridgeHeader::new(),
            rom: Vec::new(),
            switchable_banks: Vec::new(),
            ram: Vec::new(),
            vram: Vec::new(),
            wram1: Vec::new(),
            wram2: Vec::new(),
            oam: Vec::new(),
            io_registers: Vec::new(),
            hram: Vec::new(),
            interrupt_enable_reg: 0,
            active_rom_bank: 0,
            ram_enabled: true,
            banking_mode: false,
        }
    }

    /// Parse and validate the header out of `data`, allocate every region,
    /// and distribute the cartridge bytes across the banks.
    pub fn read(&mut self, data: Vec<u8>) -> (r: Result<(), MemoryError>)
        requires
            data@.len() >= 0x150,
        ensures
            parsed_from(final(self).header, data@.subrange(0x100, 0x150)),
            r is Ok <==> spec_verdict_of(final(self).header) == 0,
            r is Ok ==> loaded_from(*final(self), data@),
            r matches Err(e) ==> rejection_of(final(self).header, e),
    {
        let window: &[u8] = &data.as_slice()[0x100..0x150];
        self.header.read(window);
        proof {
            assert(window@.subrange(0, 80) =~= data@.subrange(0x100, 0x150));
        }

        self.organize_memory()?;

        self.put_into_banks(data);

        Ok(())
    }

    /// Build a memory from a cartridge image.
    pub fn from(data: Vec<u8>) -> (r: Result<Memory, MemoryError>)
        requires
            data@.len() >= 0x150,
        ensures
            r matches Ok(m) ==> {
                &&& parsed_from(m.header, data@.subrange(0x100, 0x150))
                &&& spec_verdict_of(m.header) == 0
                &&& loaded_from(m, data@)
            },
            r matches Err(e) ==> exists|h: CartridgeHeader|
                parsed_from(h, data@.subrange(0x100, 0x150)) && #[trigger] rejection_of(h, e),
    {
        let mut cd = Self::new();
        match cd.read(data) {
            Ok(()) => Ok(cd),
            Err(e) => {
                proof {
                    let h = cd.header;
                    assert(parsed_from(h, data@.subrange(0x100, 0x150)) && rejection_of(h, e));
                }
                Err(e)
            },
        }
    }

    /// Validate the parsed header against the cartridge type's constraints
    /// and allocate every region at its hardware size, zeroed.
    fn organize_memory(&mut self) -> (r: Result<(), MemoryError>)
        ensures
            final(self).header == old(self).header,
            r is Ok <==> spec_verdict_of(old(self).header) == 0,
            r matches Err(e) ==> rejection_of(old(self).header, e),
            r is Ok ==> {
                &&& final(self).wf()
                &&& final(self).switchable_banks@.len() == spec_bank_count(final(self).header)
                &&& final(self).rom@ == Seq::new(0x4000, |i: int| 0u8)
                &&& (forall|k: int|
                    0 <= k < final(self).switchable_banks@.len() ==> (
                    #[trigger] final(self).switchable_banks@[k])@ == Seq::new(
                        0x4000,
                        |j: int| 0u8,
                    ))
                &&& final(self).ram@ == Seq::new(
                    final(self).header.ram_size as nat * 1024,
                    |i: int| 0u8,
                )
                &&& final(self).vram@ == Seq::new(0x2000, |i: int| 0u8)
                &&& final(self).wram1@ == Seq::new(0x1000, |i: int| 0u8)
                &&& final(self).wram2@ == Seq::new(0x1000, |i: int| 0u8)
                &&& final(self).oam@ == Seq::new(0xa0, |i: int| 0u8)
                &&& final(self).io_registers@ == Seq::new(0x80, |i: int| 0u8)
                &&& final(self).hram@ == Seq::new(0x7f, |i: int| 0u8)
                &&& final(self).interrupt_enable_reg == 0
                &&& final(self).active_rom_bank == 0
                &&& final(self).ram_enabled == true
                &&& final(self).banking_mode == false
            },
    {
        self.vram = zero_vec(0x2000);
        self.wram1 = zero_vec(0x1000);
        self.wram2 = zero_vec(0x1000);
        self.oam = zero_vec(0x00a0);
        self.io_registers = zero_vec(0x0080);
        self.hram = zero_vec(0x007f);
        self.interrupt_enable_reg = 0;
        self.active_rom_bank = 0;
        self.ram_enabled = true;
        self.banking_mode = false;
        self.switchable_banks = Vec::new();
        self.ram = Vec::new();

        match self.header.cartridge_type() {
            CartridgeType::ROM_ONLY => {
                if self.header.rom_shift_count() > 0 {
                    return Err(MemoryError::CartTypeMismatch {
                        ct: self.header.cartridge_type(),
                        reason: "given ROM size is too large".to_owned(),
                    });
                }
                if self.header.ram_size() > 0 {
                    return Err(MemoryError::CartTypeMismatch {
                        ct: self.header.cartridge_type(),
                        reason: "header says RAM included with wrong cartridge type".to_owned(),
                    });
                }

                self.rom = zero_vec(0x4000);
                self.switchable_banks.push(zero_vec(0x4000));
            },
            CartridgeType::ROM_RAM | CartridgeType::ROM_RAM_BATTERY => {
                if self.header.rom_shift_count() > 0 {
                    return Err(MemoryError::CartTypeMismatch {
                        ct: self.header.cartridge_type(),
                        reason: "given ROM size is too large".to_owned(),
                    });
                }
                self.rom = zero_vec(0x4000);
                self.switchable_banks.push(zero_vec(0x4000));
                self.ram = zero_vec((self.header.ram_size() as usize) * 1024);
            },
            CartridgeType::MBC1 => {
                if self.header.ram_size() > 0 {
                    return Err(MemoryError::CartTypeMismatch {
                        ct: self.header.cartridge_type(),
                        reason: "header says RAM included with wrong cartridge type".to_owned(),
                    });
                }
                match self.header.rom_shift_count() {
                    0x00 => {
                        self.rom = zero_vec(0x4000);
                        self.switchable_banks.push(zero_vec(0x4000));
                    },
                    0x01 => {
                        self.add_banks_for_mbc1(4);
                    },
                    0x02 => {
                        self.add_banks_for_mbc1(8);
                    },
                    0x03 => {
                        self.add_banks_for_mbc1(16);
                    },
                    0x04 => {
                        self.add_banks_for_mbc1(32);
                    },
                    _ => {
                        return Err(MemoryError::CartTypeMismatch {
                            ct: self.header.cartridge_type(),
                            reason: "given ROM size is too large or incorrect".to_owned(),
                        });
                    },
                }
            },
            _ => {
                return Err(MemoryError::UnsupportedCartType { ct: self.header.cartridge_type() });
            },
        }

        Ok(())
    }

    /// Allocate bank 0 and `bank_count - 1` switchable banks, all zeroed.
    fn add_banks_for_mbc1(&mut self, bank_count: u16)
        requires
            bank_count >= 1,
            old(self).switchable_banks@.len() == 0,
        ensures
            final(self).rom@ == Seq::new(0x4000, |i: int| 0u8),
            final(self).switchable_banks@.len() == bank_count - 1,
            forall|k: int|
                0 <= k < bank_count - 1 ==> (#[trigger] final(self).switchable_banks@[k])@
                    == Seq::new(0x4000, |j: int| 0u8),
            final(self).header == old(self).header,
            final(self).ram == old(self).ram,
            final(self).vram == old(self).vram,
            final(self).wram1 == old(self).wram1,
            final(self).wram2 == old(self).wram2,
            final(self).oam == old(self).oam,
            final(self).io_registers == old(self).io_registers,
            final(self).hram == old(self).hram,
            final(self).interrupt_enable_reg == old(self).interrupt_enable_reg,
            final(self).active_rom_bank == old(self).active_rom_bank,
            final(self).ram_enabled == old(self).ram_enabled,
            final(self).banking_mode == old(self).banking_mode,
    {
        self.rom = zero_vec(0x4000);
        let mut k: u16 = 0;
        while k < bank_count - 1
            invariant
                k <= bank_count - 1,
                self.switchable_banks@.len() == k,
                forall|t: int|
                    0 <= t < k ==> (#[trigger] self.switchable_banks@[t])@ == Seq::new(
                        0x4000,
                        |j: int| 0u8,
                    ),
                self.rom@ == Seq::new(0x4000, |i: int| 0u8),
                self.header == old(self).header,
                self.ram == old(self).ram,
                self.vram == old(self).vram,
                self.wram1 == old(self).wram1,
                self.wram2 == old(self).wram2,
                self.oam == old(self).oam,
                self.io_registers == old(self).io_registers,
                self.hram == old(self).hram,
                self.interrupt_enable_reg == old(self).interrupt_enable_reg,
                self.active_rom_bank == old(self).active_rom_bank,
                self.ram_enabled == old(self).ram_enabled,
                self.banking_mode == old(self).banking_mode,
            decreases bank_count - 1 - k,
        {
            self.switchable_banks.push(zero_vec(0x4000));
            k = k + 1;
        }
    }

    /// Copy the cartridge image into bank 0 and then the switchable banks in
    /// order; missing bytes stay zero, excess bytes are discarded.
    fn put_into_banks(&mut self, data: Vec<u8>)
        requires
            old(self).rom@.len() == 0x4000,
            forall|k: int|
                0 <= k < old(self).switchable_banks@.len() ==> (
                #[trigger] old(self).switchable_banks@[k])@.len() == 0x4000,
            old(self).switchable_banks@.len() <= 31,
        ensures
            final(self).rom@ == Seq::new(0x4000, |i: int| padded_byte(data@, i)),
            final(self).switchable_banks@.len() == old(self).switchable_banks@.len(),
            forall|k: int|
                0 <= k < final(self).switchable_banks@.len() ==> (
                #[trigger] final(self).switchable_banks@[k])@ == Seq::new(
                    0x4000,
                    |j: int| padded_byte(data@, 0x4000 * (k + 1) + j),
                ),
            final(self).header == old(self).header,
            final(self).ram == old(self).ram,
            final(self).vram == old(self).vram,
            final(self).wram1 == old(self).wram1,
            final(self).wram2 == old(self).wram2,
            final(self).oam == old(self).oam,
            final(self).io_registers == old(self).io_registers,
            final(self).hram == old(self).hram,
            final(self).interrupt_enable_reg == old(self).interrupt_enable_reg,
            final(self).active_rom_bank == old(self).active_rom_bank,
            final(self).ram_enabled == old(self).ram_enabled,
            final(self).banking_mode == old(self).banking_mode,
    {
        self.rom = build_bank(&data, 0);
        let mut k: usize = 0;
        let nbanks = self.switchable_banks.len();
        while k < nbanks
            invariant
                k <= nbanks,
                nbanks <= 31,
                self.switchable_banks@.len() == nbanks,
                self.rom@ == Seq::new(0x4000, |i: int| padded_byte(data@, i)),
                forall|t: int|
                    0 <= t < k ==> (#[trigger] self.switchable_banks@[t])@ == Seq::new(
                        0x4000,
                        |j: int| padded_byte(data@, 0x4000 * (t + 1) + j),
                    ),
                forall|t: int|
                    k <= t < nbanks ==> self.switchable_banks@[t] == old(
                        self,
                    ).switchable_banks@[t],
                self.header == old(self).header,
                self.ram == old(self).ram,
                self.vram == old(self).vram,
                self.wram1 == old(self).wram1,
                self.wram2 == old(self).wram2,
                self.oam == old(self).oam,
                self.io_registers == old(self).io_registers,
                self.hram == old(self).hram,
                self.interrupt_enable_reg == old(self).interrupt_enable_reg,
                self.active_rom_bank == old(self).active_rom_bank,
                self.ram_enabled == old(self).ram_enabled,
                self.banking_mode == old(self).banking_mode,
            decreases nbanks - k,
        {
            let bank = build_bank(&data, 0x4000 * (k + 1));
            self.switchable_banks[k] = bank;
            k = k + 1;
        }
    }

    /// Read the byte the bus yields at `addr`.
    pub fn read_byte(&self, addr: usize) -> (b: u8)
        requires
            self.wf(),
        ensures
            b == self.spec_read(addr as int),
    {
        let a = if addr >= 0xe000 && addr < 0xfe00 {
            addr - 0x2000
        } else {
            addr
        };
        if a < 0x4000 {
            self.rom[a]
        } else if a < 0x8000 {
            let bank = &self.switchable_banks[self.active_rom_bank];
            bank[a - 0x4000]
        } else if a < 0xa000 {
            self.vram[a - 0x8000]
        } else if a < 0xc000 {
            if self.ram_enabled && a - 0xa000 < self.ram.len() {
                self.ram[a - 0xa000]
            } else {
                0
            }
        } else if a < 0xd000 {
            self.wram1[a - 0xc000]
        } else if a < 0xe000 {
            self.wram2[a - 0xd000]
        } else if a >= 0xfe00 && a < 0xfea0 {
            self.oam[a - 0xfe00]
        } else if a >= 0xff00 && a < 0xff80 {
            self.io_registers[a - 0xff00]
        } else if a >= 0xff80 && a < 0xffff {
            self.hram[a - 0xff80]
        } else if a == 0xffff {
            self.interrupt_enable_reg
        } else {
            0
        }
    }

    /// Drive one bus write at `addr`: a store into a backed region, an MBC1
    /// control command in the ROM region, or nothing for unbacked addresses.
    pub fn write_byte(&mut self, addr: usize, v: u8)
        requires
            old(self).wf(),
        ensures
            final(self).wf(),
            write_effect(*old(self), addr as int, v, *final(self)),
    {
        let a = if addr >= 0xe000 && addr < 0xfe00 {
            addr - 0x2000
        } else {
            addr
        };
        if a < 0x8000 {
            match self.header.cartridge_type {
                CartridgeType::MBC1 => {
                    if a < 0x2000 {
                        self.ram_enabled = v % 16 == 0x0a;
                    } else if a < 0x4000 {
                        let low5 = (v % 32) as usize;
                        let sel = if low5 == 0 {
                            1
                        } else {
                            low5
                        };
                        self.active_rom_bank = (sel - 1) % self.switchable_banks.len();
                    } else if a < 0x6000 {
                        // RAM-bank select: no supported cartridge routes it
                    } else {
                        self.banking_mode = v % 2 == 1;
                    }
                },
                _ => {},
            }
        } else if a < 0xa000 {
            self.vram[a - 0x8000] = v;
        } else if a < 0xc000 {
            if self.ram_enabled && a - 0xa000 < self.ram.len() {
                self.ram[a - 0xa000] = v;
            }
        } else if a < 0xd000 {
            self.wram1[a - 0xc000] = v;
        } else if a < 0xe000 {
            self.wram2[a - 0xd000] = v;
        } else if a >= 0xfe00 && a < 0xfea0 {
            self.oam[a - 0xfe00] = v;
        } else if a >= 0xff00 && a < 0xff80 {
            self.io_registers[a - 0xff00] = v;
        } else if a >= 0xff80 && a < 0xffff {
            self.hram[a - 0xff80] = v;
        } else if a == 0xffff {
            self.interrupt_enable_reg = v;
        }
    }

    /// Latch an interrupt request: set bit `bit` of the IF register at
    /// 0xFF0F, for the next interrupt-service check to see.
    pub fn request_interrupt(&mut self, bit: u8)
        requires
            old(self).wf(),
            bit < 5,
        ensures
            final(self).wf(),
            final(self).io_registers@ == old(self).io_registers@.update(
                0x0f,
                spec_set_bit(old(self).io_registers@[0x0f], bit as int),
            ),
            final(self).header == old(self).header,
            final(self).rom == old(self).rom,
            final(self).switchable_banks == old(self).switchable_banks,
            final(self).ram == old(self).ram,
            final(self).vram == old(self).vram,
            final(self).wram1 == old(self).wram1,
            final(self).wram2 == old(self).wram2,
            final(self).oam == old(self).oam,
            final(self).hram == old(self).hram,
            final(self).interrupt_enable_reg == old(self).interrupt_enable_reg,
            final(self).active_rom_bank == old(self).active_rom_bank,
            final(self).ram_enabled == old(self).ram_enabled,
            final(self).banking_mode == old(self).banking_mode,
    {
        let cur = self.io_registers[0x0f];
        self.io_registers[0x0f] = set_bit(cur, bit);
    }
}

} // verus!
