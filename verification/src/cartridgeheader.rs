//! The 80-byte cartridge header at ROM offsets 0x0100..0x0150: parsing,
//! serialization of the window, and the derived sizing fields.

use vstd::prelude::*;

verus! {

/// Memory-bank-controller variant named by header byte 0x0147.
#[derive(Debug, Clone, Copy, PartialEq, Eq)]
#[allow(non_camel_case_types)]
pub enum CartridgeType {
    ROM_ONLY,

    MBC1,
    MBC1_RAM,
    MBC1_RAM_BATTERY,

    MBC2,
    MBC2_BATTERY,

    ROM_RAM,
    ROM_RAM_BATTERY,

    MMM01,
    MMM01_RAM,
    MMM01_RAM_BATTERY,

    MBC3_TIMER_BATTERY,
    MBC3_TIMER_RAM_BATTERY,
    MBC3,
    MBC3_RAM,
    MBC3_RAM_BATTERY,

    MBC5,
    MBC5_RAM,
    MBC5_RAM_BATTERY,
    MBC5_RUMBLE,
    MBC5_RUMBLE_RAM,
    MBC5_RUMBLE_RAM_BATTERY,

    MBC6,

    MBC7_SENSOR_RUMBLE_RAM_BATTERY,

    POCKET_CAMERA,
    BANDAI_TAMA5,

    HuC3,
    HuC1_RAM_BATTERY,
}

/// The cartridge type named by a tag byte; unknown tags mean ROM_ONLY.
pub open spec fn spec_cartridge_type_of(num: u8) -> CartridgeType {
    match num {
        0x01 => CartridgeType::MBC1,
        0x02 => CartridgeType::MBC1_RAM,
        0x03 => CartridgeType::MBC1_RAM_BATTERY,
        0x05 => CartridgeType::MBC2,
        0x06 => CartridgeType::MBC2_BATTERY,
        0x08 => CartridgeType::ROM_RAM,
        0x09 => CartridgeType::ROM_RAM_BATTERY,
        0x0b => CartridgeType::MMM01,
        0x0c => CartridgeType::MMM01_RAM,
        0x0d => CartridgeType::MMM01_RAM_BATTERY,
        0x0f => CartridgeType::MBC3_TIMER_BATTERY,
        0x10 => CartridgeType::MBC3_TIMER_RAM_BATTERY,
        0x11 => CartridgeType::MBC3,
        0x12 => CartridgeType::MBC3_RAM,
        0x13 => CartridgeType::MBC3_RAM_BATTERY,
        0x19 => CartridgeType::MBC5,
        0x1a => CartridgeType::MBC5_RAM,
        0x1b => CartridgeType::MBC5_RAM_BATTERY,
        0x1c => CartridgeType::MBC5_RUMBLE,
        0x1d => CartridgeType::MBC5_RUMBLE_RAM,
        0x1e => CartridgeType::MBC5_RUMBLE_RAM_BATTERY,
        0x20 => CartridgeType::MBC6,
        0x22 => CartridgeType::MBC7_SENSOR_RUMBLE_RAM_BATTERY,
        0xfc => CartridgeType::POCKET_CAMERA,
        0xfd => CartridgeType::BANDAI_TAMA5,
        0xfe => CartridgeType::HuC3,
        0xff => CartridgeType::HuC1_RAM_BATTERY,
        _ => CartridgeType::ROM_ONLY,
    }
}

/// The tag byte that names a cartridge type.
pub open spec fn spec_type_tag(ty: CartridgeType) -> u8 {
    match ty {
        CartridgeType::ROM_ONLY => 0x00,
        CartridgeType::MBC1 => 0x01,
        CartridgeType::MBC1_RAM => 0x02,
        CartridgeType::MBC1_RAM_BATTERY => 0x03,
        CartridgeType::MBC2 => 0x05,
        CartridgeType::MBC2_BATTERY => 0x06,
        CartridgeType::ROM_RAM => 0x08,
        CartridgeType::ROM_RAM_BATTERY => 0x09,
        CartridgeType::MMM01 => 0x0b,
        CartridgeType::MMM01_RAM => 0x0c,
        CartridgeType::MMM01_RAM_BATTERY => 0x0d,
        CartridgeType::MBC3_TIMER_BATTERY => 0x0f,
        CartridgeType::MBC3_TIMER_RAM_BATTERY => 0x10,
        CartridgeType::MBC3 => 0x11,
        CartridgeType::MBC3_RAM => 0x12,
        CartridgeType::MBC3_RAM_BATTERY => 0x13,
        CartridgeType::MBC5 => 0x19,
        CartridgeType::MBC5_RAM => 0x1a,
        CartridgeType::MBC5_RAM_BATTERY => 0x1b,
        CartridgeType::MBC5_RUMBLE => 0x1c,
        CartridgeType::MBC5_RUMBLE_RAM => 0x1d,
        CartridgeType::MBC5_RUMBLE_RAM_BATTERY => 0x1e,
        CartridgeType::MBC6 => 0x20,
        CartridgeType::MBC7_SENSOR_RUMBLE_RAM_BATTERY => 0x22,
        CartridgeType::POCKET_CAMERA => 0xfc,
        CartridgeType::BANDAI_TAMA5 => 0xfd,
        CartridgeType::HuC3 => 0xfe,
        CartridgeType::HuC1_RAM_BATTERY => 0xff,
    }
}

impl CartridgeType {
    pub fn from_num(num: u8) -> (ty: CartridgeType)
        ensures
            ty == spec_cartridge_type_of(num),
    {
        match num {
            0x01 => CartridgeType::MBC1,
            0x02 => CartridgeType::MBC1_RAM,
            0x03 => CartridgeType::MBC1_RAM_BATTERY,
            0x05 => CartridgeType::MBC2,
            0x06 => CartridgeType::MBC2_BATTERY,
            0x08 => CartridgeType::ROM_RAM,
            0x09 => CartridgeType::ROM_RAM_BATTERY,
            0x0b => CartridgeType::MMM01,
            0x0c => CartridgeType::MMM01_RAM,
            0x0d => CartridgeType::MMM01_RAM_BATTERY,
            0x0f => CartridgeType::MBC3_TIMER_BATTERY,
            0x10 => CartridgeType::MBC3_TIMER_RAM_BATTERY,
            0x11 => CartridgeType::MBC3,
            0x12 => CartridgeType::MBC3_RAM,
            0x13 => CartridgeType::MBC3_RAM_BATTERY,
            0x19 => CartridgeType::MBC5,
            0x1a => CartridgeType::MBC5_RAM,
            0x1b => CartridgeType::MBC5_RAM_BATTERY,
            0x1c => CartridgeType::MBC5_RUMBLE,
            0x1d => CartridgeType::MBC5_RUMBLE_RAM,
            0x1e => CartridgeType::MBC5_RUMBLE_RAM_BATTERY,
            0x20 => CartridgeType::MBC6,
            0x22 => CartridgeType::MBC7_SENSOR_RUMBLE_RAM_BATTERY,
            0xfc => CartridgeType::POCKET_CAMERA,
            0xfd => CartridgeType::BANDAI_TAMA5,
            0xfe => CartridgeType::HuC3,
            0xff => CartridgeType::HuC1_RAM_BATTERY,
            _ => CartridgeType::ROM_ONLY,
        }
    }

    pub fn to_num(ty: CartridgeType) -> (num: u8)
        ensures
            num == spec_type_tag(ty),
    {
        match ty {
            CartridgeType::ROM_ONLY => 0x00,
            CartridgeType::MBC1 => 0x01,
            CartridgeType::MBC1_RAM => 0x02,
            CartridgeType::MBC1_RAM_BATTERY => 0x03,
            CartridgeType::MBC2 => 0x05,
            CartridgeType::MBC2_BATTERY => 0x06,
            CartridgeType::ROM_RAM => 0x08,
            CartridgeType::ROM_RAM_BATTERY => 0x09,
            CartridgeType::MMM01 => 0x0b,
            CartridgeType::MMM01_RAM => 0x0c,
            CartridgeType::MMM01_RAM_BATTERY => 0x0d,
            CartridgeType::MBC3_TIMER_BATTERY => 0x0f,
            CartridgeType::MBC3_TIMER_RAM_BATTERY => 0x10,
            CartridgeType::MBC3 => 0x11,
            CartridgeType::MBC3_RAM => 0x12,
            CartridgeType::MBC3_RAM_BATTERY => 0x13,
            CartridgeType::MBC5 => 0x19,
            CartridgeType::MBC5_RAM => 0x1a,
            CartridgeType::MBC5_RAM_BATTERY => 0x1b,
            CartridgeType::MBC5_RUMBLE => 0x1c,
            CartridgeType::MBC5_RUMBLE_RAM => 0x1d,
            CartridgeType::MBC5_RUMBLE_RAM_BATTERY => 0x1e,
            CartridgeType::MBC6 => 0x20,
            CartridgeType::MBC7_SENSOR_RUMBLE_RAM_BATTERY => 0x22,
            CartridgeType::POCKET_CAMERA => 0xfc,
            CartridgeType::BANDAI_TAMA5 => 0xfd,
            CartridgeType::HuC3 => 0xfe,
            CartridgeType::HuC1_RAM_BATTERY => 0xff,
        }
    }
}

/// Decoded RAM size in KiB for header byte 0x0149; unlisted tags mean none.
pub open spec fn spec_ram_size_of(tag: u8) -> u8 {
    match tag {
        0x02 => 8,
        0x03 => 32,
        0x04 => 128,
        0x05 => 64,
        _ => 0,
    }
}

/// The tag byte that names a decoded RAM size.
pub open spec fn spec_ram_tag(kib: u8) -> u8 {
    match kib {
        8 => 0x02,
        32 => 0x03,
        128 => 0x04,
        64 => 0x05,
        _ => 0x00,
    }
}

/// The 80-byte header parsed into named fields. Created once at cartridge
/// load and read-only thereafter.
#[derive(Debug, Clone, Copy, PartialEq, Eq)]
pub struct CartridgeHeader {
    pub entry_point: [u8; 4],
    pub nintendo_logo: [u8; 48],
    pub title: [u8; 16],
    pub cgb_only: bool,
    pub new_licensee: [u8; 2],
    pub sgb_included: bool,
    pub cartridge_type: CartridgeType,

    pub rom_shift_count: u8,
    pub ram_size: u8,
    pub destination_code: u8,
    pub old_licensee: u8,
    pub version_number: u8,
    pub header_checksum: u8,
    pub global_checksum: [u8; 2],
}

/// Every field of `h` holds what the 80-byte window `data` encodes at the
/// offsets fixed by the cartridge-header layout.
pub open spec fn parsed_from(h: CartridgeHeader, data: Seq<u8>) -> bool {
    &&& h.entry_point@ == data.subrange(0, 4)
    &&& h.nintendo_logo@ == data.subrange(4, 52)
    &&& h.title@ == data.subrange(52, 68)
    &&& h.cgb_only == (data[67] == 0xc0)
    &&& h.new_licensee@ == data.subrange(68, 70)
    &&& h.sgb_included == (data[70] == 0x03)
    &&& h.cartridge_type == spec_cartridge_type_of(data[71])
    &&& h.rom_shift_count == data[72]
    &&& h.ram_size == spec_ram_size_of(data[73])
    &&& h.destination_code == data[74]
    &&& h.old_licensee == data[75]
    &&& h.version_number == data[76]
    &&& h.header_checksum == data[77]
    &&& h.global_checksum@ == data.subrange(78, 80)
}

/// A header with every byte zero, as a fresh `CartridgeHeader::new` gives.
pub open spec fn is_blank_header(h: CartridgeHeader) -> bool {
    &&& h.entry_point@ == Seq::new(4, |i: int| 0u8)
    &&& h.nintendo_logo@ == Seq::new(48, |i: int| 0u8)
    &&& h.title@ == Seq::new(16, |i: int| 0u8)
    &&& h.cgb_only == false
    &&& h.new_licensee@ == Seq::new(2, |i: int| 0u8)
    &&& h.sgb_included == false
    &&& h.cartridge_type == CartridgeType::ROM_ONLY
    &&& h.rom_shift_count == 0
    &&& h.ram_size == 0
    &&& h.destination_code == 0
    &&& h.old_licensee == 0
    &&& h.version_number == 0
    &&& h.header_checksum == 0
    &&& h.global_checksum@ == Seq::new(2, |i: int| 0u8)
}

/// Byte `i` of the 80-byte window that serializes `h`: the stored arrays and
/// scalars at their fixed offsets, with the derived fields re-encoded.
pub open spec fn spec_header_byte(h: CartridgeHeader, i: int) -> u8 {
    if 0 <= i < 4 {
        h.entry_point@[i]
    } else if 4 <= i < 52 {
        h.nintendo_logo@[i - 4]
    } else if 52 <= i < 68 {
        h.title@[i - 52]
    } else if 68 <= i < 70 {
        h.new_licensee@[i - 68]
    } else if i == 70 {
        if h.sgb_included { 0x03 } else { 0x00 }
    } else if i == 71 {
        spec_type_tag(h.cartridge_type)
    } else if i == 72 {
        h.rom_shift_count
    } else if i == 73 {
        spec_ram_tag(h.ram_size)
    } else if i == 74 {
        h.destination_code
    } else if i == 75 {
        h.old_licensee
    } else if i == 76 {
        h.version_number
    } else if i == 77 {
        h.header_checksum
    } else if i == 78 {
        h.global_checksum@[0]
    } else if i == 79 {
        h.global_checksum@[1]
    } else {
        0
    }
}

/// An 80-byte window whose derived fields survive a parse: the SGB byte is a
/// plain flag, the cartridge-type tag is a known one, and the RAM-size tag is
/// one of the listed sizes.
pub open spec fn valid_header_bytes(data: Seq<u8>) -> bool {
    &&& data.len() == 80
    &&& (data[70] == 0x00 || data[70] == 0x03)
    &&& spec_type_tag(spec_cartridge_type_of(data[71])) == data[71]
    &&& (data[73] == 0x00 || data[73] == 0x02 || data[73] == 0x03 || data[73] == 0x04
        || data[73] == 0x05)
}

/// Which rejection loading a cartridge with header `h` gives: 0 for none,
/// 1 for a ROM shift count too large for a bankless cartridge, 2 for RAM
/// claimed by a RAM-less cartridge type, 3 for an MBC1 shift count past the
/// supported 512 KiB, 4 for a cartridge type the core declines.
pub open spec fn spec_verdict_of(h: CartridgeHeader) -> int {
    match h.cartridge_type {
        CartridgeType::ROM_ONLY => if h.rom_shift_count > 0 {
            1
        } else if h.ram_size > 0 {
            2
        } else {
            0
        },
        CartridgeType::ROM_RAM | CartridgeType::ROM_RAM_BATTERY => if h.rom_shift_count > 0 {
            1
        } else {
            0
        },
        CartridgeType::MBC1 => if h.ram_size > 0 {
            2
        } else if h.rom_shift_count > 4 {
            3
        } else {
            0
        },
        _ => 4,
    }
}

impl CartridgeHeader {
    /// A blank header: all bytes zero, cartridge type ROM_ONLY.
    pub fn new() -> (h: CartridgeHeader)
        ensures
            is_blank_header(h),
    {
        let h = CartridgeHeader {
            entry_point: [0; 4],
            nintendo_logo: [0; 48],
            title: [0; 16],
            cgb_only: false,
            new_licensee: [0; 2],
            sgb_included: false,
            cartridge_type: CartridgeType::ROM_ONLY,

            rom_shift_count: 0,
            ram_size: 0,
            destination_code: 0,
            old_licensee: 0,
            version_number: 0,
            header_checksum: 0,
            global_checksum: [0; 2],
        };
        proof {
            assert(h.entry_point@ =~= Seq::new(4, |i: int| 0u8));
            assert(h.nintendo_logo@ =~= Seq::new(48, |i: int| 0u8));
            assert(h.title@ =~= Seq::new(16, |i: int| 0u8));
            assert(h.new_licensee@ =~= Seq::new(2, |i: int| 0u8));
            assert(h.global_checksum@ =~= Seq::new(2, |i: int| 0u8));
        }
        h
    }

    /// Overwrite every field with what the first 80 bytes of `data` encode.
    pub fn read(&mut self, data: &[u8])
        requires
            data@.len() >= 80,
        ensures
            parsed_from(*final(self), data@.subrange(0, 80)),
    {
        let ghost window = data@.subrange(0, 80);

        let mut i: usize = 0;
        while i < 4
            invariant
                i <= 4,
                data@.len() >= 80,
                forall|j: int| 0 <= j < i ==> self.entry_point@[j] == data@[j],
            decreases 4 - i,
        {
            self.entry_point[i] = data[i];
            i = i + 1;
        }

        i = 0;
        while i < 48
            invariant
                i <= 48,
                data@.len() >= 80,
                self.entry_point@ =~= window.subrange(0, 4),
                forall|j: int| 0 <= j < i ==> self.nintendo_logo@[j] == data@[j + 4],
            decreases 48 - i,
        {
            self.nintendo_logo[i] = data[i + 4];
            i = i + 1;
        }

        i = 0;
        while i < 16
            invariant
                i <= 16,
                data@.len() >= 80,
                self.entry_point@ =~= window.subrange(0, 4),
                self.nintendo_logo@ =~= window.subrange(4, 52),
                forall|j: int| 0 <= j < i ==> self.title@[j] == data@[j + 52],
            decreases 16 - i,
        {
            self.title[i] = data[i + 52];
            i = i + 1;
        }

        self.cgb_only = self.title[15] == 0xc0;
        self.new_licensee[0] = data[68];
        self.new_licensee[1] = data[69];

        self.sgb_included = data[70] == 0x03;

        self.cartridge_type = CartridgeType::from_num(data[71]);

        self.rom_shift_count = data[72];
        self.ram_size = match data[73] {
            0x02 => 8,
            0x03 => 32,
            0x04 => 128,
            0x05 => 64,
            _ => 0,
        };

        self.destination_code = data[74];
        self.old_licensee = data[75];
        self.version_number = data[76];
        self.header_checksum = data[77];

        self.global_checksum[0] = data[78];
        self.global_checksum[1] = data[79];

        proof {
            assert(self.title@ =~= window.subrange(52, 68));
            assert(self.new_licensee@ =~= window.subrange(68, 70));
            assert(self.global_checksum@ =~= window.subrange(78, 80));
        }
    }

    /// Parse a fresh header out of the first 80 bytes of `data`.
    pub fn from(data: &[u8]) -> (h: CartridgeHeader)
        requires
            data@.len() >= 80,
        ensures
            parsed_from(h, data@.subrange(0, 80)),
    {
        let mut ch = CartridgeHeader::new();
        ch.read(data);
        ch
    }

    /// Serialize byte `i` of the 80-byte header window.
    pub fn byte_at(&self, i: usize) -> (b: u8)
        requires
            i < 80,
        ensures
            b == spec_header_byte(*self, i as int),
    {
        if i < 4 {
            self.entry_point[i]
        } else if i < 52 {
            self.nintendo_logo[i - 4]
        } else if i < 68 {
            self.title[i - 52]
        } else if i < 70 {
            self.new_licensee[i - 68]
        } else if i == 70 {
            if self.sgb_included { 0x03 } else { 0x00 }
        } else if i == 71 {
            CartridgeType::to_num(self.cartridge_type)
        } else if i == 72 {
            self.rom_shift_count
        } else if i == 73 {
            match self.ram_size {
                8 => 0x02,
                32 => 0x03,
                128 => 0x04,
                64 => 0x05,
                _ => 0x00,
            }
        } else if i == 74 {
            self.destination_code
        } else if i == 75 {
            self.old_licensee
        } else if i == 76 {
            self.version_number
        } else if i == 77 {
            self.header_checksum
        } else if i == 78 {
            self.global_checksum[0]
        } else {
            self.global_checksum[1]
        }
    }

    pub fn cartridge_type(&self) -> (ty: CartridgeType)
        ensures
            ty == self.cartridge_type,
    {
        self.cartridge_type
    }

    pub fn rom_shift_count(&self) -> (count: u8)
        ensures
            count == self.rom_shift_count,
    {
        self.rom_shift_count
    }

    pub fn ram_size(&self) -> (kib: u8)
        ensures
            kib == self.ram_size,
    {
        self.ram_size
    }

    pub fn sgb_included(&self) -> (sgb: bool)
        ensures
            sgb == self.sgb_included,
    {
        self.sgb_included
    }

    pub fn cgb_only(&self) -> (cgb: bool)
        ensures
            cgb == self.cgb_only,
    {
        self.cgb_only
    }
}

} // verus!
