use gbcore::cartridgeheader::{CartridgeHeader, CartridgeType};
use gbcore::memory::{Memory, MemoryError};

#[test]
fn new_blank_data() {
    let cd = Memory::new();
    assert_eq!(cd.header, CartridgeHeader::new());
    assert_eq!(cd.rom, Vec::<u8>::new());
    assert_eq!(cd.switchable_banks, Vec::<Vec<u8>>::new());
    assert_eq!(cd.ram, Vec::<u8>::new());
}

#[test]
fn reading_16kib_zerovec_valid() {
    let result = Memory::from(vec![0; 0x4000]);
    assert!(if let Ok(_) = result { true } else { false });
}

#[test]
fn reading_32kib_zerovec_valid() {
    let result = Memory::from(vec![0; 0x8000]);
    assert!(if let Ok(_) = result { true } else { false });
}

#[test]
fn reading_zerovec_romram_valid() {
    let mut rom = vec![0; 0x8000];
    rom[0x0100 + 71] = 0x08; // cartridge type includes ram
    rom[0x0100 + 73] = 0x02; // ram size is 8KiB

    let result = Memory::from(rom);
    assert!(if let Ok(_) = result { true } else { false });
}

#[test]
fn reading_16kib_zerovec_ram_romonly_invalid() {
    let mut rom = vec![0; 0x4000];
    rom[0x0100 + 71] = 0x00; // cartridge type does not include ram
    rom[0x0100 + 73] = 0x02; // ram size is 8KiB; too large for cartridge type!

    let result = Memory::from(rom);

    if let Err(e) = result {
        assert_eq!(
            e,
            MemoryError::CartTypeMismatch {
                ct: CartridgeType::ROM_ONLY,
                reason: String::from("header says RAM included with wrong cartridge type"),
            }
        )
    } else {
        assert!(false);
    }
}

#[test]
fn reading_32kib_zerovec_ram_romonly_invalid() {
    let mut rom = vec![0; 0x8000];
    rom[0x0100 + 71] = 0x00; // cartridge type does not include ram
    rom[0x0100 + 73] = 0x02; // ram size is 8KiB; too large for cartridge type!

    let result = Memory::from(rom);

    if let Err(e) = result {
        assert_eq!(
            e,
            MemoryError::CartTypeMismatch {
                ct: CartridgeType::ROM_ONLY,
                reason: String::from("header says RAM included with wrong cartridge type"),
            }
        )
    } else {
        assert!(false);
    }
}

#[test]
fn reading_zerovec_romonly_invalid_shiftcount() {
    for i in 2..6 {
        let mut rom = vec![0; 0x4000];
        rom[0x0100 + 71] = 0x00; // cartridge type is ROM_ONLY

        rom[0x0100 + 72] = i;
        let result = Memory::from(rom);

        if let Err(e) = result {
            assert_eq!(
                e,
                MemoryError::CartTypeMismatch {
                    ct: CartridgeType::ROM_ONLY,
                    reason: String::from("given ROM size is too large"),
                }
            )
        } else {
            assert!(false);
        }
    }
}

#[test]
fn reading_zerovec_romram_invalid_shiftcount() {
    for i in 2..6 {
        let mut rom = vec![0; 0x4000];
        rom[0x0100 + 71] = 0x08; // cartridge type is ROM_RAM

        rom[0x0100 + 72] = i;
        let result = Memory::from(rom);

        if let Err(e) = result {
            assert_eq!(
                e,
                MemoryError::CartTypeMismatch {
                    ct: CartridgeType::ROM_RAM,
                    reason: String::from("given ROM size is too large"),
                }
            )
        } else {
            assert!(false);
        }
    }
}

#[test]
fn reading_32kib_zerovec_mbc1_valid() {
    let mut rom = vec![0; 0x8000];
    rom[0x0100 + 71] = 0x01; // cartridge type is MBC1
    rom[0x0100 + 73] = 0x00; // no ram

    let result = Memory::from(rom);
    assert!(if let Ok(_) = result { true } else { false });
}

#[test]
fn reading_64kib_zerovec_mbc1_valid() {
    let mut rom = vec![0; 0x10000];
    rom[0x0147] = 0x01; // cartridge type is MBC1
    rom[0x0148] = 0x01; // ROM size is 64KiB
    rom[0x0149] = 0x00; // no ram

    let result = Memory::from(rom);
    assert!(if let Ok(_) = result { true } else { false });
}

#[test]
fn reading_128kib_zerovec_mbc1_valid() {
    let mut rom = vec![0; 0x20000];
    rom[0x0147] = 0x01; // cartridge type is MBC1
    rom[0x0148] = 0x02; // ROM size is 128KiB
    rom[0x0149] = 0x00; // no ram

    let result = Memory::from(rom);
    assert!(if let Ok(_) = result { true } else { false });
}

#[test]
fn reading_256kib_zerovec_mbc1_valid() {
    let mut rom = vec![0; 0x40000];
    rom[0x0147] = 0x01; // cartridge type is MBC1
    rom[0x0148] = 0x03; // ROM size is 256KiB
    rom[0x0149] = 0x00; // no ram

    let result = Memory::from(rom);
    assert!(if let Ok(_) = result { true } else { false });
}

#[test]
fn reading_512kib_zerovec_mbc1_valid() {
    let mut rom = vec![0; 0x80000];
    rom[0x0147] = 0x01; // cartridge type is MBC1
    rom[0x0148] = 0x04; // ROM size is 512KiB
    rom[0x0149] = 0x00; // no ram

    let result = Memory::from(rom);
    assert!(if let Ok(_) = result { true } else { false });
}

#[test]
fn reading_zerovec_mbc1_with_ram_invalid() {
    let mut rom = vec![0; 0x8000];
    rom[0x0100 + 71] = 0x01; // cartridge type is MBC1
    rom[0x0100 + 73] = 0x02; // ram size is 8KiB, too large for cartridge type!

    let result = Memory::from(rom);
    assert!(if let Err(_) = result { true } else { false });
}

#[test]
fn reading_zerovec_mbc1_invalid_shiftcount() {
    let mut rom = vec![0; 4000];
    rom[0x0100 + 71] = 0x01; // cartridge type is MBC1
    rom[0x0100 + 72] = 0x42; // invalid shift count

    let result = Memory::from(rom);
    if let Err(e) = result {
        assert_eq!(
            e,
            MemoryError::CartTypeMismatch {
                ct: CartridgeType::MBC1,
                reason: String::from("given ROM size is too large or incorrect"),
            }
        )
    } else {
        assert!(false);
    }
}

#[test]
fn error_on_unsupported_carttype() {
    let mut rom = vec![0; 4000];
    rom[0x0100 + 71] = 0xfc; // pocket camera

    let result = Memory::from(rom);
    if let Err(e) = result {
        assert_eq!(
            e,
            MemoryError::UnsupportedCartType {
                ct: CartridgeType::POCKET_CAMERA
            }
        );
    } else {
        assert!(false);
    }
}

#[test]
fn out_of_bounds_index_returns_zero() {
    let mem = Memory::from(vec![0; 4000]).unwrap();

    assert_eq!(mem.read_byte(0x10000), 0);
}

fn ram_cart() -> Memory {
    let mut rom = vec![0; 0x8000];
    rom[0x0100 + 71] = 0x08; // cartridge type includes ram
    rom[0x0100 + 73] = 0x02; // ram size is 8KiB
    Memory::from(rom).unwrap()
}

#[test]
fn write_read_every_writable_region_boundary() {
    let mut mem = ram_cart();
    // the first and last address of each RAM-backed routed region
    let addrs = [
        0x8000, 0x9fff, // VRAM
        0xa000, 0xbfff, // cartridge RAM
        0xc000, 0xcfff, // WRAM bank 1
        0xd000, 0xdfff, // WRAM bank 2
        0xe000, 0xfdff, // echo RAM
        0xfe00, 0xfe9f, // OAM
        0xff00, 0xff7f, // I/O registers
        0xff80, 0xfffe, // HRAM
        0xffff, // interrupt enable
    ];
    for (i, &a) in addrs.iter().enumerate() {
        let v = 0x40 + (i as u8);
        mem.write_byte(a, v);
        assert_eq!(mem.read_byte(a), v, "address {:#06x}", a);
    }
}

#[test]
fn rom_region_write_is_mbc_control() {
    let mut mem = ram_cart();
    // On a cartridge without an MBC a write into the ROM region changes
    // nothing the bus can read.
    for &a in &[0x0000usize, 0x3fff, 0x4000, 0x7fff] {
        let before = mem.read_byte(a);
        mem.write_byte(a, 0x42);
        assert_eq!(mem.read_byte(a), before);
    }
}

#[test]
fn prohibited_window_reads_zero() {
    let mut mem = ram_cart();
    mem.write_byte(0xfea0, 0x42);
    mem.write_byte(0xfeff, 0x42);
    assert_eq!(mem.read_byte(0xfea0), 0);
    assert_eq!(mem.read_byte(0xfeff), 0);
}

#[test]
fn echo_ram_mirrors_wram() {
    let mut mem = ram_cart();
    mem.write_byte(0xc123, 0x55);
    assert_eq!(mem.read_byte(0xe123), 0x55);
    mem.write_byte(0xe123, 0x66);
    assert_eq!(mem.read_byte(0xc123), 0x66);
    mem.write_byte(0xfdff, 0x77);
    assert_eq!(mem.read_byte(0xddff), 0x77);
}

#[test]
fn rom_bytes_distributed_into_banks() {
    let mut rom = vec![0; 0x10000];
    rom[0x0147] = 0x01; // MBC1
    rom[0x0148] = 0x01; // 64 KiB: banks 0..4
    rom[0x0200] = 0x11;
    rom[0x4000] = 0x22; // bank 1
    rom[0x8000] = 0x33; // bank 2
    rom[0xc000] = 0x44; // bank 3
    let mut mem = Memory::from(rom).unwrap();

    assert_eq!(mem.read_byte(0x0200), 0x11);
    assert_eq!(mem.read_byte(0x4000), 0x22); // bank 1 is switched in at reset

    // An MBC1 bank-select command routes bank 2 into 0x4000..0x8000.
    mem.write_byte(0x2000, 0x02);
    assert_eq!(mem.read_byte(0x4000), 0x33);
    mem.write_byte(0x2000, 0x03);
    assert_eq!(mem.read_byte(0x4000), 0x44);
    // Selecting bank 0 is silently promoted to bank 1.
    mem.write_byte(0x2000, 0x00);
    assert_eq!(mem.read_byte(0x4000), 0x22);
}

#[test]
fn mbc1_ram_enable_toggles_cartridge_ram() {
    let mut rom = vec![0; 0x8000];
    rom[0x0147] = 0x01; // MBC1, no RAM allocated
    let mut mem = Memory::from(rom).unwrap();
    // With no RAM allocated the toggle is unobservable through reads, so
    // look at the control field itself.
    mem.write_byte(0x0000, 0x00);
    assert!(!mem.ram_enabled);
    mem.write_byte(0x0000, 0x0a);
    assert!(mem.ram_enabled);
    mem.write_byte(0x0000, 0x1a);
    assert!(mem.ram_enabled); // only the low nibble counts
}

#[test]
fn short_cartridge_pads_with_zero_and_long_is_truncated() {
    // 20 KiB of data on a 32 KiB ROM_ONLY layout: the tail of bank 1 is zero.
    let mut rom = vec![0xee; 0x5000];
    for i in 0x100..0x150 {
        rom[i] = 0;
    }
    let mem = Memory::from(rom).unwrap();
    assert_eq!(mem.read_byte(0x4fff), 0xee);
    assert_eq!(mem.read_byte(0x5000), 0x00);
    assert_eq!(mem.read_byte(0x7fff), 0x00);

    // 40 KiB of data on the same layout: the excess is discarded.
    let mut rom2 = vec![0xee; 0xa000];
    for i in 0x100..0x150 {
        rom2[i] = 0;
    }
    let mem2 = Memory::from(rom2).unwrap();
    assert_eq!(mem2.read_byte(0x7fff), 0xee);
}

#[test]
fn request_interrupt_sets_if_bit() {
    let mut mem = ram_cart();
    mem.request_interrupt(0);
    assert_eq!(mem.read_byte(0xff0f), 0x01);
    mem.request_interrupt(2);
    assert_eq!(mem.read_byte(0xff0f), 0x05);
    mem.request_interrupt(0); // already set: unchanged
    assert_eq!(mem.read_byte(0xff0f), 0x05);
}
