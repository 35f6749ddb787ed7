use gbcore::cartridgeheader::{CartridgeHeader, CartridgeType};

#[test]
fn create_blank_header() {
    assert_eq!(
        CartridgeHeader {
            entry_point: [0; 4],
            nintendo_logo: [0; 48],
            title: [0; 16],
            cgb_only: false,
            new_licensee: [0; 2],
            sgb_included: false,
            cartridge_type: CartridgeType::ROM_ONLY,

            rom_shift_count: 0,
            ram_size: 0,
            destination_code: 0,
            old_licensee: 0,
            version_number: 0,
            header_checksum: 0,
            global_checksum: [0; 2],
        },
        CartridgeHeader::new()
    );
}

#[test]
fn reads_valid_full_zeroes() {
    // should complete without panicking
    let mut header = CartridgeHeader::new();
    header.read(&[0; 80]);
}

#[test]
fn blank_header_cartridge_fetch() {
    assert_eq!(
        CartridgeType::ROM_ONLY,
        (CartridgeHeader::new()).cartridge_type()
    );
}

#[test]
fn blank_header_rsc_fetch() {
    assert_eq!(0, (CartridgeHeader::new()).rom_shift_count());
}

#[test]
fn blank_header_ram_size_fetch() {
    assert_eq!(0, (CartridgeHeader::new()).ram_size());
}

#[test]
fn blank_header_sgb_fetch() {
    assert_eq!(false, (CartridgeHeader::new()).sgb_included());
}

#[test]
fn blank_header_cgb_fetch() {
    assert_eq!(false, (CartridgeHeader::new()).cgb_only());
}

#[test]
fn num_to_carttype_all_tags() {
    let cases: [(u8, CartridgeType); 29] = [
        (0x00, CartridgeType::ROM_ONLY),
        (0x01, CartridgeType::MBC1),
        (0x02, CartridgeType::MBC1_RAM),
        (0x03, CartridgeType::MBC1_RAM_BATTERY),
        (0x05, CartridgeType::MBC2),
        (0x06, CartridgeType::MBC2_BATTERY),
        (0x08, CartridgeType::ROM_RAM),
        (0x09, CartridgeType::ROM_RAM_BATTERY),
        (0x0b, CartridgeType::MMM01),
        (0x0c, CartridgeType::MMM01_RAM),
        (0x0d, CartridgeType::MMM01_RAM_BATTERY),
        (0x0f, CartridgeType::MBC3_TIMER_BATTERY),
        (0x10, CartridgeType::MBC3_TIMER_RAM_BATTERY),
        (0x11, CartridgeType::MBC3),
        (0x12, CartridgeType::MBC3_RAM),
        (0x13, CartridgeType::MBC3_RAM_BATTERY),
        (0x19, CartridgeType::MBC5),
        (0x1a, CartridgeType::MBC5_RAM),
        (0x1b, CartridgeType::MBC5_RAM_BATTERY),
        (0x1c, CartridgeType::MBC5_RUMBLE),
        (0x1d, CartridgeType::MBC5_RUMBLE_RAM),
        (0x1e, CartridgeType::MBC5_RUMBLE_RAM_BATTERY),
        (0x20, CartridgeType::MBC6),
        (0x22, CartridgeType::MBC7_SENSOR_RUMBLE_RAM_BATTERY),
        (0xfc, CartridgeType::POCKET_CAMERA),
        (0xfd, CartridgeType::BANDAI_TAMA5),
        (0xfe, CartridgeType::HuC3),
        (0xff, CartridgeType::HuC1_RAM_BATTERY),
        (0x42, CartridgeType::ROM_ONLY), // unknown tags default to ROM_ONLY
    ];
    for (tag, ty) in cases {
        assert_eq!(CartridgeType::from_num(tag), ty);
    }
}

#[test]
fn carttype_to_num_all_variants() {
    let cases: [(u8, CartridgeType); 28] = [
        (0x00, CartridgeType::ROM_ONLY),
        (0x01, CartridgeType::MBC1),
        (0x02, CartridgeType::MBC1_RAM),
        (0x03, CartridgeType::MBC1_RAM_BATTERY),
        (0x05, CartridgeType::MBC2),
        (0x06, CartridgeType::MBC2_BATTERY),
        (0x08, CartridgeType::ROM_RAM),
        (0x09, CartridgeType::ROM_RAM_BATTERY),
        (0x0b, CartridgeType::MMM01),
        (0x0c, CartridgeType::MMM01_RAM),
        (0x0d, CartridgeType::MMM01_RAM_BATTERY),
        (0x0f, CartridgeType::MBC3_TIMER_BATTERY),
        (0x10, CartridgeType::MBC3_TIMER_RAM_BATTERY),
        (0x11, CartridgeType::MBC3),
        (0x12, CartridgeType::MBC3_RAM),
        (0x13, CartridgeType::MBC3_RAM_BATTERY),
        (0x19, CartridgeType::MBC5),
        (0x1a, CartridgeType::MBC5_RAM),
        (0x1b, CartridgeType::MBC5_RAM_BATTERY),
        (0x1c, CartridgeType::MBC5_RUMBLE),
        (0x1d, CartridgeType::MBC5_RUMBLE_RAM),
        (0x1e, CartridgeType::MBC5_RUMBLE_RAM_BATTERY),
        (0x20, CartridgeType::MBC6),
        (0x22, CartridgeType::MBC7_SENSOR_RUMBLE_RAM_BATTERY),
        (0xfc, CartridgeType::POCKET_CAMERA),
        (0xfd, CartridgeType::BANDAI_TAMA5),
        (0xfe, CartridgeType::HuC3),
        (0xff, CartridgeType::HuC1_RAM_BATTERY),
    ];
    for (tag, ty) in cases {
        assert_eq!(tag, CartridgeType::to_num(ty));
    }
}

#[test]
fn ram_size_decoding() {
    let cases: [(u8, u8); 7] = [
        (0x00, 0),
        (0x01, 0),
        (0x02, 8),
        (0x03, 32),
        (0x04, 128),
        (0x05, 64),
        (0x06, 0),
    ];
    for (tag, kib) in cases {
        let mut window = [0u8; 80];
        window[73] = tag;
        let header = CartridgeHeader::from(&window);
        assert_eq!(header.ram_size, kib);
    }
}

#[test]
fn header_fields_at_fixed_offsets() {
    let mut window = [0u8; 80];
    window[0] = 0xaa; // entry point
    window[4] = 0xbb; // logo
    window[52] = b'T'; // title
    window[67] = 0xc0; // the CGB byte ends the title
    window[68] = 0x12;
    window[69] = 0x34; // new licensee
    window[70] = 0x03; // SGB flag
    window[71] = 0x01; // MBC1
    window[72] = 0x02; // 128 KiB of ROM
    window[73] = 0x03; // 32 KiB of RAM
    window[74] = 0x01;
    window[75] = 0x33;
    window[76] = 0x07;
    window[77] = 0x5a; // header checksum
    window[78] = 0xde;
    window[79] = 0xad;

    let h = CartridgeHeader::from(&window);
    assert_eq!(h.entry_point[0], 0xaa);
    assert_eq!(h.nintendo_logo[0], 0xbb);
    assert_eq!(h.title[0], b'T');
    assert!(h.cgb_only);
    assert_eq!(h.new_licensee, [0x12, 0x34]);
    assert!(h.sgb_included);
    assert_eq!(h.cartridge_type, CartridgeType::MBC1);
    assert_eq!(h.rom_shift_count, 0x02);
    assert_eq!(h.ram_size, 32);
    assert_eq!(h.destination_code, 0x01);
    assert_eq!(h.old_licensee, 0x33);
    assert_eq!(h.version_number, 0x07);
    assert_eq!(h.header_checksum, 0x5a);
    assert_eq!(h.global_checksum, [0xde, 0xad]);
}

#[test]
fn header_parse_serialize_roundtrip() {
    // A valid window: SGB byte 0x00 or 0x03, a known cartridge-type tag,
    // a listed RAM-size tag. Parsing then serializing gives it back.
    let mut window = [0u8; 80];
    for i in 0..68 {
        window[i] = (i as u8).wrapping_mul(7).wrapping_add(3);
    }
    window[68] = 0x99;
    window[69] = 0x77;
    window[70] = 0x03;
    window[71] = 0x08; // ROM_RAM
    window[72] = 0x00;
    window[73] = 0x02; // 8 KiB
    window[74] = 0x01;
    window[75] = 0x9b;
    window[76] = 0x02;
    window[77] = 0xe7;
    window[78] = 0x10;
    window[79] = 0x20;

    let h = CartridgeHeader::from(&window);
    for i in 0..80 {
        assert_eq!(h.byte_at(i), window[i], "window byte {}", i);
    }
}
