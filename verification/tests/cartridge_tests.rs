use lib::cartridge::{can_load, load_rom, Cartridge, LoadError};
use lib::header::{header_checksum, Region, ROMInfo, MBC};
use lib::mbc1::MBC1;
use lib::mbc2::MBC2;
use lib::mbc3::MBC3;
use lib::rom::{NoMBC, ROM};

/// An image of `banks` 16 KiB banks, each filled with its bank number, whose
/// header names `rom_type`, `rom_code` and `ram_code` and carries a valid
/// checksum.
fn image(banks: usize, rom_type: u8, rom_code: u8, ram_code: u8) -> Vec<u8> {
    let mut data = Vec::new();
    for bank in 0..banks {
        for _ in 0..0x4000 {
            data.push(bank as u8);
        }
    }
    for i in 0x134..0x14D {
        data[i] = 0;
    }
    data[0x147] = rom_type;
    data[0x148] = rom_code;
    data[0x149] = ram_code;
    data[0x14A] = 0x01;
    fix_checksum(&mut data);
    data
}

fn fix_checksum(data: &mut Vec<u8>) {
    let mut checksum: u8 = 0;
    for i in 0x134..0x14D {
        checksum = checksum.wrapping_sub(data[i]).wrapping_sub(1);
    }
    data[0x14D] = checksum;
}

fn info(mbc: MBC, has_ram: bool, rom_banks: u16, ram_banks: u8) -> ROMInfo {
    ROMInfo {
        mbc,
        publisher: String::new(),
        title: String::new(),
        cgb_only: false,
        sgb_features: false,
        has_ram,
        has_battery: false,
        has_timer: false,
        ram_banks,
        rom_banks,
        region: Region::NonJapanese,
    }
}

#[test]
fn checksum_of_blank_header_is_0xe7() {
    let mut data = vec![0u8; 0x150];
    data[0x14D] = 0xE7;
    assert!(header_checksum(&data));
    data[0x14D] = 0xE6;
    assert!(!header_checksum(&data));
}

#[test]
fn checksum_counts_every_header_byte() {
    let mut data = vec![0u8; 0x150];
    data[0x134] = 1;
    data[0x14C] = 2;
    // -(1 + 2) - 25 = -28 = 0xE4 modulo 256
    data[0x14D] = 0xE4;
    assert!(header_checksum(&data));
    data[0x14D] = 0xE7;
    assert!(!header_checksum(&data));
}

#[test]
fn checksum_fails_on_short_image() {
    let data = vec![0u8; 0x100];
    assert!(!header_checksum(&data));
    let data = vec![0u8; 0x14C];
    assert!(!header_checksum(&data));
}

#[test]
fn from_bytes_reads_mbc1_header() {
    let mut data = image(2, 0x03, 0x05, 0x03);
    data[0x143] = 0xC0;
    data[0x146] = 0x03;
    data[0x14A] = 0x00;
    let info = ROMInfo::from_bytes(&data);
    assert_eq!(info.mbc, MBC::MBC1);
    assert!(info.has_ram);
    assert!(info.has_battery);
    assert!(!info.has_timer);
    assert_eq!(info.ram_banks, 4);
    assert_eq!(info.rom_banks, 64);
    assert!(info.cgb_only);
    assert!(info.sgb_features);
    assert_eq!(info.region, Region::Japanese);
    assert_eq!(info.publisher, "");
    assert_eq!(info.title, "");
    assert_eq!(info.ram_size(), 0x8000);
}

#[test]
fn from_bytes_reads_mbc3_timer_header() {
    let data = image(2, 0x10, 0x52, 0x04);
    let info = ROMInfo::from_bytes(&data);
    assert_eq!(info.mbc, MBC::MBC3);
    assert!(info.has_ram);
    assert!(info.has_battery);
    assert!(info.has_timer);
    assert_eq!(info.ram_banks, 16);
    assert_eq!(info.rom_banks, 72);
    assert!(!info.cgb_only);
    assert!(!info.sgb_features);
    assert_eq!(info.region, Region::NonJapanese);
    assert_eq!(info.ram_size(), 0x20000);
}

#[test]
fn from_bytes_other_types() {
    let cases: [(u8, MBC); 8] = [
        (0x00, MBC::NoMBC),
        (0x06, MBC::MBC2),
        (0x0B, MBC::MMM01),
        (0x1E, MBC::MBC5),
        (0x20, MBC::MBC6),
        (0x22, MBC::MBC7),
        (0xFC, MBC::PocketCamera),
        (0xFF, MBC::HuC1),
    ];
    for (t, mbc) in cases {
        let data = image(2, t, 0x00, 0x00);
        let info = ROMInfo::from_bytes(&data);
        assert_eq!(info.mbc, mbc);
        assert_eq!(info.rom_banks, 2);
        assert_eq!(info.ram_banks, 0);
    }
    let data = image(2, 0xFE, 0x08, 0x05);
    let info = ROMInfo::from_bytes(&data);
    assert_eq!(info.mbc, MBC::HuC3);
    assert_eq!(info.rom_banks, 512);
    assert_eq!(info.ram_banks, 8);
    assert!(!info.has_ram);
}

#[test]
fn load_rom_rejects_bad_checksum() {
    let mut data = image(2, 0x01, 0x00, 0x00);
    data[0x14D] = data[0x14D].wrapping_add(1);
    assert!(can_load(&data));
    match load_rom(data) {
        Err(e) => {
            assert_eq!(e, LoadError::HeaderChecksum);
            assert_eq!(e.message(), "Header checksum failed. Is this a Gameboy ROM?");
        }
        Ok(_) => panic!("a bad checksum was accepted"),
    }
}

#[test]
fn load_rom_builds_named_controller() {
    let kinds: [(u8, u8); 4] = [(0x00, 0), (0x01, 1), (0x05, 2), (0x11, 3)];
    for (t, kind) in kinds {
        let data = image(2, t, 0x00, 0x00);
        assert!(can_load(&data));
        let cart = load_rom(data).ok().unwrap();
        let got = match cart {
            Cartridge::NoMBC(_) => 0,
            Cartridge::MBC1(_) => 1,
            Cartridge::MBC2(_) => 2,
            Cartridge::MBC3(_) => 3,
        };
        assert_eq!(got, kind);
        assert_eq!(cart.info().rom_banks, 2);
        assert_eq!(cart.read(0x4000), 1);
        assert_eq!(cart.read(0x0000), 0);
    }
}

#[test]
fn can_load_refuses_unsupported_or_truncated() {
    let data = image(2, 0x19, 0x00, 0x00);
    assert!(!can_load(&data));
    let data = vec![0u8; 0x14D];
    assert!(!can_load(&data));
    let mut data = image(2, 0x01, 0x00, 0x00);
    data[0x148] = 0x40;
    fix_checksum(&mut data);
    assert!(!can_load(&data));
}

#[test]
fn no_mbc_reads_image_and_ignores_writes() {
    let mut cart = NoMBC::new(vec![1, 2, 3], info(MBC::NoMBC, false, 2, 0));
    assert_eq!(cart.read(0), 1);
    assert_eq!(cart.read(2), 3);
    assert_eq!(cart.read(3), 0xFF);
    assert_eq!(cart.read(0xC000), 0xFF);
    cart.write(1, 9);
    assert_eq!(cart.read(1), 2);
    assert_eq!(cart.info().rom_banks, 2);
}

#[test]
fn mbc1_switches_rom_banks() {
    let mut cart = MBC1::new(image(4, 0x01, 0x01, 0x00), info(MBC::MBC1, false, 4, 0));
    assert_eq!(cart.read(0x4000), 1);
    assert_eq!(cart.read(0x7FFF), 1);
    cart.write(0x2000, 2);
    assert_eq!(cart.read(0x4000), 2);
    cart.write(0x3FFF, 3);
    assert_eq!(cart.read(0x5000), 3);
    // past the last bank: the last bank
    cart.write(0x2000, 7);
    assert_eq!(cart.read(0x4000), 3);
    // bank 0 selects bank 1
    cart.write(0x2000, 0);
    assert_eq!(cart.read(0x4000), 1);
    // only the five low bits count: 0x20 is bank 0, so bank 1
    cart.write(0x2000, 0x22);
    assert_eq!(cart.read(0x4000), 2);
    cart.write(0x2000, 0x20);
    assert_eq!(cart.read(0x4000), 1);
    // bank 0 reads the start of the image
    assert_eq!(cart.read(0x0000), 0);
    assert_eq!(cart.read(0x3FFF), 0);
}

#[test]
fn mbc1_bank_register_extends_rom_bank() {
    let mut cart = MBC1::new(image(4, 0x01, 0x01, 0x00), info(MBC::MBC1, false, 4, 0));
    cart.write(0x4000, 0x05); // two low bits: 1
    // switchable bank (1 << 5 | 1) = 33 is past the image
    assert_eq!(cart.read(0x4000), 0xFF);
    // simple mode: bank 0 unaffected
    assert_eq!(cart.read(0x0010), 0);
    // advanced mode: bank 0 reads (1 << 5) * offset
    cart.write(0x6000, 1);
    assert_eq!(cart.read(0x0000), 0);
    // 32 * 0x200 = 0x4000: the first byte of bank 1
    assert_eq!(cart.read(0x0200), 1);
    let mut data = vec![0u8; 0x8000];
    data[0x4000] = 0x42;
    let mut cart2 = MBC1::new(data, info(MBC::MBC1, false, 2, 0));
    cart2.write(0x4000, 1);
    cart2.write(0x6001, 1);
    assert_eq!(cart2.read(0x0200), 0x42);
    cart2.write(0x7FFF, 2);
    assert_eq!(cart2.read(0x0200), 0);
}

#[test]
fn mbc1_ram_is_empty() {
    let mut cart = MBC1::new(image(2, 0x03, 0x00, 0x02), info(MBC::MBC1, true, 2, 1));
    assert_eq!(cart.read(0xA000), 0xFF);
    cart.write(0x0000, 0x0A);
    cart.write(0xA000, 0x12);
    assert_eq!(cart.read(0xA000), 0xFF);
    assert_eq!(cart.read(0xBFFF), 0xFF);
    cart.write(0x1FFF, 0x1A);
    cart.write(0xB000, 0x34);
    assert_eq!(cart.read(0xB000), 0xFF);
}

#[test]
fn mbc2_registers_share_the_switchable_region() {
    let mut cart = MBC2::new(image(4, 0x05, 0x01, 0x00), info(MBC::MBC2, false, 4, 0));
    assert_eq!(cart.read(0x4000), 1);
    // bit 8 set: ROM bank
    cart.write(0x4100, 3);
    assert_eq!(cart.read(0x4000), 3);
    cart.write(0x7F00, 9);
    assert_eq!(cart.read(0x4000), 3);
    cart.write(0x4100, 0);
    assert_eq!(cart.read(0x4000), 1);
    // bit 8 clear: RAM enable, the ROM bank stays
    cart.write(0x4000, 0x0A);
    assert_eq!(cart.read(0x4000), 1);
    // writes below 0x4000 change nothing
    cart.write(0x2100, 2);
    assert_eq!(cart.read(0x4000), 1);
    assert_eq!(cart.read(0x0001), 0);
}

#[test]
fn mbc2_ram_and_unmapped_reads() {
    let mut cart = MBC2::new(image(2, 0x06, 0x00, 0x00), info(MBC::MBC2, true, 2, 0));
    assert_eq!(cart.read(0xA000), 0xFF);
    cart.write(0x4000, 0x0A);
    assert_eq!(cart.read(0xA000), 0xFF);
    assert_eq!(cart.read(0xA1FF), 0xFF);
    assert_eq!(cart.read(0xA200), 0xFF);
    assert_eq!(cart.read(0xBFFF), 0xFF);
    assert_eq!(cart.read(0x8000), 0xFF);
    assert_eq!(cart.read(0xC000), 0xFF);
    assert_eq!(cart.info().mbc, MBC::MBC2);
}

#[test]
fn mbc3_switches_rom_banks() {
    let mut cart = MBC3::new(image(8, 0x11, 0x02, 0x00), info(MBC::MBC3, false, 8, 0));
    assert_eq!(cart.read(0x4000), 1);
    cart.write(0x2000, 5);
    assert_eq!(cart.read(0x4000), 5);
    assert_eq!(cart.read(0x7FFF), 5);
    cart.write(0x3000, 0x80);
    assert_eq!(cart.read(0x4000), 7);
    cart.write(0x2000, 0);
    assert_eq!(cart.read(0x4000), 1);
    // RAM bank and the other registers leave the ROM bank alone
    cart.write(0x4000, 3);
    cart.write(0x6000, 1);
    cart.write(0xA000, 1);
    assert_eq!(cart.read(0x4000), 1);
    assert_eq!(cart.read(0x0000), 0);
    assert_eq!(cart.read(0x9000), 0xFF);
}

#[test]
fn mbc3_ram_reads_open_bus() {
    let mut cart = MBC3::new(image(2, 0x13, 0x00, 0x03), info(MBC::MBC3, true, 2, 4));
    assert_eq!(cart.read(0xA000), 0xFF);
    cart.write(0x0000, 0x00);
    cart.write(0x4000, 0x02);
    cart.write(0x4000, 0x09);
    cart.write(0xA123, 0x55);
    assert_eq!(cart.read(0xA123), 0xFF);
    assert_eq!(cart.info().ram_banks, 4);
}

#[test]
fn cartridge_dispatches_writes() {
    let data = image(4, 0x01, 0x01, 0x00);
    let mut cart = load_rom(data).ok().unwrap();
    cart.write(0x2000, 3);
    assert_eq!(cart.read(0x4000), 3);
    cart.write(0x2000, 1);
    assert_eq!(cart.read(0x4000), 1);
}

#[test]
fn fresh_cartridge_bank_is_in_range() {
    for (t, register) in [(0x01u8, 0x2000u16), (0x05, 0x4100), (0x11, 0x2000)] {
        let data = image(4, t, 0x01, 0x00);
        let mut cart = load_rom(data).ok().unwrap();
        for value in [0u8, 1, 2, 3, 4, 0x1F, 0x20, 0xFF] {
            cart.write(register, value);
            let bank = cart.read(0x4000);
            assert!(bank >= 1 && bank <= 3);
        }
    }
}

#[test]
fn writes_keep_rom_image() {
    let data = image(2, 0x00, 0x00, 0x00);
    let mut cart = load_rom(data.clone()).ok().unwrap();
    for address in [0x0000u16, 0x1000, 0x2000, 0x4000, 0x6000, 0xA000] {
        cart.write(address, 0xAA);
    }
    for address in [0x0000u16, 0x0147, 0x3FFF, 0x4000, 0x7FFF] {
        assert_eq!(cart.read(address), data[address as usize]);
    }
}

#[test]
fn writes_outside_cartridge_change_nothing() {
    for t in [0x00u8, 0x01, 0x05, 0x11] {
        let data = image(4, t, 0x01, 0x00);
        let mut cart = load_rom(data).ok().unwrap();
        cart.write(0x2000, 2);
        cart.write(0x4100, 2);
        let before: Vec<u8> = [0x0000u16, 0x3FFF, 0x4000, 0x7FFF, 0xA000]
            .iter()
            .map(|a| cart.read(*a))
            .collect();
        for address in [0x8000u16, 0x9FFF, 0xC000, 0xFF00, 0xFFFF] {
            cart.write(address, 0x00);
            cart.write(address, 0x0A);
        }
        let after: Vec<u8> = [0x0000u16, 0x3FFF, 0x4000, 0x7FFF, 0xA000]
            .iter()
            .map(|a| cart.read(*a))
            .collect();
        assert_eq!(before, after);
    }
}

#[test]
fn mbc2_mbc3_writes_keep_bank_zero() {
    let mut cart2 = MBC2::new(image(4, 0x05, 0x01, 0x00), info(MBC::MBC2, true, 4, 0));
    let mut cart3 = MBC3::new(image(4, 0x13, 0x01, 0x02), info(MBC::MBC3, true, 4, 1));
    for address in [0x0000u16, 0x2000, 0x4000, 0x4100, 0x6000, 0xA000] {
        for value in [0x00u8, 0x03, 0x0A, 0xFF] {
            cart2.write(address, value);
            cart3.write(address, value);
            assert_eq!(cart2.read(0x0000), 0);
            assert_eq!(cart3.read(0x3FFF), 0);
            assert_eq!(cart2.read(0xA000), 0xFF);
            assert_eq!(cart3.read(0xA000), 0xFF);
        }
    }
}

#[test]
fn mbc1_without_ram_stays_disabled() {
    let mut cart = MBC1::new(image(4, 0x01, 0x01, 0x00), info(MBC::MBC1, false, 4, 0));
    for value in [0x0Au8, 0x1A, 0xFA] {
        cart.write(0x0000, value);
        cart.write(0xA000, 0x77);
        assert_eq!(cart.read(0xA000), 0xFF);
        assert_eq!(cart.read(0xBFFF), 0xFF);
    }
    for value in [0u8, 0x1F, 0x20, 0x3F, 0xFF] {
        cart.write(0x2000, value);
        let bank = cart.read(0x4000);
        assert!(bank >= 1 && bank <= 3);
    }
}
