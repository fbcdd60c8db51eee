//! The cartridge header: its checksum and the information it describes.

use vstd::prelude::*;
use vstd::arithmetic::power2::{lemma2_to64, pow2};

verus! {

pub const CARTRIDGE_TYPE_ADDRESS: u16 = 0x0147;
pub const CGB_FLAG_ADDRESS: u16 = 0x0143;
pub const SGB_FLAG_ADDRESS: u16 = 0x0146;
pub const RAM_SIZE_ADDRESS: u16 = 0x0149;
pub const ROM_SIZE_ADDRESS: u16 = 0x0148;
pub const DESTINATION_CODE_ADDRESS: u16 = 0x014A;
pub const HEADER_CHECKSUM_ADDRESS: u16 = 0x014D;

/// First byte covered by the header checksum (the title starts here).
pub const HEADER_CHECKSUM_START: u16 = 0x0134;

/// Sum of the bytes `data[0x134..end]`.
pub open spec fn header_byte_sum(data: Seq<u8>, end: int) -> int
    decreases end - 0x134,
{
    if end <= 0x134 {
        0
    } else {
        header_byte_sum(data, end - 1) + data[end - 1]
    }
}

/// The header checksum that `data` should carry at `0x14D`: minus the sum of
/// the bytes `0x134..=0x14C`, minus one for each of those 25 bytes, modulo 256.
pub open spec fn expected_header_checksum(data: Seq<u8>) -> int {
    (0 - header_byte_sum(data, 0x14D) - 25) % 256
}

/// The image is long enough to hold the checksum byte, and that byte matches
/// the checksum computed over the header.
pub open spec fn header_checksum_valid(data: Seq<u8>) -> bool {
    &&& data.len() > 0x14D
    &&& data[0x14D] as int == expected_header_checksum(data)
}

/// Checks the header checksum of a cartridge image.
///
/// An image shorter than `0x14D` bytes fails the check; an image of exactly
/// `0x14D` bytes has no checksum byte to compare against (the check would read
/// past its end), so it is left out.
pub fn header_checksum(data: &Vec<u8>) -> (r: bool)
    requires
        data@.len() != 0x14D,
    ensures
        r == header_checksum_valid(data@),
{
    if data.len() < HEADER_CHECKSUM_ADDRESS as usize {
        return false;
    }
    let mut checksum: u8 = 0;
    let mut index: u16 = HEADER_CHECKSUM_START;
    while index < HEADER_CHECKSUM_ADDRESS
        invariant
            0x134 <= index <= 0x14D,
            data@.len() > 0x14D,
            (checksum as int + header_byte_sum(data@, index as int) + (index - 0x134)) % 256 == 0,
        decreases 0x14D - index,
    {
        let byte = data[index as usize];
        let next = checksum.wrapping_sub(byte).wrapping_sub(1);
        proof {
            let s = header_byte_sum(data@, index as int);
            let k = index - 0x134;
            assert(header_byte_sum(data@, index + 1) == s + byte);
            assert((next as int + s + byte + k + 1) % 256 == 0) by {
                let c = checksum as int;
                let n = next as int;
                assert(n == c - byte - 1 || n == c - byte - 1 + 256);
                vstd::arithmetic::div_mod::lemma_mod_add_multiples_vanish(c + s + k, 256);
            }
        }
        checksum = next;
        index = index + 1;
    }
    proof {
        let s = header_byte_sum(data@, 0x14D);
        assert((checksum as int + s + 25) % 256 == 0);
        assert(checksum as int == (0 - s - 25) % 256);
    }
    checksum == data[HEADER_CHECKSUM_ADDRESS as usize]
}

} // verus!

verus! {

/// The memory bank controller a cartridge is built with.
#[derive(Debug, Copy, Clone, PartialEq, Eq, Structural)]
pub enum MBC {
    NoMBC,
    MBC1,
    MBC2,
    MBC3,
    MBC5,
    MBC6,
    MBC7,
    HuC1,
    HuC3,
    MMM01,
    PocketCamera,
    BandaiTIMA5,
}

/// The market a cartridge was made for.
#[derive(Debug, Copy, Clone, PartialEq, Eq, Structural)]
pub enum Region {
    Japanese,
    NonJapanese,
}

/// What the header says about a cartridge.
#[derive(Debug)]
pub struct ROMInfo {
    pub mbc: MBC,
    pub publisher: String,
    pub title: String,
    pub cgb_only: bool,
    pub sgb_features: bool,
    pub has_ram: bool,
    pub has_battery: bool,
    pub has_timer: bool,
    pub ram_banks: u8,
    pub rom_banks: u16,
    pub region: Region,
}

/// The controller named by a cartridge type byte, if the type is known.
pub open spec fn mbc_for_type(t: u8) -> Option<MBC> {
    if t == 0x00 || t == 0x08 || t == 0x09 {
        Some(MBC::NoMBC)
    } else if 0x01 <= t <= 0x03 {
        Some(MBC::MBC1)
    } else if t == 0x05 || t == 0x06 {
        Some(MBC::MBC2)
    } else if t == 0x0B || t == 0x0C {
        Some(MBC::MMM01)
    } else if 0x0F <= t <= 0x13 {
        Some(MBC::MBC3)
    } else if 0x19 <= t <= 0x1E {
        Some(MBC::MBC5)
    } else if t == 0x20 {
        Some(MBC::MBC6)
    } else if t == 0x22 {
        Some(MBC::MBC7)
    } else if t == 0xFC {
        Some(MBC::PocketCamera)
    } else if t == 0xFD {
        Some(MBC::BandaiTIMA5)
    } else if t == 0xFE {
        Some(MBC::HuC3)
    } else if t == 0xFF {
        Some(MBC::HuC1)
    } else {
        None
    }
}

/// Cartridge types that carry external RAM.
pub open spec fn type_has_ram(t: u8) -> bool {
    t == 0x02 || t == 0x03 || t == 0x08 || t == 0x09 || t == 0x0C || t == 0x0D || t == 0x10
        || t == 0x12 || t == 0x13 || t == 0x1A || t == 0x1B || t == 0x1D || t == 0x1E || t == 0x22
        || t == 0xFF
}

/// Cartridge types that carry a battery.
pub open spec fn type_has_battery(t: u8) -> bool {
    t == 0x03 || t == 0x06 || t == 0x09 || t == 0x0D || t == 0x0F || t == 0x10 || t == 0x13
        || t == 0x1B || t == 0x1E || t == 0x22 || t == 0xFF
}

/// Cartridge types that carry a real-time clock.
pub open spec fn type_has_timer(t: u8) -> bool {
    t == 0x0F || t == 0x10
}

/// The number of 8 KiB RAM banks named by a RAM size code, if the code is known.
pub open spec fn ram_banks_for_code(c: u8) -> Option<u8> {
    if c == 0x00 || c == 0x01 {
        Some(0u8)
    } else if c == 0x02 {
        Some(1u8)
    } else if c == 0x03 {
        Some(4u8)
    } else if c == 0x04 {
        Some(16u8)
    } else if c == 0x05 {
        Some(8u8)
    } else {
        None
    }
}

/// The number of 16 KiB ROM banks named by a ROM size code, if the code is known:
/// `2 << code` for the codes up to 8 (32 KiB to 8 MiB), and three odd sizes.
pub open spec fn rom_banks_for_code(c: u8) -> Option<u16> {
    if c <= 0x08 {
        Some((2 * pow2(c as nat)) as u16)
    } else if c == 0x52 {
        Some(72u16)
    } else if c == 0x53 {
        Some(80u16)
    } else if c == 0x54 {
        Some(96u16)
    } else {
        None
    }
}

/// The header of `data` is readable and names a known cartridge type, RAM size
/// and ROM size.
pub open spec fn header_known(data: Seq<u8>) -> bool {
    &&& data.len() > DESTINATION_CODE_ADDRESS
    &&& mbc_for_type(data[CARTRIDGE_TYPE_ADDRESS as int]) is Some
    &&& ram_banks_for_code(data[RAM_SIZE_ADDRESS as int]) is Some
    &&& rom_banks_for_code(data[ROM_SIZE_ADDRESS as int]) is Some
}

/// The controller named by a cartridge type byte, if the type is known.
pub fn mbc_of_type(rom_type: u8) -> (r: Option<MBC>)
    ensures
        r == mbc_for_type(rom_type),
{
    match rom_type {
        0x00 => Some(MBC::NoMBC),
        0x01 => Some(MBC::MBC1),
        0x02 => Some(MBC::MBC1),
        0x03 => Some(MBC::MBC1),
        0x05 => Some(MBC::MBC2),
        0x06 => Some(MBC::MBC2),
        0x08 => Some(MBC::NoMBC),
        0x09 => Some(MBC::NoMBC),
        0x0B => Some(MBC::MMM01),
        0x0C => Some(MBC::MMM01),
        0x0F => Some(MBC::MBC3),
        0x10 => Some(MBC::MBC3),
        0x11 => Some(MBC::MBC3),
        0x12 => Some(MBC::MBC3),
        0x13 => Some(MBC::MBC3),
        0x19 => Some(MBC::MBC5),
        0x1A => Some(MBC::MBC5),
        0x1B => Some(MBC::MBC5),
        0x1C => Some(MBC::MBC5),
        0x1D => Some(MBC::MBC5),
        0x1E => Some(MBC::MBC5),
        0x20 => Some(MBC::MBC6),
        0x22 => Some(MBC::MBC7),
        0xFC => Some(MBC::PocketCamera),
        0xFD => Some(MBC::BandaiTIMA5),
        0xFE => Some(MBC::HuC3),
        0xFF => Some(MBC::HuC1),
        _ => None,
    }
}

/// The number of RAM banks named by a RAM size code, if the code is known.
pub fn ram_banks_of_code(code: u8) -> (r: Option<u8>)
    ensures
        r == ram_banks_for_code(code),
{
    match code {
        0x00 | 0x01 => Some(0),
        0x02 => Some(1),
        0x03 => Some(4),
        0x04 => Some(16),
        0x05 => Some(8),
        _ => None,
    }
}

/// The number of ROM banks named by a ROM size code, if the code is known.
pub fn rom_banks_of_code(code: u8) -> (r: Option<u16>)
    ensures
        r == rom_banks_for_code(code),
{
    proof {
        lemma2_to64();
    }
    match code {
        0x00 => Some(2),
        0x01 => Some(4),
        0x02 => Some(8),
        0x03 => Some(16),
        0x04 => Some(32),
        0x05 => Some(64),
        0x06 => Some(128),
        0x07 => Some(256),
        0x08 => Some(512),
        0x52 => Some(72),
        0x53 => Some(80),
        0x54 => Some(96),
        _ => None,
    }
}

/// Whether the header of `bytes` is readable and names a known cartridge
/// type, RAM size and ROM size.
pub fn header_is_known(bytes: &[u8]) -> (r: bool)
    ensures
        r == header_known(bytes@),
{
    bytes.len() > DESTINATION_CODE_ADDRESS as usize
        && mbc_of_type(bytes[CARTRIDGE_TYPE_ADDRESS as usize]).is_some()
        && ram_banks_of_code(bytes[RAM_SIZE_ADDRESS as usize]).is_some()
        && rom_banks_of_code(bytes[ROM_SIZE_ADDRESS as usize]).is_some()
}

impl ROMInfo {
    /// `self` is what the header of `data` describes.
    pub open spec fn describes(self, data: Seq<u8>) -> bool {
        let t = data[CARTRIDGE_TYPE_ADDRESS as int];
        &&& Some(self.mbc) == mbc_for_type(t)
        &&& self.region == (if data[DESTINATION_CODE_ADDRESS as int] == 0x00 {
            Region::Japanese
        } else {
            Region::NonJapanese
        })
        &&& self.publisher@ == Seq::<char>::empty()
        &&& self.title@ == Seq::<char>::empty()
        &&& self.cgb_only == (data[CGB_FLAG_ADDRESS as int] == 0xC0)
        &&& self.sgb_features == (data[SGB_FLAG_ADDRESS as int] == 0x03)
        &&& self.has_ram == type_has_ram(t)
        &&& self.has_battery == type_has_battery(t)
        &&& self.has_timer == type_has_timer(t)
        &&& Some(self.ram_banks) == ram_banks_for_code(data[RAM_SIZE_ADDRESS as int])
        &&& Some(self.rom_banks) == rom_banks_for_code(data[ROM_SIZE_ADDRESS as int])
    }

    /// Reads the header of a cartridge image.
    ///
    /// The publisher and the title are not read: both are left empty.
    pub fn from_bytes(bytes: &[u8]) -> (r: Self)
        requires
            header_known(bytes@),
        ensures
            r.describes(bytes@),
    {
        let rom_type = bytes[CARTRIDGE_TYPE_ADDRESS as usize];
        let mbc = match mbc_of_type(rom_type) {
            Some(mbc) => mbc,
            None => vstd::pervasive::unreached(),
        };
        let region = match bytes[DESTINATION_CODE_ADDRESS as usize] {
            0x00 => Region::Japanese,
            _ => Region::NonJapanese,
        };
        let has_ram = match rom_type {
            0x02 | 0x03 | 0x08 | 0x09 | 0x0C | 0x0D | 0x10 | 0x12 | 0x13 | 0x1A | 0x1B | 0x1D
            | 0x1E | 0x22 | 0xFF => true,
            _ => false,
        };
        let has_battery = match rom_type {
            0x03 | 0x06 | 0x09 | 0x0D | 0x0F | 0x10 | 0x13 | 0x1B | 0x1E | 0x22 | 0xFF => true,
            _ => false,
        };
        let has_timer = match rom_type {
            0x0F | 0x10 => true,
            _ => false,
        };
        let ram_banks = match ram_banks_of_code(bytes[RAM_SIZE_ADDRESS as usize]) {
            Some(banks) => banks,
            None => vstd::pervasive::unreached(),
        };
        let rom_banks = match rom_banks_of_code(bytes[ROM_SIZE_ADDRESS as usize]) {
            Some(banks) => banks,
            None => vstd::pervasive::unreached(),
        };
        Self {
            mbc,
            region,
            publisher: String::new(),
            title: String::new(),
            cgb_only: bytes[CGB_FLAG_ADDRESS as usize] == 0xC0,
            sgb_features: bytes[SGB_FLAG_ADDRESS as usize] == 0x03,
            has_ram,
            has_battery,
            has_timer,
            ram_banks,
            rom_banks,
        }
    }

    /// The size in bytes of the cartridge's external RAM: 8 KiB per RAM bank.
    pub fn ram_size(&self) -> (r: usize)
        ensures
            r == 0x2000 * self.ram_banks,
    {
        0x2000 * self.ram_banks as usize
    }
}

} // verus!
