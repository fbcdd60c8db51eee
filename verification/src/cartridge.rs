//! Turning a cartridge image into the cartridge its header describes.

use vstd::prelude::*;
use crate::header::{
    header_checksum, header_checksum_valid, header_is_known, header_known, mbc_for_type,
    ROMInfo, CARTRIDGE_TYPE_ADDRESS, MBC,
};
use crate::mbc1::{BankingMode, MBC1};
use crate::mbc2::MBC2;
use crate::mbc3::MBC3;
use crate::rom::{NoMBC, ROM};

verus! {

/// Why an image could not be loaded.
#[derive(Debug, Copy, Clone, PartialEq, Eq, Structural)]
pub enum LoadError {
    /// The header checksum does not match: the image is probably not a Game
    /// Boy ROM.
    HeaderChecksum,
}

impl LoadError {
    /// The text of the message the error is reported with.
    pub open spec fn message_text(self) -> Seq<char> {
        match self {
            LoadError::HeaderChecksum => "Header checksum failed. Is this a Gameboy ROM?"@,
        }
    }

    /// The message the error is reported with.
    pub fn message(&self) -> (r: &'static str)
        ensures
            r@ == self.message_text(),
    {
        match self {
            LoadError::HeaderChecksum => "Header checksum failed. Is this a Gameboy ROM?",
        }
    }
}

/// A loaded cartridge, with the controller its header names.
pub enum Cartridge {
    NoMBC(NoMBC),
    MBC1(MBC1),
    MBC2(MBC2),
    MBC3(MBC3),
}

/// The controllers that can be loaded.
pub open spec fn mbc_supported(mbc: MBC) -> bool {
    mbc == MBC::NoMBC || mbc == MBC::MBC1 || mbc == MBC::MBC2 || mbc == MBC::MBC3
}

/// What [`load_rom`] needs of an image: it is not exactly `0x14D` bytes long
/// (its checksum byte would be missing), and when its checksum holds, its
/// header is known and names a supported controller.
pub open spec fn loadable(data: Seq<u8>) -> bool {
    &&& data.len() != 0x14D
    &&& header_checksum_valid(data) ==> {
        &&& header_known(data)
        &&& mbc_supported(mbc_for_type(data[CARTRIDGE_TYPE_ADDRESS as int])->0)
    }
}

impl Cartridge {
    /// `self` is the freshly inserted cartridge made from the image `data`:
    /// the controller the header names, holding the image and the header's
    /// information, in its power-on state.
    pub open spec fn fresh_from(self, data: Seq<u8>) -> bool {
        let mbc = mbc_for_type(data[CARTRIDGE_TYPE_ADDRESS as int]);
        match self {
            Cartridge::NoMBC(c) => {
                &&& mbc == Some(MBC::NoMBC)
                &&& c@.data == data
                &&& c@.info.describes(data)
            },
            Cartridge::MBC1(c) => {
                &&& mbc == Some(MBC::MBC1)
                &&& c@.data == data
                &&& c@.info.describes(data)
                &&& c@.ram == Seq::<u8>::empty()
                &&& c@.rom_bank == 1
                &&& c@.ram_bank == 0
                &&& !c@.ram_enable
                &&& c@.banking_mode == BankingMode::Simple
            },
            Cartridge::MBC2(c) => {
                &&& mbc == Some(MBC::MBC2)
                &&& c@.data == data
                &&& c@.info.describes(data)
                &&& c@.ram == Seq::<u8>::empty()
                &&& c@.rom_bank == 1
                &&& c@.ram_bank == 0
                &&& !c@.ram_enable
            },
            Cartridge::MBC3(c) => {
                &&& mbc == Some(MBC::MBC3)
                &&& c@.data == data
                &&& c@.info.describes(data)
                &&& c@.ram == Seq::<u8>::empty()
                &&& c@.rom_bank == 1
                &&& c@.ram_bank == 0
                &&& !c@.ram_timer_enable
            },
        }
    }

    /// What the header of the cartridge says.
    pub fn info(&self) -> (r: &ROMInfo)
        ensures
            *r == match self {
                Cartridge::NoMBC(c) => c@.info,
                Cartridge::MBC1(c) => c@.info,
                Cartridge::MBC2(c) => c@.info,
                Cartridge::MBC3(c) => c@.info,
            },
    {
        match self {
            Cartridge::NoMBC(c) => c.info(),
            Cartridge::MBC1(c) => c.info(),
            Cartridge::MBC2(c) => c.info(),
            Cartridge::MBC3(c) => c.info(),
        }
    }
}

impl ROM for Cartridge {
    open spec fn readable(&self, address: u16) -> bool {
        match self {
            Cartridge::NoMBC(c) => c.readable(address),
            Cartridge::MBC1(c) => c.readable(address),
            Cartridge::MBC2(c) => c.readable(address),
            Cartridge::MBC3(c) => c.readable(address),
        }
    }

    open spec fn read_value(&self, address: u16) -> u8 {
        match self {
            Cartridge::NoMBC(c) => c.read_value(address),
            Cartridge::MBC1(c) => c.read_value(address),
            Cartridge::MBC2(c) => c.read_value(address),
            Cartridge::MBC3(c) => c.read_value(address),
        }
    }

    open spec fn written(&self, address: u16, data: u8, after: Self) -> bool {
        match (self, after) {
            (Cartridge::NoMBC(c), Cartridge::NoMBC(d)) => c.written(address, data, d),
            (Cartridge::MBC1(c), Cartridge::MBC1(d)) => c.written(address, data, d),
            (Cartridge::MBC2(c), Cartridge::MBC2(d)) => c.written(address, data, d),
            (Cartridge::MBC3(c), Cartridge::MBC3(d)) => c.written(address, data, d),
            _ => false,
        }
    }

    fn read(&self, address: u16) -> (r: u8) {
        match self {
            Cartridge::NoMBC(c) => c.read(address),
            Cartridge::MBC1(c) => c.read(address),
            Cartridge::MBC2(c) => c.read(address),
            Cartridge::MBC3(c) => c.read(address),
        }
    }

    fn write(&mut self, address: u16, data: u8) {
        match self {
            Cartridge::NoMBC(c) => c.write(address, data),
            Cartridge::MBC1(c) => c.write(address, data),
            Cartridge::MBC2(c) => c.write(address, data),
            Cartridge::MBC3(c) => c.write(address, data),
        }
    }
}

/// Whether [`load_rom`] can take `data`.
pub fn can_load(data: &Vec<u8>) -> (r: bool)
    ensures
        r == loadable(data@),
{
    if data.len() == 0x14D {
        return false;
    }
    if !header_checksum(data) {
        return true;
    }
    if !header_is_known(data.as_slice()) {
        return false;
    }
    match crate::header::mbc_of_type(data[CARTRIDGE_TYPE_ADDRESS as usize]) {
        Some(MBC::NoMBC) | Some(MBC::MBC1) | Some(MBC::MBC2) | Some(MBC::MBC3) => true,
        _ => false,
    }
}

/// Makes a cartridge of a ROM image: checks the header checksum, reads the
/// header and builds the controller it names.
pub fn load_rom(data: Vec<u8>) -> (r: Result<Cartridge, LoadError>)
    requires
        loadable(data@),
    ensures
        r is Err <==> !header_checksum_valid(data@),
        r matches Err(e) ==> e == LoadError::HeaderChecksum,
        r matches Ok(c) ==> c.fresh_from(data@),
{
    if !header_checksum(&data) {
        return Err(LoadError::HeaderChecksum);
    }
    let info = ROMInfo::from_bytes(data.as_slice());
    Ok(match info.mbc {
        MBC::NoMBC => Cartridge::NoMBC(NoMBC::new(data, info)),
        MBC::MBC1 => Cartridge::MBC1(MBC1::new(data, info)),
        MBC::MBC2 => Cartridge::MBC2(MBC2::new(data, info)),
        MBC::MBC3 => Cartridge::MBC3(MBC3::new(data, info)),
        _ => vstd::pervasive::unreached(),
    })
}

} // verus!
