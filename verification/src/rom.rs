//! What every cartridge offers the bus, and the cartridge without a bank
//! controller.

use vstd::prelude::*;
use crate::header::ROMInfo;

verus! {

/// A cartridge as the bus sees it: a byte can be read from an address and
/// written to one.
pub trait ROM: Sized {
    /// A read of `address` is defined on `self`.
    spec fn readable(&self, address: u16) -> bool;

    /// The byte that a read of `address` returns.
    spec fn read_value(&self, address: u16) -> u8;

    /// `after` is what `self` becomes when `data` is written to `address`.
    spec fn written(&self, address: u16, data: u8, after: Self) -> bool;

    fn read(&self, address: u16) -> (r: u8)
        requires
            self.readable(address),
        ensures
            r == self.read_value(address),
    ;

    fn write(&mut self, address: u16, data: u8)
        ensures
            old(self).written(address, data, *final(self)),
    ;
}

/// The byte at `index` of `bytes`, or `0xFF` past its end: what an open bus
/// line reads.
pub open spec fn byte_or_open_bus(bytes: Seq<u8>, index: int) -> u8 {
    if 0 <= index < bytes.len() {
        bytes[index]
    } else {
        0xFF
    }
}

/// The byte at `index` of `bytes`, or `0xFF` past its end.
pub fn get_or_open_bus(bytes: &Vec<u8>, index: usize) -> (r: u8)
    ensures
        r == byte_or_open_bus(bytes@, index as int),
{
    if index < bytes.len() {
        bytes[index]
    } else {
        0xFF
    }
}

/// The highest ROM bank a cartridge with `rom_banks` banks has
/// (`rom_banks - 1`, or 0 for a cartridge without banks).
pub open spec fn last_rom_bank(rom_banks: u16) -> u16 {
    if rom_banks >= 1 {
        (rom_banks - 1) as u16
    } else {
        0
    }
}

/// `rom_banks.saturating_sub(1)`.
pub fn last_rom_bank_of(rom_banks: u16) -> (r: u16)
    ensures
        r == last_rom_bank(rom_banks),
{
    rom_banks.saturating_sub(1)
}

/// The ROM bank selected by an MBC2 or MBC3 after `bank` is written to its
/// bank number register: banks past the last one select the last one, and
/// bank 0 selects bank 1.
pub open spec fn clamped_rom_bank(bank: u16, rom_banks: u16) -> u16 {
    if bank > last_rom_bank(rom_banks) {
        last_rom_bank(rom_banks)
    } else if bank == 0 {
        1
    } else {
        bank
    }
}

/// A cartridge whose ROM is wired straight to the bus (at most 32 KiB).
pub struct NoMBC {
    data: Vec<u8>,
    info: ROMInfo,
}

/// The state of a [`NoMBC`] cartridge.
pub struct NoMBCView {
    pub data: Seq<u8>,
    pub info: ROMInfo,
}

impl View for NoMBC {
    type V = NoMBCView;

    closed spec fn view(&self) -> NoMBCView {
        NoMBCView { data: self.data@, info: self.info }
    }
}

impl NoMBC {
    pub fn new(data: Vec<u8>, info: ROMInfo) -> (r: Self)
        ensures
            r@ == (NoMBCView { data: data@, info: info }),
    {
        Self { data, info }
    }

    /// What the header of the cartridge says.
    pub fn info(&self) -> (r: &ROMInfo)
        ensures
            *r == self@.info,
    {
        &self.info
    }
}

impl ROM for NoMBC {
    open spec fn readable(&self, address: u16) -> bool {
        true
    }

    open spec fn read_value(&self, address: u16) -> u8 {
        byte_or_open_bus(self@.data, address as int)
    }

    open spec fn written(&self, address: u16, data: u8, after: Self) -> bool {
        after@ == self@
    }

    fn read(&self, address: u16) -> (r: u8) {
        get_or_open_bus(&self.data, address as usize)
    }

    fn write(&mut self, _address: u16, _data: u8) {
    }
}

} // verus!
