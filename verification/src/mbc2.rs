//! The MBC2 bank controller.

use vstd::prelude::*;
use crate::bus::{bank_switchable_contains, bank_zero_contains, in_bank_switchable, in_bank_zero, EXTERNAL_RAM_START};
use crate::header::ROMInfo;
use crate::rom::{ROM, byte_or_open_bus, clamped_rom_bank, get_or_open_bus, last_rom_bank_of};

verus! {

/// A cartridge with an MBC2 controller.
pub struct MBC2 {
    data: Vec<u8>,
    info: ROMInfo,
    ram: Vec<u8>,
    rom_bank: u16,
    ram_bank: u8,
    ram_enable: bool,
}

/// The state of an [`MBC2`] cartridge.
pub struct MBC2View {
    pub data: Seq<u8>,
    pub info: ROMInfo,
    pub ram: Seq<u8>,
    pub rom_bank: u16,
    pub ram_bank: u8,
    pub ram_enable: bool,
}

impl View for MBC2 {
    type V = MBC2View;

    closed spec fn view(&self) -> MBC2View {
        MBC2View {
            data: self.data@,
            info: self.info,
            ram: self.ram@,
            rom_bank: self.rom_bank,
            ram_bank: self.ram_bank,
            ram_enable: self.ram_enable,
        }
    }
}

impl MBC2View {
    /// Where in the ROM image a read of the switchable bank at `address` goes.
    pub open spec fn switchable_address(self, address: u16) -> int {
        self.rom_bank * 0x4000 + address % 0x4000
    }

    /// Where in the external RAM an access at `address` (in `0xA000..=0xA1FF`)
    /// goes.
    pub open spec fn ram_address(self, address: u16) -> int {
        address - 0xA000 + 0x2000 * self.ram_bank
    }

    /// The byte a read of the built-in RAM at `address` (in `0xA000..=0xA1FF`)
    /// returns.
    pub open spec fn ram_value(self, address: u16) -> u8 {
        if !self.info.has_ram || !self.ram_enable {
            0xFF
        } else {
            byte_or_open_bus(self.ram, self.ram_address(address))
        }
    }

    /// Reads of the ROM regions are defined where the ROM image holds the byte.
    pub open spec fn readable(self, address: u16) -> bool {
        &&& in_bank_zero(address) ==> address < self.data.len()
        &&& in_bank_switchable(address) ==> 0 <= self.switchable_address(address) < self.data.len()
    }

    /// The byte a read of `address` returns: the 512 bytes of RAM at `0xA000`
    /// repeat up to `0xBFFF`; other addresses read `0xFF`.
    pub open spec fn read_value(self, address: u16) -> u8 {
        if in_bank_zero(address) {
            self.data[address as int]
        } else if in_bank_switchable(address) {
            self.data[self.switchable_address(address)]
        } else if 0xA000 <= address <= 0xA1FF {
            self.ram_value(address)
        } else if 0xA200 <= address <= 0xBFFF {
            self.ram_value((0xA000 + address % 0x200) as u16)
        } else {
            0xFF
        }
    }

    /// The state after `data` is written to `address`: in `0x4000..=0x7FFF`,
    /// addresses with bit 8 clear enable or disable the RAM, the others select
    /// the ROM bank; nothing else changes the state.
    pub open spec fn after_write(self, address: u16, data: u8) -> MBC2View {
        if in_bank_switchable(address) {
            if (address / 256) % 2 == 0 {
                MBC2View { ram_enable: data == 0x0A, ..self }
            } else {
                MBC2View { rom_bank: clamped_rom_bank(data as u16, self.info.rom_banks), ..self }
            }
        } else {
            self
        }
    }
}

impl MBC2 {
    #[verifier::type_invariant]
    spec fn wf(self) -> bool {
        self.ram_bank == 0
    }

    /// A freshly inserted MBC2 cartridge: ROM bank 1 selected, RAM disabled.
    ///
    /// The RAM is created empty (only its capacity is reserved), so every RAM
    /// read gives `0xFF`.
    pub fn new(data: Vec<u8>, info: ROMInfo) -> (r: Self)
        ensures
            r@ == (MBC2View {
                data: data@,
                info: info,
                ram: Seq::empty(),
                rom_bank: 1,
                ram_bank: 0,
                ram_enable: false,
            }),
    {
        let ram = Vec::with_capacity(info.ram_size());
        Self { data, info, ram, rom_bank: 1, ram_bank: 0, ram_enable: false }
    }

    /// What the header of the cartridge says.
    pub fn info(&self) -> (r: &ROMInfo)
        ensures
            *r == self@.info,
    {
        &self.info
    }

    fn switch_rom_bank(&mut self, bank: u16)
        ensures
            final(self)@ == (MBC2View {
                rom_bank: clamped_rom_bank(bank, old(self)@.info.rom_banks),
                ..old(self)@
            }),
    {
        proof {
            use_type_invariant(&*self);
        }
        self.rom_bank = bank;
        if self.rom_bank > last_rom_bank_of(self.info.rom_banks) {
            self.rom_bank = last_rom_bank_of(self.info.rom_banks);
        } else if self.rom_bank == 0 {
            self.rom_bank = 1;
        }
    }

    fn read_ram(&self, address: u16) -> (r: u8)
        requires
            0xA000 <= address <= 0xA1FF,
        ensures
            r == self@.ram_value(address),
    {
        proof {
            use_type_invariant(self);
        }
        if !self.info.has_ram || !self.ram_enable {
            return 0xFF;
        }
        get_or_open_bus(
            &self.ram,
            (address - EXTERNAL_RAM_START + (0x2000 * self.ram_bank as u16)) as usize,
        )
    }
}

impl ROM for MBC2 {
    open spec fn readable(&self, address: u16) -> bool {
        self@.readable(address)
    }

    open spec fn read_value(&self, address: u16) -> u8 {
        self@.read_value(address)
    }

    open spec fn written(&self, address: u16, data: u8, after: Self) -> bool {
        after@ == self@.after_write(address, data)
    }

    fn read(&self, address: u16) -> (r: u8) {
        if bank_zero_contains(address) {
            return self.data[address as usize];
        } else if bank_switchable_contains(address) {
            assert((address as usize & 0x3FFF) == address % 0x4000) by (bit_vector);
            return self.data[((self.rom_bank as usize * 0x4000) + (address as usize & 0x3FFF)) as usize];
        } else if address >= 0xA000 && address <= 0xA1FF {
            return self.read_ram(address);
        } else if address >= 0xA200 && address <= 0xBFFF {
            return self.read_ram(0xA000 + (address % 0x0200));
        }
        return 0xFF;
    }

    fn write(&mut self, address: u16, data: u8) {
        proof {
            use_type_invariant(&*self);
        }
        if bank_switchable_contains(address) {
            let high = #[verifier::truncate] ((address >> 8) as u8);
            assert(((address >> 8u16) as u8) & 1 == 0 <==> (address / 256) % 2 == 0) by (bit_vector);
            if high & 1 == 0 {
                match data {
                    0x0A => self.ram_enable = true,
                    _ => self.ram_enable = false,
                }
            } else {
                self.switch_rom_bank(data as u16);
            }
        }
    }
}

} // verus!
