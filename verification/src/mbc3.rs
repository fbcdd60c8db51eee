//! The MBC3 bank controller.

use vstd::prelude::*;
use crate::bus::{bank_switchable_contains, bank_zero_contains, external_ram_contains, in_bank_switchable, in_bank_zero, in_external_ram, EXTERNAL_RAM_START};
use crate::header::ROMInfo;
use crate::rom::{ROM, byte_or_open_bus, clamped_rom_bank, get_or_open_bus, last_rom_bank_of};

verus! {

/// A cartridge with an MBC3 controller.
pub struct MBC3 {
    data: Vec<u8>,
    info: ROMInfo,
    ram: Vec<u8>,
    rom_bank: u16,
    ram_bank: u8,
    ram_timer_enable: bool,
}

/// The state of an [`MBC3`] cartridge.
pub struct MBC3View {
    pub data: Seq<u8>,
    pub info: ROMInfo,
    pub ram: Seq<u8>,
    pub rom_bank: u16,
    pub ram_bank: u8,
    pub ram_timer_enable: bool,
}

impl View for MBC3 {
    type V = MBC3View;

    closed spec fn view(&self) -> MBC3View {
        MBC3View {
            data: self.data@,
            info: self.info,
            ram: self.ram@,
            rom_bank: self.rom_bank,
            ram_bank: self.ram_bank,
            ram_timer_enable: self.ram_timer_enable,
        }
    }
}

impl MBC3View {
    /// Where in the ROM image a read of the switchable bank at `address` goes.
    pub open spec fn switchable_address(self, address: u16) -> int {
        self.rom_bank * 0x4000 + address % 0x4000
    }

    /// Where in the external RAM an access at `address` goes.
    pub open spec fn ram_address(self, address: u16) -> int {
        address - 0xA000 + 0x2000 * self.ram_bank
    }

    /// Reads of the ROM regions are defined where the ROM image holds the byte.
    pub open spec fn readable(self, address: u16) -> bool {
        &&& in_bank_zero(address) ==> address < self.data.len()
        &&& in_bank_switchable(address) ==> 0 <= self.switchable_address(address) < self.data.len()
    }

    /// The byte a read of `address` returns.
    pub open spec fn read_value(self, address: u16) -> u8 {
        if in_bank_zero(address) {
            self.data[address as int]
        } else if in_bank_switchable(address) {
            self.data[self.switchable_address(address)]
        } else if in_external_ram(address) {
            if !self.info.has_ram || !self.ram_timer_enable {
                0xFF
            } else {
                byte_or_open_bus(self.ram, self.ram_address(address))
            }
        } else {
            0xFF
        }
    }

    /// The state after `data` is written to `address`: `0x0A` or `0x00` in
    /// `0x0000..=0x1FFF` enables RAM and clock (any other value leaves them as
    /// they are), `0x2000..=0x3FFF` selects the ROM bank, and a value up to 3 in
    /// `0x4000..=0x5FFF` selects the RAM bank; nothing else changes the state.
    pub open spec fn after_write(self, address: u16, data: u8) -> MBC3View {
        if in_external_ram(address) {
            self
        } else if address <= 0x1FFF {
            if data == 0x0A || data == 0x00 {
                MBC3View { ram_timer_enable: true, ..self }
            } else {
                self
            }
        } else if 0x2000 <= address <= 0x3FFF {
            MBC3View { rom_bank: clamped_rom_bank(data as u16, self.info.rom_banks), ..self }
        } else if 0x4000 <= address <= 0x5FFF && data <= 0x03 {
            MBC3View { ram_bank: data, ..self }
        } else {
            self
        }
    }
}

impl MBC3 {
    #[verifier::type_invariant]
    spec fn wf(self) -> bool {
        self.ram_bank <= 3
    }

    /// A freshly inserted MBC3 cartridge: ROM bank 1 selected, RAM and clock
    /// disabled.
    ///
    /// The external RAM is created empty (only its capacity is reserved), so
    /// every RAM read gives `0xFF`.
    pub fn new(data: Vec<u8>, info: ROMInfo) -> (r: Self)
        ensures
            r@ == (MBC3View {
                data: data@,
                info: info,
                ram: Seq::empty(),
                rom_bank: 1,
                ram_bank: 0,
                ram_timer_enable: false,
            }),
    {
        let ram = Vec::with_capacity(info.ram_size());
        Self { data, info, ram, rom_bank: 1, ram_bank: 0, ram_timer_enable: false }
    }

    /// What the header of the cartridge says.
    pub fn info(&self) -> (r: &ROMInfo)
        ensures
            *r == self@.info,
    {
        &self.info
    }

    fn switch_rom_bank(&mut self, bank: u16)
        ensures
            final(self)@ == (MBC3View {
                rom_bank: clamped_rom_bank(bank, old(self)@.info.rom_banks),
                ..old(self)@
            }),
    {
        proof {
            use_type_invariant(&*self);
        }
        self.rom_bank = bank;
        if self.rom_bank > last_rom_bank_of(self.info.rom_banks) {
            self.rom_bank = last_rom_bank_of(self.info.rom_banks);
        } else if self.rom_bank == 0 {
            self.rom_bank = 1;
        }
    }
}

impl ROM for MBC3 {
    open spec fn readable(&self, address: u16) -> bool {
        self@.readable(address)
    }

    open spec fn read_value(&self, address: u16) -> u8 {
        self@.read_value(address)
    }

    open spec fn written(&self, address: u16, data: u8, after: Self) -> bool {
        after@ == self@.after_write(address, data)
    }

    fn read(&self, address: u16) -> (r: u8) {
        proof {
            use_type_invariant(self);
        }
        if bank_zero_contains(address) {
            return self.data[address as usize];
        } else if bank_switchable_contains(address) {
            assert((address as usize & 0x3FFF) == address % 0x4000) by (bit_vector);
            return self.data[((self.rom_bank as usize * 0x4000) + (address as usize & 0x3FFF)) as usize];
        } else if external_ram_contains(address) {
            if !self.info.has_ram || !self.ram_timer_enable {
                return 0xFF;
            }
            return get_or_open_bus(
                &self.ram,
                (address - EXTERNAL_RAM_START + (0x2000 * self.ram_bank as u16)) as usize,
            );
        }
        return 0xFF;
    }

    fn write(&mut self, address: u16, data: u8) {
        proof {
            use_type_invariant(&*self);
        }
        if address >= 0xA000 && address <= 0xBFFF {
        } else if address <= 0x1FFF {
            match data {
                0x0A => self.ram_timer_enable = true,
                0x00 => self.ram_timer_enable = true,
                _ => {},
            }
        } else if address >= 0x2000 && address <= 0x3FFF {
            self.switch_rom_bank(data as u16);
        } else if address >= 0x4000 && address <= 0x5FFF {
            if data <= 0x03 {
                self.ram_bank = data;
            } else if data >= 0x08 && data <= 0x0C && self.info.has_timer {
            }
        } else if address >= 0x6000 && address <= 0x7FFF {
        }
    }
}

} // verus!
