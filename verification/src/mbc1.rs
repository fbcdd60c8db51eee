//! The MBC1 bank controller.

use vstd::prelude::*;
use crate::bus::{bank_switchable_contains, bank_zero_contains, external_ram_contains, in_bank_switchable, in_bank_zero, in_external_ram};
use crate::header::ROMInfo;
use crate::rom::{ROM, byte_or_open_bus, get_or_open_bus, last_rom_bank, last_rom_bank_of};

verus! {

/// How an MBC1 uses its two-bit bank register.
#[derive(Debug, Copy, Clone, PartialEq, Eq, Structural)]
pub enum BankingMode {
    /// The register only extends the switchable ROM bank number.
    Simple,
    /// The register also selects the RAM bank and remaps ROM bank 0.
    Advanced,
}

/// A cartridge with an MBC1 controller.
pub struct MBC1 {
    data: Vec<u8>,
    info: ROMInfo,
    ram: Vec<u8>,
    rom_bank: u16,
    ram_bank: u8,
    ram_enable: bool,
    banking_mode: BankingMode,
}

/// The state of an [`MBC1`] cartridge.
pub struct MBC1View {
    pub data: Seq<u8>,
    pub info: ROMInfo,
    pub ram: Seq<u8>,
    pub rom_bank: u16,
    pub ram_bank: u8,
    pub ram_enable: bool,
    pub banking_mode: BankingMode,
}

impl View for MBC1 {
    type V = MBC1View;

    closed spec fn view(&self) -> MBC1View {
        MBC1View {
            data: self.data@,
            info: self.info,
            ram: self.ram@,
            rom_bank: self.rom_bank,
            ram_bank: self.ram_bank,
            ram_enable: self.ram_enable,
            banking_mode: self.banking_mode,
        }
    }
}

impl MBC1View {
    /// What holds of every MBC1 the library builds, before and after every
    /// write: the external RAM is empty, RAM is enabled only on a cartridge
    /// with RAM, the RAM bank register holds two bits, the ROM bank register
    /// five, and on a cartridge of at least two banks the selected ROM bank is
    /// one of its banks other than bank 0.
    pub open spec fn wf(self) -> bool {
        &&& self.ram.len() == 0
        &&& self.ram_enable ==> self.info.has_ram
        &&& self.ram_bank <= 3
        &&& self.rom_bank <= 31
        &&& self.info.rom_banks >= 2 ==> 1 <= self.rom_bank <= last_rom_bank(self.info.rom_banks)
    }

    /// The ROM bank selected after `bank` is written to the bank number
    /// register: bank numbers whose low five bits are zero select the next
    /// bank, and banks past the last one select the last one.
    pub open spec fn switched_rom_bank(self, bank: u16) -> u16 {
        let b: u16 = if bank % 32 == 0 {
            (bank + 1) as u16
        } else {
            bank
        };
        if b > last_rom_bank(self.info.rom_banks) {
            last_rom_bank(self.info.rom_banks)
        } else {
            b
        }
    }

    /// Where in the ROM image a read of ROM bank 0 at `address` goes.
    pub open spec fn bank_zero_address(self, address: u16) -> int {
        match self.banking_mode {
            BankingMode::Simple => (address % 0x4000) as int,
            BankingMode::Advanced => (self.ram_bank * 32) * (address % 0x4000),
        }
    }

    /// Where in the ROM image a read of the switchable bank at `address` goes:
    /// the bank number is the RAM bank register above the five low bits of the
    /// ROM bank register.
    pub open spec fn switchable_address(self, address: u16) -> int {
        (self.ram_bank * 32 + self.rom_bank % 32) * 0x4000 + address % 0x4000
    }

    /// Where in the external RAM an access at `address` goes.
    pub open spec fn ram_address(self, address: u16) -> int {
        let bank: int = match self.banking_mode {
            BankingMode::Simple => 0,
            BankingMode::Advanced => self.ram_bank as int,
        };
        bank * 0x800 + (address % 0x2000) as int
    }

    /// Reads are defined on the two ROM regions and on external RAM.
    pub open spec fn readable(self, address: u16) -> bool {
        in_bank_zero(address) || in_bank_switchable(address) || in_external_ram(address)
    }

    /// The byte a read of `address` returns.
    pub open spec fn read_value(self, address: u16) -> u8 {
        if in_bank_zero(address) {
            byte_or_open_bus(self.data, self.bank_zero_address(address))
        } else if in_bank_switchable(address) {
            byte_or_open_bus(self.data, self.switchable_address(address))
        } else if !self.info.has_ram && !self.ram_enable {
            0xFF
        } else {
            byte_or_open_bus(self.ram, self.ram_address(address))
        }
    }

    /// The state after `data` is written to `address`.
    pub open spec fn after_write(self, address: u16, data: u8) -> MBC1View {
        if address <= 0x1FFF {
            if !self.info.has_ram {
                self
            } else {
                MBC1View { ram_enable: data % 16 == 0x0A, ..self }
            }
        } else if 0x2000 <= address <= 0x3FFF {
            MBC1View { rom_bank: self.switched_rom_bank((data % 32) as u16), ..self }
        } else if 0x4000 <= address <= 0x5FFF {
            MBC1View { ram_bank: (data % 4) as u8, ..self }
        } else if 0x6000 <= address <= 0x7FFF {
            MBC1View {
                banking_mode: if data % 2 == 0 {
                    BankingMode::Simple
                } else {
                    BankingMode::Advanced
                },
                ..self
            }
        } else if in_external_ram(address) {
            if !self.ram_enable || !self.info.has_ram {
                self
            } else if 0 <= self.ram_address(address) < self.ram.len() {
                MBC1View { ram: self.ram.update(self.ram_address(address), data), ..self }
            } else {
                self
            }
        } else {
            self
        }
    }
}

impl MBC1 {
    #[verifier::type_invariant]
    spec fn inv(self) -> bool {
        self@.wf()
    }

    /// A freshly inserted MBC1 cartridge: ROM bank 1 selected, RAM disabled,
    /// simple banking.
    ///
    /// The external RAM is created empty (only its capacity is reserved), so
    /// every RAM read gives `0xFF` and no RAM write is kept.
    pub fn new(data: Vec<u8>, info: ROMInfo) -> (r: Self)
        ensures
            r@ == (MBC1View {
                data: data@,
                info: info,
                ram: Seq::empty(),
                rom_bank: 1,
                ram_bank: 0,
                ram_enable: false,
                banking_mode: BankingMode::Simple,
            }),
            r@.wf(),
    {
        let ram = Vec::with_capacity(info.ram_size());
        Self {
            data,
            info,
            ram,
            rom_bank: 1,
            ram_bank: 0,
            ram_enable: false,
            banking_mode: BankingMode::Simple,
        }
    }

    /// What the header of the cartridge says.
    pub fn info(&self) -> (r: &ROMInfo)
        ensures
            *r == self@.info,
    {
        &self.info
    }

    fn switch_rom_bank(&mut self, bank: u16)
        requires
            bank <= 31,
        ensures
            final(self)@ == (MBC1View { rom_bank: old(self)@.switched_rom_bank(bank), ..old(self)@ }),
    {
        proof {
            use_type_invariant(&*self);
        }
        let mut rom_bank = bank;
        if (rom_bank & 0b11111) == 0 {
            assert(bank & 0b11111 == 0 ==> bank % 32 == 0 && bank < 0xFFFF) by (bit_vector);
            rom_bank += 1;
        }
        assert(bank % 32 == 0 ==> bank & 0b11111 == 0) by (bit_vector);
        if rom_bank > last_rom_bank_of(self.info.rom_banks) {
            rom_bank = last_rom_bank_of(self.info.rom_banks);
        }
        self.rom_bank = rom_bank;
    }

    fn get_bank_zero_address(&self, address: u16) -> (r: usize)
        ensures
            r == self@.bank_zero_address(address),
    {
        assert((address & 0x3FFF) == address % 0x4000) by (bit_vector);
        match self.banking_mode {
            BankingMode::Simple => (address & 0x3FFF) as usize,
            BankingMode::Advanced => {
                let rb = self.ram_bank;
                assert(((rb as usize) << 5usize) == rb as usize * 32) by (bit_vector)
                    requires rb <= 255;
                assert(rb as usize * 32 * ((address & 0x3FFF) as usize) <= 255 * 32 * 0x3FFF) by (nonlinear_arith)
                    requires rb <= 255, (address & 0x3FFF) <= 0x3FFF;
                ((self.ram_bank as usize) << 5) * ((address & 0x3FFF) as usize)
            },
        }
    }

    fn get_bank_switchable_address(&self, address: u16) -> (r: usize)
        ensures
            r == self@.switchable_address(address),
    {
        let rb = self.ram_bank;
        let romb = self.rom_bank;
        let rom_bank = ((self.ram_bank as u16) << 5) | (self.rom_bank & 0b11111);
        assert(((rb as u16) << 5u16) | (romb & 0b11111) == rb * 32 + romb % 32) by (bit_vector);
        let bank = rom_bank;
        assert(((bank as usize) << 14usize) | ((address & 0x3FFF) as usize)
            == bank as usize * 0x4000 + address % 0x4000) by (bit_vector)
            requires bank <= 0x1FFF;
        ((rom_bank as usize) << 14) | (address & 0x3FFF) as usize
    }

    fn get_ram_address(&self, address: u16) -> (r: usize)
        ensures
            r == self@.ram_address(address),
    {
        let bank = match self.banking_mode {
            BankingMode::Simple => 0,
            BankingMode::Advanced => self.ram_bank,
        };
        assert(((bank as usize) << 11usize) == bank as usize * 0x800) by (bit_vector)
            requires bank <= 255;
        assert(((address as usize) & 0x1FFF) == address % 0x2000) by (bit_vector);
        ((bank as usize) << 11) + ((address as usize) & 0x1FFF)
    }
}

impl ROM for MBC1 {
    open spec fn readable(&self, address: u16) -> bool {
        self@.readable(address)
    }

    open spec fn read_value(&self, address: u16) -> u8 {
        self@.read_value(address)
    }

    open spec fn written(&self, address: u16, data: u8, after: Self) -> bool {
        after@ == self@.after_write(address, data)
    }

    fn read(&self, address: u16) -> (r: u8)
        ensures
            self@.wf(),
    {
        proof {
            use_type_invariant(self);
        }
        if bank_zero_contains(address) {
            return get_or_open_bus(&self.data, self.get_bank_zero_address(address));
        } else if bank_switchable_contains(address) {
            return get_or_open_bus(&self.data, self.get_bank_switchable_address(address));
        } else if external_ram_contains(address) {
            if !self.info.has_ram && !self.ram_enable {
                return 0xFF;
            }
            return get_or_open_bus(&self.ram, self.get_ram_address(address));
        }
        vstd::pervasive::unreached()
    }

    fn write(&mut self, address: u16, data: u8)
        ensures
            old(self)@.wf(),
            final(self)@.wf(),
    {
        proof {
            use_type_invariant(&*self);
        }
        assert(data & 0x0F == data % 16) by (bit_vector);
        assert(data & 0b00011111 == data % 32) by (bit_vector);
        assert(data & 0b11 == data % 4) by (bit_vector);
        assert(data & 1 == data % 2) by (bit_vector);
        if address <= 0x1FFF {
            if !self.info.has_ram {
                return;
            }
            self.ram_enable = match data & 0x0F {
                0x0A => true,
                _ => false,
            };
            return;
        } else if address >= 0x2000 && address <= 0x3FFF {
            self.switch_rom_bank(data as u16 & 0b00011111);
        } else if address >= 0x4000 && address <= 0x5FFF {
            self.ram_bank = data & 0b11;
        } else if address >= 0x6000 && address <= 0x7FFF {
            self.banking_mode = match (data & 1) == 0 {
                true => BankingMode::Simple,
                false => BankingMode::Advanced,
            }
        } else if external_ram_contains(address) {
            if !self.ram_enable || !self.info.has_ram {
                return;
            }
            let address = self.get_ram_address(address);
            if address < self.ram.len() {
                let mut ram = self.ram.clone();
                assert(ram@ =~= self.ram@);
                ram.set(address, data);
                self.ram = ram;
            }
        }
    }
}

} // verus!
