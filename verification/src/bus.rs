//! The address regions of the Game Boy memory map that a cartridge answers to.

use vstd::prelude::*;

verus! {

/// First address of ROM bank 0 (`0x0000..=0x3FFF`).
pub const BANK_ZERO_START: u16 = 0x0000;
/// Last address of ROM bank 0.
pub const BANK_ZERO_END: u16 = 0x3FFF;
/// First address of the switchable ROM bank (`0x4000..=0x7FFF`).
pub const BANK_SWITCHABLE_START: u16 = 0x4000;
/// Last address of the switchable ROM bank.
pub const BANK_SWITCHABLE_END: u16 = 0x7FFF;
/// First address of the cartridge's external RAM (`0xA000..=0xBFFF`).
pub const EXTERNAL_RAM_START: u16 = 0xA000;
/// Last address of the cartridge's external RAM.
pub const EXTERNAL_RAM_END: u16 = 0xBFFF;

/// `address` lies in ROM bank 0.
pub open spec fn in_bank_zero(address: u16) -> bool {
    BANK_ZERO_START <= address <= BANK_ZERO_END
}

/// `address` lies in the switchable ROM bank.
pub open spec fn in_bank_switchable(address: u16) -> bool {
    BANK_SWITCHABLE_START <= address <= BANK_SWITCHABLE_END
}

/// `address` lies in the cartridge's external RAM.
pub open spec fn in_external_ram(address: u16) -> bool {
    EXTERNAL_RAM_START <= address <= EXTERNAL_RAM_END
}

/// Whether `address` lies in ROM bank 0.
pub fn bank_zero_contains(address: u16) -> (r: bool)
    ensures
        r == in_bank_zero(address),
{
    BANK_ZERO_START <= address && address <= BANK_ZERO_END
}

/// Whether `address` lies in the switchable ROM bank.
pub fn bank_switchable_contains(address: u16) -> (r: bool)
    ensures
        r == in_bank_switchable(address),
{
    BANK_SWITCHABLE_START <= address && address <= BANK_SWITCHABLE_END
}

/// Whether `address` lies in the cartridge's external RAM.
pub fn external_ram_contains(address: u16) -> (r: bool)
    ensures
        r == in_external_ram(address),
{
    EXTERNAL_RAM_START <= address && address <= EXTERNAL_RAM_END
}

} // verus!
