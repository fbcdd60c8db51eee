//! Properties that hold across the operations of the cartridges.

use vstd::prelude::*;
use crate::bus::{in_bank_switchable, in_bank_zero, in_external_ram};
use crate::cartridge::Cartridge;
use crate::header::{ram_banks_for_code, rom_banks_for_code, ROMInfo};
use crate::mbc1::MBC1View;
use crate::mbc2::MBC2View;
use crate::mbc3::MBC3View;
use crate::rom::{last_rom_bank, ROM};

verus! {

impl Cartridge {
    /// The ROM image the cartridge holds.
    pub open spec fn image(self) -> Seq<u8> {
        match self {
            Cartridge::NoMBC(c) => c@.data,
            Cartridge::MBC1(c) => c@.data,
            Cartridge::MBC2(c) => c@.data,
            Cartridge::MBC3(c) => c@.data,
        }
    }

    /// The header information the cartridge holds.
    pub open spec fn header(self) -> ROMInfo {
        match self {
            Cartridge::NoMBC(c) => c@.info,
            Cartridge::MBC1(c) => c@.info,
            Cartridge::MBC2(c) => c@.info,
            Cartridge::MBC3(c) => c@.info,
        }
    }

    /// The cartridge's external RAM (a cartridge without a controller has none).
    pub open spec fn external_ram(self) -> Seq<u8> {
        match self {
            Cartridge::NoMBC(c) => Seq::empty(),
            Cartridge::MBC1(c) => c@.ram,
            Cartridge::MBC2(c) => c@.ram,
            Cartridge::MBC3(c) => c@.ram,
        }
    }

    /// The switchable ROM bank is one of the cartridge's banks other than
    /// bank 0 (trivially so for a cartridge without a controller).
    pub open spec fn rom_bank_in_range(self) -> bool {
        match self {
            Cartridge::NoMBC(c) => true,
            Cartridge::MBC1(c) => 1 <= c@.rom_bank <= last_rom_bank(c@.info.rom_banks),
            Cartridge::MBC2(c) => 1 <= c@.rom_bank <= last_rom_bank(c@.info.rom_banks),
            Cartridge::MBC3(c) => 1 <= c@.rom_bank <= last_rom_bank(c@.info.rom_banks),
        }
    }
}

/// The cartridge is read-only memory: no write changes the ROM image or the
/// header information, and no write grows or shrinks the external RAM.
pub proof fn write_keeps_rom(c: Cartridge, address: u16, data: u8, after: Cartridge)
    requires
        c.written(address, data, after),
    ensures
        after.image() == c.image(),
        after.header() == c.header(),
        after.external_ram().len() == c.external_ram().len(),
{
}

/// Writes to addresses outside the cartridge (video RAM at
/// `0x8000..=0x9FFF`, and everything from `0xC000` up) change nothing that
/// any read returns.
pub proof fn writes_outside_cartridge_change_nothing(
    c: Cartridge,
    address: u16,
    data: u8,
    after: Cartridge,
)
    requires
        c.written(address, data, after),
        0x8000 <= address <= 0x9FFF || 0xC000 <= address,
    ensures
        forall|a: u16| #[trigger] after.readable(a) == c.readable(a),
        forall|a: u16| #[trigger] after.read_value(a) == c.read_value(a),
{
}

/// Every header the library reads names at least two ROM banks, so a freshly
/// loaded cartridge has bank 1 selected within its banks.
pub proof fn fresh_cartridge_bank_in_range(c: Cartridge, data: Seq<u8>)
    requires
        c.fresh_from(data),
    ensures
        c.header().rom_banks >= 2,
        c.rom_bank_in_range(),
{
    vstd::arithmetic::power2::lemma2_to64();
}

/// Writes keep the selected ROM bank between 1 and the last bank of the
/// cartridge (for a cartridge of at least two banks): bank 0 is never mapped
/// at `0x4000`, nor a bank the cartridge does not have.
pub proof fn write_keeps_rom_bank_in_range(c: Cartridge, address: u16, data: u8, after: Cartridge)
    requires
        c.written(address, data, after),
        c.header().rom_banks >= 2,
        c.rom_bank_in_range(),
    ensures
        after.rom_bank_in_range(),
{
    if let Cartridge::MBC1(m) = c {
        assert((data % 32) as u16 % 32 == data % 32);
    }
}

/// A cartridge whose external RAM is empty reads `0xFF` throughout the
/// external RAM region (with a controller that maps it there).
pub proof fn empty_ram_reads_open_bus(c: Cartridge, address: u16)
    requires
        c.external_ram().len() == 0,
        !(c is NoMBC),
        in_external_ram(address),
    ensures
        c.readable(address),
        c.read_value(address) == 0xFF,
{
}

/// A cartridge whose image holds every bank its header names can be read at
/// every address its controller maps while its ROM bank is in range (an MBC1
/// maps only the two ROM regions and external RAM; the others map every
/// address).
pub proof fn full_image_is_readable(c: Cartridge, address: u16)
    requires
        c.rom_bank_in_range(),
        c is MBC1 ==> in_bank_zero(address) || in_bank_switchable(address) || in_external_ram(address),
        c.image().len() >= c.header().rom_banks * 0x4000,
    ensures
        c.readable(address),
{
    match c {
        Cartridge::MBC2(m) => {
            let v = m@;
            if in_bank_switchable(address) {
                assert(v.rom_bank * 0x4000 + address % 0x4000 < v.info.rom_banks * 0x4000) by (nonlinear_arith)
                    requires
                        v.rom_bank + 1 <= v.info.rom_banks,
                        address % 0x4000 < 0x4000;
            }
            if in_bank_zero(address) {
                assert(v.info.rom_banks * 0x4000 >= 0x8000) by (nonlinear_arith)
                    requires v.info.rom_banks >= 2;
            }
        },
        Cartridge::MBC3(m) => {
            let v = m@;
            if in_bank_switchable(address) {
                assert(v.rom_bank * 0x4000 + address % 0x4000 < v.info.rom_banks * 0x4000) by (nonlinear_arith)
                    requires
                        v.rom_bank + 1 <= v.info.rom_banks,
                        address % 0x4000 < 0x4000;
            }
            if in_bank_zero(address) {
                assert(v.info.rom_banks * 0x4000 >= 0x8000) by (nonlinear_arith)
                    requires v.info.rom_banks >= 2;
            }
        },
        _ => {},
    }
}

/// Every write keeps an MBC1 well formed (see [`MBC1View::wf`]): so from
/// `MBC1::new` on, through any sequence of writes, the ROM bank stays within
/// `1..=31` and the cartridge's banks, the RAM bank within `0..=3`, RAM is
/// never enabled on a cartridge without RAM, and the RAM stays empty.
pub proof fn mbc1_write_keeps_wf(v: MBC1View, address: u16, data: u8)
    requires
        v.wf(),
    ensures
        v.after_write(address, data).wf(),
{
    assert((data % 32) as u16 % 32 == data % 32);
}

/// A well-formed MBC1 reads `0xFF` throughout external RAM; in particular
/// where the RAM is absent or not enabled.
pub proof fn mbc1_ram_reads_open_bus(v: MBC1View, address: u16)
    requires
        v.wf(),
        in_external_ram(address),
    ensures
        v.read_value(address) == 0xFF,
{
}

/// On an MBC1 with its RAM enabled, a byte written into external RAM that the
/// cartridge holds is read back unchanged.
pub proof fn mbc1_ram_read_after_write(v: MBC1View, address: u16, data: u8)
    requires
        v.info.has_ram,
        v.ram_enable,
        in_external_ram(address),
        0 <= v.ram_address(address) < v.ram.len(),
    ensures
        v.after_write(address, data).read_value(address) == data,
{
}

/// Writes never change the external RAM of an MBC2 or an MBC3, and never
/// change what they read in ROM bank 0.
pub proof fn mbc2_mbc3_writes_keep_ram_and_bank_zero(
    v2: MBC2View,
    v3: MBC3View,
    address: u16,
    data: u8,
    read_address: u16,
)
    requires
        in_bank_zero(read_address),
    ensures
        v2.after_write(address, data).ram == v2.ram,
        v3.after_write(address, data).ram == v3.ram,
        v2.after_write(address, data).read_value(read_address) == v2.read_value(read_address),
        v3.after_write(address, data).read_value(read_address) == v3.read_value(read_address),
{
}

} // verus!
