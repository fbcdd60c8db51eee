//! What each operation computes, stated directly over its inputs: the header
//! checksum, the header's size codes, and the bank registers and bank windows
//! of the controllers.

use vstd::prelude::*;
use crate::header::{
    header_byte_sum, header_checksum_valid, ROMInfo, CARTRIDGE_TYPE_ADDRESS, CGB_FLAG_ADDRESS,
    DESTINATION_CODE_ADDRESS, MBC, RAM_SIZE_ADDRESS, Region, ROM_SIZE_ADDRESS, SGB_FLAG_ADDRESS,
};
use crate::mbc1::{BankingMode, MBC1View};
use crate::mbc2::MBC2View;
use crate::mbc3::MBC3View;

verus! {

// ----------------------------------------------------------------------------
// The header checksum

proof fn lemma_sum_update(data: Seq<u8>, i: int, x: u8, end: int)
    requires
        0 <= i < data.len(),
        end <= data.len(),
    ensures
        header_byte_sum(data.update(i, x), end) == header_byte_sum(data, end) + (if 0x134 <= i
            < end {
            x - data[i]
        } else {
            0
        }),
    decreases end - 0x134,
{
    if end > 0x134 {
        lemma_sum_update(data, i, x, end - 1);
    }
}

proof fn lemma_sum_zero(data: Seq<u8>, end: int)
    requires
        end <= data.len(),
        forall|k: int| 0x134 <= k < end ==> data[k] == 0,
    ensures
        header_byte_sum(data, end) == 0,
    decreases end - 0x134,
{
    if end > 0x134 {
        lemma_sum_zero(data, end - 1);
    }
}

/// An image whose header bytes `0x134..=0x14C` are all zero passes the check
/// exactly when its checksum byte is `0xE7` (that is, `-25` modulo 256).
pub proof fn checksum_of_blank_header(data: Seq<u8>)
    requires
        data.len() > 0x14D,
        forall|k: int| 0x134 <= k <= 0x14C ==> data[k] == 0,
    ensures
        header_checksum_valid(data) <==> data[0x14D] == 0xE7,
{
    lemma_sum_zero(data, 0x14D);
}

/// Every one of the bytes `0x134..=0x14C` counts: changing any single one of
/// them in an image that passes the check makes it fail.
pub proof fn checksum_detects_any_header_byte_change(data: Seq<u8>, i: int, x: u8)
    requires
        header_checksum_valid(data),
        0x134 <= i <= 0x14C,
    ensures
        header_checksum_valid(data.update(i, x)) <==> x == data[i],
{
    lemma_sum_update(data, i, x, 0x14D);
    let s = header_byte_sum(data, 0x14D);
    let d = x - data[i];
    assert(-256 < d < 256);
    assert((0 - (s + d) - 25) % 256 == (0 - s - 25) % 256 <==> d == 0) by {
        vstd::arithmetic::div_mod::lemma_fundamental_div_mod(0 - (s + d) - 25, 256);
        vstd::arithmetic::div_mod::lemma_fundamental_div_mod(0 - s - 25, 256);
    }
}

/// Raising a header byte by `k` (modulo 256) and lowering the checksum byte by
/// the same `k` keeps an image passing: each header byte counts once, with
/// weight one, against the checksum byte.
pub proof fn checksum_balances_header_byte(data: Seq<u8>, i: int, x: u8)
    requires
        header_checksum_valid(data),
        0x134 <= i <= 0x14C,
    ensures
        header_checksum_valid(
            data.update(i, x).update(0x14D, ((data[0x14D] + data[i] - x) % 256) as u8),
        ),
{
    let d1 = data.update(i, x);
    lemma_sum_update(data, i, x, 0x14D);
    let d2 = d1.update(0x14D, ((data[0x14D] + data[i] - x) % 256) as u8);
    lemma_sum_update(d1, 0x14D, ((data[0x14D] + data[i] - x) % 256) as u8, 0x14D);
    let s = header_byte_sum(data, 0x14D);
    let c = data[0x14D] as int;
    let y = data[i] as int;
    assert(c == (0 - s - 25) % 256);
    assert(((c + y - x) % 256) == (0 - (s + x - y) - 25) % 256) by {
        vstd::arithmetic::div_mod::lemma_fundamental_div_mod(c + y - x, 256);
        vstd::arithmetic::div_mod::lemma_fundamental_div_mod(0 - (s + x - y) - 25, 256);
        vstd::arithmetic::div_mod::lemma_fundamental_div_mod(0 - s - 25, 256);
    }
}

/// Bytes outside the header (`0x134..=0x14C`) and the checksum byte do not
/// take part in the check.
pub proof fn checksum_ignores_other_bytes(data: Seq<u8>, j: int, x: u8)
    requires
        data.len() > 0x14D,
        0 <= j < data.len(),
        j < 0x134 || j > 0x14D,
    ensures
        header_checksum_valid(data.update(j, x)) == header_checksum_valid(data),
{
    lemma_sum_update(data, j, x, 0x14D);
}

// ----------------------------------------------------------------------------
// The header's size codes

/// The RAM size code names the external RAM in bytes: no RAM for codes 0 and
/// 1, then 8 KiB, 32 KiB, 128 KiB and 64 KiB for codes 2 to 5.
pub proof fn ram_size_code_bytes(info: ROMInfo, data: Seq<u8>)
    requires
        info.describes(data),
    ensures
        ({
            let code = data[RAM_SIZE_ADDRESS as int];
            0x2000 * info.ram_banks == if code <= 1 {
                0
            } else if code == 2 {
                8 * 1024
            } else if code == 3 {
                32 * 1024
            } else if code == 4 {
                128 * 1024
            } else {
                64 * 1024
            }
        }),
{
}

/// The ROM size code names the ROM in bytes: 32 KiB for code 0, doubled once
/// per step of the code up to 8 MiB for code 8, and 1.125, 1.25 and 1.5 MiB
/// for `0x52..=0x54`.
pub proof fn rom_size_code_bytes(info: ROMInfo, data: Seq<u8>)
    requires
        info.describes(data),
    ensures
        ({
            let code = data[ROM_SIZE_ADDRESS as int];
            0x4000 * info.rom_banks == if code == 0 {
                32 * 1024
            } else if code == 1 {
                64 * 1024
            } else if code == 2 {
                128 * 1024
            } else if code == 3 {
                256 * 1024
            } else if code == 4 {
                512 * 1024
            } else if code == 5 {
                1024 * 1024
            } else if code == 6 {
                2048 * 1024
            } else if code == 7 {
                4096 * 1024
            } else if code == 8 {
                8192 * 1024
            } else if code == 0x52 {
                1152 * 1024
            } else if code == 0x53 {
                1280 * 1024
            } else {
                1536 * 1024
            }
        }),
{
    vstd::arithmetic::power2::lemma2_to64();
}

/// The cartridge type byte names the controllers this library builds exactly
/// as follows: no controller for `0x00`, `0x08` and `0x09`, MBC1 for
/// `0x01..=0x03`, MBC2 for `0x05` and `0x06`, MBC3 for `0x0F..=0x13`; only
/// types `0x0F` and `0x10` have a clock.
pub proof fn cartridge_type_controllers(info: ROMInfo, data: Seq<u8>)
    requires
        info.describes(data),
    ensures
        ({
            let t = data[CARTRIDGE_TYPE_ADDRESS as int];
            &&& info.mbc == MBC::NoMBC <==> (t == 0x00 || t == 0x08 || t == 0x09)
            &&& info.mbc == MBC::MBC1 <==> (0x01 <= t <= 0x03)
            &&& info.mbc == MBC::MBC2 <==> (t == 0x05 || t == 0x06)
            &&& info.mbc == MBC::MBC3 <==> (0x0F <= t <= 0x13)
            &&& info.has_timer <==> (t == 0x0F || t == 0x10)
        }),
{
}

/// The flags: a CGB flag of `0xC0` marks a Game Boy Color only cartridge, an
/// SGB flag of `0x03` one with Super Game Boy functions, and destination code
/// 0 a Japanese one.
pub proof fn header_flags(info: ROMInfo, data: Seq<u8>)
    requires
        info.describes(data),
    ensures
        info.cgb_only <==> data[CGB_FLAG_ADDRESS as int] == 0xC0,
        info.sgb_features <==> data[SGB_FLAG_ADDRESS as int] == 0x03,
        info.region == Region::Japanese <==> data[DESTINATION_CODE_ADDRESS as int] == 0,
{
}

// ----------------------------------------------------------------------------
// MBC1

/// An MBC1 in simple banking mode reads ROM bank 0 straight from the start of
/// the image.
pub proof fn mbc1_bank_zero_window(v: MBC1View, a: u16)
    requires
        a <= 0x3FFF,
        v.banking_mode == BankingMode::Simple,
    ensures
        v.read_value(a) == if (a as int) < v.data.len() {
            v.data[a as int]
        } else {
            0xFF
        },
{
}

/// An MBC1 in advanced banking mode reads address `a` of ROM bank 0 from
/// image offset `32 * ram_bank * a`.
pub proof fn mbc1_advanced_bank_zero_window(v: MBC1View, a: u16)
    requires
        a <= 0x3FFF,
        v.banking_mode == BankingMode::Advanced,
    ensures
        ({
            let index = 32 * v.ram_bank * a;
            v.read_value(a) == if index < v.data.len() {
                v.data[index]
            } else {
                0xFF
            }
        }),
{
    assert((v.ram_bank * 32) * (a % 0x4000) == 32 * v.ram_bank * a) by (nonlinear_arith)
        requires a <= 0x3FFF;
}

/// An MBC1 whose RAM is present or enabled reads `0xA000 + k` from RAM offset
/// `k % 0x2000`, moved up by `0x800` per RAM bank in advanced mode.
pub proof fn mbc1_ram_window(v: MBC1View, a: u16)
    requires
        0xA000 <= a <= 0xBFFF,
        v.info.has_ram || v.ram_enable,
    ensures
        ({
            let bank: int = if v.banking_mode == BankingMode::Advanced {
                v.ram_bank as int
            } else {
                0
            };
            let index = bank * 0x800 + (a - 0xA000) % 0x2000;
            v.read_value(a) == if index < v.ram.len() {
                v.ram[index]
            } else {
                0xFF
            }
        }),
{
}

/// The other MBC1 registers: on a cartridge with RAM, `0x0000..=0x1FFF`
/// enables the RAM exactly when the low four bits of the value are `0xA`
/// (without RAM it is ignored); `0x4000..=0x5FFF` takes the two low bits as
/// RAM bank; `0x6000..=0x7FFF` selects advanced banking for odd values.
/// Each changes only its own register.
pub proof fn mbc1_other_registers(v: MBC1View, a: u16, d: u8)
    ensures
        a <= 0x1FFF ==> ({
            let w = v.after_write(a, d);
            &&& w.ram_enable == (if v.info.has_ram { d % 16 == 10 } else { v.ram_enable })
            &&& w == (MBC1View { ram_enable: w.ram_enable, ..v })
        }),
        0x4000 <= a <= 0x5FFF ==> ({
            let w = v.after_write(a, d);
            &&& w.ram_bank == d % 4
            &&& w == (MBC1View { ram_bank: w.ram_bank, ..v })
        }),
        0x6000 <= a <= 0x7FFF ==> ({
            let w = v.after_write(a, d);
            &&& (w.banking_mode == BankingMode::Advanced) == (d % 2 == 1)
            &&& w == (MBC1View { banking_mode: w.banking_mode, ..v })
        }),
{
}

/// An MBC1 reads `0x4000..=0x7FFF` from the bank whose number is the RAM bank
/// register above the five low bits of the ROM bank register, all fourteen
/// low address bits selecting the byte inside that bank (or `0xFF` past the
/// end of the image).
pub proof fn mbc1_switchable_window(v: MBC1View, a: u16)
    requires
        0x4000 <= a <= 0x7FFF,
    ensures
        ({
            let index = (v.ram_bank * 32 + v.rom_bank % 32) * 0x4000 + (a - 0x4000);
            v.read_value(a) == if index < v.data.len() {
                v.data[index]
            } else {
                0xFF
            }
        }),
{
}

/// Writing `d` to `0x2000..=0x3FFF` of an MBC1 selects ROM bank `d % 32`
/// (bank 1 for `d % 32 == 0`), held to the last bank of the cartridge, and
/// changes nothing else.
pub proof fn mbc1_rom_bank_register(v: MBC1View, a: u16, d: u8)
    requires
        0x2000 <= a <= 0x3FFF,
    ensures
        ({
            let w = v.after_write(a, d);
            let last: int = if v.info.rom_banks >= 1 {
                v.info.rom_banks - 1
            } else {
                0
            };
            let wanted: int = if d % 32 == 0 {
                1
            } else {
                (d % 32) as int
            };
            &&& w.rom_bank == if wanted <= last {
                wanted
            } else {
                last
            }
            &&& w == MBC1View { rom_bank: w.rom_bank, ..v }
        }),
{
    assert((d % 32) as u16 % 32 == d % 32);
}

/// After `d` with `1 <= d % 32 <= rom_banks - 1` is written to an MBC1's ROM
/// bank register, with RAM bank 0, `0x4000 + k` reads byte `k` of bank
/// `d % 32`.
pub proof fn mbc1_selected_bank_is_read(v: MBC1View, a: u16, d: u8, k: u16)
    requires
        0x2000 <= a <= 0x3FFF,
        v.ram_bank == 0,
        1 <= d % 32 < v.info.rom_banks,
        k <= 0x3FFF,
        (d % 32) * 0x4000 + k < v.data.len(),
    ensures
        v.after_write(a, d).read_value((0x4000 + k) as u16) == v.data[(d % 32) * 0x4000 + k],
{
    mbc1_rom_bank_register(v, a, d);
    mbc1_switchable_window(v.after_write(a, d), (0x4000 + k) as u16);
}

// ----------------------------------------------------------------------------
// MBC2 and MBC3

/// MBC2 and MBC3 read ROM bank 0 straight from the start of the image.
pub proof fn mbc2_mbc3_bank_zero_window(v2: MBC2View, v3: MBC3View, a: u16)
    requires
        a <= 0x3FFF,
    ensures
        v2.read_value(a) == v2.data[a as int],
        v3.read_value(a) == v3.data[a as int],
{
}

/// The MBC2 RAM enable: writing `d` to an address in `0x4000..=0x7FFF` with
/// bit 8 clear enables the RAM exactly when `d` is `0x0A`, and changes nothing
/// else; writes outside `0x4000..=0x7FFF` change nothing.
pub proof fn mbc2_ram_enable_register(v: MBC2View, a: u16, d: u8)
    ensures
        0x4000 <= a <= 0x7FFF && (a / 256) % 2 == 0 ==> ({
            let w = v.after_write(a, d);
            &&& w.ram_enable == (d == 10)
            &&& w == (MBC2View { ram_enable: w.ram_enable, ..v })
        }),
        !(0x4000 <= a <= 0x7FFF) ==> v.after_write(a, d) == v,
{
}

/// The other MBC3 registers: `0x0A` or `0x00` written to `0x0000..=0x1FFF`
/// enables RAM and clock and other values leave them; a value up to 3 written
/// to `0x4000..=0x5FFF` is the RAM bank and larger values leave it; writes to
/// `0x6000..=0x7FFF` and to external RAM change nothing.
pub proof fn mbc3_other_registers(v: MBC3View, a: u16, d: u8)
    ensures
        a <= 0x1FFF ==> ({
            let w = v.after_write(a, d);
            &&& w.ram_timer_enable == (d == 0 || d == 10 || v.ram_timer_enable)
            &&& w == (MBC3View { ram_timer_enable: w.ram_timer_enable, ..v })
        }),
        0x4000 <= a <= 0x5FFF ==> ({
            let w = v.after_write(a, d);
            &&& w.ram_bank == (if d <= 3 { d } else { v.ram_bank })
            &&& w == (MBC3View { ram_bank: w.ram_bank, ..v })
        }),
        0x6000 <= a <= 0x7FFF || 0xA000 <= a <= 0xBFFF ==> v.after_write(a, d) == v,
{
}

/// An MBC2 reads `0x4000..=0x7FFF` from the selected ROM bank, all fourteen
/// low address bits selecting the byte inside it.
pub proof fn mbc2_switchable_window(v: MBC2View, a: u16)
    requires
        0x4000 <= a <= 0x7FFF,
    ensures
        v.read_value(a) == v.data[v.rom_bank * 0x4000 + (a - 0x4000)],
{
}

/// Writing `d` to an MBC2 address in `0x4000..=0x7FFF` with bit 8 set selects
/// ROM bank `d`, bank 1 for `d == 0`, held to the last bank of the cartridge,
/// and changes nothing else.
pub proof fn mbc2_rom_bank_register(v: MBC2View, a: u16, d: u8)
    requires
        0x4000 <= a <= 0x7FFF,
        (a / 256) % 2 == 1,
    ensures
        ({
            let w = v.after_write(a, d);
            let last: int = if v.info.rom_banks >= 1 {
                v.info.rom_banks - 1
            } else {
                0
            };
            &&& w.rom_bank == if d > last {
                last
            } else if d == 0 {
                1
            } else {
                d as int
            }
            &&& w == MBC2View { rom_bank: w.rom_bank, ..v }
        }),
{
}

/// An MBC3 reads `0x4000..=0x7FFF` from the selected ROM bank, all fourteen
/// low address bits selecting the byte inside it.
pub proof fn mbc3_switchable_window(v: MBC3View, a: u16)
    requires
        0x4000 <= a <= 0x7FFF,
    ensures
        v.read_value(a) == v.data[v.rom_bank * 0x4000 + (a - 0x4000)],
{
}

/// Writing `d` to `0x2000..=0x3FFF` of an MBC3 selects ROM bank `d` (all
/// eight bits), bank 1 for `d == 0`, held to the last bank of the cartridge,
/// and changes nothing else.
pub proof fn mbc3_rom_bank_register(v: MBC3View, a: u16, d: u8)
    requires
        0x2000 <= a <= 0x3FFF,
    ensures
        ({
            let w = v.after_write(a, d);
            let last: int = if v.info.rom_banks >= 1 {
                v.info.rom_banks - 1
            } else {
                0
            };
            &&& w.rom_bank == if d > last {
                last
            } else if d == 0 {
                1
            } else {
                d as int
            }
            &&& w == MBC3View { rom_bank: w.rom_bank, ..v }
        }),
{
}

/// After `d` with `1 <= d <= rom_banks - 1` is written to an MBC3's ROM bank
/// register, `0x4000 + k` reads byte `k` of bank `d`.
pub proof fn mbc3_selected_bank_is_read(v: MBC3View, a: u16, d: u8, k: u16)
    requires
        0x2000 <= a <= 0x3FFF,
        1 <= d < v.info.rom_banks,
        k <= 0x3FFF,
        d * 0x4000 + k < v.data.len(),
    ensures
        v.after_write(a, d).read_value((0x4000 + k) as u16) == v.data[d * 0x4000 + k],
{
    mbc3_rom_bank_register(v, a, d);
}

} // verus!
