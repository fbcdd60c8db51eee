# Game Boy cartridges, verified

A library for Game Boy cartridge images, written in Verus: it checks the header
checksum, reads the header, and builds the memory bank controller the header
names (none, MBC1, MBC2 or MBC3). Every controller answers reads and writes on
the bus, and each operation carries a contract over an abstract view of the
controller's state.

- `src/bus.rs`: the address regions a cartridge answers to.
- `src/header.rs`: the header checksum and `ROMInfo::from_bytes`.
- `src/rom.rs`: the `ROM` trait and the cartridge without a controller.
- `src/mbc1.rs`, `src/mbc2.rs`, `src/mbc3.rs`: the bank controllers.
- `src/cartridge.rs`: `load_rom`, from an image to a cartridge.
- `src/laws.rs`: properties that span the operations.
- `app/lib.rs`: loading an image from a file.
