//! Game Boy cartridge images: header parsing and the memory bank controllers
//! that map the cartridge's ROM and external RAM into the address space.

pub mod bus;
pub mod header;
pub mod rom;
pub mod mbc1;
pub mod mbc2;
pub mod mbc3;
pub mod cartridge;
pub mod laws;
pub mod semantics;
