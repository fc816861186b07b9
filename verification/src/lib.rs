//! A MOS 6502 processor core and the memory map it runs on, as found in a
//! classic 8-bit game console: cartridge images, the simplest bank mapper,
//! the main bus with its mirrored work RAM, and the fetch-decode-execute
//! engine. Every function carries a contract over a mathematical model of
//! the machine, and every contract is proved.

pub mod bits;
pub mod cartridge;
pub mod chip;
pub mod cpu;
pub mod cpu_opcodes;
pub mod emulator;
pub mod laws;
pub mod machine;
pub mod main_bus;
pub mod mapper;
