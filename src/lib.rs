//! A cycle-counting emulator core for the MOS 6502 microprocessor, with every
//! register update, addressing rule and bus access stated as a specification.
pub mod registers;
pub mod bus;
pub mod instruction;
pub mod cpu;
pub mod addressing;
pub mod operations;
pub mod execution;
pub mod disasm;
pub mod ppu;
pub mod laws;
