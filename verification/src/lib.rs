//! An Intel 8080 core: a verified instruction interpreter over a modeled
//! register file, flag register and 64 KiB memory, together with a linear
//! disassembler over the same opcode table.

pub mod flags;
pub mod registers;
pub mod semantics;
pub mod errors;
pub mod emulator;
pub mod laws;
pub mod disassembler;
