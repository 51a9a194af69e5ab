//! Instruction-execution core of a Game Boy emulator: the SM83 register file,
//! its opcode interpreter and the 64 KiB address decoder it runs against.

pub mod gb;
