//! A MOS 6502 emulator whose memory, registers, flags, instruction decoding,
//! instruction semantics and disassembler are verified with Verus.
pub mod cpu;
