//! An interpreter core for a CHIP-8 style machine: sixteen 8-bit registers,
//! 4096 bytes of memory, a sixteen-slot call stack and a fetch-decode-execute
//! loop, with every instruction handler proved against a mathematical model.
pub mod semantics;
pub mod cpu;
pub mod laws;
