//! An interpreter for the Sharp SM83 CPU core and the memory-mapped bus that
//! feeds it, with its behaviour stated as contracts and proved.
pub mod cpu;
pub mod memory;
pub mod utils;
