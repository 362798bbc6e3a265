//! Memory subsystem and snapshot protocol of an Intel 8080 emulator: a
//! byte-addressable bus with an optional write-protected ROM range, and a
//! versioned binary format that freezes and restores the machine state.

pub mod bus;
pub mod cpu;
