//! The processor state carried through a snapshot: the register file, flags
//! byte, program counter, stack pointer, interrupt state, the two execution
//! throttling counters, and the memory bus the processor owns.

use vstd::prelude::*;

use crate::bus::Bus;

pub mod snapshot;

verus! {

/// The accumulator and the six general-purpose 8-bit registers.
pub struct Registers {
    pub a: u8,
    pub b: u8,
    pub c: u8,
    pub d: u8,
    pub e: u8,
    pub h: u8,
    pub l: u8,
}

/// The complete machine state: registers, flags byte (opaque to this core),
/// 16-bit program counter and stack pointer, interrupt pending flag with its
/// data byte, interrupt enable flag, the two 32-bit slice counters, and the
/// memory bus.
pub struct CPU {
    pub reg: Registers,
    pub flags: u8,
    pub pc: u16,
    pub sp: u16,
    pub int: (bool, u8),
    pub inte: bool,
    pub slice_duration: u32,
    pub slice_max_cycles: u32,
    pub bus: Bus,
}

impl CPU {
    /// A machine with every register, flag and counter cleared and a zeroed
    /// bus of `size + 1` bytes without a ROM range.
    pub fn new(size: u16) -> (r: CPU)
        ensures
            r.reg.a == 0u8 && r.reg.b == 0u8 && r.reg.c == 0u8 && r.reg.d == 0u8,
            r.reg.e == 0u8 && r.reg.h == 0u8 && r.reg.l == 0u8,
            r.flags == 0u8,
            r.pc == 0u16 && r.sp == 0u16,
            r.int == (false, 0u8),
            !r.inte,
            r.slice_duration == 0u32 && r.slice_max_cycles == 0u32,
            r.bus.mem().len() == size + 1,
            forall|i: int| 0 <= i < r.bus.mem().len() ==> r.bus.mem()[i] == 0u8,
            r.bus.rom() is None,
    {
        CPU {
            reg: Registers { a: 0, b: 0, c: 0, d: 0, e: 0, h: 0, l: 0 },
            flags: 0,
            pc: 0,
            sp: 0,
            int: (false, 0),
            inte: false,
            slice_duration: 0,
            slice_max_cycles: 0,
            bus: Bus::new(size),
        }
    }
}

} // verus!
