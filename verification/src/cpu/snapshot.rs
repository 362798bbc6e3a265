//! The snapshot codec: freezes a whole machine into a versioned byte
//! sequence and restores one from it.
//!
//! Layout, version 1, all multi-byte integers big-endian: a 4-byte magic
//! number, the version byte, three reserved bytes, the seven registers, the
//! flags byte, the program counter, the stack pointer, the interrupt state,
//! a reserved byte, the two 32-bit slice counters, twelve reserved bytes,
//! the recorded ROM bounds, and the full memory dump. The state block is
//! 0x30 bytes; the dump fills the rest.

use vstd::prelude::*;

use crate::bus::{mem_after_load, rom_bounds, SnapshotError};
use crate::cpu::CPU;

verus! {

/// The 16-bit value whose big-endian bytes are `hi`, `lo`.
pub open spec fn be16(hi: u8, lo: u8) -> u16 {
    (hi * 256 + lo) as u16
}

/// The high byte of `w` in big-endian order.
pub open spec fn be16_hi(w: u16) -> u8 {
    (w / 256) as u8
}

/// The low byte of `w` in big-endian order.
pub open spec fn be16_lo(w: u16) -> u8 {
    (w % 256) as u8
}

/// The 32-bit value whose big-endian bytes are `b0` through `b3`.
pub open spec fn be32(b0: u8, b1: u8, b2: u8, b3: u8) -> u32 {
    (b0 * 0x1000000 + b1 * 0x10000 + b2 * 0x100 + b3) as u32
}

/// Byte 0 (most significant) of `w` in big-endian order.
pub open spec fn be32_0(w: u32) -> u8 {
    (w / 0x1000000) as u8
}

/// Byte 1 of `w` in big-endian order.
pub open spec fn be32_1(w: u32) -> u8 {
    ((w / 0x10000) % 256) as u8
}

/// Byte 2 of `w` in big-endian order.
pub open spec fn be32_2(w: u32) -> u8 {
    ((w / 0x100) % 256) as u8
}

/// Byte 3 (least significant) of `w` in big-endian order.
pub open spec fn be32_3(w: u32) -> u8 {
    (w % 256) as u8
}

/// True when `s` starts with the snapshot magic number.
pub open spec fn has_magic(s: Seq<u8>) -> bool {
    s.len() >= 4 && s[0] == 0x41u8 && s[1] == 0x4cu8 && s[2] == 0x54u8 && s[3] == 0x52u8
}

/// True when `s` is a snapshot that a machine of memory capacity `cap`
/// accepts: long enough for the fixed state block, the right magic number,
/// version 1, and a memory dump that fits.
pub open spec fn snapshot_admissible(s: Seq<u8>, cap: nat) -> bool {
    &&& s.len() >= 0x30
    &&& has_magic(s)
    &&& s[0x04] == 0x01u8
    &&& s.len() - 0x30 <= cap
}

/// True when `s` is exactly the version-1 snapshot of the machine `c`.
pub open spec fn encodes(c: CPU, s: Seq<u8>) -> bool {
    &&& s.len() == 0x30 + c.bus.mem().len()
    &&& has_magic(s)
    &&& s[0x04] == 0x01u8
    &&& s[0x05] == 0u8 && s[0x06] == 0u8 && s[0x07] == 0u8
    &&& s[0x08] == c.reg.a
    &&& s[0x09] == c.reg.b
    &&& s[0x0A] == c.reg.c
    &&& s[0x0B] == c.reg.d
    &&& s[0x0C] == c.reg.e
    &&& s[0x0D] == c.reg.h
    &&& s[0x0E] == c.reg.l
    &&& s[0x0F] == c.flags
    &&& s[0x10] == be16_hi(c.pc) && s[0x11] == be16_lo(c.pc)
    &&& s[0x12] == be16_hi(c.sp) && s[0x13] == be16_lo(c.sp)
    &&& s[0x14] == (if c.int.0 { 1u8 } else { 0u8 })
    &&& s[0x15] == c.int.1
    &&& s[0x16] == (if c.inte { 1u8 } else { 0u8 })
    &&& s[0x17] == 0u8
    &&& s[0x18] == be32_0(c.slice_duration) && s[0x19] == be32_1(c.slice_duration)
    &&& s[0x1A] == be32_2(c.slice_duration) && s[0x1B] == be32_3(c.slice_duration)
    &&& s[0x1C] == be32_0(c.slice_max_cycles) && s[0x1D] == be32_1(c.slice_max_cycles)
    &&& s[0x1E] == be32_2(c.slice_max_cycles) && s[0x1F] == be32_3(c.slice_max_cycles)
    &&& forall|i: int| 0x20 <= i < 0x2C ==> s[i] == 0u8
    &&& s[0x2C] == be16_hi(rom_bounds(c.bus.rom()).0)
    &&& s[0x2D] == be16_lo(rom_bounds(c.bus.rom()).0)
    &&& s[0x2E] == be16_hi(rom_bounds(c.bus.rom()).1)
    &&& s[0x2F] == be16_lo(rom_bounds(c.bus.rom()).1)
    &&& s.subrange(0x30, s.len() as int) == c.bus.mem()
}

/// True when the machine `c` is what importing the snapshot `s` into the
/// machine `prev` produces: every state field decoded from its fixed offset,
/// the memory dump copied over the low addresses of the old memory, and the
/// ROM range left as it was (import does not reinstate the recorded bounds).
pub open spec fn restored(c: CPU, prev: CPU, s: Seq<u8>) -> bool {
    &&& c.reg.a == s[0x08]
    &&& c.reg.b == s[0x09]
    &&& c.reg.c == s[0x0A]
    &&& c.reg.d == s[0x0B]
    &&& c.reg.e == s[0x0C]
    &&& c.reg.h == s[0x0D]
    &&& c.reg.l == s[0x0E]
    &&& c.flags == s[0x0F]
    &&& c.pc == be16(s[0x10], s[0x11])
    &&& c.sp == be16(s[0x12], s[0x13])
    &&& c.int == ((s[0x14] != 0u8), s[0x15])
    &&& c.inte == (s[0x16] != 0u8)
    &&& c.slice_duration == be32(s[0x18], s[0x19], s[0x1A], s[0x1B])
    &&& c.slice_max_cycles == be32(s[0x1C], s[0x1D], s[0x1E], s[0x1F])
    &&& c.bus.mem() == mem_after_load(prev.bus.mem(), s.subrange(0x30, s.len() as int), 0u16)
    &&& c.bus.rom() == prev.bus.rom()
}

impl CPU {
    /// Freezes the machine into a version-1 snapshot: the fixed state block
    /// followed by the full memory dump. Always succeeds and changes nothing.
    pub fn export_snapshot(&mut self) -> (r: Vec<u8>)
        ensures
            encodes(*old(self), r@),
            *final(self) == *old(self),
    {
        let mut s: Vec<u8> = Vec::new();

        // Magic number
        s.push(0x41);
        s.push(0x4c);
        s.push(0x54);
        s.push(0x52);

        // Snapshot format version + 3 reserved bytes
        s.push(0x01);
        s.push(0x00);
        s.push(0x00);
        s.push(0x00);

        // Accumulator + 3 register pairs
        s.push(self.reg.a);
        s.push(self.reg.b);
        s.push(self.reg.c);
        s.push(self.reg.d);
        s.push(self.reg.e);
        s.push(self.reg.h);
        s.push(self.reg.l);

        // Flags
        s.push(self.flags);

        // pc, sp
        s.push((self.pc / 256) as u8);
        s.push((self.pc % 256) as u8);
        s.push((self.sp / 256) as u8);
        s.push((self.sp % 256) as u8);

        // Interrupt state
        s.push(if self.int.0 { 1 } else { 0 });
        s.push(self.int.1);
        s.push(if self.inte { 1 } else { 0 });

        // Reserved byte
        s.push(0x00);

        // slice_duration
        s.push((self.slice_duration / 0x1000000) as u8);
        s.push(((self.slice_duration / 0x10000) % 256) as u8);
        s.push(((self.slice_duration / 0x100) % 256) as u8);
        s.push((self.slice_duration % 256) as u8);

        // slice_max_cycles
        s.push((self.slice_max_cycles / 0x1000000) as u8);
        s.push(((self.slice_max_cycles / 0x10000) % 256) as u8);
        s.push(((self.slice_max_cycles / 0x100) % 256) as u8);
        s.push((self.slice_max_cycles % 256) as u8);

        // 12 reserved bytes
        s.push(0x00);
        s.push(0x00);
        s.push(0x00);
        s.push(0x00);
        s.push(0x00);
        s.push(0x00);
        s.push(0x00);
        s.push(0x00);
        s.push(0x00);
        s.push(0x00);
        s.push(0x00);
        s.push(0x00);

        // ROM start / end
        let rom = self.bus.get_romspace();
        s.push((rom.0 / 256) as u8);
        s.push((rom.0 % 256) as u8);
        s.push((rom.1 / 256) as u8);
        s.push((rom.1 % 256) as u8);

        // Memory dump
        let mem = self.bus.export_address_space();
        let ghost header = s@;
        let mut i: usize = 0;
        while i < mem.len()
            invariant
                i <= mem@.len(),
                s@ == header + mem@.subrange(0, i as int),
            decreases mem@.len() - i,
        {
            s.push(mem[i]);
            i = i + 1;
        }

        proof {
            assert(mem@.subrange(0, mem@.len() as int) =~= mem@);
            assert(s@.subrange(0x30, s@.len() as int) =~= self.bus.mem());
        }
        s
    }

    /// Restores the machine from a snapshot. Nothing is touched until every
    /// check has passed: the sequence must hold the whole fixed state block,
    /// start with the magic number (else `InvalidHeader`), carry version 1
    /// (else `UnsupportedVersion`), and its memory dump must fit in this
    /// machine's address space (else `PayloadTooLarge`). On success every
    /// state field is decoded from its fixed offset and the dump overwrites
    /// the low addresses of memory; the ROM range recorded in the snapshot
    /// is not reinstated — the caller must reapply it from the bounds at
    /// offsets 0x2C..0x30 if write protection is to survive the trip.
    pub fn import_snapshot(&mut self, snapshot: Vec<u8>) -> (r: Result<(), SnapshotError>)
        ensures
            r is Ok <==> snapshot_admissible(snapshot@, old(self).bus.mem().len()),
            r is Ok ==> restored(*final(self), *old(self), snapshot@),
            r is Err ==> *final(self) == *old(self),
            r == Err::<(), SnapshotError>(SnapshotError::InvalidHeader) <==> (snapshot@.len()
                < 0x30 || !has_magic(snapshot@)),
            r == Err::<(), SnapshotError>(SnapshotError::UnsupportedVersion) <==> (snapshot@.len()
                >= 0x30 && has_magic(snapshot@) && snapshot@[0x04] != 0x01u8),
            r == Err::<(), SnapshotError>(SnapshotError::PayloadTooLarge) <==> (snapshot@.len()
                >= 0x30 && has_magic(snapshot@) && snapshot@[0x04] == 0x01u8 && snapshot@.len()
                - 0x30 > old(self).bus.mem().len()),
    {
        if snapshot.len() < 0x30 {
            return Err(SnapshotError::InvalidHeader);
        }
        if !(snapshot[0] == 0x41 && snapshot[1] == 0x4c && snapshot[2] == 0x54 && snapshot[3]
            == 0x52) {
            return Err(SnapshotError::InvalidHeader);
        }
        if snapshot[0x04] != 0x01 {
            return Err(SnapshotError::UnsupportedVersion);
        }

        // Address space: the dump must fit before anything is mutated.
        let mut payload: Vec<u8> = Vec::new();
        let mut i: usize = 0x30;
        while i < snapshot.len()
            invariant
                0x30 <= i <= snapshot@.len(),
                snapshot@.len() <= usize::MAX,
                payload@ == snapshot@.subrange(0x30, i as int),
            decreases snapshot@.len() - i,
        {
            payload.push(snapshot[i]);
            i = i + 1;
        }
        if let Err(e) = self.bus.load_from_vec(payload, 0) {
            return Err(e);
        }

        // CPU registers
        self.reg.a = snapshot[0x08];
        self.reg.b = snapshot[0x09];
        self.reg.c = snapshot[0x0A];
        self.reg.d = snapshot[0x0B];
        self.reg.e = snapshot[0x0C];
        self.reg.h = snapshot[0x0D];
        self.reg.l = snapshot[0x0E];

        // CPU flags
        self.flags = snapshot[0x0F];

        // PC, SP
        self.pc = (snapshot[0x10] as u16) * 256 + (snapshot[0x11] as u16);
        self.sp = (snapshot[0x12] as u16) * 256 + (snapshot[0x13] as u16);

        // Interrupt state
        self.int = (snapshot[0x14] != 0, snapshot[0x15]);
        self.inte = snapshot[0x16] != 0;

        // slice_duration
        self.slice_duration = (snapshot[0x18] as u32) * 0x1000000 + (snapshot[0x19] as u32)
            * 0x10000 + (snapshot[0x1A] as u32) * 0x100 + (snapshot[0x1B] as u32);

        // slice_max_cycles
        self.slice_max_cycles = (snapshot[0x1C] as u32) * 0x1000000 + (snapshot[0x1D] as u32)
            * 0x10000 + (snapshot[0x1E] as u32) * 0x100 + (snapshot[0x1F] as u32);

        Ok(())
    }
}

/// Splitting a 16-bit value into its big-endian bytes and recombining them
/// gives the value back.
pub proof fn lemma_be16_round_trip(w: u16)
    ensures
        be16(be16_hi(w), be16_lo(w)) == w,
{
}

/// Splitting a 32-bit value into its big-endian bytes and recombining them
/// gives the value back.
pub proof fn lemma_be32_round_trip(w: u32)
    ensures
        be32(be32_0(w), be32_1(w), be32_2(w), be32_3(w)) == w,
{
}

/// The snapshot round trip: a snapshot exported from machine `c1`, imported
/// into a machine `prev` of the same memory capacity, is accepted, and the
/// machine `c2` that comes out carries `c1`'s registers, flags, program
/// counter, stack pointer, interrupt state, slice counters and memory —
/// but `prev`'s ROM range: write protection does not survive the trip unless
/// the caller reapplies it from the recorded bounds.
pub proof fn lemma_snapshot_round_trip(c1: CPU, prev: CPU, c2: CPU, s: Seq<u8>)
    requires
        encodes(c1, s),
        prev.bus.mem().len() == c1.bus.mem().len(),
        restored(c2, prev, s),
    ensures
        snapshot_admissible(s, prev.bus.mem().len()),
        c2.reg == c1.reg,
        c2.flags == c1.flags,
        c2.pc == c1.pc,
        c2.sp == c1.sp,
        c2.int == c1.int,
        c2.inte == c1.inte,
        c2.slice_duration == c1.slice_duration,
        c2.slice_max_cycles == c1.slice_max_cycles,
        c2.bus.mem() == c1.bus.mem(),
        c2.bus.rom() == prev.bus.rom(),
{
    lemma_be16_round_trip(c1.pc);
    lemma_be16_round_trip(c1.sp);
    lemma_be32_round_trip(c1.slice_duration);
    lemma_be32_round_trip(c1.slice_max_cycles);
    assert(c2.bus.mem() =~= c1.bus.mem());
}

} // verus!
