//! The memory bus: a fixed-size byte array with an optional read-only (ROM)
//! sub-range. Reads past the end return 0; writes past the end or inside the
//! ROM range are silently dropped, so the instruction loop never faults.

use vstd::prelude::*;

verus! {

/// Start and end addresses of the read-only (ROM) area, both inclusive.
struct RomSpace {
    start: u16,
    end: u16,
}

/// Errors raised when bulk data is restored into the bus or a snapshot is
/// decoded.
#[derive(Debug, PartialEq, Eq, Structural, Clone, Copy)]
pub enum SnapshotError {
    /// The snapshot is shorter than its fixed header block, or its magic
    /// number does not match.
    InvalidHeader,
    /// The magic number matches but the version byte is not a version this
    /// codec understands.
    UnsupportedVersion,
    /// The payload would extend past the end of the address space.
    PayloadTooLarge,
}

/// The memory map of the emulated machine: the whole address space plus the
/// optional ROM range in which writes are ignored.
pub struct Bus {
    address_space: Vec<u8>,
    rom_space: Option<RomSpace>,
}

/// True when `addr` lies inside the ROM range `rom` (inclusive bounds).
pub open spec fn in_rom(rom: Option<(u16, u16)>, addr: u16) -> bool {
    match rom {
        Some(r) => r.0 <= addr && addr <= r.1,
        None => false,
    }
}

/// The pair reported for a ROM range: its bounds, or `(0, 0)` when none is
/// set (indistinguishable from an empty range at address 0).
pub open spec fn rom_bounds(rom: Option<(u16, u16)>) -> (u16, u16) {
    match rom {
        Some(r) => r,
        None => (0u16, 0u16),
    }
}

/// The byte visible at offset `a` of `mem`: the stored byte in range, 0 past
/// the end.
pub open spec fn byte_at(mem: Seq<u8>, a: int) -> u8 {
    if 0 <= a < mem.len() {
        mem[a]
    } else {
        0u8
    }
}

/// The 16-bit value read at `addr`: low byte at `addr`, high byte at
/// `addr + 1` (little-endian storage), 0 when `addr` itself is out of range.
pub open spec fn word_at(mem: Seq<u8>, addr: u16) -> u16 {
    if addr < mem.len() {
        (byte_at(mem, addr as int) + byte_at(mem, addr as int + 1) * 256) as u16
    } else {
        0u16
    }
}

/// The byte-swapped reading of the same two bytes: the byte at `addr` as the
/// high half, the byte at `addr + 1` as the low half.
pub open spec fn le_word_at(mem: Seq<u8>, addr: u16) -> u16 {
    if addr < mem.len() {
        (byte_at(mem, addr as int) * 256 + byte_at(mem, addr as int + 1)) as u16
    } else {
        0u16
    }
}

/// Memory after a byte write: unchanged when `addr` is out of range or
/// write-protected, else updated at `addr`.
pub open spec fn mem_after_write_byte(
    mem: Seq<u8>,
    rom: Option<(u16, u16)>,
    addr: u16,
    data: u8,
) -> Seq<u8> {
    if addr >= mem.len() || in_rom(rom, addr) {
        mem
    } else {
        mem.update(addr as int, data)
    }
}

/// Memory after a word write: unchanged when `addr` is out of range or
/// write-protected (the check looks at `addr` only), else the low byte lands
/// at `addr` and the high byte at `addr + 1` where that offset exists.
pub open spec fn mem_after_write_word(
    mem: Seq<u8>,
    rom: Option<(u16, u16)>,
    addr: u16,
    data: u16,
) -> Seq<u8> {
    if addr >= mem.len() || in_rom(rom, addr) {
        mem
    } else {
        let low = mem.update(addr as int, (data % 256) as u8);
        if addr as int + 1 < mem.len() {
            low.update(addr as int + 1, (data / 256) as u8)
        } else {
            low
        }
    }
}

/// Memory after `data` is copied in starting at `org`, the rest untouched.
/// Meaningful when `org + data.len() <= mem.len()`.
pub open spec fn mem_after_load(mem: Seq<u8>, data: Seq<u8>, org: u16) -> Seq<u8> {
    Seq::new(mem.len(), |i: int| if org <= i < org + data.len() { data[i - org] } else { mem[i] })
}

impl Bus {
    /// The bytes of the whole address space.
    pub closed spec fn mem(&self) -> Seq<u8> {
        self.address_space@
    }

    /// The ROM range as recorded, `None` when never set.
    pub closed spec fn rom(&self) -> Option<(u16, u16)> {
        match self.rom_space {
            Some(RomSpace { start, end }) => Some((start, end)),
            None => None,
        }
    }

    /// A bus of `size + 1` zeroed bytes (`size` is the highest addressable
    /// offset) and no ROM range.
    pub fn new(size: u16) -> (r: Bus)
        ensures
            r.mem().len() == size + 1,
            forall|i: int| 0 <= i < r.mem().len() ==> r.mem()[i] == 0u8,
            r.rom() is None,
    {
        Bus { address_space: vec![0u8; (size as usize) + 1], rom_space: None }
    }

    /// Records the inclusive write-protected range, replacing any prior one.
    /// The bounds are not validated: an inverted range protects nothing.
    pub fn set_romspace(&mut self, start: u16, end: u16)
        ensures
            final(self).rom() == Some((start, end)),
            final(self).mem() == old(self).mem(),
    {
        self.rom_space = Some(RomSpace { start, end });
    }

    /// The ROM range bounds, `(0, 0)` when none is set.
    pub fn get_romspace(&self) -> (r: (u16, u16))
        ensures
            r == rom_bounds(self.rom()),
    {
        match &self.rom_space {
            Some(r) => (r.start, r.end),
            None => (0, 0),
        }
    }

    /// Reads a byte from memory; 0 past the end of the address space.
    pub fn read_byte(&self, address: u16) -> (r: u8)
        ensures
            r == byte_at(self.mem(), address as int),
            address >= self.mem().len() ==> r == 0u8,
    {
        if address as usize >= self.address_space.len() {
            return 0;
        }
        self.address_space[address as usize]
    }

    /// Writes a byte to memory; dropped past the end of the address space or
    /// inside the ROM range.
    pub fn write_byte(&mut self, address: u16, data: u8)
        ensures
            final(self).mem() == mem_after_write_byte(
                old(self).mem(),
                old(self).rom(),
                address,
                data,
            ),
            final(self).rom() == old(self).rom(),
    {
        if address as usize >= self.address_space.len() {
            return;
        }
        if let Some(r) = &self.rom_space {
            if address >= r.start && address <= r.end {
                return;
            }
        }
        self.address_space.set(address as usize, data);
    }

    /// Reads a 16-bit word stored little-endian: the byte at `address` is the
    /// low half, the byte at `address + 1` the high half. Returns 0 past the
    /// end; a missing high byte (read at the last offset) reads as 0.
    pub fn read_word(&self, address: u16) -> (r: u16)
        ensures
            r == word_at(self.mem(), address),
            address >= self.mem().len() ==> r == 0u16,
    {
        if address as usize >= self.address_space.len() {
            return 0;
        }
        let lo = self.address_space[address as usize];
        let hi = if (address as usize) + 1 < self.address_space.len() {
            self.address_space[(address as usize) + 1]
        } else {
            0
        };
        (lo as u16) + (hi as u16) * 256
    }

    /// Reads the same two bytes as `read_word` but swapped: the byte at
    /// `address` becomes the high half, the byte at `address + 1` the low
    /// half.
    pub fn read_le_word(&self, address: u16) -> (r: u16)
        ensures
            r == le_word_at(self.mem(), address),
            address >= self.mem().len() ==> r == 0u16,
    {
        if address as usize >= self.address_space.len() {
            return 0;
        }
        let hi = self.address_space[address as usize];
        let lo = if (address as usize) + 1 < self.address_space.len() {
            self.address_space[(address as usize) + 1]
        } else {
            0
        };
        (hi as u16) * 256 + (lo as u16)
    }

    /// Writes a 16-bit word little-endian: low byte at `address`, high byte
    /// at `address + 1`. Dropped entirely when `address` is past the end or
    /// write-protected; the ROM check looks at `address` only, and a high
    /// byte that would land past the end is dropped alone.
    pub fn write_word(&mut self, address: u16, data: u16)
        ensures
            final(self).mem() == mem_after_write_word(
                old(self).mem(),
                old(self).rom(),
                address,
                data,
            ),
            final(self).rom() == old(self).rom(),
    {
        if address as usize >= self.address_space.len() {
            return;
        }
        if let Some(r) = &self.rom_space {
            if address >= r.start && address <= r.end {
                return;
            }
        }
        self.address_space.set(address as usize, (data % 256) as u8);
        if (address as usize) + 1 < self.address_space.len() {
            self.address_space.set((address as usize) + 1, (data / 256) as u8);
        }
    }

    /// A full copy of the address space contents.
    pub fn export_address_space(&self) -> (r: Vec<u8>)
        ensures
            r@ == self.mem(),
    {
        let mut r: Vec<u8> = Vec::new();
        let mut i: usize = 0;
        while i < self.address_space.len()
            invariant
                i <= self.address_space.len(),
                r@ == self.address_space@.subrange(0, i as int),
            decreases self.address_space.len() - i,
        {
            r.push(self.address_space[i]);
            i = i + 1;
        }
        proof {
            assert(r@ =~= self.mem());
        }
        r
    }

    /// Copies `data` into the address space starting at `org`, bypassing any
    /// ROM range. Fails, touching nothing, exactly when the payload would
    /// extend past the end of the address space.
    pub fn load_from_vec(&mut self, data: Vec<u8>, org: u16) -> (r: Result<(), SnapshotError>)
        ensures
            r is Ok <==> org + data@.len() <= old(self).mem().len(),
            r is Ok ==> final(self).mem() == mem_after_load(old(self).mem(), data@, org)
                && final(self).rom() == old(self).rom(),
            r is Err ==> *final(self) == *old(self) && r == Err::<(), SnapshotError>(
                SnapshotError::PayloadTooLarge,
            ),
    {
        if data.len() > self.address_space.len()
            || (org as usize) > self.address_space.len() - data.len() {
            return Err(SnapshotError::PayloadTooLarge);
        }
        let mut i: usize = 0;
        while i < data.len()
            invariant
                i <= data@.len(),
                org + data@.len() <= self.address_space@.len(),
                self.address_space@.len() <= usize::MAX,
                self.address_space@.len() == old(self).mem().len(),
                self.rom_space == old(self).rom_space,
                forall|j: int|
                    0 <= j < self.address_space@.len() ==> self.address_space@[j] == (
                    if org <= j < org + i {
                        data@[j - org]
                    } else {
                        old(self).mem()[j]
                    }),
            decreases data@.len() - i,
        {
            self.address_space.set((org as usize) + i, data[i]);
            i = i + 1;
        }
        proof {
            assert(self.mem() =~= mem_after_load(old(self).mem(), data@, org));
        }
        Ok(())
    }
}

/// Write protection: with the ROM range `[s, e]` installed, a byte write at
/// an in-range address `a` inside `[s, e]` leaves memory unchanged, and one
/// outside `[s, e]` stores its value.
pub proof fn lemma_write_protection(mem: Seq<u8>, s: u16, e: u16, a: u16, v: u8)
    requires
        a < mem.len(),
    ensures
        s <= a <= e ==> mem_after_write_byte(mem, Some((s, e)), a, v) == mem,
        !(s <= a <= e) ==> mem_after_write_byte(mem, Some((s, e)), a, v) == mem.update(a as int, v),
{
}

/// Endianness pairing: after a word write of `v` at an address `a` that is
/// neither write-protected nor the last offset, `read_word` at `a` yields
/// `v` back and `read_le_word` yields the byte-swap of `v`.
pub proof fn lemma_word_round_trip(mem: Seq<u8>, rom: Option<(u16, u16)>, a: u16, v: u16)
    requires
        a as int + 1 < mem.len(),
        !in_rom(rom, a),
    ensures
        word_at(mem_after_write_word(mem, rom, a, v), a) == v,
        le_word_at(mem_after_write_word(mem, rom, a, v), a) == (v % 256) * 256 + v / 256,
{
}

} // verus!
