use crate::prim::{u20, U20_MAX};
use vstd::prelude::*;

verus! {

/// Bytes of memory behind the bus: the 1 MiB that 20 address lines reach.
pub const MEMORY_SIZE: usize = 0x10_0000;

/// Failures of a memory access.
#[derive(Debug, Clone, Copy, PartialEq, Eq, Structural)]
pub enum BusMemoryError {
    /// The physical address lies at or past the end of memory.
    OutOfBounds,
}

impl BusMemoryError {
    /// Human-readable description of the error.
    pub fn to_string(&self) -> (r: String) {
        String::from_str("Out of bounds.")
    }
}

/// The physical address that segment value `seg` and offset `off` select:
/// the segment times 16 plus the offset, wrapped to 20 bits.
pub open spec fn physical_address(seg: u16, off: u16) -> u32 {
    ((seg as int * 16 + off as int) % 0x10_0000) as u32
}

/// Little-endian word made of the bytes `lo` and `hi`.
pub open spec fn word_of(lo: u8, hi: u8) -> u16 {
    (lo as int + hi as int * 256) as u16
}

/// The 8088's bus: 1 MiB of memory and the latch that holds the last
/// physical address computed.
pub struct BusInterface {
    ram: Vec<u8>,
    address_latch: u20,
}

impl BusInterface {
    /// The invariant: memory is exactly 1 MiB and the latch fits in 20 bits.
    pub closed spec fn wf(&self) -> bool {
        self.ram.len() == MEMORY_SIZE && self.address_latch.wf()
    }

    /// Content of memory, one byte per address.
    pub closed spec fn memory(&self) -> Seq<u8> {
        self.ram@
    }

    /// The last physical address computed.
    pub closed spec fn latch(&self) -> u32 {
        self.address_latch@
    }

    /// The last physical address computed.
    pub fn address_latch(&self) -> (r: u32)
        ensures
            r == self.latch(),
    {
        self.address_latch.get()
    }

    /// A bus with all memory zeroed and the latch at 0.
    pub fn new() -> (r: Self)
        ensures
            r.wf(),
            r.memory() == Seq::new(MEMORY_SIZE as nat, |i: int| 0u8),
            r.latch() == 0,
    {
        let mut ram: Vec<u8> = Vec::new();
        while ram.len() < MEMORY_SIZE
            invariant
                ram.len() <= MEMORY_SIZE,
                forall|i: int| 0 <= i < ram.len() ==> ram@[i] == 0u8,
            decreases MEMORY_SIZE - ram.len(),
        {
            ram.push(0u8);
        }
        let r = BusInterface { ram, address_latch: u20::new(0) };
        assert(r.memory() =~= Seq::new(MEMORY_SIZE as nat, |i: int| 0u8));
        r
    }

    /// Computes the physical address of `seg:off`, keeps it in the latch and
    /// returns it.
    pub fn compute_physical_address(&mut self, seg: u16, off: u16) -> (r: u32)
        requires
            old(self).wf(),
        ensures
            r == physical_address(seg, off),
            r <= U20_MAX,
            final(self).wf(),
            final(self).latch() == r,
            final(self).memory() == old(self).memory(),
    {
        proof {
            lemma_segment_arithmetic(seg, off);
        }
        let r = (((seg as u32) << 4u32) + off as u32) & 0xF_FFFFu32;
        self.address_latch.set(r);
        r
    }

    /// The byte at `addr`; does not touch the latch.
    pub fn fetch_8(&self, addr: usize) -> (r: Result<u8, BusMemoryError>)
        requires
            self.wf(),
        ensures
            addr >= MEMORY_SIZE ==> r == Err::<u8, BusMemoryError>(BusMemoryError::OutOfBounds),
            addr < MEMORY_SIZE ==> r == Ok::<u8, BusMemoryError>(self.memory()[addr as int]),
    {
        if addr >= self.ram.len() {
            Err(BusMemoryError::OutOfBounds)
        } else {
            Ok(self.ram[addr])
        }
    }

    /// The little-endian word at `addr` and `addr + 1`; does not touch the latch.
    pub fn fetch_16(&self, addr: usize) -> (r: Result<u16, BusMemoryError>)
        requires
            self.wf(),
        ensures
            addr >= MEMORY_SIZE - 1 ==> r == Err::<u16, BusMemoryError>(
                BusMemoryError::OutOfBounds,
            ),
            addr < MEMORY_SIZE - 1 ==> r == Ok::<u16, BusMemoryError>(
                word_of(self.memory()[addr as int], self.memory()[addr + 1]),
            ),
    {
        if addr >= self.ram.len() - 1 {
            Err(BusMemoryError::OutOfBounds)
        } else {
            let lo = self.ram[addr];
            let hi = self.ram[addr + 1];
            Ok(lo as u16 + (hi as u16) * 256)
        }
    }

    /// Reads the byte at physical address `addr`.
    pub fn read_8(&self, addr: usize) -> (r: Result<u8, BusMemoryError>)
        requires
            self.wf(),
        ensures
            addr >= MEMORY_SIZE ==> r == Err::<u8, BusMemoryError>(BusMemoryError::OutOfBounds),
            addr < MEMORY_SIZE ==> r == Ok::<u8, BusMemoryError>(self.memory()[addr as int]),
    {
        self.fetch_8(addr)
    }

    /// Reads the little-endian word at physical addresses `addr` and `addr + 1`.
    pub fn read_16(&self, addr: usize) -> (r: Result<u16, BusMemoryError>)
        requires
            self.wf(),
        ensures
            addr >= MEMORY_SIZE - 1 ==> r == Err::<u16, BusMemoryError>(
                BusMemoryError::OutOfBounds,
            ),
            addr < MEMORY_SIZE - 1 ==> r == Ok::<u16, BusMemoryError>(
                word_of(self.memory()[addr as int], self.memory()[addr + 1]),
            ),
    {
        self.fetch_16(addr)
    }

    /// Stores `val` at physical address `addr`; nothing is written when the
    /// address is out of bounds.
    pub fn write_8(&mut self, addr: usize, val: u8) -> (r: Result<(), BusMemoryError>)
        requires
            old(self).wf(),
        ensures
            final(self).wf(),
            final(self).latch() == old(self).latch(),
            addr >= MEMORY_SIZE ==> r == Err::<(), BusMemoryError>(BusMemoryError::OutOfBounds)
                && final(self).memory() == old(self).memory(),
            addr < MEMORY_SIZE ==> r == Ok::<(), BusMemoryError>(()) && final(self).memory()
                == old(self).memory().update(addr as int, val),
    {
        if addr >= self.ram.len() {
            Err(BusMemoryError::OutOfBounds)
        } else {
            self.ram.set(addr, val);
            Ok(())
        }
    }

    /// Stores `val` little-endian at `addr` and `addr + 1`; nothing is written
    /// unless both lie in memory.
    pub fn write_16(&mut self, addr: usize, val: u16) -> (r: Result<(), BusMemoryError>)
        requires
            old(self).wf(),
        ensures
            final(self).wf(),
            final(self).latch() == old(self).latch(),
            addr >= MEMORY_SIZE - 1 ==> r == Err::<(), BusMemoryError>(
                BusMemoryError::OutOfBounds,
            ) && final(self).memory() == old(self).memory(),
            addr < MEMORY_SIZE - 1 ==> r == Ok::<(), BusMemoryError>(()) && final(self).memory()
                == old(self).memory().update(addr as int, (val % 256) as u8).update(
                addr + 1,
                (val / 256) as u8,
            ),
    {
        if addr >= self.ram.len() - 1 {
            Err(BusMemoryError::OutOfBounds)
        } else {
            self.ram.set(addr, (val % 256) as u8);
            self.ram.set(addr + 1, (val / 256) as u8);
            Ok(())
        }
    }
}

impl Default for BusInterface {
    fn default() -> (r: Self)
        ensures
            r.wf(),
            r.memory() == Seq::new(MEMORY_SIZE as nat, |i: int| 0u8),
            r.latch() == 0,
    {
        BusInterface::new()
    }
}

/// Physical address formula: for every 16-bit segment value `s` and offset
/// `o`, `((s << 4) + o) & 0xFFFFF` is the physical address the bus computes
/// (segment times 16 plus offset, wrapped to 20 bits), so segment 0xFFFF with
/// offset 0x0010 wraps to 0x00000 rather than reaching 0x100000.
pub proof fn lemma_segment_arithmetic(seg: u16, off: u16)
    ensures
        (seg as u32) << 4u32 == seg as u32 * 16,
        ((((seg as u32) << 4u32) + off as u32) as u32) & 0xF_FFFFu32 == physical_address(seg, off),
        ((((seg as u32) << 4u32) + off as u32) as u32) & 0xF_FFFFu32 <= U20_MAX,
{
    let s = seg as u32;
    let o = off as u32;
    assert(s << 4u32 == s * 16) by (bit_vector)
        requires
            s <= 0xFFFF,
    ;
    let t = ((s << 4u32) + o) as u32;
    assert(t == s * 16 + o);
    assert(t & 0xF_FFFFu32 == t % 0x10_0000) by (bit_vector);
    assert(t & 0xF_FFFFu32 <= 0xF_FFFFu32) by (bit_vector);
}

} // verus!
