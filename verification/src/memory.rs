//! The simulated memory bank: a flat, zero-initialized, byte-addressable
//! store of exactly 1 MiB, the real-mode address space.

use vstd::prelude::*;

verus! {

/// Size of the memory bank in bytes.
pub const MEMORY_SIZE: usize = 1048576;

/// A flat byte store. Every 16-bit effective address fits inside it, so
/// word accesses at two consecutive addresses never fall out of bounds.
pub struct MemoryBank {
    bytes: Vec<u8>,
}

impl View for MemoryBank {
    type V = Seq<u8>;

    closed spec fn view(&self) -> Seq<u8> {
        self.bytes@
    }
}

/// The 16-bit word formed from a low and a high byte, little-endian.
pub open spec fn spec_word(lo: u8, hi: u8) -> u16 {
    (lo as u16) | ((hi as u16) << 8)
}

impl MemoryBank {
    /// The bank always holds exactly `MEMORY_SIZE` bytes.
    pub open spec fn wf(&self) -> bool {
        self@.len() == MEMORY_SIZE
    }

    /// A fresh, zero-filled bank.
    pub fn new() -> (r: MemoryBank)
        ensures
            r.wf(),
            forall|i: int| 0 <= i < MEMORY_SIZE ==> r@[i] == 0u8,
    {
        let mut bytes: Vec<u8> = Vec::new();
        let mut i: usize = 0;
        while i < MEMORY_SIZE
            invariant
                i <= MEMORY_SIZE,
                bytes@.len() == i,
                forall|j: int| 0 <= j < i ==> bytes@[j] == 0u8,
            decreases MEMORY_SIZE - i,
        {
            bytes.push(0u8);
            i = i + 1;
        }
        MemoryBank { bytes }
    }

    /// Read one byte.
    pub fn read_byte(&self, addr: u16) -> (r: u8)
        requires
            self.wf(),
        ensures
            r == self@[addr as int],
    {
        self.bytes[addr as usize]
    }

    /// Write one byte.
    pub fn write_byte(&mut self, addr: u16, value: u8)
        requires
            old(self).wf(),
        ensures
            final(self).wf(),
            final(self)@ == old(self)@.update(addr as int, value),
    {
        self.bytes[addr as usize] = value;
    }

    /// Read a 16-bit word from two consecutive bytes, little-endian.
    pub fn read_word(&self, addr: u16) -> (r: u16)
        requires
            self.wf(),
        ensures
            r == spec_word(self@[addr as int], self@[addr as int + 1]),
    {
        let lo = self.bytes[addr as usize];
        let hi = self.bytes[addr as usize + 1];
        (lo as u16) | ((hi as u16) << 8)
    }

    /// Write a 16-bit word to two consecutive bytes, little-endian.
    pub fn write_word(&mut self, addr: u16, value: u16)
        requires
            old(self).wf(),
        ensures
            final(self).wf(),
            final(self)@ == old(self)@.update(addr as int, (value & 0xff) as u8).update(
                addr as int + 1,
                (value >> 8) as u8,
            ),
    {
        self.bytes[addr as usize] = (value & 0xff) as u8;
        self.bytes[addr as usize + 1] = (value >> 8) as u8;
    }

    /// Borrow the whole bank, for callers that persist it.
    pub fn contents(&self) -> (r: &Vec<u8>)
        ensures
            r@ == self@,
    {
        &self.bytes
    }
}

} // verus!
