//! The 4 KiB address space of the machine.

use vstd::prelude::*;

verus! {

/// Number of addressable cells.
pub const MEMORY_SIZE: usize = 0x1000;

/// Flat byte store, addressed `0x000..=0xFFF`.
#[derive(Debug)]
pub struct Memory {
    mem: [u8; 4096],
}

impl View for Memory {
    type V = Seq<u8>;

    closed spec fn view(&self) -> Seq<u8> {
        self.mem@
    }
}

impl Memory {
    /// A memory has `MEMORY_SIZE` cells, whatever was done to it.
    pub proof fn lemma_size(&self)
        ensures
            self@.len() == MEMORY_SIZE,
    {
    }

    /// A memory with every cell zero.
    pub fn new() -> (m: Self)
        ensures
            m@.len() == MEMORY_SIZE,
            forall|a: int| 0 <= a < MEMORY_SIZE ==> m@[a] == 0,
    {
        Self { mem: [0x0u8; 4096] }
    }

    /// Copies `data` into the cells from `start` on.
    pub fn load(&mut self, data: &[u8], start: &usize)
        requires
            *start + data@.len() <= MEMORY_SIZE,
        ensures
            final(self)@.len() == MEMORY_SIZE,
            forall|a: int|
                0 <= a < MEMORY_SIZE ==> final(self)@[a] == if *start <= a < *start + data@.len() {
                    data@[a - *start]
                } else {
                    old(self)@[a]
                },
    {
        let start: usize = *start;
        let mut i: usize = 0;
        while i < data.len()
            invariant
                i <= data@.len(),
                start + data@.len() <= MEMORY_SIZE,
                self@.len() == MEMORY_SIZE,
                forall|a: int|
                    0 <= a < MEMORY_SIZE ==> self@[a] == if start <= a < start + i {
                        data@[a - start]
                    } else {
                        old(self)@[a]
                    },
            decreases data@.len() - i,
        {
            self.mem[start + i] = data[i];
            i = i + 1;
        }
    }

    /// The `len` cells from `start` on.
    pub fn slice(&self, start: u16, len: u16) -> (cells: &[u8])
        requires
            start + len <= MEMORY_SIZE,
        ensures
            cells@ == self@.subrange(start as int, start + len),
    {
        vstd::slice::slice_subrange(self.mem.as_slice(), start as usize, start as usize + len as usize)
    }

    /// The byte at `addr`.
    pub fn get(&self, addr: u16) -> (b: u8)
        requires
            addr < MEMORY_SIZE,
        ensures
            b == self@[addr as int],
    {
        self.mem[addr as usize]
    }

    /// Stores `value` at `addr`.
    pub fn set(&mut self, addr: u16, value: u8)
        requires
            addr < MEMORY_SIZE,
        ensures
            final(self)@ == old(self)@.update(addr as int, value),
    {
        self.mem[addr as usize] = value;
    }
}

} // verus!
