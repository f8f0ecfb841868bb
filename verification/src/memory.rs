//! The machine's flat, byte-addressable memory.
use vstd::prelude::*;

verus! {

/// Number of addressable bytes.
pub const MEMORY_SIZE: usize = 4096;

/// A fixed-size byte store, read and written by absolute address.
pub struct Memory {
    data: [u8; MEMORY_SIZE],
}

/// The contents of a memory that holds zero at every address.
pub open spec fn zeroed() -> Seq<u8> {
    Seq::new(MEMORY_SIZE as nat, |a: int| 0u8)
}

impl View for Memory {
    type V = Seq<u8>;

    closed spec fn view(&self) -> Seq<u8> {
        self.data@
    }
}

impl Memory {
    /// Every memory holds exactly `MEMORY_SIZE` bytes.
    pub proof fn lemma_len(&self)
        ensures
            self@.len() == MEMORY_SIZE,
    {
    }

    /// A memory with every byte zero.
    pub fn new() -> (m: Memory)
        ensures
            m@ == zeroed(),
    {
        let m = Memory { data: [0; MEMORY_SIZE] };
        assert(m@ =~= zeroed());
        m
    }

    /// Resets every byte to zero.
    pub fn mem_init(&mut self)
        ensures
            final(self)@ == zeroed(),
    {
        self.data = [0; MEMORY_SIZE];
        assert(self@ =~= zeroed());
    }

    /// Stores `value` at `addr`; every other byte keeps its value.
    pub fn mem_write(&mut self, addr: u16, value: u8)
        requires
            addr < MEMORY_SIZE,
        ensures
            final(self)@ == old(self)@.update(addr as int, value),
    {
        self.data[addr as usize] = value;
    }

    /// The byte stored at `addr`.
    pub fn mem_read(&self, addr: u16) -> (value: u8)
        requires
            addr < MEMORY_SIZE,
        ensures
            value == self@[addr as int],
    {
        self.data[addr as usize]
    }

    /// The number of addressable bytes.
    pub fn mem_size(&self) -> (n: usize)
        ensures
            n == MEMORY_SIZE,
            n == self@.len(),
    {
        self.data.len()
    }
}

} // verus!
