use vstd::prelude::*;

verus! {

/// Number of addressable bytes: addresses run `0x000..=0xFFF`.
pub const MEMORY_SIZE: usize = 4096;

/// Address where loaded programs begin; bytes below it are reserved.
pub const PROGRAM_START: u16 = 0x200;

/// The machine's flat, byte-addressable storage.
pub struct Memory {
    pub bytes: Vec<u8>,
}

impl View for Memory {
    type V = Seq<u8>;

    open spec fn view(&self) -> Seq<u8> {
        self.bytes@
    }
}

impl Memory {
    /// The one invariant: exactly [`MEMORY_SIZE`] bytes are addressable.
    pub open spec fn wf(&self) -> bool {
        self@.len() == MEMORY_SIZE
    }

    /// Fresh memory, zero-filled.
    pub fn new() -> (m: Memory)
        ensures
            m.wf(),
            m@ == Seq::new(MEMORY_SIZE as nat, |i: int| 0u8),
    {
        let mut bytes: Vec<u8> = Vec::new();
        let mut i: usize = 0;
        while i < MEMORY_SIZE
            invariant
                i <= MEMORY_SIZE,
                bytes@.len() == i,
                forall|k: int| 0 <= k < i ==> bytes@[k] == 0u8,
            decreases MEMORY_SIZE - i,
        {
            bytes.push(0);
            i = i + 1;
        }
        let m = Memory { bytes };
        proof {
            assert(m@ =~= Seq::new(MEMORY_SIZE as nat, |i: int| 0u8));
        }
        m
    }

    /// Bounds-checked read: the byte at `addr`, or `None` at or past the end.
    pub fn read(&self, addr: u16) -> (r: Option<u8>)
        requires
            self.wf(),
        ensures
            addr < MEMORY_SIZE ==> r == Some(self@[addr as int]),
            addr >= MEMORY_SIZE ==> r is None,
    {
        if (addr as usize) < MEMORY_SIZE {
            Some(self.bytes[addr as usize])
        } else {
            None
        }
    }

    /// Read at an address already proved to be in range.
    pub fn at(&self, addr: u16) -> (b: u8)
        requires
            self.wf(),
            addr < MEMORY_SIZE,
        ensures
            b == self@[addr as int],
    {
        self.bytes[addr as usize]
    }

    /// Write at an address already proved to be in range.
    pub fn write(&mut self, addr: u16, value: u8)
        requires
            old(self).wf(),
            addr < MEMORY_SIZE,
        ensures
            final(self).wf(),
            final(self)@ == old(self)@.update(addr as int, value),
    {
        self.bytes.set(addr as usize, value);
    }
}

} // verus!
