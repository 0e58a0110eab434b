use vstd::prelude::*;

verus! {

/// Program counter, index register, call stack, and the sixteen 8-bit
/// general-purpose registers `v0..v15`.
pub struct Cpu {
    /// Address of the next instruction to fetch.
    pub pc: u16,
    /// Base address for sprite reads.
    pub index: u16,
    /// Return addresses, the most recently pushed one last. No depth limit.
    pub stack: Vec<u16>,
    /// The sixteen general-purpose registers, indexed `0..16`.
    pub v: Vec<u8>,
}

impl Cpu {
    /// The one invariant: exactly sixteen registers.
    pub open spec fn wf(&self) -> bool {
        self.v@.len() == 16
    }

    /// A fresh processor: everything zero, the call stack empty.
    pub fn new() -> (c: Cpu)
        ensures
            c.wf(),
            c.pc == 0,
            c.index == 0,
            c.stack@ == Seq::<u16>::empty(),
            c.v@ == Seq::new(16, |i: int| 0u8),
    {
        let mut v: Vec<u8> = Vec::new();
        let mut i: usize = 0;
        while i < 16
            invariant
                i <= 16,
                v@.len() == i,
                forall|k: int| 0 <= k < i ==> v@[k] == 0u8,
            decreases 16 - i,
        {
            v.push(0);
            i = i + 1;
        }
        proof {
            assert(v@ =~= Seq::new(16, |i: int| 0u8));
        }
        let stack: Vec<u16> = Vec::new();
        proof {
            assert(stack@ =~= Seq::<u16>::empty());
        }
        Cpu { pc: 0, index: 0, stack, v }
    }
}

} // verus!
