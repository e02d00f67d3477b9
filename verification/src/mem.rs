use vstd::prelude::*;

verus! {

/// Number of words in the modeled register address space.
pub const MEM_WORDS: usize = 16;

/// The chip's memory-mapped register space, modeled as a flat array of
/// 32-bit words indexed by word address.
///
/// In firmware these words are hardware registers at fixed addresses; in
/// this model they are owned data, so the exclusive access the hardware
/// demands is exactly an exclusive borrow of the one `Mem` value. The
/// drivers only ever touch the words their registers name; a harness
/// plays the hardware's side (a byte arriving, a flag rising) by storing
/// into the words directly.
pub struct Mem {
    words: Vec<u32>,
}

impl View for Mem {
    type V = Seq<u32>;

    closed spec fn view(&self) -> Seq<u32> {
        self.words@
    }
}

impl Mem {
    /// The register space has its full, fixed extent.
    pub open spec fn wf(self) -> bool {
        self@.len() == MEM_WORDS
    }

    /// A register space with every word at its reset value of zero.
    pub fn new() -> (m: Mem)
        ensures
            m.wf(),
            forall|i: int| 0 <= i < m@.len() ==> m@[i] == 0u32,
    {
        let mut words: Vec<u32> = Vec::new();
        while words.len() < MEM_WORDS
            invariant
                words@.len() <= MEM_WORDS,
                forall|i: int| 0 <= i < words@.len() ==> words@[i] == 0u32,
            decreases MEM_WORDS - words.len(),
        {
            words.push(0u32);
        }
        Mem { words }
    }

    /// Whether the register space has its full extent; callers outside
    /// the verified world test this before handing the value to a
    /// driver.
    pub fn is_wf(&self) -> (r: bool)
        ensures
            r == self.wf(),
    {
        self.words.len() == MEM_WORDS
    }

    /// Read the word at `addr`.
    pub fn load(&self, addr: usize) -> (v: u32)
        requires
            self.wf(),
            addr < MEM_WORDS,
        ensures
            v == self@[addr as int],
    {
        self.words[addr]
    }

    /// Write `v` to the word at `addr`, leaving every other word unchanged.
    pub fn store(&mut self, addr: usize, v: u32)
        requires
            old(self).wf(),
            addr < MEM_WORDS,
        ensures
            final(self).wf(),
            final(self)@ == old(self)@.update(addr as int, v),
    {
        self.words[addr] = v;
    }
}

} // verus!
