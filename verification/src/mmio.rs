//! A memory-mapped register region.
//!
//! Device registers alias hardware state: a read may return a value the
//! program never stored, and every store is a visible side effect even when
//! it repeats the previous value. The region therefore keeps, besides the
//! word store itself, a log of every CPU write in program order, so that a
//! driver operation can be specified by the exact sequence of stores it
//! issues. Hardware-side register changes (a status bit rising on its own)
//! are modelled by [`MmioRegion::poke`], which updates the store without
//! extending the log.

use vstd::prelude::*;

verus! {

/// A region of register address space: `words.len()` 32-bit registers,
/// naturally aligned, starting at byte address `base`.
pub struct MmioRegion {
    base: usize,
    words: Vec<u32>,
    writes: Vec<(usize, u32)>,
}

impl MmioRegion {
    /// First byte address of the region.
    pub closed spec fn base(self) -> usize {
        self.base
    }

    /// Current register contents, one entry per 32-bit word.
    pub closed spec fn words(self) -> Seq<u32> {
        self.words@
    }

    /// All CPU writes issued so far, oldest first: `(address, value)`.
    pub closed spec fn log(self) -> Seq<(usize, u32)> {
        self.writes@
    }

    /// The region fits in the address space.
    pub closed spec fn wf(self) -> bool {
        self.base + 4 * self.words@.len() <= usize::MAX + 1
    }

    /// `addr` names a 32-bit register of this region: in range and aligned.
    pub open spec fn valid_addr(self, addr: usize) -> bool {
        &&& self.base() <= addr
        &&& addr + 4 <= self.base() + 4 * self.words().len()
        &&& (addr - self.base()) % 4 == 0
    }

    /// `base + off` stays in the address space and names a register of this
    /// region.
    pub open spec fn valid_offset_addr(self, base: usize, off: usize) -> bool {
        &&& base + off <= usize::MAX
        &&& self.valid_addr((base + off) as usize)
    }

    /// Index into `words()` of the register at `addr`.
    pub open spec fn word_index(self, addr: usize) -> int {
        (addr - self.base()) / 4
    }

    /// Value currently held by the register at `addr`.
    pub open spec fn word_at(self, addr: usize) -> u32 {
        self.words()[self.word_index(addr)]
    }

    proof fn lemma_valid_index(self, addr: usize)
        requires
            self.valid_addr(addr),
        ensures
            0 <= self.word_index(addr) < self.words().len(),
    {
        let d = addr - self.base();
        vstd::arithmetic::div_mod::lemma_fundamental_div_mod(d, 4);
    }

    /// Distinct register addresses name distinct words.
    pub proof fn lemma_word_index_injective(self, a1: usize, a2: usize)
        requires
            self.valid_addr(a1),
            self.valid_addr(a2),
            a1 != a2,
        ensures
            self.word_index(a1) != self.word_index(a2),
    {
        let d1 = a1 - self.base();
        let d2 = a2 - self.base();
        vstd::arithmetic::div_mod::lemma_fundamental_div_mod(d1, 4);
        vstd::arithmetic::div_mod::lemma_fundamental_div_mod(d2, 4);
    }

    /// A fresh region of `num_words` registers, all zero, with an empty log.
    pub fn new(base: usize, num_words: usize) -> (r: MmioRegion)
        requires
            base + 4 * num_words <= usize::MAX + 1,
        ensures
            r.wf(),
            r.base() == base,
            r.words().len() == num_words,
            forall|i: int| 0 <= i < num_words ==> r.words()[i] == 0u32,
            r.log() == Seq::<(usize, u32)>::empty(),
    {
        let mut words: Vec<u32> = Vec::new();
        let mut i: usize = 0;
        while i < num_words
            invariant
                i <= num_words,
                words@.len() == i,
                forall|j: int| 0 <= j < i ==> words@[j] == 0u32,
            decreases num_words - i,
        {
            words.push(0u32);
            i = i + 1;
        }
        MmioRegion { base, words, writes: Vec::new() }
    }

    /// Volatile read of the register at `addr`.
    pub fn read(&self, addr: usize) -> (r: u32)
        requires
            self.wf(),
            self.valid_addr(addr),
        ensures
            r == self.word_at(addr),
    {
        proof {
            self.lemma_valid_index(addr);
        }
        self.words[(addr - self.base) / 4]
    }

    /// Volatile CPU write of `value` to the register at `addr`; recorded in
    /// the log.
    pub fn write(&mut self, addr: usize, value: u32)
        requires
            old(self).wf(),
            old(self).valid_addr(addr),
        ensures
            final(self).wf(),
            final(self).base() == old(self).base(),
            final(self).words() == old(self).words().update(
                old(self).word_index(addr),
                value,
            ),
            final(self).log() == old(self).log().push((addr, value)),
    {
        proof {
            self.lemma_valid_index(addr);
        }
        let idx: usize = (addr - self.base) / 4;
        self.words[idx] = value;
        self.writes.push((addr, value));
    }

    /// The device changes a register on its own (e.g. a status bit rises):
    /// the store changes, but no CPU write is recorded.
    pub fn poke(&mut self, addr: usize, value: u32)
        requires
            old(self).wf(),
            old(self).valid_addr(addr),
        ensures
            final(self).wf(),
            final(self).base() == old(self).base(),
            final(self).words() == old(self).words().update(
                old(self).word_index(addr),
                value,
            ),
            final(self).log() == old(self).log(),
    {
        proof {
            self.lemma_valid_index(addr);
        }
        let idx: usize = (addr - self.base) / 4;
        self.words[idx] = value;
    }

    /// Number of CPU writes issued so far.
    pub fn write_count(&self) -> (n: usize)
        ensures
            n == self.log().len(),
    {
        self.writes.len()
    }

    /// The `i`-th CPU write, oldest first.
    pub fn write_at(&self, i: usize) -> (w: (usize, u32))
        requires
            i < self.log().len(),
        ensures
            w == self.log()[i as int],
    {
        let (a, v): (usize, u32) = self.writes[i];
        (a, v)
    }
}

} // verus!
