use vstd::prelude::*;

verus! {

/// A bump allocator that hands out sequential node indices.
///
/// The arena is reset (truncated to index zero) on every exit path of a
/// compilation, so node indices never leak from one compilation into the
/// next one that reuses the same allocator.
pub struct Arena {
    next: usize,
}

impl Arena {
    /// The number of indices handed out since the last reset.
    pub closed spec fn size(self) -> nat {
        self.next as nat
    }

    /// A fresh arena, with no indices handed out.
    pub fn new() -> (a: Arena)
        ensures
            a.size() == 0,
    {
        Arena { next: 0 }
    }

    /// Hands out the next sequential index.
    pub fn allocate(&mut self) -> (i: usize)
        requires
            old(self).size() < usize::MAX,
        ensures
            i == old(self).size(),
            final(self).size() == old(self).size() + 1,
    {
        let i = self.next;
        self.next = self.next + 1;
        i
    }

    /// The number of indices handed out since the last reset, observably.
    pub fn allocated(&self) -> (n: usize)
        ensures
            n == self.size(),
    {
        self.next
    }

    /// Truncates the arena back to index zero; the backing storage of the
    /// nodes themselves is owned by the graph context, so nothing is freed.
    pub fn reset(&mut self)
        ensures
            final(self).size() == 0,
    {
        self.next = 0;
    }
}

} // verus!
