use vstd::prelude::*;

verus! {

/// The state of one counter stream. Each connected client owns an
/// independent `Counter`; it shares nothing with the cell store. The
/// surrounding server drives it once per tick and emits the value it
/// returns, so the stream carries 1, 2, 3, ... in order, starting at 1.
pub struct Counter {
    count: usize,
}

impl View for Counter {
    type V = nat;

    closed spec fn view(&self) -> nat {
        self.count as nat
    }
}

impl Counter {
    /// A fresh stream state: nothing emitted yet.
    pub fn new() -> (c: Counter)
        ensures
            c@ == 0,
    {
        Counter { count: 0 }
    }

    /// The value of the most recently emitted tick, or 0 before the
    /// first.
    pub fn value(&self) -> (r: usize)
        ensures
            r == self@,
    {
        self.count
    }

    /// Advance by one tick and return the value to emit: one more than
    /// everything emitted before, so the first call returns 1.
    pub fn tick(&mut self) -> (r: usize)
        requires
            old(self)@ < usize::MAX,
        ensures
            final(self)@ == old(self)@ + 1,
            r == final(self)@,
    {
        self.count = self.count + 1;
        self.count
    }
}

} // verus!
