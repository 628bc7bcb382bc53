//! Application-level bookkeeping: identifiers of the windows the app spawns.

use vstd::prelude::*;

verus! {

/// Hands out window identifiers: 1 for the first window, then one more for
/// each window after it (wrapping around at the top of `usize`).
pub struct WindowIdCounter {
    next: usize,
}

impl View for WindowIdCounter {
    type V = usize;

    closed spec fn view(&self) -> usize {
        self.next
    }
}

impl WindowIdCounter {
    /// A counter whose first identifier is 1.
    pub fn new() -> (r: Self)
        ensures
            r@ == 1,
    {
        WindowIdCounter { next: 1 }
    }

    /// The identifier of the next window.
    pub fn next_id(&mut self) -> (r: usize)
        ensures
            r == old(self)@,
            final(self)@ == (if old(self)@ == usize::MAX { 0 } else { (old(self)@ + 1) as usize }),
    {
        let id = self.next;
        self.next = self.next.wrapping_add(1);
        id
    }
}

} // verus!
