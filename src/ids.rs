//! Numbering statements and portals: one generator serves the whole
//! process, so that every name it yields is new.
use vstd::prelude::*;

verus! {

/// Hands out strictly increasing numbers.
pub struct IdGenerator {
    next: u64,
}

impl IdGenerator {
    /// The number that the next call of `take` hands out.
    pub closed spec fn upcoming(&self) -> u64 {
        self.next
    }

    pub fn new() -> (r: IdGenerator)
        ensures
            r.upcoming() == 0,
    {
        IdGenerator { next: 0 }
    }

    /// The next number, larger than every number handed out before; `None`
    /// once the numbers are exhausted.
    pub fn take(&mut self) -> (r: Option<u64>)
        ensures
            old(self).upcoming() < u64::MAX ==> r == Some(old(self).upcoming()) && final(
                self).upcoming() == old(self).upcoming() + 1,
            old(self).upcoming() == u64::MAX ==> r is None && final(self).upcoming()
                == old(self).upcoming(),
    {
        if self.next == u64::MAX {
            None
        } else {
            let id = self.next;
            self.next = self.next + 1;
            Some(id)
        }
    }
}

/// Two numbers taken one after the other from the generator are strictly
/// increasing, and every number taken later is larger still.
pub proof fn lemma_ids_increase(g1: IdGenerator, g2: IdGenerator, g3: IdGenerator, a: u64, b: u64)
    requires
        g1.upcoming() < u64::MAX,
        a == g1.upcoming(),
        g2.upcoming() == g1.upcoming() + 1,
        g2.upcoming() <= g3.upcoming(),
        g3.upcoming() < u64::MAX,
        b == g3.upcoming(),
    ensures
        a < b,
{
}

} // verus!
