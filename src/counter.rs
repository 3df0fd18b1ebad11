use vstd::prelude::*;

verus! {

/// The ledger contract: one monotonic counter per category.
///
/// An increment for a category outside the supported set is accepted and
/// changes nothing. A counter that has reached the top of its range stays
/// there.
pub struct Counter {
    red_swords: u64,
    green_swords: u64,
    blue_swords: u64,
}

/// Adds one to a counter, stopping at the top of its range.
pub open spec fn bumped(n: u64) -> u64 {
    if n < u64::MAX {
        (n + 1) as u64
    } else {
        n
    }
}

impl Counter {
    /// The three counts, in category order.
    pub closed spec fn counts(&self) -> (u64, u64, u64) {
        (self.red_swords, self.green_swords, self.blue_swords)
    }

    /// A ledger whose counters all start at zero.
    pub fn new() -> (r: Counter)
        ensures
            r.counts() == (0u64, 0u64, 0u64),
    {
        Counter { red_swords: 0, green_swords: 0, blue_swords: 0 }
    }

    /// A ledger holding the given counts, in category order.
    pub fn with_counts(red: u64, green: u64, blue: u64) -> (r: Counter)
        ensures
            r.counts() == (red, green, blue),
    {
        Counter { red_swords: red, green_swords: green, blue_swords: blue }
    }

    /// Reads the three counts at once.
    pub fn get_sword_counts(&self) -> (r: (u64, u64, u64))
        ensures
            r == self.counts(),
    {
        (self.red_swords, self.green_swords, self.blue_swords)
    }

    /// Adds one to the counter of `color`; any other value leaves the ledger as it was.
    pub fn increment_sword(&mut self, color: u64)
        ensures
            final(self).counts() == (if color == 0 {
                (bumped(old(self).counts().0), old(self).counts().1, old(self).counts().2)
            } else if color == 1 {
                (old(self).counts().0, bumped(old(self).counts().1), old(self).counts().2)
            } else if color == 2 {
                (old(self).counts().0, old(self).counts().1, bumped(old(self).counts().2))
            } else {
                old(self).counts()
            }),
    {
        if color == 0 {
            self.red_swords = self.red_swords.saturating_add(1);
        } else if color == 1 {
            self.green_swords = self.green_swords.saturating_add(1);
        } else if color == 2 {
            self.blue_swords = self.blue_swords.saturating_add(1);
        }
    }
}

} // verus!
