//! The score counter: starts at zero and is only ever incremented by the
//! collision resolver when a brick is destroyed.

use vstd::prelude::*;

verus! {

/// Process-wide score. A display collaborator polls `read` once per frame.
#[derive(Clone, Copy, PartialEq, Eq, Structural, Debug)]
pub struct Scoreboard {
    pub score: u64,
}

impl Scoreboard {
    /// A fresh scoreboard holds a score of zero.
    pub fn new() -> (s: Scoreboard)
        ensures
            s.score == 0,
    {
        Scoreboard { score: 0 }
    }

    /// Add one point.
    pub fn increment(&mut self)
        requires
            old(self).score < u64::MAX,
        ensures
            final(self).score == old(self).score + 1,
    {
        self.score = self.score + 1;
    }

    /// Current score, for the display collaborator.
    pub fn read(&self) -> (s: u64)
        ensures
            s == self.score,
    {
        self.score
    }
}

} // verus!
