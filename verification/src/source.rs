use vstd::prelude::*;

verus! {

/// A capability producing uniformly distributed unsigned 32-bit integers on
/// demand. No seeding, reseeding or determinism guarantee is owed by this
/// library; nothing can be promised of a draw, so the method has no contract.
pub trait RandomSource {
    /// Produces the next raw 32-bit draw.
    fn next_u32(&mut self) -> u32;
}

/// A deterministic random source replaying a fixed script of raw draws, for
/// reproducible runs and for tests. Once the script is exhausted it yields 0.
pub struct ScriptedSource {
    draws: Vec<u32>,
    next: usize,
}

impl ScriptedSource {
    /// A source that replays `draws` in order.
    pub fn new(draws: Vec<u32>) -> (s: ScriptedSource) {
        ScriptedSource { draws, next: 0 }
    }
}

impl RandomSource for ScriptedSource {
    fn next_u32(&mut self) -> u32 {
        if self.next < self.draws.len() {
            let d = self.draws[self.next];
            self.next = self.next + 1;
            d
        } else {
            0
        }
    }
}

} // verus!
