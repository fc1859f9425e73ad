//! Goals for the path finder that the library can decide on its own.

use vstd::prelude::*;

use crate::work::BlockPos;

verus! {

/// Reached on every block whose `x` leaves remainder one when divided by three.
#[derive(Clone, Copy, Debug, PartialEq, Eq, Structural)]
pub struct CheckerGoal;

impl CheckerGoal {
    /// Whether `n` satisfies the goal: `n.x % 3 == 1` in Rust's remainder,
    /// which holds only for positive `x`.
    pub fn success(&self, n: BlockPos) -> (r: bool)
        ensures
            r == (n.x > 0 && (n.x as int) % 3 == 1),
    {
        n.x % 3 == 1
    }
}

} // verus!
