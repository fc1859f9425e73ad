//! The closed set of work items and the plain values they carry.

use vstd::prelude::*;

verus! {

/// A world position. Each coordinate is held as the IEEE-754 bit pattern of
/// an `f64`, so a position crosses the library unchanged.
#[derive(Clone, Copy, Debug, PartialEq, Eq, Structural)]
pub struct Position {
    pub x_bits: u64,
    pub y_bits: u64,
    pub z_bits: u64,
}

/// An integer block coordinate.
#[derive(Clone, Copy, Debug, PartialEq, Eq, Hash, Structural)]
pub struct BlockPos {
    pub x: i32,
    pub y: i32,
    pub z: i32,
}

/// "Be within `radius` whole units of `pos`."
#[derive(Clone, Copy, Debug, PartialEq, Eq, Structural)]
pub struct RadiusGoal {
    pub pos: Position,
    pub radius: u32,
}

/// One unit of executable behaviour.
#[derive(Clone, Copy, Debug, PartialEq, Eq, Structural)]
pub enum Task {
    /// Terminal: a worker that receives it stops asking for work.
    Halt,
    /// Idle keep-alive.
    Jump,
    Goto(RadiusGoal),
    Mine(BlockPos),
    /// Pursue and strike the actor with this 128-bit unique id.
    Attack(u128),
}

} // verus!
