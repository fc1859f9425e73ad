//! The operator's last confirmed position and how long it stays usable.

use vstd::prelude::*;

use crate::work::Position;

verus! {

/// A sighting older than this (in milliseconds) is stale.
pub const STALE_AFTER_MS: u64 = 30000;

/// A sighting older than this (in milliseconds) is worth refreshing.
pub const LOOKUP_INTERVAL_MS: u64 = 300;

/// Milliseconds from `then` to `now` on a monotonic clock; zero if `now`
/// is earlier.
pub open spec fn elapsed(then: u64, now: u64) -> int {
    if now >= then {
        now - then
    } else {
        0
    }
}

/// Where the operator was last seen, and when (milliseconds on the
/// dispatcher's monotonic clock). `time` is `None` until the first sighting,
/// which makes the position stale from the start.
#[derive(Clone, Copy, Debug, PartialEq, Eq)]
pub struct OwnerPos {
    pub time: Option<u64>,
    pub pos: Position,
}

/// The position is known and was confirmed less than `STALE_AFTER_MS` before `now`.
pub open spec fn is_fresh_at(p: OwnerPos, now: u64) -> bool {
    match p.time {
        Some(t) => elapsed(t, now) < STALE_AFTER_MS,
        None => false,
    }
}

impl OwnerPos {
    /// A sighting of the operator at `pos` at time `now`.
    pub fn new(pos: Position, now: u64) -> (r: Self)
        ensures
            r.time == Some(now),
            r.pos == pos,
    {
        Self { time: Some(now), pos }
    }

    /// Whether the position may still be followed at time `now`.
    pub fn is_fresh(&self, now: u64) -> (r: bool)
        ensures
            r == is_fresh_at(*self, now),
    {
        match self.time {
            Some(t) => {
                let age = if now >= t {
                    now - t
                } else {
                    0
                };
                age < STALE_AFTER_MS
            },
            None => false,
        }
    }
}

impl OwnerPos {
    /// Whether it is time to look for the operator again: there is no
    /// sighting yet, or the last one is more than `LOOKUP_INTERVAL_MS` old.
    pub fn is_due(&self, now: u64) -> (r: bool)
        ensures
            r == match self.time {
                Some(t) => elapsed(t, now) > LOOKUP_INTERVAL_MS,
                None => true,
            },
    {
        match self.time {
            Some(t) => now >= t && now - t > LOOKUP_INTERVAL_MS,
            None => true,
        }
    }
}

impl Default for OwnerPos {
    /// No sighting yet: stale until the first one.
    fn default() -> (r: Self)
        ensures
            r.time is None,
            r.pos == (Position { x_bits: 0, y_bits: 0, z_bits: 0 }),
    {
        Self { time: None, pos: Position { x_bits: 0, y_bits: 0, z_bits: 0 } }
    }
}

} // verus!
