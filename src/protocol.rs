//! The messages exchanged between a worker and the dispatcher.

use vstd::prelude::*;

use crate::work::{Position, Task};

verus! {

/// A worker's opening message, asking who it is.
#[derive(Clone, Debug, PartialEq, Eq)]
pub struct ServerboundHelloPacket {
    /// Carries nothing; it keeps the message from being empty.
    pub lucky_number: i32,
}

/// The dispatcher's answer to the opening message.
#[derive(Clone, Debug, PartialEq, Eq)]
pub struct ClientboundHelloPacket {
    pub name: String,
    pub inst_id: i32,
}

/// Whether a worker can see the operator.
#[derive(Clone, Copy, Debug, PartialEq, Eq)]
pub enum PosReport {
    NotHere,
    Found(Position),
}

/// Messages from a worker to the dispatcher.
#[derive(Clone, Debug, PartialEq, Eq)]
pub enum ServerboundPacket {
    /// Announces a worker; needs no answer.
    Hello { inst_id: i32 },
    /// A chat line that the worker saw, with its fingerprint.
    ChatMessage { hash: u64, sender: Option<String>, content: String },
    /// Asks everyone to attack the actor with this id.
    Agro { uuid: u128 },
    /// Asks for the next task; answered with `AssignTask`.
    RequestTask { inst_id: i32 },
    /// Answers `Find`.
    ReportPosition { username: String, report: PosReport },
}

/// Messages from the dispatcher to a worker.
#[derive(Clone, Debug, PartialEq, Eq)]
pub enum ClientboundPacket {
    /// Asks whether the named player is in sight; answered with `ReportPosition`.
    Find { username: String },
    /// The next task; `None` means nothing is available now.
    AssignTask(Option<Task>),
}

/// The opening message a worker sends.
pub fn hello_packet() -> (r: ServerboundHelloPacket)
    ensures
        r.lucky_number == 6,
{
    ServerboundHelloPacket { lucky_number: 6 }
}

} // verus!
