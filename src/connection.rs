//! The life of one worker connection on the dispatcher: handshake, then
//! serving requests, until a read or write fails.

use vstd::prelude::*;

use crate::protocol::{ClientboundHelloPacket, ServerboundHelloPacket, ServerboundPacket};
use crate::tasks::{handshake_step, packet_step, HandshakeError, Reply, Tasks};

verus! {

/// Where a connection stands.
#[derive(Clone, Copy, Debug, PartialEq, Eq, Structural)]
pub enum Phase {
    /// Waiting for the worker's opening message.
    Handshaking,
    /// Answering the requests of the worker with this id.
    Serving { inst_id: i32 },
    /// Done; the socket is dropped.
    Closed,
}

/// One accepted connection.
#[derive(Clone, Copy, Debug, PartialEq, Eq)]
pub struct Connection {
    pub phase: Phase,
}

impl Connection {
    /// A connection just accepted.
    pub fn new() -> (r: Self)
        ensures
            r.phase == Phase::Handshaking,
    {
        Connection { phase: Phase::Handshaking }
    }

    /// Handles the worker's opening message: on success the worker has an
    /// id and a name and the connection serves it; on failure it closes.
    pub fn on_hello(&mut self, tasks: &mut Tasks, hello: &ServerboundHelloPacket) -> (r: Result<
        ClientboundHelloPacket,
        HandshakeError,
    >)
        requires
            old(self).phase == Phase::Handshaking,
            old(tasks).wf(),
        ensures
            handshake_step(*old(tasks), r, *final(tasks)),
            match r {
                Ok(h) => final(self).phase == (Phase::Serving { inst_id: h.inst_id }),
                Err(_) => final(self).phase == Phase::Closed,
            },
    {
        let r = tasks.handshake();
        match &r {
            Ok(h) => {
                self.phase = Phase::Serving { inst_id: h.inst_id };
            },
            Err(_) => {
                self.phase = Phase::Closed;
            },
        }
        r
    }

    /// Handles one request of a serving connection.
    pub fn on_packet(&mut self, tasks: &mut Tasks, packet: ServerboundPacket, now: u64) -> (r: Reply)
        requires
            old(self).phase is Serving,
            old(tasks).wf(),
        ensures
            packet_step(*old(tasks), packet, now, r, *final(tasks)),
            *final(self) == *old(self),
    {
        tasks.handle_packet(packet, now)
    }

    /// A read or write failed: the connection is over.
    pub fn on_io_error(&mut self)
        ensures
            final(self).phase == Phase::Closed,
    {
        self.phase = Phase::Closed;
    }
}

} // verus!
