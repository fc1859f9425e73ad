//! One round of the operator locator: the connected workers are asked in
//! turn whether they see the operator, until one reports a sighting.

use vstd::prelude::*;

use crate::protocol::{PosReport, ServerboundPacket};
use crate::tasks::Tasks;
use crate::operator::OwnerPos;

verus! {

/// The state of one round over `workers` connections.
#[derive(Clone, Copy, Debug, PartialEq, Eq)]
pub struct LocatorRound {
    /// The connection to ask next.
    pub next: usize,
    /// How many connections the round covers.
    pub workers: usize,
    /// A sighting has ended the round.
    pub found: bool,
}

impl LocatorRound {
    /// A round over `workers` connections, starting with the first.
    pub fn new(workers: usize) -> (r: Self)
        ensures
            r == (LocatorRound { next: 0, workers, found: false }),
    {
        LocatorRound { next: 0, workers, found: false }
    }

    /// The connection to send `Find` to next, or `None` when the round is over.
    pub fn next_worker(&self) -> (r: Option<usize>)
        ensures
            r == (if !self.found && self.next < self.workers {
                Some(self.next)
            } else {
                None
            }),
    {
        if !self.found && self.next < self.workers {
            Some(self.next)
        } else {
            None
        }
    }

    /// Handles the answer of the connection just asked. A sighting of the
    /// current operator is recorded as of `now` and ends the round; any other
    /// answer moves on to the next connection.
    pub fn on_response(&mut self, tasks: &mut Tasks, resp: ServerboundPacket, now: u64) -> (r: bool)
        requires
            !old(self).found,
            old(self).next < old(self).workers,
        ensures
            r == (resp matches ServerboundPacket::ReportPosition { username, report } && username@
                == old(tasks).owner@ && report is Found),
            r ==> final(tasks).owner_pos == (OwnerPos {
                time: Some(now),
                pos: resp->ReportPosition_report->Found_0,
            }) && *final(self) == (LocatorRound { found: true, ..*old(self) }),
            !r ==> final(tasks).owner_pos == old(tasks).owner_pos && *final(self) == (LocatorRound {
                next: (old(self).next + 1) as usize,
                ..*old(self)
            }),
            final(tasks).owner == old(tasks).owner,
            final(tasks).queue == old(tasks).queue,
            final(tasks).per_instance_task == old(tasks).per_instance_task,
            final(tasks).chat == old(tasks).chat,
            final(tasks).namegen == old(tasks).namegen,
            final(tasks).next_inst_id == old(tasks).next_inst_id,
    {
        let found = match resp {
            ServerboundPacket::ReportPosition { username, report } => tasks.report_position(
                &username,
                report,
                now,
            ),
            _ => false,
        };
        if found {
            self.found = true;
        } else {
            self.next = self.next + 1;
        }
        found
    }

    /// Moves past a connection whose exchange failed.
    pub fn skip(&mut self)
        requires
            old(self).next < old(self).workers,
        ensures
            *final(self) == (LocatorRound { next: (old(self).next + 1) as usize, ..*old(self) }),
    {
        self.next = self.next + 1;
    }
}

} // verus!
