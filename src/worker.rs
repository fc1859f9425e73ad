//! The worker's side: what to do with each message from the dispatcher, and
//! the `say` chat command.

use vstd::prelude::*;

use crate::command::word_is;
use crate::join::{joined, Join};
use crate::protocol::{ClientboundPacket, PosReport, ServerboundPacket};
use crate::text::{split_spec, split_words};
use crate::work::{Position, Task};

verus! {

/// What the worker's task loop does next.
#[derive(Clone, Debug, PartialEq, Eq)]
pub enum RunnerAction {
    /// Perform the task, then request the following one.
    Execute(Task),
    /// Answer a `Find` for this player, then keep waiting for a task.
    Report { username: String },
    /// Nothing is available now: ask again.
    AskAgain,
    /// Halted: never ask again.
    Stop,
}

/// The runner's next halted flag and action on message `p`.
pub open spec fn runner_step(halted: bool, p: ClientboundPacket) -> (bool, RunnerAction) {
    if halted {
        (true, RunnerAction::Stop)
    } else {
        match p {
            ClientboundPacket::Find { username } => (false, RunnerAction::Report { username }),
            ClientboundPacket::AssignTask(None) => (false, RunnerAction::AskAgain),
            ClientboundPacket::AssignTask(Some(t)) => if t is Halt {
                (true, RunnerAction::Stop)
            } else {
                (false, RunnerAction::Execute(t))
            },
        }
    }
}

/// The action leads to another task request.
pub open spec fn asks_again(a: RunnerAction) -> bool {
    a is Execute || a is AskAgain
}

/// How many further task requests a runner makes while it handles `ps` in order.
pub open spec fn requests_made(halted: bool, ps: Seq<ClientboundPacket>) -> nat
    decreases ps.len(),
{
    if ps.len() == 0 {
        0
    } else {
        let (h, a) = runner_step(halted, ps[0]);
        (if asks_again(a) {
            1nat
        } else {
            0nat
        }) + requests_made(h, ps.drop_first())
    }
}

/// Once a runner has received `Halt` it makes no further task request,
/// whatever messages follow.
pub proof fn lemma_no_requests_after_halt(halted: bool, ps: Seq<ClientboundPacket>)
    ensures
        runner_step(halted, ClientboundPacket::AssignTask(Some(Task::Halt))).0 ==> requests_made(
            true,
            ps,
        ) == 0,
        runner_step(halted, ClientboundPacket::AssignTask(Some(Task::Halt))).0,
        requests_made(true, ps) == 0,
    decreases ps.len(),
{
    if ps.len() > 0 {
        lemma_no_requests_after_halt(true, ps.drop_first());
    }
}

/// The worker's task loop: ask, carry out, repeat, until `Halt`.
#[derive(Clone, Copy, Debug, PartialEq, Eq)]
pub struct Runner {
    pub halted: bool,
}

impl Runner {
    pub fn new() -> (r: Self)
        ensures
            !r.halted,
    {
        Runner { halted: false }
    }

    /// Whether the loop is to ask for a task.
    pub fn wants_task(&self) -> (r: bool)
        ensures
            r == !self.halted,
    {
        !self.halted
    }

    /// Handles one message that arrived while waiting for a task.
    pub fn on_packet(&mut self, packet: ClientboundPacket) -> (r: RunnerAction)
        ensures
            (final(self).halted, r) == runner_step(old(self).halted, packet),
    {
        if self.halted {
            return RunnerAction::Stop;
        }
        match packet {
            ClientboundPacket::Find { username } => RunnerAction::Report { username },
            ClientboundPacket::AssignTask(None) => RunnerAction::AskAgain,
            ClientboundPacket::AssignTask(Some(t)) => {
                if let Task::Halt = t {
                    self.halted = true;
                    RunnerAction::Stop
                } else {
                    RunnerAction::Execute(t)
                }
            },
        }
    }
}

/// The answer to `Find { username }`, given where the worker sees that
/// player, if at all.
pub fn position_report(username: String, seen: Option<Position>) -> (r: ServerboundPacket)
    ensures
        r == (ServerboundPacket::ReportPosition {
            username,
            report: match seen {
                Some(p) => PosReport::Found(p),
                None => PosReport::NotHere,
            },
        }),
{
    let report = match seen {
        Some(p) => PosReport::Found(p),
        None => PosReport::NotHere,
    };
    ServerboundPacket::ReportPosition { username, report }
}

/// The words `ws` with one space between each two.
pub open spec fn spaced(ws: Seq<Seq<char>>) -> Seq<char>
    decreases ws.len(),
{
    if ws.len() == 0 {
        Seq::empty()
    } else if ws.len() == 1 {
        ws[0]
    } else {
        ws[0] + seq![' '] + spaced(ws.drop_first())
    }
}

/// What a worker named `username` says for chat line `content`: the words
/// after `gang say` or `<username> say`, joined by spaces.
pub open spec fn say_spec(content: Seq<char>, username: Seq<char>) -> Option<Seq<char>> {
    let w = split_spec(content, ' ');
    if w.len() >= 2 && (w[0] == "gang"@ || w[0] == username) && w[1] == "say"@ {
        Some(spaced(w.skip(2)))
    } else {
        None
    }
}

proof fn lemma_joined_view(a: Seq<String>, b: Seq<String>)
    ensures
        joined(a, b).map_values(|s: String| s@) == joined(
            a.map_values(|s: String| s@),
            b.map_values(|s: String| s@),
        ),
    decreases a.len(),
{
    let av = a.map_values(|s: String| s@);
    let bv = b.map_values(|s: String| s@);
    if a.len() > 1 && b.len() > 0 {
        lemma_joined_view(a.drop_first(), b.drop_first());
        assert(av.drop_first() =~= a.drop_first().map_values(|s: String| s@));
        assert(bv.drop_first() =~= b.drop_first().map_values(|s: String| s@));
    }
    assert(joined(a, b).map_values(|s: String| s@) =~= joined(av, bv));
}

proof fn lemma_joined_spaces(w: Seq<Seq<char>>, sp: Seq<Seq<char>>)
    requires
        sp.len() == w.len(),
        forall|i: int| 0 <= i < sp.len() ==> #[trigger] sp[i] == seq![' '],
    ensures
        joined(w, sp).flatten() == spaced(w),
    decreases w.len(),
{
    if w.len() == 1 {
        assert(joined(w, sp) =~= seq![w[0]]);
        seq![w[0]].lemma_flatten_one_element();
    } else if w.len() > 1 {
        lemma_joined_spaces(w.drop_first(), sp.drop_first());
        let rest = joined(w.drop_first(), sp.drop_first());
        vstd::seq_lib::lemma_flatten_concat(seq![w[0], sp[0]], rest);
        assert(seq![w[0], sp[0]].drop_first() =~= seq![sp[0]]);
        seq![sp[0]].lemma_flatten_one_element();
        assert(seq![w[0], sp[0]].flatten() =~= w[0] + seq![' ']);
    }
}

/// The words joined by single spaces.
pub fn join_spaced(words: Vec<String>) -> (r: String)
    ensures
        r@ == spaced(words@.map_values(|s: String| s@)),
{
    let n = words.len();
    let mut seps: Vec<String> = Vec::new();
    let mut i: usize = 0;
    while i < n
        invariant
            i <= n,
            seps@.len() == i,
            forall|k: int| 0 <= k < i ==> (#[trigger] seps@[k])@ == seq![' '],
        decreases n - i,
    {
        let sp = String::from_str(" ");
        proof {
            reveal_strlit(" ");
        }
        seps.push(sp);
        i = i + 1;
    }
    let ghost wseq = words@;
    let ghost sseq = seps@;
    let ghost wv = words@.map_values(|s: String| s@);
    let ghost sv = seps@.map_values(|s: String| s@);
    let mut join = Join::new(words, seps);
    let parts = join.collect_all();
    let mut out = String::new();
    let m = parts.len();
    let mut j: usize = 0;
    while j < m
        invariant
            m == parts@.len(),
            j <= m,
            out@ == parts@.map_values(|s: String| s@).take(j as int).flatten(),
        decreases m - j,
    {
        let ghost pv = parts@.map_values(|s: String| s@);
        out.append(parts[j].as_str());
        proof {
            assert(pv.take(j + 1) =~= pv.take(j as int).push(pv[j as int]));
            pv.take(j as int).lemma_flatten_push(pv[j as int]);
        }
        j = j + 1;
    }
    proof {
        let pv = parts@.map_values(|s: String| s@);
        assert(pv.take(m as int) =~= pv);
        lemma_joined_view(wseq, sseq);
        assert(sv.len() == wv.len());
        assert forall|k: int| 0 <= k < sv.len() implies #[trigger] sv[k] == seq![' '] by {
            assert(sv[k] == sseq[k]@);
        }
        lemma_joined_spaces(wv, sv);
    }
    out
}

/// The text a worker named `username` is to say for chat line `content`, if any.
pub fn say_text(content: &str, username: &String) -> (r: Option<String>)
    ensures
        match r {
            Some(s) => say_spec(content@, username@) == Some(s@),
            None => say_spec(content@, username@) is None,
        },
{
    let mut words = split_words(content);
    let ghost w = words@.map_values(|s: String| s@);
    if words.len() < 2 {
        return None;
    }
    if !(word_is(&words[0], "gang") || words[0] == *username) {
        return None;
    }
    if !word_is(&words[1], "say") {
        return None;
    }
    let _name = words.remove(0);
    let _verb = words.remove(0);
    assert(words@.map_values(|s: String| s@) =~= w.skip(2));
    Some(join_spaced(words))
}

} // verus!
