//! The dispatcher's state and its decisions: which task each request gets,
//! what each incoming message does, and who a newly connected worker is.

use std::collections::VecDeque;
use vstd::prelude::*;

use crate::chat::{observe, ChatDedup};
use crate::command::{
    chat_command_spec, command_spec, parse_chat_command, parse_command, Command, CommandModel,
    CommandParseError,
};
use crate::namegen::{name_step, NameGen};
use crate::operator::{is_fresh_at, OwnerPos, STALE_AFTER_MS};
use crate::per_inst::{serve, served_task, OverrideView, PerInstanceTasks};
use crate::protocol::{ClientboundHelloPacket, ClientboundPacket, PosReport, ServerboundPacket};
use crate::region::{demolish_tasks, region_tasks};
use crate::work::{Position, RadiusGoal, Task};

verus! {

broadcast use vstd::std_specs::vecdeque::group_vec_dequeue_axioms;

/// How close to the operator an idle worker is sent.
pub const FOLLOW_RADIUS: u32 = 10;

/// How many times each worker is asked to strike back at an attacker.
pub const AGRO_REPEATS: i32 = 3;

/// Why a worker's opening exchange failed; the connection is closed.
#[derive(Clone, Copy, Debug, PartialEq, Eq, Structural)]
pub enum HandshakeError {
    /// The name generator has nothing to hand out.
    NamesExhausted,
    /// Every worker id has been used.
    IdsExhausted,
}

/// What became of a relayed chat line.
#[derive(Clone, Debug, PartialEq, Eq)]
pub enum ChatOutcome {
    /// Its fingerprint was already handled in the current window.
    Duplicate,
    /// New, but not a command from the operator.
    NotACommand,
    /// The operator's command, now carried out.
    Applied(Command),
    /// A malformed command from the operator, dropped.
    Rejected(CommandParseError),
}

/// What the connection handler does after a message.
#[derive(Clone, Debug, PartialEq, Eq)]
pub enum Reply {
    /// Nothing to send.
    Nothing,
    /// Send this answer to the worker.
    Send(ClientboundPacket),
    /// A chat line was processed; nothing to send.
    Chat(ChatOutcome),
}

/// The part of the state that task assignment reads and changes.
pub struct AssignView {
    pub overrides: Seq<OverrideView>,
    pub queue: Seq<Task>,
    pub owner_pos: OwnerPos,
}

/// What an idle worker does when neither an override nor the queue has work.
pub open spec fn fallback(p: OwnerPos, now: u64) -> Task {
    if is_fresh_at(p, now) {
        Task::Goto(RadiusGoal { pos: p.pos, radius: FOLLOW_RADIUS })
    } else {
        Task::Jump
    }
}

/// A request from worker `id` at time `now`: an override that still owes the
/// worker, else the head of the queue, else following a fresh operator
/// sighting, else `Jump`.
pub open spec fn assign(v: AssignView, id: i32, now: u64) -> (AssignView, Task) {
    match served_task(v.overrides, id) {
        Some(t) => (AssignView { overrides: serve(v.overrides, id), ..v }, t),
        None => if v.queue.len() > 0 {
            (AssignView { queue: v.queue.drop_first(), ..v }, v.queue[0])
        } else {
            (v, fallback(v.owner_pos, now))
        },
    }
}

/// The requests `reqs` (worker and time), answered in order.
pub open spec fn assign_run(v: AssignView, reqs: Seq<(i32, u64)>) -> (AssignView, Seq<Task>)
    decreases reqs.len(),
{
    if reqs.len() == 0 {
        (v, Seq::empty())
    } else {
        let (w, out) = assign_run(v, reqs.drop_last());
        let (w2, t) = assign(w, reqs.last().0, reqs.last().1);
        (w2, out.push(t))
    }
}

/// When no override owes any of the requesting workers, the queue is
/// handed out in the order it was filled, whichever workers ask.
pub proof fn lemma_queue_is_fifo(v: AssignView, reqs: Seq<(i32, u64)>)
    requires
        reqs.len() <= v.queue.len(),
        forall|j: int, k: int|
            0 <= j < reqs.len() && 0 <= k < v.overrides.len() ==> !crate::per_inst::owes(
                #[trigger] v.overrides[k],
                #[trigger] reqs[j].0,
            ),
    ensures
        assign_run(v, reqs).1 == v.queue.take(reqs.len() as int),
        assign_run(v, reqs).0.queue == v.queue.skip(reqs.len() as int),
        assign_run(v, reqs).0.overrides == v.overrides,
    decreases reqs.len(),
{
    if reqs.len() > 0 {
        let prev = reqs.drop_last();
        assert forall|j: int, k: int|
            0 <= j < prev.len() && 0 <= k < v.overrides.len() implies !crate::per_inst::owes(
            #[trigger] v.overrides[k],
            #[trigger] prev[j].0,
        ) by {
            assert(prev[j] == reqs[j]);
        }
        lemma_queue_is_fifo(v, prev);
        let w = assign_run(v, prev).0;
        let id = reqs.last().0;
        assert forall|k: int| 0 <= k < w.overrides.len() implies !crate::per_inst::owes(
            #[trigger] w.overrides[k],
            id,
        ) by {
            assert(reqs[reqs.len() - 1].0 == id);
        }
        assert(!exists|k: int| crate::per_inst::is_first_owing(w.overrides, id, k));
        assert(v.queue.take(reqs.len() as int) =~= v.queue.take(prev.len() as int).push(
            v.queue[prev.len() as int],
        ));
        assert(v.queue.skip(reqs.len() as int) =~= v.queue.skip(prev.len() as int).drop_first());
    } else {
        assert(v.queue.take(0) =~= Seq::<Task>::empty());
        assert(v.queue.skip(0) =~= v.queue);
    }
}

/// After a sighting of the operator at `pos` at time `t`, a worker that
/// neither an override nor the queue serves is sent after the operator
/// while the sighting is less than `STALE_AFTER_MS` old, and jumps once it
/// is older.
pub proof fn lemma_follow_fresh_sighting(v: AssignView, id: i32, t: u64, pos: Position, later: u64)
    requires
        served_task(v.overrides, id) is None,
        v.queue.len() == 0,
        v.owner_pos == (OwnerPos { time: Some(t), pos }),
        later >= t,
    ensures
        assign(v, id, later).1 == if later - t < STALE_AFTER_MS {
            Task::Goto(RadiusGoal { pos, radius: FOLLOW_RADIUS })
        } else {
            Task::Jump
        },
{
}

/// The part of the state that the operator's commands change.
pub struct CommandView {
    pub queue: Seq<Task>,
    pub overrides: Seq<OverrideView>,
    pub owner: Seq<char>,
}

/// The state after carrying out command `c`.
pub open spec fn apply_spec(v: CommandView, c: CommandModel) -> CommandView {
    match c {
        CommandModel::Demolish { from, to } => CommandView {
            queue: v.queue + region_tasks(from, to),
            ..v
        },
        CommandModel::Follow { name } => CommandView { owner: name, ..v },
        CommandModel::Stop => CommandView {
            queue: Seq::empty(),
            overrides: Seq::empty(),
            owner: v.owner,
        },
    }
}

/// `new` is `old` after a relayed chat line with fingerprint `hash` from
/// `sender` saying `content` at time `now`, and `r` is what became of it.
pub open spec fn chat_step(
    old: Tasks,
    hash: u64,
    sender: Option<String>,
    content: Seq<char>,
    now: u64,
    r: ChatOutcome,
    new: Tasks,
) -> bool {
    let (d, fresh) = observe(old.chat@, hash, now);
    let from_owner = sender is Some && sender->Some_0@ == old.owner@;
    let unchanged = new.command_view() == old.command_view();
    &&& new.chat@ == d
    &&& new.owner_pos == old.owner_pos
    &&& new.namegen == old.namegen
    &&& new.next_inst_id == old.next_inst_id
    &&& new.wf()
    &&& if !fresh {
        r == ChatOutcome::Duplicate && unchanged
    } else if !from_owner {
        r == ChatOutcome::NotACommand && unchanged
    } else {
        match chat_command_spec(content) {
            Err(e) => r == ChatOutcome::Rejected(e) && unchanged,
            Ok(None) => r == ChatOutcome::NotACommand && unchanged,
            Ok(Some(m)) => {
                &&& r is Applied
                &&& r->Applied_0.model() == m
                &&& new.command_view() == apply_spec(old.command_view(), m)
            },
        }
    }
}

/// `new` is `old` after a worker's opening exchange that gave `r`: the
/// worker gets the next id and the next generated name.
pub open spec fn handshake_step(
    old: Tasks,
    r: Result<ClientboundHelloPacket, HandshakeError>,
    new: Tasks,
) -> bool {
    &&& new.wf()
    &&& new.owner == old.owner
    &&& new.owner_pos == old.owner_pos
    &&& new.queue == old.queue
    &&& new.per_instance_task == old.per_instance_task
    &&& new.chat == old.chat
    &&& new.namegen.names() == old.namegen.names()
    &&& if old.next_inst_id == i32::MAX {
        r == Err::<ClientboundHelloPacket, HandshakeError>(HandshakeError::IdsExhausted)
            && new.namegen == old.namegen && new.next_inst_id == old.next_inst_id
    } else {
        match name_step(old.namegen.names(), old.namegen.index(), old.namegen.round()) {
            None => r == Err::<ClientboundHelloPacket, HandshakeError>(
                HandshakeError::NamesExhausted,
            ) && new.next_inst_id == old.next_inst_id && new.namegen.index()
                == old.namegen.index() && new.namegen.round() == old.namegen.round(),
            Some((name, i, rep)) => {
                &&& r is Ok
                &&& r->Ok_0.name@ == name
                &&& r->Ok_0.inst_id == old.next_inst_id
                &&& new.next_inst_id == old.next_inst_id + 1
                &&& new.namegen.index() == i
                &&& new.namegen.round() == rep
            },
        }
    }
}

/// `new` is `old` after handling message `packet` of a serving connection
/// at time `now`, and `r` is what to do about it.
pub open spec fn packet_step(old: Tasks, packet: ServerboundPacket, now: u64, r: Reply, new: Tasks) -> bool {
    &&& new.wf()
    &&& match packet {
        ServerboundPacket::ChatMessage { hash, sender, content } => {
            &&& r is Chat
            &&& chat_step(old, hash, sender, content@, now, r->Chat_0, new)
        },
        ServerboundPacket::Agro { uuid } => {
            &&& r == Reply::Nothing
            &&& new.per_instance_task@ == old.per_instance_task@.push(
                OverrideView {
                    budget: AGRO_REPEATS,
                    served: Map::empty(),
                    task: Task::Attack(uuid),
                },
            )
            &&& new.queue == old.queue
            &&& new.owner == old.owner
            &&& new.owner_pos == old.owner_pos
            &&& new.chat == old.chat
            &&& new.namegen == old.namegen
            &&& new.next_inst_id == old.next_inst_id
        },
        ServerboundPacket::RequestTask { inst_id } => {
            let (v, t) = assign(old.assign_view(), inst_id, now);
            &&& r == Reply::Send(ClientboundPacket::AssignTask(Some(t)))
            &&& new.assign_view() == v
            &&& new.owner == old.owner
            &&& new.chat == old.chat
            &&& new.namegen == old.namegen
            &&& new.next_inst_id == old.next_inst_id
        },
        _ => r == Reply::Nothing && new == old,
    }
}

/// The dispatcher's state: the operator, the shared queue, the per-worker
/// overrides, chat de-duplication and worker naming.
#[derive(Debug)]
pub struct Tasks {
    pub owner: String,
    pub owner_pos: OwnerPos,
    pub queue: VecDeque<Task>,
    pub per_instance_task: PerInstanceTasks,
    pub chat: ChatDedup,
    pub namegen: NameGen,
    pub next_inst_id: i32,
}

impl Tasks {
    pub open spec fn wf(&self) -> bool {
        &&& self.per_instance_task.wf()
        &&& self.namegen.wf()
        &&& self.next_inst_id >= 0
    }

    pub open spec fn command_view(&self) -> CommandView {
        CommandView { queue: self.queue@, overrides: self.per_instance_task@, owner: self.owner@ }
    }

    pub open spec fn assign_view(&self) -> AssignView {
        AssignView {
            overrides: self.per_instance_task@,
            queue: self.queue@,
            owner_pos: self.owner_pos,
        }
    }

    /// A dispatcher following `owner`, naming workers from `names`, with an
    /// empty queue, no overrides and no sighting yet.
    pub fn new(owner: String, names: Vec<String>, now: u64) -> (r: Self)
        ensures
            r.wf(),
            r.owner == owner,
            r.owner_pos.time is None,
            r.queue@ == Seq::<Task>::empty(),
            r.per_instance_task@ == Seq::<OverrideView>::empty(),
            r.chat@.seen == Seq::<u64>::empty(),
            r.chat@.window_start == now,
            r.namegen.names() == names@.map_values(|n: String| n@),
            r.namegen.index() == 0,
            r.namegen.round() == 0,
            r.next_inst_id == 0,
    {
        Tasks {
            owner,
            owner_pos: OwnerPos::default(),
            queue: VecDeque::new(),
            per_instance_task: PerInstanceTasks::new(),
            chat: ChatDedup::new(now),
            namegen: NameGen::new_from_names(names),
            next_inst_id: 0,
        }
    }

    /// A dispatcher following `owner` with no names to hand out.
    pub fn with_owner(owner: String) -> (r: Self)
        ensures
            r.wf(),
            r.owner == owner,
            r.owner_pos.time is None,
            r.queue@ == Seq::<Task>::empty(),
            r.per_instance_task@ == Seq::<OverrideView>::empty(),
            r.namegen.names() == Seq::<Seq<char>>::empty(),
            r.next_inst_id == 0,
    {
        let names: Vec<String> = Vec::new();
        assert(names@.map_values(|n: String| n@) =~= Seq::<Seq<char>>::empty());
        Self::new(owner, names, 0)
    }

    /// The next task for worker `inst_id` at time `now`.
    pub fn next(&mut self, inst_id: i32, now: u64) -> (r: Task)
        requires
            old(self).wf(),
        ensures
            final(self).wf(),
            (final(self).assign_view(), r) == assign(old(self).assign_view(), inst_id, now),
            final(self).owner == old(self).owner,
            final(self).chat == old(self).chat,
            final(self).namegen == old(self).namegen,
            final(self).next_inst_id == old(self).next_inst_id,
    {
        let ghost before = self.assign_view();
        if let Some(t) = self.per_instance_task.task_for(inst_id) {
            return t;
        }
        if let Some(t) = self.queue.pop_front() {
            assert(self.queue@ =~= before.queue.drop_first());
            return t;
        }
        if self.owner_pos.is_fresh(now) {
            Task::Goto(RadiusGoal { pos: self.owner_pos.pos, radius: FOLLOW_RADIUS })
        } else {
            Task::Jump
        }
    }

    /// Appends `items` to the tail of the shared queue, in order.
    pub fn append_to_queue(&mut self, items: Vec<Task>)
        ensures
            final(self).queue@ == old(self).queue@ + items@,
            final(self).owner == old(self).owner,
            final(self).owner_pos == old(self).owner_pos,
            final(self).per_instance_task == old(self).per_instance_task,
            final(self).chat == old(self).chat,
            final(self).namegen == old(self).namegen,
            final(self).next_inst_id == old(self).next_inst_id,
    {
        let n = items.len();
        let mut i: usize = 0;
        while i < n
            invariant
                n == items@.len(),
                i <= n,
                self.queue@ == old(self).queue@ + items@.subrange(0, i as int),
                self.owner == old(self).owner,
                self.owner_pos == old(self).owner_pos,
                self.per_instance_task == old(self).per_instance_task,
                self.chat == old(self).chat,
                self.namegen == old(self).namegen,
                self.next_inst_id == old(self).next_inst_id,
            decreases n - i,
        {
            self.queue.push_back(items[i]);
            assert(self.queue@ =~= old(self).queue@ + items@.subrange(0, i + 1));
            i = i + 1;
        }
        assert(items@.subrange(0, n as int) =~= items@);
    }

    /// Every worker is to strike back at the actor `uuid`, `AGRO_REPEATS` times.
    pub fn agro(&mut self, uuid: u128)
        requires
            old(self).wf(),
        ensures
            final(self).wf(),
            final(self).per_instance_task@ == old(self).per_instance_task@.push(
                OverrideView {
                    budget: AGRO_REPEATS,
                    served: Map::empty(),
                    task: Task::Attack(uuid),
                },
            ),
            final(self).queue == old(self).queue,
            final(self).owner == old(self).owner,
            final(self).owner_pos == old(self).owner_pos,
            final(self).chat == old(self).chat,
            final(self).namegen == old(self).namegen,
            final(self).next_inst_id == old(self).next_inst_id,
    {
        self.per_instance_task.new_task_times(Task::Attack(uuid), AGRO_REPEATS);
    }

    /// Gives a newly connected worker its id and name.
    pub fn handshake(&mut self) -> (r: Result<ClientboundHelloPacket, HandshakeError>)
        requires
            old(self).wf(),
        ensures
            handshake_step(*old(self), r, *final(self)),
    {
        if self.next_inst_id == i32::MAX {
            return Err(HandshakeError::IdsExhausted);
        }
        match self.namegen.next() {
            None => Err(HandshakeError::NamesExhausted),
            Some(name) => {
                let inst_id = self.next_inst_id;
                self.next_inst_id = inst_id + 1;
                Ok(ClientboundHelloPacket { name, inst_id })
            },
        }
    }

    /// Carries out one of the operator's commands.
    pub fn apply_command(&mut self, cmd: &Command)
        requires
            old(self).wf(),
        ensures
            final(self).wf(),
            final(self).command_view() == apply_spec(old(self).command_view(), cmd.model()),
            final(self).owner_pos == old(self).owner_pos,
            final(self).chat == old(self).chat,
            final(self).namegen == old(self).namegen,
            final(self).next_inst_id == old(self).next_inst_id,
    {
        match cmd {
            Command::Demolish { from, to } => {
                let items = demolish_tasks(*from, *to);
                self.append_to_queue(items);
            },
            Command::Follow { name } => {
                self.owner = name.clone();
            },
            Command::Stop => {
                self.queue.clear();
                self.per_instance_task.clear();
            },
        }
    }

    /// Parses the words that follow `gang` and carries out the command they
    /// give, if any.
    pub fn handle_command(&mut self, words: &Vec<String>) -> (r: Result<(), CommandParseError>)
        requires
            old(self).wf(),
        ensures
            final(self).wf(),
            final(self).owner_pos == old(self).owner_pos,
            final(self).chat == old(self).chat,
            final(self).namegen == old(self).namegen,
            final(self).next_inst_id == old(self).next_inst_id,
            match command_spec(words@.map_values(|w: String| w@)) {
                Err(e) => r == Err::<(), CommandParseError>(e) && final(self).command_view()
                    == old(self).command_view(),
                Ok(None) => r is Ok && final(self).command_view() == old(self).command_view(),
                Ok(Some(m)) => r is Ok && final(self).command_view() == apply_spec(
                    old(self).command_view(),
                    m,
                ),
            },
    {
        match parse_command(words) {
            Err(e) => Err(e),
            Ok(None) => Ok(()),
            Ok(Some(cmd)) => {
                self.apply_command(&cmd);
                Ok(())
            },
        }
    }

    /// Handles a chat line that a worker relayed: drops it if its
    /// fingerprint was seen in the current window, otherwise carries out
    /// the operator's command in it, if any.
    pub fn handle_chat(&mut self, hash: u64, sender: Option<String>, content: &String, now: u64) -> (r:
        ChatOutcome)
        requires
            old(self).wf(),
        ensures
            chat_step(*old(self), hash, sender, content@, now, r, *final(self)),
    {
        if !self.chat.check_and_insert(hash, now) {
            return ChatOutcome::Duplicate;
        }
        let from_owner = match &sender {
            Some(s) => *s == self.owner,
            None => false,
        };
        if !from_owner {
            return ChatOutcome::NotACommand;
        }
        match parse_chat_command(content.as_str()) {
            Err(e) => ChatOutcome::Rejected(e),
            Ok(None) => ChatOutcome::NotACommand,
            Ok(Some(cmd)) => {
                self.apply_command(&cmd);
                ChatOutcome::Applied(cmd)
            },
        }
    }

    /// Handles one message from a serving connection at time `now`.
    pub fn handle_packet(&mut self, packet: ServerboundPacket, now: u64) -> (r: Reply)
        requires
            old(self).wf(),
        ensures
            final(self).wf(),
            packet_step(*old(self), packet, now, r, *final(self)),
    {
        match packet {
            ServerboundPacket::ChatMessage { hash, sender, content } => {
                Reply::Chat(self.handle_chat(hash, sender, &content, now))
            },
            ServerboundPacket::Agro { uuid } => {
                self.agro(uuid);
                Reply::Nothing
            },
            ServerboundPacket::RequestTask { inst_id } => {
                let t = self.next(inst_id, now);
                Reply::Send(ClientboundPacket::AssignTask(Some(t)))
            },
            _ => Reply::Nothing,
        }
    }

    /// The question the operator locator asks every worker.
    pub fn find_request(&self) -> (r: ClientboundPacket)
        ensures
            (r matches ClientboundPacket::Find { username } && username@ == self.owner@),
    {
        ClientboundPacket::Find { username: self.owner.clone() }
    }

    /// Records a worker's answer to `Find`. True when it is a sighting of the
    /// current operator, which then becomes the operator's position as of `now`.
    pub fn report_position(&mut self, username: &String, report: PosReport, now: u64) -> (r: bool)
        ensures
            r == (username@ == old(self).owner@ && report is Found),
            r ==> final(self).owner_pos == (OwnerPos { time: Some(now), pos: report->Found_0 }),
            !r ==> final(self).owner_pos == old(self).owner_pos,
            final(self).owner == old(self).owner,
            final(self).queue == old(self).queue,
            final(self).per_instance_task == old(self).per_instance_task,
            final(self).chat == old(self).chat,
            final(self).namegen == old(self).namegen,
            final(self).next_inst_id == old(self).next_inst_id,
    {
        if *username != self.owner {
            return false;
        }
        match report {
            PosReport::Found(pos) => {
                self.owner_pos = OwnerPos::new(pos, now);
                true
            },
            PosReport::NotHere => false,
        }
    }
}

/// A dispatcher that only keeps its workers busy: every task request is
/// answered with `Jump`, and nothing else is answered.
#[derive(Clone, Copy, Debug, PartialEq, Eq)]
pub struct TasksHead {}

impl TasksHead {
    pub fn new() -> (r: Self) {
        TasksHead {}
    }

    /// The answer to `packet`, if it needs one.
    pub fn respond(&self, packet: &ServerboundPacket) -> (r: Option<ClientboundPacket>)
        ensures
            packet is RequestTask ==> r == Some(ClientboundPacket::AssignTask(Some(Task::Jump))),
            !(packet is RequestTask) ==> r is None,
    {
        match packet {
            ServerboundPacket::RequestTask { .. } => Some(ClientboundPacket::AssignTask(Some(Task::Jump))),
            _ => None,
        }
    }
}

} // verus!
