use swarm_dispatch::connection::{Connection, Phase};
use swarm_dispatch::locator::LocatorRound;
use swarm_dispatch::protocol::{hello_packet, ClientboundPacket, PosReport, ServerboundPacket};
use swarm_dispatch::tasks::{HandshakeError, Reply, Tasks};
use swarm_dispatch::work::{BlockPos, Position, Task};
use swarm_dispatch::worker::{position_report, say_text, Runner, RunnerAction};

fn pos(x: f64) -> Position {
    Position { x_bits: x.to_bits(), y_bits: 0f64.to_bits(), z_bits: 0f64.to_bits() }
}

/// A stand-in for the connection: answers each request from a script and
/// counts the requests.
struct MockTransport {
    answers: Vec<ClientboundPacket>,
    requests: usize,
}

impl MockTransport {
    fn request_task(&mut self) -> ClientboundPacket {
        let answer = self.answers[self.requests].clone();
        self.requests += 1;
        answer
    }
}

#[test]
fn runner_stops_after_halt() {
    let mine = Task::Mine(BlockPos { x: 1, y: 2, z: 3 });
    let mut transport = MockTransport {
        answers: vec![
            ClientboundPacket::AssignTask(Some(Task::Jump)),
            ClientboundPacket::AssignTask(None),
            ClientboundPacket::AssignTask(Some(mine)),
            ClientboundPacket::AssignTask(Some(Task::Halt)),
            ClientboundPacket::AssignTask(Some(Task::Jump)),
            ClientboundPacket::AssignTask(Some(Task::Jump)),
        ],
        requests: 0,
    };
    let mut runner = Runner::new();
    let mut executed = Vec::new();
    while runner.wants_task() {
        let packet = transport.request_task();
        match runner.on_packet(packet) {
            RunnerAction::Execute(t) => executed.push(t),
            RunnerAction::AskAgain => {}
            RunnerAction::Report { .. } => {}
            RunnerAction::Stop => break,
        }
    }
    assert_eq!(transport.requests, 4);
    assert_eq!(executed, vec![Task::Jump, mine]);
    assert!(!runner.wants_task());
    assert_eq!(runner.on_packet(ClientboundPacket::AssignTask(Some(Task::Jump))), RunnerAction::Stop);
}

#[test]
fn runner_answers_find() {
    let mut runner = Runner::new();
    let action = runner.on_packet(ClientboundPacket::Find { username: "op".to_string() });
    assert_eq!(action, RunnerAction::Report { username: "op".to_string() });
    assert!(runner.wants_task());
    assert_eq!(
        position_report("op".to_string(), Some(pos(2.0))),
        ServerboundPacket::ReportPosition { username: "op".to_string(), report: PosReport::Found(pos(2.0)) }
    );
    assert_eq!(
        position_report("op".to_string(), None),
        ServerboundPacket::ReportPosition { username: "op".to_string(), report: PosReport::NotHere }
    );
}

#[test]
fn say_command() {
    let me = "bob".to_string();
    assert_eq!(say_text("gang say hello there", &me), Some("hello there".to_string()));
    assert_eq!(say_text("bob say hi", &me), Some("hi".to_string()));
    assert_eq!(say_text("ann say hi", &me), None);
    assert_eq!(say_text("gang jump", &me), None);
    assert_eq!(say_text("gang say", &me), Some(String::new()));
    assert_eq!(say_text("gang say a  b", &me), Some("a  b".to_string()));
}

#[test]
fn locator_round() {
    let mut t = Tasks::with_owner("op".to_string());
    let mut round = LocatorRound::new(3);
    assert_eq!(round.next_worker(), Some(0));
    let not_here = ServerboundPacket::ReportPosition { username: "op".to_string(), report: PosReport::NotHere };
    assert!(!round.on_response(&mut t, not_here, 100));
    assert_eq!(round.next_worker(), Some(1));
    assert!(!round.on_response(&mut t, ServerboundPacket::Agro { uuid: 1 }, 100));
    let found = ServerboundPacket::ReportPosition { username: "op".to_string(), report: PosReport::Found(pos(3.0)) };
    assert!(round.on_response(&mut t, found, 200));
    assert_eq!(round.next_worker(), None);
    assert_eq!(t.owner_pos.time, Some(200));
    assert_eq!(t.owner_pos.pos, pos(3.0));
    let mut empty = LocatorRound::new(1);
    empty.skip();
    assert_eq!(empty.next_worker(), None);
}

#[test]
fn connection_phases() {
    let mut t = Tasks::new("op".to_string(), vec!["Zed".to_string()], 0);
    let mut c = Connection::new();
    assert_eq!(c.phase, Phase::Handshaking);
    let hello = hello_packet();
    assert_eq!(hello.lucky_number, 6);
    let h = c.on_hello(&mut t, &hello).unwrap();
    assert_eq!(h.name, "zed");
    assert_eq!(c.phase, Phase::Serving { inst_id: 0 });
    assert_eq!(
        c.on_packet(&mut t, ServerboundPacket::RequestTask { inst_id: 0 }, 0),
        Reply::Send(ClientboundPacket::AssignTask(Some(Task::Jump)))
    );
    c.on_io_error();
    assert_eq!(c.phase, Phase::Closed);
    let mut none = Tasks::with_owner("op".to_string());
    let mut c2 = Connection::new();
    assert_eq!(c2.on_hello(&mut none, &hello), Err(HandshakeError::NamesExhausted));
    assert_eq!(c2.phase, Phase::Closed);
}
