use swarm_dispatch::command::CommandParseError;
use swarm_dispatch::operator::OwnerPos;
use swarm_dispatch::per_inst::{PerInstanceTask, PerInstanceTasks};
use swarm_dispatch::protocol::{ClientboundPacket, PosReport, ServerboundPacket};
use swarm_dispatch::region::demolish_tasks;
use swarm_dispatch::tasks::{ChatOutcome, HandshakeError, Reply, Tasks, TasksHead};
use swarm_dispatch::work::{BlockPos, Position, RadiusGoal, Task};

fn pos(x: f64, y: f64, z: f64) -> Position {
    Position { x_bits: x.to_bits(), y_bits: y.to_bits(), z_bits: z.to_bits() }
}

fn mine(x: i32, y: i32, z: i32) -> Task {
    Task::Mine(BlockPos { x, y, z })
}

#[test]
fn override_budget_then_fall_through() {
    let mut t = Tasks::with_owner("op".to_string());
    t.agro(42);
    t.append_to_queue(vec![Task::Jump, mine(1, 2, 3)]);
    for _ in 0..3 {
        assert_eq!(t.next(7, 0), Task::Attack(42));
    }
    // The fourth request from worker 7 falls through to the queue.
    assert_eq!(t.next(7, 0), Task::Jump);
    // Another worker still has its own three repetitions.
    assert_eq!(t.next(8, 0), Task::Attack(42));
    assert_eq!(t.next(7, 0), mine(1, 2, 3));
    // Queue empty, no sighting: idle.
    assert_eq!(t.next(7, 0), Task::Jump);
}

#[test]
fn overrides_in_order_and_independent() {
    let mut o = PerInstanceTasks::new();
    o.new_task(Task::Jump);
    o.new_task_times(Task::Jump, 2);
    assert_eq!(o.task_for(1), Some(Task::Jump));
    assert_eq!(o.task_for(1), Some(Task::Jump));
    assert_eq!(o.task_for(1), Some(Task::Jump));
    assert_eq!(o.task_for(1), None);
    o.clear();
    assert_eq!(o.task_for(2), None);
}

#[test]
fn zero_budget_is_never_served() {
    let mut t = PerInstanceTask::new_times(Task::Halt, 0);
    assert_eq!(t.task_for(1), None);
    let mut t = PerInstanceTask::new(Task::Halt);
    assert_eq!(t.task_for(1), Some(Task::Halt));
    assert_eq!(t.task_for(1), None);
    t.assign_new(Task::Jump);
    assert_eq!(t.task_for(1), Some(Task::Jump));
}

#[test]
fn queue_is_fifo_across_workers() {
    let a = mine(0, 0, 0);
    let b = mine(1, 0, 0);
    let c = mine(2, 0, 0);
    let mut t = Tasks::with_owner("op".to_string());
    t.append_to_queue(vec![a, b, c]);
    assert_eq!(t.next(3, 0), a);
    assert_eq!(t.next(1, 0), b);
    assert_eq!(t.next(3, 0), c);
    assert_eq!(t.next(2, 0), Task::Jump);
}

#[test]
fn demolish_order() {
    let items = demolish_tasks(BlockPos { x: 0, y: 5, z: 0 }, BlockPos { x: 2, y: 3, z: 2 });
    assert_eq!(items.len(), 27);
    let mut expected = Vec::new();
    for y in [5, 4, 3] {
        for x in 0..3 {
            for z in 0..3 {
                expected.push(mine(x, y, z));
            }
        }
    }
    assert_eq!(items, expected);
}

#[test]
fn demolish_single_block_and_swapped_corners() {
    let one = demolish_tasks(BlockPos { x: 4, y: 4, z: 4 }, BlockPos { x: 4, y: 4, z: 4 });
    assert_eq!(one, vec![mine(4, 4, 4)]);
    let swapped = demolish_tasks(BlockPos { x: 1, y: 0, z: 1 }, BlockPos { x: 0, y: 1, z: 0 });
    assert_eq!(swapped[0], mine(0, 1, 0));
    assert_eq!(swapped[7], mine(1, 0, 1));
    assert_eq!(swapped.len(), 8);
}

#[test]
fn operator_freshness() {
    let mut t = Tasks::with_owner("op".to_string());
    let p = pos(10.5, 64.0, -3.25);
    assert!(t.report_position(&"op".to_string(), PosReport::Found(p), 1_000));
    assert_eq!(t.owner_pos, OwnerPos { time: Some(1_000), pos: p });
    assert_eq!(t.next(1, 11_000), Task::Goto(RadiusGoal { pos: p, radius: 10 }));
    assert_eq!(t.next(1, 32_000), Task::Jump);
    // Exactly the threshold is already stale.
    assert_eq!(t.next(1, 31_000), Task::Jump);
    assert_eq!(t.next(1, 30_999), Task::Goto(RadiusGoal { pos: p, radius: 10 }));
}

#[test]
fn no_sighting_means_stale() {
    let p = OwnerPos::default();
    assert!(!p.is_fresh(0));
    assert!(OwnerPos::new(pos(0.0, 0.0, 0.0), 5).is_fresh(5));
}

#[test]
fn report_of_someone_else_is_ignored() {
    let mut t = Tasks::with_owner("op".to_string());
    assert!(!t.report_position(&"other".to_string(), PosReport::Found(pos(1.0, 1.0, 1.0)), 5));
    assert!(!t.report_position(&"op".to_string(), PosReport::NotHere, 5));
    assert_eq!(t.owner_pos.time, None);
}

#[test]
fn chat_dedup_window() {
    let mut t = Tasks::new("op".to_string(), vec![], 0);
    let sender = Some("op".to_string());
    let line = "gang demolish 0 0 0 0 0 0".to_string();
    let first = t.handle_chat(99, sender.clone(), &line, 1_000);
    assert!(matches!(first, ChatOutcome::Applied(_)));
    assert_eq!(t.queue.len(), 1);
    assert_eq!(t.handle_chat(99, sender.clone(), &line, 14_999), ChatOutcome::Duplicate);
    assert_eq!(t.queue.len(), 1);
    let again = t.handle_chat(99, sender, &line, 15_000);
    assert!(matches!(again, ChatOutcome::Applied(_)));
    assert_eq!(t.queue.len(), 2);
}

#[test]
fn chat_from_others_and_bad_commands() {
    let mut t = Tasks::new("op".to_string(), vec![], 0);
    let line = "gang demolish 0 0 0 0 0 0".to_string();
    assert_eq!(t.handle_chat(1, Some("x".to_string()), &line, 0), ChatOutcome::NotACommand);
    assert_eq!(t.handle_chat(2, None, &line, 0), ChatOutcome::NotACommand);
    let bad = "gang demolish 0 zero 0 0 0 0".to_string();
    assert_eq!(
        t.handle_chat(3, Some("op".to_string()), &bad, 0),
        ChatOutcome::Rejected(CommandParseError::BadCoordinate { index: 1 })
    );
    assert_eq!(t.queue.len(), 0);
}

#[test]
fn follow_and_stop_commands() {
    let mut t = Tasks::new("op".to_string(), vec![], 0);
    t.agro(5);
    t.append_to_queue(vec![Task::Jump]);
    let r = t.handle_chat(1, Some("op".to_string()), &"gang stop".to_string(), 0);
    assert!(matches!(r, ChatOutcome::Applied(_)));
    assert_eq!(t.queue.len(), 0);
    assert_eq!(t.next(1, 0), Task::Jump);
    t.handle_chat(2, Some("op".to_string()), &"gang follow alice".to_string(), 0);
    assert_eq!(t.owner, "alice");
    assert_eq!(t.find_request(), ClientboundPacket::Find { username: "alice".to_string() });
}

#[test]
fn handshake_assigns_ids_and_names() {
    let mut t = Tasks::new("op".to_string(), vec!["Bob".to_string(), "ANN".to_string()], 0);
    let a = t.handshake().unwrap();
    let b = t.handshake().unwrap();
    let c = t.handshake().unwrap();
    assert_eq!((a.inst_id, a.name.as_str()), (0, "bob"));
    assert_eq!((b.inst_id, b.name.as_str()), (1, "ann"));
    assert_eq!((c.inst_id, c.name.as_str()), (2, "bob_1"));
    let mut empty = Tasks::with_owner("op".to_string());
    assert_eq!(empty.handshake(), Err(HandshakeError::NamesExhausted));
    let mut full = Tasks::new("op".to_string(), vec!["x".to_string()], 0);
    full.next_inst_id = i32::MAX;
    assert_eq!(full.handshake(), Err(HandshakeError::IdsExhausted));
}

#[test]
fn handle_packet_dispatch() {
    let mut t = Tasks::with_owner("op".to_string());
    assert_eq!(t.handle_packet(ServerboundPacket::Agro { uuid: 9 }, 0), Reply::Nothing);
    assert_eq!(
        t.handle_packet(ServerboundPacket::RequestTask { inst_id: 4 }, 0),
        Reply::Send(ClientboundPacket::AssignTask(Some(Task::Attack(9))))
    );
    assert_eq!(t.handle_packet(ServerboundPacket::Hello { inst_id: 4 }, 0), Reply::Nothing);
    let report = ServerboundPacket::ReportPosition {
        username: "op".to_string(),
        report: PosReport::Found(pos(0.0, 0.0, 0.0)),
    };
    assert_eq!(t.handle_packet(report, 0), Reply::Nothing);
    assert_eq!(t.owner_pos.time, None);
}

#[test]
fn head_answers_jump() {
    let h = TasksHead::new();
    assert_eq!(
        h.respond(&ServerboundPacket::RequestTask { inst_id: 1 }),
        Some(ClientboundPacket::AssignTask(Some(Task::Jump)))
    );
    assert_eq!(h.respond(&ServerboundPacket::Hello { inst_id: 1 }), None);
}

#[test]
fn lookup_due() {
    assert!(OwnerPos::default().is_due(0));
    let p = OwnerPos::new(pos(0.0, 0.0, 0.0), 1_000);
    assert!(!p.is_due(1_300));
    assert!(p.is_due(1_301));
    assert!(!p.is_due(500));
}

#[test]
fn tasks_handle_command() {
    let words = |v: &[&str]| v.iter().map(|s| s.to_string()).collect::<Vec<String>>();
    let mut t = Tasks::with_owner("op".to_string());
    assert_eq!(t.handle_command(&words(&["demolish", "0", "0", "0", "1", "0", "1"])), Ok(()));
    assert_eq!(t.queue.len(), 4);
    assert_eq!(t.handle_command(&words(&["demolish", "0"])), Err(CommandParseError::MissingCoordinate { index: 1 }));
    assert_eq!(t.queue.len(), 4);
    assert_eq!(t.handle_command(&words(&["wave"])), Ok(()));
    assert_eq!(t.handle_command(&words(&["follow", "kim"])), Ok(()));
    assert_eq!(t.owner, "kim");
}
