use swarm_dispatch::args::{parse_args, ArgsError, RunMode};
use swarm_dispatch::command::{parse_command, parse_chat_command, Command, CommandParseError};
use swarm_dispatch::goals::CheckerGoal;
use swarm_dispatch::namegen::{display_name, NameGen};
use swarm_dispatch::text::{parse_i32, push_decimal, split_on, split_words};
use swarm_dispatch::work::BlockPos;

fn strings(v: &[&str]) -> Vec<String> {
    v.iter().map(|s| s.to_string()).collect()
}

#[test]
fn parse_i32_like_std() {
    for s in ["0", "-0", "+7", "42", "-2147483648", "2147483647", "", "-", "+", "2147483648", "-2147483649", "1a", " 1", "99999999999999999999", "007"] {
        assert_eq!(parse_i32(s), s.parse::<i32>().ok(), "{s:?}");
    }
}

#[test]
fn split_like_std() {
    for s in ["", "a", "a b", " a  b ", "gang demolish 1 2 3"] {
        let expected: Vec<String> = s.split(' ').map(|w| w.to_string()).collect();
        assert_eq!(split_words(s), expected);
    }
    assert_eq!(split_on("5*20", '*'), strings(&["5", "20"]));
}

#[test]
fn decimal_digits() {
    let mut s = String::from("n");
    push_decimal(&mut s, 1207);
    assert_eq!(s, "n1207");
    assert_eq!(display_name("amy".to_string(), 0), "amy");
    assert_eq!(display_name("amy".to_string(), 12), "amy_12");
}

#[test]
fn namegen_lowercases_and_cycles() {
    let mut g = NameGen::new_from_names(strings(&["Alpha", "BETA"]));
    assert_eq!(g.next().as_deref(), Some("alpha"));
    assert_eq!(g.next().as_deref(), Some("beta"));
    assert_eq!(g.next().as_deref(), Some("alpha_1"));
    assert_eq!(g.next().as_deref(), Some("beta_1"));
    assert_eq!(g.next().as_deref(), Some("alpha_2"));
    let mut empty = NameGen::new_from_names(vec![]);
    assert_eq!(empty.next(), None);
}

#[test]
fn commands() {
    assert_eq!(
        parse_command(&strings(&["demolish", "0", "5", "0", "2", "3", "2"])),
        Ok(Some(Command::Demolish { from: BlockPos { x: 0, y: 5, z: 0 }, to: BlockPos { x: 2, y: 3, z: 2 } }))
    );
    assert_eq!(parse_command(&strings(&["demolish", "1", "2"])), Err(CommandParseError::MissingCoordinate { index: 2 }));
    assert_eq!(parse_command(&strings(&["demolish", "1", "x", "3"])), Err(CommandParseError::BadCoordinate { index: 1 }));
    assert_eq!(parse_command(&strings(&["follow"])), Err(CommandParseError::MissingName));
    assert_eq!(parse_command(&strings(&["follow", "amy"])), Ok(Some(Command::Follow { name: "amy".to_string() })));
    assert_eq!(parse_command(&strings(&["stop"])), Ok(Some(Command::Stop)));
    assert_eq!(parse_command(&strings(&["dance"])), Ok(None));
    assert_eq!(parse_command(&vec![]), Err(CommandParseError::MissingVerb));
    assert_eq!(parse_chat_command("gang"), Err(CommandParseError::MissingVerb));
    assert_eq!(parse_chat_command("hello gang stop"), Ok(None));
    assert_eq!(parse_chat_command("gang stop"), Ok(Some(Command::Stop)));
}

#[test]
fn run_modes() {
    assert_eq!(parse_args(&vec![]), Ok(RunMode::Usage));
    assert_eq!(parse_args(&strings(&["single_process"])), Ok(RunMode::SingleProcess));
    assert_eq!(parse_args(&strings(&["server", "op"])), Ok(RunMode::Server { owner: "op".to_string() }));
    assert_eq!(parse_args(&strings(&["server"])), Err(ArgsError::MissingOwner));
    assert_eq!(parse_args(&strings(&["clients"])), Ok(RunMode::Clients { accounts: 20 }));
    assert_eq!(parse_args(&strings(&["clients", "3"])), Ok(RunMode::Clients { accounts: 3 }));
    assert_eq!(parse_args(&strings(&["clients", "-3"])), Err(ArgsError::BadNumber));
    assert_eq!(
        parse_args(&strings(&["master", "5*20", "op"])),
        Ok(RunMode::Master { clients_per_process: 5, processes: 20, owner: "op".to_string() })
    );
    assert_eq!(parse_args(&strings(&["master", "5"])), Err(ArgsError::MissingLayout));
    assert_eq!(parse_args(&strings(&["master", "5*x", "op"])), Err(ArgsError::BadNumber));
    assert_eq!(parse_args(&strings(&["master", "5*2"])), Err(ArgsError::MissingOwner));
    assert_eq!(parse_args(&strings(&["fly"])), Err(ArgsError::UnknownMode));
}

#[test]
fn checker_goal() {
    let g = CheckerGoal;
    assert!(g.success(BlockPos { x: 1, y: 0, z: 0 }));
    assert!(g.success(BlockPos { x: 4, y: 9, z: 9 }));
    assert!(!g.success(BlockPos { x: 3, y: 0, z: 0 }));
    assert!(!g.success(BlockPos { x: -2, y: 0, z: 0 }));
}
