use swarm_dispatch::command::CommandParseError;
use swarm_dispatch::swarm::{
    around_offsets, claim_first, execute, execute_swarm, mine, path, BotCommand, MineTarget,
    PathCommand, SwarmCommand,
};
use swarm_dispatch::work::BlockPos;

fn strings(v: &[&str]) -> Vec<String> {
    v.iter().map(|s| s.to_string()).collect()
}

fn b(x: i32, y: i32, z: i32) -> BlockPos {
    BlockPos { x, y, z }
}

#[test]
fn mine_commands() {
    assert_eq!(
        execute_swarm("gang mine everything from 1 2 3 to -4 5 6"),
        Ok(Some(SwarmCommand::MineRegion { from: b(1, 2, 3), to: b(-4, 5, 6) }))
    );
    assert_eq!(
        mine(&strings(&["everything", "from", "1", "2", "3", "til", "4", "5", "6"])),
        Err(CommandParseError::MissingKeyword)
    );
    assert_eq!(
        mine(&strings(&["everything", "from", "1", "2"])),
        Err(CommandParseError::MissingCoordinate { index: 2 })
    );
    assert_eq!(
        mine(&strings(&["everything", "from", "1", "2", "3", "to", "4", "q", "6"])),
        Err(CommandParseError::BadCoordinate { index: 4 })
    );
    assert_eq!(
        mine(&strings(&["everything"])),
        Ok(Some(SwarmCommand::MineNearby { target: MineTarget::Everything, per_bot: 30 }))
    );
    assert_eq!(mine(&strings(&["everything", "else"])), Ok(None));
    assert_eq!(
        mine(&strings(&["grass"])),
        Ok(Some(SwarmCommand::MineNearby { target: MineTarget::Grass, per_bot: 10 }))
    );
    assert_eq!(mine(&strings(&["leaves"])), Ok(Some(SwarmCommand::MineOne { target: MineTarget::Leaves })));
    assert_eq!(mine(&strings(&["wood"])), Ok(Some(SwarmCommand::MineOne { target: MineTarget::Wood })));
    assert_eq!(mine(&strings(&["gold"])), Ok(None));
    assert_eq!(execute_swarm("bob mine grass"), Ok(None));
}

#[test]
fn path_commands() {
    assert_eq!(path(&strings(&["here"])), Ok(Some(PathCommand::Here)));
    assert_eq!(path(&strings(&["around"])), Ok(Some(PathCommand::Around { radius: 8 })));
    assert_eq!(path(&strings(&["around", "20"])), Ok(Some(PathCommand::Around { radius: 20 })));
    assert_eq!(path(&strings(&["around", "0"])), Err(CommandParseError::BadRadius));
    assert_eq!(path(&strings(&["to"])), Err(CommandParseError::MissingCoordinate { index: 0 }));
    assert_eq!(path(&strings(&["to", "70"])), Ok(Some(PathCommand::ToY { y: 70 })));
    assert_eq!(path(&strings(&["to", "1", "-2"])), Ok(Some(PathCommand::ToXZ { x: 1, z: -2 })));
    assert_eq!(path(&strings(&["to", "1", "2", "3"])), Ok(Some(PathCommand::ToBlock(b(1, 2, 3)))));
    assert_eq!(path(&strings(&["to", "1", "x", "3"])), Err(CommandParseError::BadCoordinate { index: 1 }));
}

#[test]
fn bot_commands() {
    assert_eq!(execute(strings(&["say", "hi", "all"])), Ok(Some(BotCommand::Say("hi all".to_string()))));
    assert_eq!(execute(strings(&["jump"])), Ok(Some(BotCommand::Jump)));
    assert_eq!(execute(strings(&["path", "here"])), Ok(Some(BotCommand::Path(PathCommand::Here))));
    assert_eq!(execute(strings(&["path", "nowhere"])), Ok(None));
    assert_eq!(execute(strings(&["dig"])), Ok(None));
    assert_eq!(execute(vec![]), Ok(None));
}

#[test]
fn claims_do_not_collide() {
    let mut claimed = vec![b(0, 0, 0)];
    let candidates = vec![b(0, 0, 0), b(1, 0, 0), b(2, 0, 0)];
    assert_eq!(claim_first(&candidates, &mut claimed), Some(b(1, 0, 0)));
    assert_eq!(claim_first(&candidates, &mut claimed), Some(b(2, 0, 0)));
    assert_eq!(claim_first(&candidates, &mut claimed), None);
    assert_eq!(claimed, vec![b(0, 0, 0), b(1, 0, 0), b(2, 0, 0)]);
}

#[test]
fn around_offsets_follow_the_generator() {
    let k: u64 = 6364136223846793005;
    let seed: u32 = 123_456_789;
    let s1 = (seed as u64).wrapping_mul(k).wrapping_add(1);
    let s2 = s1.wrapping_mul(k).wrapping_add(1);
    assert_eq!(around_offsets(seed, 8), ((s1 % 8) as u32, (s2 % 8) as u32));
    assert_eq!(around_offsets(0, 1), (0, 0));
}
