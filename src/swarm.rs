//! Direct chat commands to the bots, without a dispatcher: `gang mine ...`
//! for the whole swarm, and `<name> say|jump|path ...` for one bot.

use vstd::prelude::*;

use crate::command::{word_is, CommandParseError};
use crate::text::{parse_i32, parse_i32_spec, parse_u64, parse_u64_spec, split_spec, split_words};
use crate::work::BlockPos;
use crate::worker::{join_spaced, spaced};

verus! {

/// The block kinds a mining command looks for.
#[derive(Clone, Copy, Debug, PartialEq, Eq, Structural)]
pub enum MineTarget {
    /// Grass, dirt and oak logs.
    Everything,
    Grass,
    Leaves,
    Wood,
}

/// A command for the whole swarm.
#[derive(Clone, Copy, Debug, PartialEq, Eq, Structural)]
pub enum SwarmCommand {
    /// Mine every block of the box, top layer first.
    MineRegion { from: BlockPos, to: BlockPos },
    /// Each bot mines up to `per_bot` nearby blocks of the target kinds.
    MineNearby { target: MineTarget, per_bot: i32 },
    /// Each bot mines one nearby block of the target kinds.
    MineOne { target: MineTarget },
}

/// Where a `path` command sends a bot.
#[derive(Clone, Copy, Debug, PartialEq, Eq, Structural)]
pub enum PathCommand {
    /// To the player who gave the command.
    Here,
    /// To a random spot within `radius` blocks.
    Around { radius: u64 },
    ToBlock(BlockPos),
    ToXZ { x: i32, z: i32 },
    ToY { y: i32 },
}

/// A command for one bot.
#[derive(Clone, Debug, PartialEq, Eq)]
pub enum BotCommand {
    Say(String),
    Jump,
    Path(PathCommand),
}

/// A bot command with its text as a plain sequence.
pub enum BotModel {
    Say(Seq<char>),
    Jump,
    Path(PathCommand),
}

impl BotCommand {
    pub open spec fn model(self) -> BotModel {
        match self {
            BotCommand::Say(s) => BotModel::Say(s@),
            BotCommand::Jump => BotModel::Jump,
            BotCommand::Path(p) => BotModel::Path(p),
        }
    }
}

/// How far `path around` goes when no radius is given.
pub const DEFAULT_RADIUS: u64 = 8;

/// How many blocks each bot mines for `mine everything`.
pub const EVERYTHING_PER_BOT: i32 = 30;

/// How many blocks each bot mines for `mine grass`.
pub const GRASS_PER_BOT: i32 = 10;

/// The number at word `idx`, coordinate number `k` of the command.
pub open spec fn num_at(w: Seq<Seq<char>>, idx: int, k: int) -> Result<i32, CommandParseError> {
    if idx >= w.len() {
        Err(CommandParseError::MissingCoordinate { index: k as usize })
    } else {
        match parse_i32_spec(w[idx]) {
            Some(v) => Ok(v),
            None => Err(CommandParseError::BadCoordinate { index: k as usize }),
        }
    }
}

/// Three coordinates from word `idx` on, numbered from `k`.
pub open spec fn block_at(w: Seq<Seq<char>>, idx: int, k: int) -> Result<BlockPos, CommandParseError> {
    match num_at(w, idx, k) {
        Err(e) => Err(e),
        Ok(x) => match num_at(w, idx + 1, k + 1) {
            Err(e) => Err(e),
            Ok(y) => match num_at(w, idx + 2, k + 2) {
                Err(e) => Err(e),
                Ok(z) => Ok(BlockPos { x, y, z }),
            },
        },
    }
}

/// What the words after `mine` ask for.
pub open spec fn mine_spec(w: Seq<Seq<char>>) -> Result<Option<SwarmCommand>, CommandParseError> {
    if w.len() == 0 {
        Ok(None)
    } else if w[0] == "everything"@ {
        if w.len() == 1 {
            Ok(Some(SwarmCommand::MineNearby { target: MineTarget::Everything, per_bot: EVERYTHING_PER_BOT }))
        } else if w[1] == "from"@ {
            match block_at(w, 2, 0) {
                Err(e) => Err(e),
                Ok(from) => if w.len() <= 5 || w[5] != "to"@ {
                    Err(CommandParseError::MissingKeyword)
                } else {
                    match block_at(w, 6, 3) {
                        Err(e) => Err(e),
                        Ok(to) => Ok(Some(SwarmCommand::MineRegion { from, to })),
                    }
                },
            }
        } else {
            Ok(None)
        }
    } else if w[0] == "grass"@ {
        Ok(Some(SwarmCommand::MineNearby { target: MineTarget::Grass, per_bot: GRASS_PER_BOT }))
    } else if w[0] == "leaves"@ {
        Ok(Some(SwarmCommand::MineOne { target: MineTarget::Leaves }))
    } else if w[0] == "wood"@ {
        Ok(Some(SwarmCommand::MineOne { target: MineTarget::Wood }))
    } else {
        Ok(None)
    }
}

/// What the words after `path` ask for.
pub open spec fn path_spec(w: Seq<Seq<char>>) -> Result<Option<PathCommand>, CommandParseError> {
    if w.len() == 0 {
        Ok(None)
    } else if w[0] == "here"@ {
        Ok(Some(PathCommand::Here))
    } else if w[0] == "around"@ {
        if w.len() < 2 {
            Ok(Some(PathCommand::Around { radius: DEFAULT_RADIUS }))
        } else {
            match parse_u64_spec(w[1]) {
                Some(r) => if r > 0 {
                    Ok(Some(PathCommand::Around { radius: r }))
                } else {
                    Err(CommandParseError::BadRadius)
                },
                None => Err(CommandParseError::BadRadius),
            }
        }
    } else if w[0] == "to"@ {
        if w.len() < 3 {
            match num_at(w, 1, 0) {
                Err(e) => Err(e),
                Ok(y) => Ok(Some(PathCommand::ToY { y })),
            }
        } else if w.len() < 4 {
            match num_at(w, 1, 0) {
                Err(e) => Err(e),
                Ok(x) => match num_at(w, 2, 1) {
                    Err(e) => Err(e),
                    Ok(z) => Ok(Some(PathCommand::ToXZ { x, z })),
                },
            }
        } else {
            match block_at(w, 1, 0) {
                Err(e) => Err(e),
                Ok(b) => Ok(Some(PathCommand::ToBlock(b))),
            }
        }
    } else {
        Ok(None)
    }
}

/// What the words after a bot's name ask of it.
pub open spec fn bot_spec(w: Seq<Seq<char>>) -> Result<Option<BotModel>, CommandParseError> {
    if w.len() == 0 {
        Ok(None)
    } else if w[0] == "say"@ {
        Ok(Some(BotModel::Say(spaced(w.drop_first()))))
    } else if w[0] == "jump"@ {
        Ok(Some(BotModel::Jump))
    } else if w[0] == "path"@ {
        match path_spec(w.drop_first()) {
            Err(e) => Err(e),
            Ok(None) => Ok(None),
            Ok(Some(p)) => Ok(Some(BotModel::Path(p))),
        }
    } else {
        Ok(None)
    }
}

fn num(words: &Vec<String>, idx: usize, k: usize) -> (r: Result<i32, CommandParseError>)
    ensures
        r == num_at(words@.map_values(|s: String| s@), idx as int, k as int),
{
    if idx >= words.len() {
        return Err(CommandParseError::MissingCoordinate { index: k });
    }
    match parse_i32(words[idx].as_str()) {
        Some(v) => Ok(v),
        None => Err(CommandParseError::BadCoordinate { index: k }),
    }
}

fn block(words: &Vec<String>, idx: usize, k: usize) -> (r: Result<BlockPos, CommandParseError>)
    requires
        idx + 2 < usize::MAX,
        k + 2 < usize::MAX,
    ensures
        r == block_at(words@.map_values(|s: String| s@), idx as int, k as int),
{
    let x = match num(words, idx, k) {
        Ok(v) => v,
        Err(e) => return Err(e),
    };
    let y = match num(words, idx + 1, k + 1) {
        Ok(v) => v,
        Err(e) => return Err(e),
    };
    let z = match num(words, idx + 2, k + 2) {
        Ok(v) => v,
        Err(e) => return Err(e),
    };
    Ok(BlockPos { x, y, z })
}

/// Parses the words that follow `mine`.
pub fn mine(words: &Vec<String>) -> (r: Result<Option<SwarmCommand>, CommandParseError>)
    ensures
        r == mine_spec(words@.map_values(|s: String| s@)),
{
    let ghost w = words@.map_values(|s: String| s@);
    if words.len() == 0 {
        return Ok(None);
    }
    if word_is(&words[0], "everything") {
        if words.len() == 1 {
            return Ok(Some(SwarmCommand::MineNearby { target: MineTarget::Everything, per_bot: EVERYTHING_PER_BOT }));
        }
        if !word_is(&words[1], "from") {
            return Ok(None);
        }
        let from = match block(words, 2, 0) {
            Ok(b) => b,
            Err(e) => return Err(e),
        };
        if words.len() <= 5 || !word_is(&words[5], "to") {
            return Err(CommandParseError::MissingKeyword);
        }
        let to = match block(words, 6, 3) {
            Ok(b) => b,
            Err(e) => return Err(e),
        };
        return Ok(Some(SwarmCommand::MineRegion { from, to }));
    }
    if word_is(&words[0], "grass") {
        return Ok(Some(SwarmCommand::MineNearby { target: MineTarget::Grass, per_bot: GRASS_PER_BOT }));
    }
    if word_is(&words[0], "leaves") {
        return Ok(Some(SwarmCommand::MineOne { target: MineTarget::Leaves }));
    }
    if word_is(&words[0], "wood") {
        return Ok(Some(SwarmCommand::MineOne { target: MineTarget::Wood }));
    }
    Ok(None)
}

/// Parses the words that follow `path`.
pub fn path(words: &Vec<String>) -> (r: Result<Option<PathCommand>, CommandParseError>)
    ensures
        r == path_spec(words@.map_values(|s: String| s@)),
{
    if words.len() == 0 {
        return Ok(None);
    }
    if word_is(&words[0], "here") {
        return Ok(Some(PathCommand::Here));
    }
    if word_is(&words[0], "around") {
        if words.len() < 2 {
            return Ok(Some(PathCommand::Around { radius: DEFAULT_RADIUS }));
        }
        return match parse_u64(words[1].as_str()) {
            Some(r) => if r > 0 {
                Ok(Some(PathCommand::Around { radius: r }))
            } else {
                Err(CommandParseError::BadRadius)
            },
            None => Err(CommandParseError::BadRadius),
        };
    }
    if word_is(&words[0], "to") {
        if words.len() < 3 {
            return match num(words, 1, 0) {
                Err(e) => Err(e),
                Ok(y) => Ok(Some(PathCommand::ToY { y })),
            };
        }
        if words.len() < 4 {
            let x = match num(words, 1, 0) {
                Ok(v) => v,
                Err(e) => return Err(e),
            };
            let z = match num(words, 2, 1) {
                Ok(v) => v,
                Err(e) => return Err(e),
            };
            return Ok(Some(PathCommand::ToXZ { x, z }));
        }
        return match block(words, 1, 0) {
            Err(e) => Err(e),
            Ok(b) => Ok(Some(PathCommand::ToBlock(b))),
        };
    }
    Ok(None)
}

/// Parses the words that follow a bot's name.
pub fn execute(words: Vec<String>) -> (r: Result<Option<BotCommand>, CommandParseError>)
    ensures
        match r {
            Ok(Some(c)) => bot_spec(words@.map_values(|s: String| s@)) == Ok::<
                Option<BotModel>,
                CommandParseError,
            >(Some(c.model())),
            Ok(None) => bot_spec(words@.map_values(|s: String| s@)) == Ok::<
                Option<BotModel>,
                CommandParseError,
            >(None),
            Err(e) => bot_spec(words@.map_values(|s: String| s@)) == Err::<
                Option<BotModel>,
                CommandParseError,
            >(e),
        },
{
    let ghost w = words@.map_values(|s: String| s@);
    let mut words = words;
    if words.len() == 0 {
        return Ok(None);
    }
    let is_say = word_is(&words[0], "say");
    if !is_say && word_is(&words[0], "jump") {
        return Ok(Some(BotCommand::Jump));
    }
    let is_path = !is_say && word_is(&words[0], "path");
    if !is_say && !is_path {
        return Ok(None);
    }
    let _verb = words.remove(0);
    assert(words@.map_values(|s: String| s@) =~= w.drop_first());
    if is_say {
        return Ok(Some(BotCommand::Say(join_spaced(words))));
    }
    match path(&words) {
        Err(e) => Err(e),
        Ok(None) => Ok(None),
        Ok(Some(p)) => Ok(Some(BotCommand::Path(p))),
    }
}

/// A swarm command in a chat line: `gang mine ...`.
pub open spec fn swarm_line_spec(s: Seq<char>) -> Result<Option<SwarmCommand>, CommandParseError> {
    let w = split_spec(s, ' ');
    if w.len() >= 2 && w[0] == "gang"@ && w[1] == "mine"@ {
        mine_spec(w.skip(2))
    } else {
        Ok(None)
    }
}

/// Parses a chat line addressed to the whole swarm.
pub fn execute_swarm(content: &str) -> (r: Result<Option<SwarmCommand>, CommandParseError>)
    ensures
        r == swarm_line_spec(content@),
{
    let mut words = split_words(content);
    let ghost w = words@.map_values(|s: String| s@);
    if words.len() < 2 || !word_is(&words[0], "gang") || !word_is(&words[1], "mine") {
        return Ok(None);
    }
    let _gang = words.remove(0);
    let _verb = words.remove(0);
    assert(words@.map_values(|s: String| s@) =~= w.skip(2));
    mine(&words)
}

/// The first of `candidates` that no bot has claimed yet.
pub open spec fn first_free(candidates: Seq<BlockPos>, claimed: Seq<BlockPos>) -> Option<BlockPos>
    decreases candidates.len(),
{
    if candidates.len() == 0 {
        None
    } else if !claimed.contains(candidates[0]) {
        Some(candidates[0])
    } else {
        first_free(candidates.drop_first(), claimed)
    }
}

/// Claims the first unclaimed block among `candidates`, so that no two bots
/// go for the same block.
pub fn claim_first(candidates: &Vec<BlockPos>, claimed: &mut Vec<BlockPos>) -> (r: Option<BlockPos>)
    ensures
        r == first_free(candidates@, old(claimed)@),
        match r {
            Some(p) => final(claimed)@ == old(claimed)@.push(p),
            None => final(claimed)@ == old(claimed)@,
        },
{
    let n = candidates.len();
    let mut i: usize = 0;
    assert(candidates@.skip(0) =~= candidates@);
    while i < n
        invariant
            n == candidates@.len(),
            i <= n,
            *claimed == *old(claimed),
            first_free(candidates@, claimed@) == first_free(candidates@.skip(i as int), claimed@),
        decreases n - i,
    {
        let c = candidates[i];
        let ghost rest = candidates@.skip(i as int);
        assert(rest.drop_first() =~= candidates@.skip(i + 1));
        let mut taken = false;
        let m = claimed.len();
        let mut j: usize = 0;
        while j < m
            invariant
                m == claimed@.len(),
                j <= m,
                !taken ==> forall|k: int| 0 <= k < j ==> claimed@[k] != c,
                taken ==> claimed@.contains(c),
            decreases m - j,
        {
            if claimed[j] == c {
                taken = true;
                assert(claimed@[j as int] == c);
            }
            j = j + 1;
        }
        if !taken {
            claimed.push(c);
            return Some(c);
        }
        i = i + 1;
    }
    assert(candidates@.skip(n as int) =~= Seq::<BlockPos>::empty());
    None
}

/// One step of the generator behind `path around`: multiply by
/// 6364136223846793005, then add one, each wrapping at 2^64.
pub open spec fn lcg(seed: u64) -> u64 {
    (((seed as nat * 6364136223846793005nat) % 18446744073709551616nat + 1)
        % 18446744073709551616nat) as u64
}

/// The offsets of a `path around` target within `radius`, drawn from `seed`
/// (the sub-second nanoseconds of the clock).
pub fn around_offsets(seed: u32, radius: u64) -> (r: (u32, u32))
    requires
        radius > 0,
    ensures
        r == ((lcg(seed as u64) % radius) as u32, (lcg(lcg(seed as u64)) % radius) as u32),
{
    let mut s: u64 = seed as u64;
    s = s.wrapping_mul(6364136223846793005).wrapping_add(1);
    let x = (s % radius) as u32;
    s = s.wrapping_mul(6364136223846793005).wrapping_add(1);
    let z = (s % radius) as u32;
    (x, z)
}

} // verus!
