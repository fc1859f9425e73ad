//! The operator's chat commands: `gang demolish x y z x y z`,
//! `gang follow <name>` and `gang stop`.

use vstd::prelude::*;

use crate::text::{parse_i32, parse_i32_spec, split_spec, split_words};
use crate::work::BlockPos;

verus! {

/// A command the operator can give.
#[derive(Clone, Debug, PartialEq, Eq)]
pub enum Command {
    /// Mine every block of the box spanned by the two corners.
    Demolish { from: BlockPos, to: BlockPos },
    /// Follow another player from now on.
    Follow { name: String },
    /// Drop the queue and every override.
    Stop,
}

/// A malformed command. It is reported and dropped.
#[derive(Clone, Copy, Debug, PartialEq, Eq, Structural)]
pub enum CommandParseError {
    /// `gang` with nothing after it.
    MissingVerb,
    /// Coordinate number `index` (0 to 5) is absent.
    MissingCoordinate { index: usize },
    /// Coordinate number `index` (0 to 5) is not a decimal `i32`.
    BadCoordinate { index: usize },
    /// `follow` without a name.
    MissingName,
    /// The keyword `to` between the two corners is absent.
    MissingKeyword,
    /// A radius that is not a positive decimal `u64`.
    BadRadius,
}

/// A command with its text as plain sequences.
pub enum CommandModel {
    Demolish { from: BlockPos, to: BlockPos },
    Follow { name: Seq<char> },
    Stop,
}

impl Command {
    pub open spec fn model(self) -> CommandModel {
        match self {
            Command::Demolish { from, to } => CommandModel::Demolish { from, to },
            Command::Follow { name } => CommandModel::Follow { name: name@ },
            Command::Stop => CommandModel::Stop,
        }
    }
}

pub open spec fn result_model(r: Result<Option<Command>, CommandParseError>) -> Result<
    Option<CommandModel>,
    CommandParseError,
> {
    match r {
        Ok(Some(c)) => Ok(Some(c.model())),
        Ok(None) => Ok(None),
        Err(e) => Err(e),
    }
}

/// Coordinate number `k` of a command whose verb is `w[0]`.
pub open spec fn coordinate_spec(w: Seq<Seq<char>>, k: int) -> Result<i32, CommandParseError> {
    if k + 1 >= w.len() {
        Err(CommandParseError::MissingCoordinate { index: k as usize })
    } else {
        match parse_i32_spec(w[k + 1]) {
            Some(v) => Ok(v),
            None => Err(CommandParseError::BadCoordinate { index: k as usize }),
        }
    }
}

/// Coordinates `k` to 5, or the error of the first one that fails.
pub open spec fn coordinates_from(w: Seq<Seq<char>>, k: int) -> Result<Seq<i32>, CommandParseError>
    decreases 6 - k,
{
    if k >= 6 {
        Ok(Seq::empty())
    } else {
        match coordinate_spec(w, k) {
            Err(e) => Err(e),
            Ok(v) => match coordinates_from(w, k + 1) {
                Ok(rest) => Ok(seq![v] + rest),
                Err(e) => Err(e),
            },
        }
    }
}

/// What the words after `gang` ask for. An unknown verb is no command.
pub open spec fn command_spec(w: Seq<Seq<char>>) -> Result<Option<CommandModel>, CommandParseError> {
    if w.len() == 0 {
        Err(CommandParseError::MissingVerb)
    } else if w[0] == "demolish"@ {
        match coordinates_from(w, 0) {
            Err(e) => Err(e),
            Ok(c) => Ok(
                Some(
                    CommandModel::Demolish {
                        from: BlockPos { x: c[0], y: c[1], z: c[2] },
                        to: BlockPos { x: c[3], y: c[4], z: c[5] },
                    },
                ),
            ),
        }
    } else if w[0] == "follow"@ {
        if w.len() < 2 {
            Err(CommandParseError::MissingName)
        } else {
            Ok(Some(CommandModel::Follow { name: w[1] }))
        }
    } else if w[0] == "stop"@ {
        Ok(Some(CommandModel::Stop))
    } else {
        Ok(None)
    }
}

/// What a chat line asks for: a command only when its first word is `gang`.
pub open spec fn chat_command_spec(s: Seq<char>) -> Result<Option<CommandModel>, CommandParseError> {
    let w = split_spec(s, ' ');
    if w.len() > 0 && w[0] == "gang"@ {
        command_spec(w.drop_first())
    } else {
        Ok(None)
    }
}

/// Whether `w` spells `lit`.
pub fn word_is(w: &String, lit: &str) -> (r: bool)
    ensures
        r == (w@ == lit@),
{
    let s = w.as_str();
    let n = s.unicode_len();
    if n != lit.unicode_len() {
        return false;
    }
    let mut i: usize = 0;
    while i < n
        invariant
            n == s@.len() == lit@.len(),
            s@ == w@,
            i <= n,
            forall|k: int| 0 <= k < i ==> s@[k] == lit@[k],
        decreases n - i,
    {
        if s.get_char(i) != lit.get_char(i) {
            return false;
        }
        i = i + 1;
    }
    assert(w@ =~= lit@);
    true
}

fn coordinate(words: &Vec<String>, k: usize) -> (r: Result<i32, CommandParseError>)
    requires
        k < 6,
    ensures
        r == coordinate_spec(words@.map_values(|w: String| w@), k as int),
{
    if k + 1 >= words.len() {
        return Err(CommandParseError::MissingCoordinate { index: k });
    }
    match parse_i32(words[k + 1].as_str()) {
        Some(v) => Ok(v),
        None => Err(CommandParseError::BadCoordinate { index: k }),
    }
}

/// Parses the words that follow `gang`.
pub fn parse_command(words: &Vec<String>) -> (r: Result<Option<Command>, CommandParseError>)
    ensures
        result_model(r) == command_spec(words@.map_values(|w: String| w@)),
{
    let ghost w = words@.map_values(|w: String| w@);
    if words.len() == 0 {
        return Err(CommandParseError::MissingVerb);
    }
    if word_is(&words[0], "demolish") {
        assert(w[0] == "demolish"@);
        let mut c: Vec<i32> = Vec::new();
        let mut k: usize = 0;
        while k < 6
            invariant
                w == words@.map_values(|w: String| w@),
                w.len() > 0 && w[0] == "demolish"@,
                k <= 6,
                c@.len() == k,
                match coordinates_from(w, k as int) {
                    Ok(rest) => coordinates_from(w, 0) == Ok::<Seq<i32>, CommandParseError>(
                        c@ + rest,
                    ),
                    Err(e) => coordinates_from(w, 0) == Err::<Seq<i32>, CommandParseError>(e),
                },
            decreases 6 - k,
        {
            match coordinate(words, k) {
                Ok(v) => {
                    proof {
                        match coordinates_from(w, k + 1) {
                            Ok(rest) => {
                                assert(c@.push(v) + rest =~= c@ + (seq![v] + rest));
                            },
                            Err(e) => {},
                        }
                    }
                    c.push(v);
                },
                Err(e) => {
                    assert(coordinates_from(w, k as int) == Err::<Seq<i32>, CommandParseError>(e));
                    return Err(e);
                },
            }
            k = k + 1;
        }
        assert(c@ + Seq::<i32>::empty() =~= c@);
        let from = BlockPos { x: c[0], y: c[1], z: c[2] };
        let to = BlockPos { x: c[3], y: c[4], z: c[5] };
        return Ok(Some(Command::Demolish { from, to }));
    }
    if word_is(&words[0], "follow") {
        if words.len() < 2 {
            return Err(CommandParseError::MissingName);
        }
        let name = words[1].clone();
        return Ok(Some(Command::Follow { name }));
    }
    if word_is(&words[0], "stop") {
        return Ok(Some(Command::Stop));
    }
    Ok(None)
}

/// Parses a chat line: a command when it starts with the word `gang`.
pub fn parse_chat_command(content: &str) -> (r: Result<Option<Command>, CommandParseError>)
    ensures
        result_model(r) == chat_command_spec(content@),
{
    let mut words = split_words(content);
    let ghost all = words@.map_values(|w: String| w@);
    if words.len() == 0 || !word_is(&words[0], "gang") {
        return Ok(None);
    }
    let _gang = words.remove(0);
    assert(words@.map_values(|w: String| w@) =~= all.drop_first());
    parse_command(&words)
}

} // verus!
