//! The command line: which parts of the system this process runs.

use vstd::prelude::*;

use crate::command::word_is;
use crate::text::{parse_i32, parse_i32_spec, split_on, split_spec};

verus! {

/// How many workers `clients` starts when no count is given.
pub const ACCOUNTS: i32 = 20;

/// What the process is to run.
#[derive(Clone, Debug, PartialEq, Eq)]
pub enum RunMode {
    /// Print how to use the program.
    Usage,
    /// Dispatcher and workers in this process.
    SingleProcess,
    /// The dispatcher alone, following `owner`.
    Server { owner: String },
    /// `accounts` workers, connecting to a dispatcher elsewhere.
    Clients { accounts: i32 },
    /// The dispatcher, plus `processes` child processes of
    /// `clients_per_process` workers each.
    Master { clients_per_process: i32, processes: i32, owner: String },
}

/// A command line that names no valid mode.
#[derive(Clone, Copy, Debug, PartialEq, Eq, Structural)]
pub enum ArgsError {
    /// The first argument is no known mode.
    UnknownMode,
    /// `server` or `master` without the operator's name.
    MissingOwner,
    /// `master` without `<clients per process>*<processes>`, or with only one side of it.
    MissingLayout,
    /// A count is not a non-negative decimal `i32`.
    BadNumber,
}

/// A run mode with its text as plain sequences.
pub enum RunModel {
    Usage,
    SingleProcess,
    Server { owner: Seq<char> },
    Clients { accounts: i32 },
    Master { clients_per_process: i32, processes: i32, owner: Seq<char> },
}

impl RunMode {
    pub open spec fn model(self) -> RunModel {
        match self {
            RunMode::Usage => RunModel::Usage,
            RunMode::SingleProcess => RunModel::SingleProcess,
            RunMode::Server { owner } => RunModel::Server { owner: owner@ },
            RunMode::Clients { accounts } => RunModel::Clients { accounts },
            RunMode::Master { clients_per_process, processes, owner } => RunModel::Master {
                clients_per_process,
                processes,
                owner: owner@,
            },
        }
    }
}

/// A count: a decimal `i32` that is not negative.
pub open spec fn count_spec(s: Seq<char>) -> Result<i32, ArgsError> {
    match parse_i32_spec(s) {
        Some(v) => if v >= 0 {
            Ok(v)
        } else {
            Err(ArgsError::BadNumber)
        },
        None => Err(ArgsError::BadNumber),
    }
}

/// The mode that the arguments after the program's name ask for.
pub open spec fn args_spec(a: Seq<Seq<char>>) -> Result<RunModel, ArgsError> {
    if a.len() == 0 {
        Ok(RunModel::Usage)
    } else if a[0] == "single_process"@ {
        Ok(RunModel::SingleProcess)
    } else if a[0] == "server"@ {
        if a.len() < 2 {
            Err(ArgsError::MissingOwner)
        } else {
            Ok(RunModel::Server { owner: a[1] })
        }
    } else if a[0] == "clients"@ {
        if a.len() < 2 {
            Ok(RunModel::Clients { accounts: ACCOUNTS })
        } else {
            match count_spec(a[1]) {
                Ok(n) => Ok(RunModel::Clients { accounts: n }),
                Err(e) => Err(e),
            }
        }
    } else if a[0] == "master"@ {
        if a.len() < 2 || split_spec(a[1], '*').len() < 2 {
            Err(ArgsError::MissingLayout)
        } else {
            let l = split_spec(a[1], '*');
            match count_spec(l[0]) {
                Err(e) => Err(e),
                Ok(c) => match count_spec(l[1]) {
                    Err(e) => Err(e),
                    Ok(p) => if a.len() < 3 {
                        Err(ArgsError::MissingOwner)
                    } else {
                        Ok(RunModel::Master { clients_per_process: c, processes: p, owner: a[2] })
                    },
                },
            }
        }
    } else {
        Err(ArgsError::UnknownMode)
    }
}

fn count(s: &String) -> (r: Result<i32, ArgsError>)
    ensures
        r == count_spec(s@),
{
    match parse_i32(s.as_str()) {
        Some(v) => if v >= 0 {
            Ok(v)
        } else {
            Err(ArgsError::BadNumber)
        },
        None => Err(ArgsError::BadNumber),
    }
}

/// Reads the arguments that follow the program's name.
pub fn parse_args(args: &Vec<String>) -> (r: Result<RunMode, ArgsError>)
    ensures
        match r {
            Ok(m) => args_spec(args@.map_values(|s: String| s@)) == Ok::<RunModel, ArgsError>(
                m.model(),
            ),
            Err(e) => args_spec(args@.map_values(|s: String| s@)) == Err::<RunModel, ArgsError>(e),
        },
{
    if args.len() == 0 {
        return Ok(RunMode::Usage);
    }
    if word_is(&args[0], "single_process") {
        return Ok(RunMode::SingleProcess);
    }
    if word_is(&args[0], "server") {
        if args.len() < 2 {
            return Err(ArgsError::MissingOwner);
        }
        return Ok(RunMode::Server { owner: args[1].clone() });
    }
    if word_is(&args[0], "clients") {
        if args.len() < 2 {
            return Ok(RunMode::Clients { accounts: ACCOUNTS });
        }
        return match count(&args[1]) {
            Ok(n) => Ok(RunMode::Clients { accounts: n }),
            Err(e) => Err(e),
        };
    }
    if word_is(&args[0], "master") {
        if args.len() < 2 {
            return Err(ArgsError::MissingLayout);
        }
        let layout = split_on(args[1].as_str(), '*');
        if layout.len() < 2 {
            return Err(ArgsError::MissingLayout);
        }
        let c = match count(&layout[0]) {
            Ok(c) => c,
            Err(e) => return Err(e),
        };
        let p = match count(&layout[1]) {
            Ok(p) => p,
            Err(e) => return Err(e),
        };
        if args.len() < 3 {
            return Err(ArgsError::MissingOwner);
        }
        return Ok(RunMode::Master { clients_per_process: c, processes: p, owner: args[2].clone() });
    }
    Err(ArgsError::UnknownMode)
}

} // verus!
