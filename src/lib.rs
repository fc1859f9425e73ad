//! Coordination core for a swarm of worker agents: the work item model, the
//! per-worker override tracker, the shared queue and its assignment policy,
//! operator tracking, chat de-duplication, message framing, and the small
//! state machines that the network layer drives.

pub mod args;
pub mod chat;
pub mod command;
pub mod connection;
pub mod frame;
pub mod goals;
pub mod join;
pub mod locator;
pub mod namegen;
pub mod operator;
pub mod per_inst;
pub mod protocol;
pub mod region;
pub mod swarm;
pub mod tasks;
pub mod text;
pub mod work;
pub mod worker;
