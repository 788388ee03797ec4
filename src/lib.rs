//! Peer admission control for a node's networking layer: reputation scoring with ban and
//! unban decisions, the connection lifecycle of a peer, reconnect backoff, and the snapshot of
//! a peer that survives a restart. Beside it, two small operator tools: the
//! `stage-checkpoints` database command and the choice of background threads to deprioritize.
use vstd::prelude::*;

pub mod addr;
pub mod backoff;
pub mod command_line;
pub mod kind;
pub mod peer;
pub mod persisted;
pub mod reputation;
pub mod stage_checkpoints;
pub mod state;
pub mod thread_names;

verus! {

} // verus!
