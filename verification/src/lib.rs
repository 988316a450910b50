//! The decision core of a two-phase, leader-based BFT consensus node.
//!
//! [`Core`] decides what a node does with each proposal, vote, timeout and synchronisation
//! request that it receives, and when it gives up on a round. [`Synchronizer`] keeps track of
//! the blocks that wait for a missing parent. Neither of them signs, stores, sends or sleeps:
//! they name the outside work that has to be done, and a host does it and hands the result
//! back.
//!
//! [`protocol`] states what each step does; [`step_laws`] says it again in plain terms, field by
//! field, and [`laws`] and [`sync_laws`] prove what follows for any number of steps.
//! [`view_laws`] says that the views that the statements speak of leave nothing out.
pub mod actions;
pub mod digest_set;
pub mod error;
pub mod keys;
pub mod laws;
pub mod messages;
pub mod network;
pub mod protocol;
pub mod replica;
pub mod step_laws;
pub mod sync_laws;
pub mod synchronizer;
pub mod view_laws;

pub use actions::{
    Continuation, Effect, Election, Fault, Input, Lookup, Outcome, Reply, Request, Step,
};
pub use digest_set::DigestSet;
pub use error::{fatal, report, ConsensusError, ConsensusResult, Severity};
pub use keys::{Depth, Digest, PublicKey, RoundNumber, Signature};
pub use messages::{
    Ballot, Block, BlockDraft, CoreMessage, Timeout, TimeoutDraft, Vote, Vote1, Vote2, QC, TC,
};
pub use network::{Address, NetMessage};
pub use protocol::Parameters;
pub use replica::Core;
pub use synchronizer::{Ancestor, SyncEffect, Synchronizer};
