//! The errors of the protocol, and how loudly each is reported.
use crate::keys::{Digest, PublicKey, RoundNumber};
use vstd::prelude::*;

verus! {

/// Why a message could not be handled.
#[derive(Debug, PartialEq, Eq)]
pub enum ConsensusError {
    /// The store failed to read or write.
    StoreError(String),
    /// What the store holds is not a block.
    SerializationError(String),
    /// A block of round `round` was proposed by `leader`, who does not lead that round.
    WrongLeader { digest: Digest, leader: PublicKey, round: RoundNumber },
    /// A message is not valid, or names a node outside of the committee.
    Invalid(String),
}

/// The result of handling a message.
pub type ConsensusResult<T> = Result<T, ConsensusError>;

/// How an error is reported.
#[derive(Clone, Copy, Debug, PartialEq, Eq, Structural)]
pub enum Severity {
    /// The node itself has failed.
    Error,
    /// The node's store no longer holds what was written to it.
    Corrupted,
    /// Some other node misbehaved.
    Warning,
}

/// How the result of handling a message is reported; `None` where there is nothing to say.
pub fn report(result: &ConsensusResult<()>) -> (severity: Option<Severity>)
    ensures
        severity is None <==> *result is Ok,
        severity == Some(Severity::Error) <==> (*result matches Err(error) && error is StoreError),
        severity == Some(Severity::Corrupted) <==> (*result matches Err(error)
            && error is SerializationError),
        severity == Some(Severity::Warning) <==> (*result matches Err(error)
            && error !is StoreError && error !is SerializationError),
{
    match result {
        Ok(()) => None,
        Err(ConsensusError::StoreError(_)) => Some(Severity::Error),
        Err(ConsensusError::SerializationError(_)) => Some(Severity::Corrupted),
        Err(_) => Some(Severity::Warning),
    }
}

/// Whether the node has to stop: an error while it starts, in its very first proposal, is fatal;
/// a later one is only reported.
pub fn fatal(booting: bool, result: &ConsensusResult<()>) -> (stop: bool)
    ensures
        stop == (booting && *result is Err),
{
    booting && result.is_err()
}

} // verus!
