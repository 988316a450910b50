//! What the views keep of the values they stand for: everything. And what the values that the
//! protocol starts from are.
use crate::actions::{
    Continuation, ContinuationView, Effect, EffectView, Election, ElectionView, Input, InputView,
    Lookup, LookupView, Reply, ReplyView, Request, RequestView,
};
use crate::error::ConsensusError;
use crate::keys::{Digest, Signature};
use crate::messages::{
    Ballot, Block, BlockDraft, BlockDraftView, BlockView, CoreMessage, CoreMessageView, QCView,
    TCView, Timeout, TimeoutDraft, TimeoutDraftView, TimeoutView, Vote, QC, TC,
};
use crate::network::NetMessage;
use crate::replica::Core;
use crate::synchronizer::{SyncEffect, SyncEffectView};
use vstd::prelude::*;

verus! {

// -- Where the protocol starts --

/// A certificate is that of genesis exactly if it belongs to round 0, has no votes and names the
/// digest of zero bytes.
pub proof fn law_genesis_certificate(qc: QCView)
    ensures
        qc == QCView::genesis() <==> {
            &&& qc.round == 0
            &&& qc.votes.len() == 0
            &&& forall|i: int| 0 <= i < 32 ==> #[trigger] qc.hash.0[i] == 0
        },
{
    let genesis = QCView::genesis();
    if qc.round == 0 && qc.votes.len() == 0 && (forall|i: int|
        0 <= i < 32 ==> #[trigger] qc.hash.0[i] == 0) {
        assert(qc.votes =~= genesis.votes);
        assert(qc.hash.0 =~= genesis.hash.0);
    }
}

/// The genesis block is the one that the genesis certificate names and carries that certificate;
/// it belongs to round 0, has no timeout certificate and no payload, and its author and signature
/// are zero bytes.
pub proof fn law_genesis_block()
    ensures
        ({
            let genesis = BlockView::genesis();
            &&& genesis.digest == QCView::genesis().hash
            &&& genesis.qc == QCView::genesis()
            &&& genesis.tc is None
            &&& genesis.round == 0
            &&& genesis.payload.len() == 0
            &&& forall|i: int| 0 <= i < 32 ==> #[trigger] genesis.author.0[i] == 0
            &&& forall|i: int| 0 <= i < 32 ==> #[trigger] genesis.signature.part1[i] == 0
            &&& forall|i: int| 0 <= i < 32 ==> #[trigger] genesis.signature.part2[i] == 0
        }),
{
}

/// The parent of a block is the one that the block's certificate names.
pub proof fn law_parent_is_certified(block: BlockView)
    ensures
        block.previous() == block.qc.hash,
{
}

/// The rounds that a timeout certificate lists are those of its votes, in the same order.
pub proof fn law_rounds_are_those_of_votes(tc: TCView)
    ensures
        tc.high_qc_rounds().len() == tc.votes.len(),
        forall|i: int|
            0 <= i < tc.votes.len() ==> tc.high_qc_rounds()[i] == (#[trigger] tc.votes[i]).2,
{
}

/// Signing adds the signature, and the digest of a block, and leaves the rest as it was drafted.
pub proof fn law_signing_changes_nothing(
    ballot: Ballot,
    timeout: TimeoutDraftView,
    block: BlockDraftView,
    digest: Digest,
    signature: Signature,
)
    ensures
        Vote::spec_new(ballot, signature) == (Vote {
            hash: ballot.hash,
            round: ballot.round,
            author: ballot.author,
            signature,
        }),
        TimeoutView::signed(timeout, signature) == (TimeoutView {
            high_qc: timeout.high_qc,
            round: timeout.round,
            author: timeout.author,
            signature,
        }),
        BlockView::signed(block, digest, signature) == (BlockView {
            digest,
            qc: block.qc,
            tc: block.tc,
            author: block.author,
            round: block.round,
            payload: block.payload,
            signature,
        }),
{
}

// -- Views --

/// The view of a quorum certificate keeps all of it.
pub proof fn law_qc_view(qc: QC)
    ensures
        qc@.hash == qc.hash,
        qc@.round == qc.round,
        qc@.votes == qc.votes@,
{
}

/// The view of a timeout certificate keeps all of it, and so does that of one that may be absent.
pub proof fn law_tc_view(tc: TC)
    ensures
        tc@.round == tc.round,
        tc@.votes == tc.votes@,
        crate::messages::tc_view(Some(tc)) == Some(tc@),
        crate::messages::tc_view(None) is None,
{
}

/// The view of a timeout keeps all of it, signed or not.
pub proof fn law_timeout_view(draft: TimeoutDraft, timeout: Timeout)
    ensures
        draft@.high_qc == draft.high_qc@,
        draft@.round == draft.round,
        draft@.author == draft.author,
        timeout@.high_qc == timeout.high_qc@,
        timeout@.round == timeout.round,
        timeout@.author == timeout.author,
        timeout@.signature == timeout.signature,
{
}

/// The view of a block keeps all of it, signed or not.
pub proof fn law_block_view(draft: BlockDraft, block: Block)
    ensures
        draft@.qc == draft.qc@,
        draft@.tc == crate::messages::tc_view(draft.tc),
        draft@.author == draft.author,
        draft@.round == draft.round,
        draft@.payload == draft.payload@,
        block@.digest == block.digest,
        block@.qc == block.qc@,
        block@.tc == crate::messages::tc_view(block.tc),
        block@.author == block.author,
        block@.round == block.round,
        block@.payload == block.payload@,
        block@.signature == block.signature,
{
}

/// The view of a message is a message of the same kind that keeps all of it.
pub proof fn law_message_view(message: CoreMessage)
    ensures
        match message {
            CoreMessage::Propose(block) => message@ == CoreMessageView::Propose(block@),
            CoreMessage::Vote1(vote) => message@ == CoreMessageView::Vote1(vote),
            CoreMessage::Vote2(vote) => message@ == CoreMessageView::Vote2(vote),
            CoreMessage::Timeout(timeout) => message@ == CoreMessageView::Timeout(timeout@),
            CoreMessage::TC(tc) => message@ == CoreMessageView::TC(tc@),
            CoreMessage::LoopBack(block) => message@ == CoreMessageView::LoopBack(block@),
            CoreMessage::SyncRequest(digest, sender) => message@ == CoreMessageView::SyncRequest(
                digest,
                sender,
            ),
        },
{
}

/// The view of a network message keeps the data and the addresses.
pub proof fn law_net_message_view(message: NetMessage)
    ensures
        message@.data == crate::network::contents(message.0),
        message@.addresses == message.1@,
{
}

/// The view of a node keeps all of it.
pub proof fn law_node_view(core: Core)
    ensures
        core@.name == core.name,
        core@.parameters == core.parameters,
        core@.round == core.round,
        core@.last_voted_round == core.last_voted_round,
        core@.vote1_qc == core.vote1_qc@,
        core@.vote2_qc == core.vote2_qc@,
        core@.high_qc == core.high_qc@,
        core@.request is None <==> core.request is None,
        core.request matches Some(request) ==> core@.request == Some(request@),
        core@.delays == core.delays@,
{
}

/// The view of an effect is an effect of the same kind that keeps all of it.
pub proof fn law_effect_view(effect: Effect)
    ensures
        match effect {
            Effect::CancelTimer { round } => effect@ == (EffectView::CancelTimer { round }),
            Effect::ScheduleTimer { delay, round } => effect@ == (EffectView::ScheduleTimer {
                delay,
                round,
            }),
            Effect::CleanupAggregator { round } => effect@ == (EffectView::CleanupAggregator {
                round,
            }),
            Effect::CleanupMempool { parent } => effect@ == (EffectView::CleanupMempool {
                parent: parent@,
            }),
            Effect::Suspend { block } => effect@ == (EffectView::Suspend { block: block@ }),
            Effect::Send { message } => effect@ == (EffectView::Send { message: message@ }),
            Effect::Sleep { millis } => effect@ == (EffectView::Sleep { millis }),
        },
{
}

/// The view of a list of effects is the list of their views.
pub proof fn law_effects_view(effects: Seq<Effect>, sync_effects: Seq<SyncEffect>)
    ensures
        crate::actions::effects_view(effects).len() == effects.len(),
        forall|i: int|
            0 <= i < effects.len() ==> crate::actions::effects_view(effects)[i]
                == (#[trigger] effects[i])@,
        crate::synchronizer::sync_effects_view(sync_effects).len() == sync_effects.len(),
        forall|i: int|
            0 <= i < sync_effects.len() ==> crate::synchronizer::sync_effects_view(sync_effects)[i]
                == (#[trigger] sync_effects[i])@,
{
}

/// The views of what a node goes on with are of the same kind and keep all of it.
pub proof fn law_purpose_views(election: Election, lookup: Lookup, next: Continuation)
    ensures
        match election {
            Election::Propose { tc } => election@ == (ElectionView::Propose {
                tc: crate::messages::tc_view(tc),
            }),
            Election::CheckProposer { block } => election@ == (ElectionView::CheckProposer {
                block: block@,
            }),
            Election::RouteVote { vote } => election@ == (ElectionView::RouteVote { vote }),
        },
        match lookup {
            Lookup::Parent { block } => lookup@ == (LookupView::Parent { block: block@ }),
            Lookup::Requested { sender } => lookup@ == (LookupView::Requested { sender }),
        },
        match next {
            Continuation::HandleTimeout { timeout } => next@ == (ContinuationView::HandleTimeout {
                timeout: timeout@,
            }),
            Continuation::Propose { tc } => next@ == (ContinuationView::Propose { tc: tc@ }),
            Continuation::ProcessBlock { block } => next@ == (ContinuationView::ProcessBlock {
                block: block@,
            }),
            Continuation::Finish => next@ == ContinuationView::Finish,
        },
{
}

/// The view of a request is a request of the same kind that keeps all of it.
pub proof fn law_request_view(request: Request)
    ensures
        match request {
            Request::VerifyVote { vote } => request@ == (RequestView::VerifyVote { vote }),
            Request::AddVote { vote } => request@ == (RequestView::AddVote { vote }),
            Request::VerifyTimeout { timeout } => request@ == (RequestView::VerifyTimeout {
                timeout: timeout@,
            }),
            Request::AddTimeout { timeout } => request@ == (RequestView::AddTimeout {
                timeout: timeout@,
            }),
            Request::VerifyBlock { block } => request@ == (RequestView::VerifyBlock {
                block: block@,
            }),
            Request::VerifyPayload { block } => request@ == (RequestView::VerifyPayload {
                block: block@,
            }),
            Request::ElectLeader { round, election } => request@ == (RequestView::ElectLeader {
                round,
                election: election@,
            }),
            Request::GetPayload { max_size, tc } => request@ == (RequestView::GetPayload {
                max_size,
                tc: crate::messages::tc_view(tc),
            }),
            Request::SignBlock { block_draft } => request@ == (RequestView::SignBlock {
                block_draft: block_draft@,
            }),
            Request::SignVote { ballot } => request@ == (RequestView::SignVote { ballot }),
            Request::SignTimeout { timeout_draft } => request@ == (RequestView::SignTimeout {
                timeout_draft: timeout_draft@,
            }),
            Request::ReadStore { key, lookup } => request@ == (RequestView::ReadStore {
                key: key@,
                lookup: lookup@,
            }),
            Request::DecodeBlock { data, lookup } => request@ == (RequestView::DecodeBlock {
                data: data@,
                lookup: lookup@,
            }),
            Request::EncodeBlock { block, parent } => request@ == (RequestView::EncodeBlock {
                block: block@,
                parent: parent@,
            }),
            Request::WriteStore { key, value, block, parent } => request@ == (
            RequestView::WriteStore {
                key: key@,
                value: value@,
                block: block@,
                parent: parent@,
            }),
            Request::FindAddress { to, message, next } => request@ == (RequestView::FindAddress {
                to,
                message: message@,
                next: next@,
            }),
            Request::FindOthers { name, message, next } => request@ == (RequestView::FindOthers {
                name,
                message: message@,
                next: next@,
            }),
            Request::EncodeMessage { message, addresses, next } => request@ == (
            RequestView::EncodeMessage {
                message: message@,
                addresses: addresses@,
                next: next@,
            }),
        },
{
}

/// The view of a reply is a reply of the same kind that keeps all of it.
pub proof fn law_reply_view(reply: Reply)
    ensures
        match reply {
            Reply::Verified(result) => reply@ == ReplyView::Verified(result),
            Reply::VoteAdded(Ok(Some(qc))) => reply@ == ReplyView::VoteAdded(Ok(Some(qc@))),
            Reply::VoteAdded(Ok(None)) => reply@ == ReplyView::VoteAdded(Ok(None)),
            Reply::VoteAdded(Err(error)) => reply@ == ReplyView::VoteAdded(Err(error)),
            Reply::TimeoutAdded(Ok(Some(tc))) => reply@ == ReplyView::TimeoutAdded(Ok(Some(tc@))),
            Reply::TimeoutAdded(Ok(None)) => reply@ == ReplyView::TimeoutAdded(Ok(None)),
            Reply::TimeoutAdded(Err(error)) => reply@ == ReplyView::TimeoutAdded(Err(error)),
            Reply::PayloadVerified(result) => reply@ == ReplyView::PayloadVerified(result),
            Reply::Leader(leader) => reply@ == ReplyView::Leader(leader),
            Reply::Payload(payload) => reply@ == ReplyView::Payload(payload@),
            Reply::BlockSigned(digest, signature) => reply@ == ReplyView::BlockSigned(
                digest,
                signature,
            ),
            Reply::Signed(signature) => reply@ == ReplyView::Signed(signature),
            Reply::Read(Ok(Some(data))) => reply@ == ReplyView::Read(Ok(Some(data@))),
            Reply::Read(Ok(None)) => reply@ == ReplyView::Read(Ok(None)),
            Reply::Read(Err(error)) => reply@ == ReplyView::Read(Err(error)),
            Reply::Decoded(Ok(block)) => reply@ == ReplyView::Decoded(Ok(block@)),
            Reply::Decoded(Err(error)) => reply@ == ReplyView::Decoded(Err(error)),
            Reply::Encoded(data) => reply@ == ReplyView::Encoded(data@),
            Reply::Written(result) => reply@ == ReplyView::Written(result),
            Reply::AddressFound(result) => reply@ == ReplyView::AddressFound(result),
            Reply::OthersFound(addresses) => reply@ == ReplyView::OthersFound(addresses@),
        },
{
}

/// The view of what a node is told is of the same kind and keeps all of it.
pub proof fn law_input_view(input: Input)
    ensures
        match input {
            Input::Boot => input@ == InputView::Boot,
            Input::Message(message) => input@ == InputView::Message(message@),
            Input::TimerFired => input@ == InputView::TimerFired,
            Input::Reply(reply) => input@ == InputView::Reply(reply@),
        },
{
}

/// The view of an effect of the synchronizer is of the same kind and keeps all of it, and so does
/// the view of the end of a wait.
pub proof fn law_sync_effect_view(effect: SyncEffect, block: Block, error: ConsensusError)
    ensures
        match effect {
            SyncEffect::Wait { key, block } => effect@ == (SyncEffectView::Wait {
                key: key@,
                block: block@,
            }),
            SyncEffect::Broadcast { name, message } => effect@ == (SyncEffectView::Broadcast {
                name,
                message: message@,
            }),
            SyncEffect::Deliver { message } => effect@ == (SyncEffectView::Deliver {
                message: message@,
            }),
            SyncEffect::ScheduleTimer { delay } => effect@ == (SyncEffectView::ScheduleTimer {
                delay,
            }),
            SyncEffect::Report { error } => effect@ == (SyncEffectView::Report { error }),
        },
        crate::synchronizer::waited_view(Ok(block)) == Ok::<BlockView, ConsensusError>(block@),
        crate::synchronizer::waited_view(Err(error)) == Err::<BlockView, ConsensusError>(error),
{
}

} // verus!
