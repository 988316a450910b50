//! The dialogue between the node and its host: what the node is told, what it asks for and
//! what it has done.
use crate::error::ConsensusResult;
use crate::keys::{Digest, PublicKey, RoundNumber, Signature};
use crate::messages::{
    Ballot, Block, BlockDraft, BlockDraftView, BlockView, CoreMessage, CoreMessageView, QC, QCView,
    TC, TCView, Timeout, TimeoutDraft, TimeoutDraftView, TimeoutView, Vote,
};
use crate::network::{Address, NetMessage, NetMessageView};
use vstd::prelude::*;

verus! {

/// Outside work whose result the node does not need.
#[derive(Debug, PartialEq, Eq)]
pub enum Effect {
    /// Stop the timer of a round.
    CancelTimer { round: RoundNumber },
    /// Start the timer of a round; it fires after `delay` milliseconds.
    ScheduleTimer { delay: u64, round: RoundNumber },
    /// Forget the votes and timeouts of the rounds before `round`.
    CleanupAggregator { round: RoundNumber },
    /// Tell the mempool that `parent` has been extended.
    CleanupMempool { parent: Block },
    /// Hand `block`, whose parent is missing, to the synchronizer.
    Suspend { block: Block },
    /// Send a message.
    Send { message: NetMessage },
    /// Do nothing for some milliseconds.
    Sleep { millis: u64 },
}

#[verifier::ext_equal]
pub enum EffectView {
    CancelTimer { round: RoundNumber },
    ScheduleTimer { delay: u64, round: RoundNumber },
    CleanupAggregator { round: RoundNumber },
    CleanupMempool { parent: BlockView },
    Suspend { block: BlockView },
    Send { message: NetMessageView },
    Sleep { millis: u64 },
}

impl View for Effect {
    type V = EffectView;

    open spec fn view(&self) -> EffectView {
        match self {
            Effect::CancelTimer { round } => EffectView::CancelTimer { round: *round },
            Effect::ScheduleTimer { delay, round } => EffectView::ScheduleTimer {
                delay: *delay,
                round: *round,
            },
            Effect::CleanupAggregator { round } => EffectView::CleanupAggregator { round: *round },
            Effect::CleanupMempool { parent } => EffectView::CleanupMempool { parent: parent@ },
            Effect::Suspend { block } => EffectView::Suspend { block: block@ },
            Effect::Send { message } => EffectView::Send { message: message@ },
            Effect::Sleep { millis } => EffectView::Sleep { millis: *millis },
        }
    }
}

/// The views of a list of effects.
pub open spec fn effects_view(effects: Seq<Effect>) -> Seq<EffectView> {
    effects.map_values(|effect: Effect| effect@)
}

/// Why the node asks who leads a round.
#[derive(Debug, PartialEq, Eq)]
pub enum Election {
    /// To propose a block, if it is the node itself.
    Propose { tc: Option<TC> },
    /// To check who proposed a block.
    CheckProposer { block: Block },
    /// To hand over a vote.
    RouteVote { vote: Vote },
}

#[verifier::ext_equal]
pub enum ElectionView {
    Propose { tc: Option<TCView> },
    CheckProposer { block: BlockView },
    RouteVote { vote: Vote },
}

impl View for Election {
    type V = ElectionView;

    open spec fn view(&self) -> ElectionView {
        match self {
            Election::Propose { tc } => ElectionView::Propose { tc: crate::messages::tc_view(*tc) },
            Election::CheckProposer { block } => ElectionView::CheckProposer { block: block@ },
            Election::RouteVote { vote } => ElectionView::RouteVote { vote: *vote },
        }
    }
}

/// Why the node reads a block from the store.
#[derive(Debug, PartialEq, Eq)]
pub enum Lookup {
    /// It is the parent of `block`.
    Parent { block: Block },
    /// `sender` asked for it.
    Requested { sender: PublicKey },
}

#[verifier::ext_equal]
pub enum LookupView {
    Parent { block: BlockView },
    Requested { sender: PublicKey },
}

impl View for Lookup {
    type V = LookupView;

    open spec fn view(&self) -> LookupView {
        match self {
            Lookup::Parent { block } => LookupView::Parent { block: block@ },
            Lookup::Requested { sender } => LookupView::Requested { sender: *sender },
        }
    }
}

/// What the node does once a message is sent.
#[derive(Debug, PartialEq, Eq)]
pub enum Continuation {
    /// Handle its own timeout.
    HandleTimeout { timeout: Timeout },
    /// Propose a block on top of `tc`, if the node leads the round.
    Propose { tc: TC },
    /// Process the block that it proposed.
    ProcessBlock { block: Block },
    /// Nothing more.
    Finish,
}

#[verifier::ext_equal]
pub enum ContinuationView {
    HandleTimeout { timeout: TimeoutView },
    Propose { tc: TCView },
    ProcessBlock { block: BlockView },
    Finish,
}

impl View for Continuation {
    type V = ContinuationView;

    open spec fn view(&self) -> ContinuationView {
        match self {
            Continuation::HandleTimeout { timeout } => ContinuationView::HandleTimeout {
                timeout: timeout@,
            },
            Continuation::Propose { tc } => ContinuationView::Propose { tc: tc@ },
            Continuation::ProcessBlock { block } => ContinuationView::ProcessBlock {
                block: block@,
            },
            Continuation::Finish => ContinuationView::Finish,
        }
    }
}

/// Outside work whose result the node waits for. A request also holds what the node needs
/// to go on with once it has the result.
#[derive(Debug, PartialEq, Eq)]
pub enum Request {
    /// Check that a vote is well formed and signed by a member of the committee.
    VerifyVote { vote: Vote },
    /// Add a vote to those collected for its block.
    AddVote { vote: Vote },
    /// Check that a timeout is well formed and signed by a member of the committee.
    VerifyTimeout { timeout: Timeout },
    /// Add a timeout to those collected for its round.
    AddTimeout { timeout: Timeout },
    /// Check that a block is correctly formed.
    VerifyBlock { block: Block },
    /// Ask the mempool whether it has the payload of a block.
    VerifyPayload { block: Block },
    /// Name the leader of a round.
    ElectLeader { round: RoundNumber, election: Election },
    /// Take payload for a new block out of the mempool.
    GetPayload { max_size: usize, tc: Option<TC> },
    /// Hash and sign a block.
    SignBlock { block_draft: BlockDraft },
    /// Sign a vote.
    SignVote { ballot: Ballot },
    /// Sign a timeout.
    SignTimeout { timeout_draft: TimeoutDraft },
    /// Read from the store.
    ReadStore { key: Vec<u8>, lookup: Lookup },
    /// Decode a block that was read from the store.
    DecodeBlock { data: Vec<u8>, lookup: Lookup },
    /// Encode a block for the store.
    EncodeBlock { block: Block, parent: Block },
    /// Write to the store.
    WriteStore { key: Vec<u8>, value: Vec<u8>, block: Block, parent: Block },
    /// Look up the address of a node.
    FindAddress { to: PublicKey, message: CoreMessage, next: Continuation },
    /// Look up the addresses of all nodes but `name`.
    FindOthers { name: PublicKey, message: CoreMessage, next: Continuation },
    /// Encode a message for the network.
    EncodeMessage { message: CoreMessage, addresses: Vec<Address>, next: Continuation },
}

#[verifier::ext_equal]
pub enum RequestView {
    VerifyVote { vote: Vote },
    AddVote { vote: Vote },
    VerifyTimeout { timeout: TimeoutView },
    AddTimeout { timeout: TimeoutView },
    VerifyBlock { block: BlockView },
    VerifyPayload { block: BlockView },
    ElectLeader { round: RoundNumber, election: ElectionView },
    GetPayload { max_size: usize, tc: Option<TCView> },
    SignBlock { block_draft: BlockDraftView },
    SignVote { ballot: Ballot },
    SignTimeout { timeout_draft: TimeoutDraftView },
    ReadStore { key: Seq<u8>, lookup: LookupView },
    DecodeBlock { data: Seq<u8>, lookup: LookupView },
    EncodeBlock { block: BlockView, parent: BlockView },
    WriteStore { key: Seq<u8>, value: Seq<u8>, block: BlockView, parent: BlockView },
    FindAddress { to: PublicKey, message: CoreMessageView, next: ContinuationView },
    FindOthers { name: PublicKey, message: CoreMessageView, next: ContinuationView },
    EncodeMessage { message: CoreMessageView, addresses: Seq<Address>, next: ContinuationView },
}

impl View for Request {
    type V = RequestView;

    open spec fn view(&self) -> RequestView {
        match self {
            Request::VerifyVote { vote } => RequestView::VerifyVote { vote: *vote },
            Request::AddVote { vote } => RequestView::AddVote { vote: *vote },
            Request::VerifyTimeout { timeout } => RequestView::VerifyTimeout { timeout: timeout@ },
            Request::AddTimeout { timeout } => RequestView::AddTimeout { timeout: timeout@ },
            Request::VerifyBlock { block } => RequestView::VerifyBlock { block: block@ },
            Request::VerifyPayload { block } => RequestView::VerifyPayload { block: block@ },
            Request::ElectLeader { round, election } => RequestView::ElectLeader {
                round: *round,
                election: election@,
            },
            Request::GetPayload { max_size, tc } => RequestView::GetPayload {
                max_size: *max_size,
                tc: crate::messages::tc_view(*tc),
            },
            Request::SignBlock { block_draft } => RequestView::SignBlock { block_draft: block_draft@ },
            Request::SignVote { ballot } => RequestView::SignVote { ballot: *ballot },
            Request::SignTimeout { timeout_draft } => RequestView::SignTimeout { timeout_draft: timeout_draft@ },
            Request::ReadStore { key, lookup } => RequestView::ReadStore {
                key: key@,
                lookup: lookup@,
            },
            Request::DecodeBlock { data, lookup } => RequestView::DecodeBlock {
                data: data@,
                lookup: lookup@,
            },
            Request::EncodeBlock { block, parent } => RequestView::EncodeBlock {
                block: block@,
                parent: parent@,
            },
            Request::WriteStore { key, value, block, parent } => RequestView::WriteStore {
                key: key@,
                value: value@,
                block: block@,
                parent: parent@,
            },
            Request::FindAddress { to, message, next } => RequestView::FindAddress {
                to: *to,
                message: message@,
                next: next@,
            },
            Request::FindOthers { name, message, next } => RequestView::FindOthers {
                name: *name,
                message: message@,
                next: next@,
            },
            Request::EncodeMessage { message, addresses, next } => RequestView::EncodeMessage {
                message: message@,
                addresses: addresses@,
                next: next@,
            },
        }
    }
}

/// The result of the work that the node asked for.
#[derive(Debug, PartialEq, Eq)]
pub enum Reply {
    /// To `VerifyVote`, `VerifyTimeout` and `VerifyBlock`.
    Verified(ConsensusResult<()>),
    /// To `AddVote`: the certificate, if the vote completed one.
    VoteAdded(ConsensusResult<Option<QC>>),
    /// To `AddTimeout`: the certificate, if the timeout completed one.
    TimeoutAdded(ConsensusResult<Option<TC>>),
    /// To `VerifyPayload`: whether the payload is there.
    PayloadVerified(ConsensusResult<bool>),
    /// To `ElectLeader`.
    Leader(PublicKey),
    /// To `GetPayload`.
    Payload(Vec<Digest>),
    /// To `SignBlock`.
    BlockSigned(Digest, Signature),
    /// To `SignVote` and `SignTimeout`.
    Signed(Signature),
    /// To `ReadStore`: what is stored under the key, or why the store failed.
    Read(Result<Option<Vec<u8>>, String>),
    /// To `DecodeBlock`: the block, or why the bytes are not one.
    Decoded(Result<Block, String>),
    /// To `EncodeBlock` and `EncodeMessage`.
    Encoded(Vec<u8>),
    /// To `WriteStore`: or why the store failed.
    Written(Result<(), String>),
    /// To `FindAddress`.
    AddressFound(ConsensusResult<Address>),
    /// To `FindOthers`.
    OthersFound(Vec<Address>),
}

#[verifier::ext_equal]
pub enum ReplyView {
    Verified(ConsensusResult<()>),
    VoteAdded(ConsensusResult<Option<QCView>>),
    TimeoutAdded(ConsensusResult<Option<TCView>>),
    PayloadVerified(ConsensusResult<bool>),
    Leader(PublicKey),
    Payload(Seq<Digest>),
    BlockSigned(Digest, Signature),
    Signed(Signature),
    Read(Result<Option<Seq<u8>>, String>),
    Decoded(Result<BlockView, String>),
    Encoded(Seq<u8>),
    Written(Result<(), String>),
    AddressFound(ConsensusResult<Address>),
    OthersFound(Seq<Address>),
}

impl View for Reply {
    type V = ReplyView;

    open spec fn view(&self) -> ReplyView {
        match self {
            Reply::Verified(result) => ReplyView::Verified(*result),
            Reply::VoteAdded(Ok(Some(qc))) => ReplyView::VoteAdded(Ok(Some(qc@))),
            Reply::VoteAdded(Ok(None)) => ReplyView::VoteAdded(Ok(None)),
            Reply::VoteAdded(Err(error)) => ReplyView::VoteAdded(Err(*error)),
            Reply::TimeoutAdded(Ok(tc)) => ReplyView::TimeoutAdded(
                Ok(crate::messages::tc_view(*tc)),
            ),
            Reply::TimeoutAdded(Err(error)) => ReplyView::TimeoutAdded(Err(*error)),
            Reply::PayloadVerified(result) => ReplyView::PayloadVerified(*result),
            Reply::Leader(leader) => ReplyView::Leader(*leader),
            Reply::Payload(payload) => ReplyView::Payload(payload@),
            Reply::BlockSigned(digest, signature) => ReplyView::BlockSigned(*digest, *signature),
            Reply::Signed(signature) => ReplyView::Signed(*signature),
            Reply::Read(Ok(Some(data))) => ReplyView::Read(Ok(Some(data@))),
            Reply::Read(Ok(None)) => ReplyView::Read(Ok(None)),
            Reply::Read(Err(error)) => ReplyView::Read(Err(*error)),
            Reply::Decoded(Ok(block)) => ReplyView::Decoded(Ok(block@)),
            Reply::Decoded(Err(error)) => ReplyView::Decoded(Err(*error)),
            Reply::Encoded(data) => ReplyView::Encoded(data@),
            Reply::Written(result) => ReplyView::Written(*result),
            Reply::AddressFound(result) => ReplyView::AddressFound(*result),
            Reply::OthersFound(addresses) => ReplyView::OthersFound(addresses@),
        }
    }
}

/// What the node is told.
#[derive(Debug, PartialEq, Eq)]
pub enum Input {
    /// The node has just been created.
    Boot,
    /// A message has arrived.
    Message(CoreMessage),
    /// The timer of the current round has fired.
    TimerFired,
    /// The work that the node asked for is done.
    Reply(Reply),
}

#[verifier::ext_equal]
pub enum InputView {
    Boot,
    Message(CoreMessageView),
    TimerFired,
    Reply(ReplyView),
}

impl View for Input {
    type V = InputView;

    open spec fn view(&self) -> InputView {
        match self {
            Input::Boot => InputView::Boot,
            Input::Message(message) => InputView::Message(message@),
            Input::TimerFired => InputView::TimerFired,
            Input::Reply(reply) => InputView::Reply(reply@),
        }
    }
}

/// Why the node cannot go on: the host has to stop it.
#[derive(Clone, Copy, Debug, PartialEq, Eq, Structural)]
pub enum Fault {
    /// A block carries a timeout certificate without votes.
    EmptyTC,
    /// A round would have to follow the last one that can be counted.
    RoundOverflow,
    /// The reply does not answer the request that the node made.
    UnexpectedReply,
}

/// Where a step leaves the node.
#[derive(Debug, PartialEq, Eq)]
pub enum Outcome {
    /// The node waits for the reply to its request.
    Waiting,
    /// What the node was told is dealt with.
    Finished(ConsensusResult<()>),
    /// The node cannot go on.
    Fault(Fault),
}

/// What a step of the node brings about: the effects are to be performed first, in order.
#[derive(Debug, PartialEq, Eq)]
pub struct Step {
    pub effects: Vec<Effect>,
    pub outcome: Outcome,
}

impl Step {
    /// The step with `first` performed before its own effects.
    pub fn after(self, first: Vec<Effect>) -> (step: Step)
        ensures
            effects_view(step.effects@) == effects_view(first@) + effects_view(self.effects@),
            step.outcome == self.outcome,
    {
        let mut effects = first;
        let mut rest = self.effects;
        effects.append(&mut rest);
        assert(effects_view(effects@) =~= effects_view(first@) + effects_view(self.effects@));
        Step { effects, outcome: self.outcome }
    }
}

} // verus!
