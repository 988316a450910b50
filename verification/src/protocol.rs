//! The protocol as mathematics: from the state of a node and what it is told to its next
//! state, the effects it has and the request it makes.
use crate::actions::{
    ContinuationView, EffectView, ElectionView, Fault, InputView, LookupView, Outcome, ReplyView,
    RequestView, Step,
};
use crate::error::{ConsensusError, ConsensusResult};
use crate::keys::{Digest, PublicKey, RoundNumber, Signature};
use crate::messages::{
    Ballot, BlockDraftView, BlockView, CoreMessageView, QCView, TCView, TimeoutDraftView,
    TimeoutView, Vote,
};
use crate::network::{Address, NetMessageView};
use vstd::prelude::*;

verus! {

/// The settings of a node.
#[derive(Clone, Copy, Debug, PartialEq, Eq, Structural)]
pub struct Parameters {
    /// How long a round may last before the node gives up on it, in milliseconds.
    pub timeout_delay: u64,
    /// How much payload a block may hold.
    pub max_payload_size: usize,
    /// How long a leader waits after it has proposed a block, in milliseconds.
    pub min_block_delay: u64,
}

/// The state of a node.
#[verifier::ext_equal]
pub struct CoreView {
    /// The node itself.
    pub name: PublicKey,
    pub parameters: Parameters,
    /// The current round.
    pub round: RoundNumber,
    /// The highest round in which the node voted or gave up.
    pub last_voted_round: RoundNumber,
    /// The certificate of the first voting phase. Nothing updates it: it is that of genesis.
    pub vote1_qc: QCView,
    /// The certificate of the second voting phase: proposals extend it. Nothing updates it: it is
    /// that of genesis.
    pub vote2_qc: QCView,
    /// The certificate of the highest round that the node has processed.
    pub high_qc: QCView,
    /// What the node waits for.
    pub request: Option<RequestView>,
    /// The delays that are due when the node is done with what it was told, one for each
    /// block that it has proposed since.
    pub delays: Seq<u64>,
}

/// What a step does: the next state, the effects to perform and where it leaves the node.
#[verifier::ext_equal]
pub struct Transition {
    pub core: CoreView,
    pub effects: Seq<EffectView>,
    pub outcome: Outcome,
}

impl Transition {
    /// The transition with `first` performed before its own effects.
    pub open spec fn after(self, first: Seq<EffectView>) -> Transition {
        Transition { effects: first + self.effects, ..self }
    }
}

impl Step {
    /// The step, which leaves the node in the state `core`, is the transition `transition`.
    pub open spec fn performs(self, transition: Transition, core: CoreView) -> bool {
        &&& core == transition.core
        &&& crate::actions::effects_view(self.effects@) == transition.effects
        &&& self.outcome == transition.outcome
    }
}

/// The larger of two rounds.
pub open spec fn max_round(a: RoundNumber, b: RoundNumber) -> RoundNumber {
    if a >= b {
        a
    } else {
        b
    }
}

/// The delays, the latest first.
pub open spec fn sleeps(delays: Seq<u64>) -> Seq<EffectView> {
    Seq::new(delays.len(), |i: int| EffectView::Sleep { millis: delays[delays.len() - 1 - i] })
}

/// No voter of the timeout certificate knew of a higher certificate than the block's, and the
/// certificate is about the round before the block's.
pub open spec fn follows_timeout(block: BlockView, tc: TCView) -> bool {
    &&& tc.round + 1 == block.round
    &&& forall|i: int|
        0 <= i < tc.high_qc_rounds().len() ==> block.qc.round >= #[trigger] tc.high_qc_rounds()[i]
}

/// The rule of the first phase. A block without a timeout certificate extends its parent in the
/// very next round. A block with one has the right one: the round before the block's timed out,
/// and the block extends a certificate at least as high as any that a quorum knew of.
pub open spec fn extends_rightly(block: BlockView) -> bool {
    match block.tc {
        None => block.qc.round + 1 == block.round,
        Some(tc) => follows_timeout(block, tc),
    }
}

/// The rule of the second phase: the block extends its parent in the very next round, or the
/// round before it timed out and the block extends a certificate at least as high as any that a
/// quorum knew of.
pub open spec fn extends_safely(block: BlockView) -> bool {
    ||| block.qc.round + 1 == block.round
    ||| block.tc is Some && follows_timeout(block, block.tc->0)
}

/// Why the rule for voting cannot be evaluated on a block.
pub open spec fn vote_fault(block: BlockView) -> Option<Fault> {
    if block.qc.round == RoundNumber::MAX {
        Some(Fault::RoundOverflow)
    } else {
        match block.tc {
            None => None,
            Some(tc) => if tc.round == RoundNumber::MAX {
                Some(Fault::RoundOverflow)
            } else if tc.votes.len() == 0 {
                Some(Fault::EmptyTC)
            } else {
                None
            },
        }
    }
}

impl CoreView {
    /// The state of a new node.
    pub open spec fn new(name: PublicKey, parameters: Parameters) -> CoreView {
        CoreView {
            name,
            parameters,
            round: 1,
            last_voted_round: 0,
            vote1_qc: QCView::genesis(),
            vote2_qc: QCView::genesis(),
            high_qc: QCView::genesis(),
            request: None,
            delays: Seq::empty(),
        }
    }

    /// What holds of a node at all times. It never votes ahead of its round; its round is ahead
    /// of every certificate that it has processed; each delay is the minimum block delay; and
    /// what it asks for agrees with its state. The certificates of the two voting phases are
    /// those of genesis, because nothing updates them.
    pub open spec fn inv(self) -> bool {
        &&& self.last_voted_round <= self.round
        &&& self.high_qc.round < self.round
        &&& self.vote1_qc == QCView::genesis()
        &&& self.vote2_qc == QCView::genesis()
        &&& forall|i: int|
            0 <= i < self.delays.len() ==> #[trigger] self.delays[i]
                == self.parameters.min_block_delay
        &&& self.request is Some ==> self.request_inv(self.request->0)
    }

    /// What holds of a request that the node makes.
    pub open spec fn request_inv(self, request: RequestView) -> bool {
        match request {
            RequestView::ElectLeader { round, election } => match election {
                ElectionView::Propose { .. } => round == self.round,
                ElectionView::CheckProposer { block } => round == block.round,
                ElectionView::RouteVote { vote } => {
                    &&& round == self.round + 1
                    &&& vote.round == self.round
                    &&& vote.author == self.name
                },
            },
            RequestView::GetPayload { max_size, .. } => {
                &&& max_size == self.parameters.max_payload_size
                &&& self.delays.len() > 0
            },
            RequestView::SignBlock { block_draft } => {
                &&& block_draft.qc == self.vote2_qc
                &&& block_draft.author == self.name
                &&& block_draft.round == self.round
                &&& self.delays.len() > 0
            },
            RequestView::SignVote { ballot } => {
                &&& ballot.author == self.name
                &&& ballot.round == self.round
                &&& ballot.round == self.last_voted_round
            },
            RequestView::SignTimeout { timeout_draft } => {
                &&& timeout_draft.high_qc == self.high_qc
                &&& timeout_draft.author == self.name
                &&& timeout_draft.round == self.round
                &&& timeout_draft.round == self.last_voted_round
            },
            RequestView::ReadStore { key, lookup: LookupView::Parent { block } } => {
                &&& key == block.previous().0@
                &&& block.qc != QCView::genesis()
            },
            RequestView::DecodeBlock { lookup: LookupView::Parent { block }, .. } => block.qc
                != QCView::genesis(),
            RequestView::EncodeBlock { block, parent } => block.qc == QCView::genesis()
                ==> parent == BlockView::genesis(),
            RequestView::WriteStore { key, block, parent, .. } => {
                &&& key == block.digest.0@
                &&& block.qc == QCView::genesis() ==> parent == BlockView::genesis()
            },
            RequestView::FindOthers { name, .. } => name == self.name,
            _ => true,
        }
    }

    // -- What a step can come to --

    /// The node makes a request.
    pub open spec fn ask(self, request: RequestView) -> Transition {
        Transition {
            core: CoreView { request: Some(request), ..self },
            effects: Seq::empty(),
            outcome: Outcome::Waiting,
        }
    }

    /// The node is done with what it was told. Delays are observed only after a success.
    pub open spec fn finish(self, result: ConsensusResult<()>) -> Transition {
        Transition {
            core: CoreView { request: None, delays: Seq::empty(), ..self },
            effects: if result is Ok {
                sleeps(self.delays)
            } else {
                Seq::empty()
            },
            outcome: Outcome::Finished(result),
        }
    }

    /// The node cannot go on.
    pub open spec fn halt(self, fault: Fault) -> Transition {
        Transition {
            core: CoreView { request: None, delays: Seq::empty(), ..self },
            effects: Seq::empty(),
            outcome: Outcome::Fault(fault),
        }
    }

    // -- Safety --

    /// The node rules out votes up to round `target`.
    pub open spec fn increase_last_voted_round(self, target: RoundNumber) -> CoreView {
        CoreView { last_voted_round: max_round(self.last_voted_round, target), ..self }
    }

    /// The node votes for a block in the first phase: it is in the block's round, has not voted in
    /// that round or a later one, and the block extends the chain rightly.
    pub open spec fn may_vote1(self, block: BlockView) -> bool {
        &&& block.round == self.round
        &&& block.round > self.last_voted_round
        &&& extends_rightly(block)
    }

    /// The node votes for a block in the second phase: it has not voted in the block's round or a
    /// later one, and the block extends the chain safely.
    pub open spec fn may_vote2(self, block: BlockView) -> bool {
        &&& block.round > self.last_voted_round
        &&& extends_safely(block)
    }

    /// The node's vote for a block.
    pub open spec fn ballot(self, block: BlockView) -> Ballot {
        Ballot { hash: block.digest, round: block.round, author: self.name }
    }

    // -- Pacemaker --

    /// The timer for the current round.
    pub open spec fn timer(self) -> EffectView {
        EffectView::ScheduleTimer { delay: self.parameters.timeout_delay, round: self.round }
    }

    /// The node keeps the higher one of two certificates.
    pub open spec fn update_high_qc(self, qc: QCView) -> CoreView {
        if qc.round > self.high_qc.round {
            CoreView { high_qc: qc, ..self }
        } else {
            self
        }
    }

    /// The node leaves `round`, and every round before it, behind.
    pub open spec fn advance_round(self, round: RoundNumber) -> CoreView {
        if round < self.round {
            self
        } else {
            CoreView { round: (round + 1) as RoundNumber, ..self }
        }
    }

    /// Entering a round stops the timer of the old one, forgets what was collected for the
    /// rounds before it and starts its own timer.
    pub open spec fn advance_effects(self, round: RoundNumber) -> Seq<EffectView> {
        if round < self.round {
            Seq::empty()
        } else {
            seq![
                EffectView::CancelTimer { round: self.round },
                EffectView::CleanupAggregator { round: self.advance_round(round).round },
                self.advance_round(round).timer(),
            ]
        }
    }

    /// A certificate for a round ends that round.
    pub open spec fn process_qc(self, qc: QCView) -> CoreView {
        self.advance_round(qc.round).update_high_qc(qc)
    }

    /// The node gives up on its round.
    pub open spec fn local_timeout_round(self) -> Transition {
        self.increase_last_voted_round(self.round).ask(
            RequestView::SignTimeout {
                timeout_draft: TimeoutDraftView {
                    high_qc: self.high_qc,
                    round: self.round,
                    author: self.name,
                },
            },
        )
    }

    /// The timer starts again, and the signed timeout goes to all others; the node then counts it.
    pub open spec fn on_timeout_signed(
        self,
        draft: TimeoutDraftView,
        signature: Signature,
    ) -> Transition {
        let timeout = TimeoutView::signed(draft, signature);
        self.transmit(
            CoreMessageView::Timeout(timeout),
            None,
            ContinuationView::HandleTimeout { timeout },
        ).after(seq![self.timer()])
    }

    // -- Sending --

    /// The node sends a message to one node, or to all others.
    pub open spec fn transmit(
        self,
        message: CoreMessageView,
        to: Option<PublicKey>,
        next: ContinuationView,
    ) -> Transition {
        match to {
            Some(to) => self.ask(RequestView::FindAddress { to, message, next }),
            None => self.ask(RequestView::FindOthers { name: self.name, message, next }),
        }
    }

    /// A message goes out only to an address that is known.
    pub open spec fn on_address_found(
        self,
        message: CoreMessageView,
        next: ContinuationView,
        result: ConsensusResult<Address>,
    ) -> Transition {
        match result {
            Ok(address) => self.ask(
                RequestView::EncodeMessage { message, addresses: seq![address], next },
            ),
            Err(error) => self.finish(Err(error)),
        }
    }

    /// A message for all others goes out to whatever addresses there are.
    pub open spec fn on_others_found(
        self,
        message: CoreMessageView,
        next: ContinuationView,
        addresses: Seq<Address>,
    ) -> Transition {
        self.ask(RequestView::EncodeMessage { message, addresses, next })
    }

    /// The message is sent, and the node goes on.
    pub open spec fn on_message_encoded(
        self,
        addresses: Seq<Address>,
        next: ContinuationView,
        data: Seq<u8>,
    ) -> Transition {
        self.proceed(next).after(
            seq![EffectView::Send { message: NetMessageView { data, addresses } }],
        )
    }

    /// The node goes on after a message is sent.
    pub open spec fn proceed(self, next: ContinuationView) -> Transition {
        match next {
            ContinuationView::HandleTimeout { timeout } => self.handle_timeout(timeout),
            ContinuationView::Propose { tc } => self.elect(Some(tc)),
            ContinuationView::ProcessBlock { block } => self.process_block(block),
            ContinuationView::Finish => self.finish(Ok(())),
        }
    }

    // -- Votes and timeouts --

    /// Votes for rounds that are over are ignored.
    pub open spec fn handle_vote(self, vote: Vote) -> Transition {
        if vote.round < self.round {
            self.finish(Ok(()))
        } else {
            self.ask(RequestView::VerifyVote { vote })
        }
    }

    /// Only valid votes are counted.
    pub open spec fn on_vote_verified(self, vote: Vote, result: ConsensusResult<()>) -> Transition {
        match result {
            Ok(()) => self.ask(RequestView::AddVote { vote }),
            Err(error) => self.finish(Err(error)),
        }
    }

    /// A certificate that the vote completed ends its round; the node may then have to
    /// propose.
    pub open spec fn on_vote_added(self, result: ConsensusResult<Option<QCView>>) -> Transition {
        match result {
            Ok(Some(qc)) => if qc.round == RoundNumber::MAX {
                self.halt(Fault::RoundOverflow)
            } else {
                self.process_qc(qc).elect(None).after(self.advance_effects(qc.round))
            },
            Ok(None) => self.finish(Ok(())),
            Err(error) => self.finish(Err(error)),
        }
    }

    /// Timeouts of rounds that are over are ignored.
    pub open spec fn handle_timeout(self, timeout: TimeoutView) -> Transition {
        if timeout.round < self.round {
            self.finish(Ok(()))
        } else {
            self.ask(RequestView::VerifyTimeout { timeout })
        }
    }

    /// The certificate in a timeout is processed before the timeout is counted.
    pub open spec fn on_timeout_verified(
        self,
        timeout: TimeoutView,
        result: ConsensusResult<()>,
    ) -> Transition {
        match result {
            Ok(()) => if timeout.high_qc.round == RoundNumber::MAX {
                self.halt(Fault::RoundOverflow)
            } else {
                self.process_qc(timeout.high_qc).ask(RequestView::AddTimeout { timeout }).after(
                    self.advance_effects(timeout.high_qc.round),
                )
            },
            Err(error) => self.finish(Err(error)),
        }
    }

    /// A certificate that the timeout completed ends its round and is passed on to all
    /// others; the node may then have to propose.
    pub open spec fn on_timeout_added(self, result: ConsensusResult<Option<TCView>>) -> Transition {
        match result {
            Ok(Some(tc)) => if tc.round == RoundNumber::MAX {
                self.halt(Fault::RoundOverflow)
            } else {
                self.advance_round(tc.round).transmit(
                    CoreMessageView::TC(tc),
                    None,
                    ContinuationView::Propose { tc },
                ).after(self.advance_effects(tc.round))
            },
            Ok(None) => self.finish(Ok(())),
            Err(error) => self.finish(Err(error)),
        }
    }

    /// A timeout certificate ends its round; the node may then have to propose.
    pub open spec fn handle_tc(self, tc: TCView) -> Transition {
        if tc.round == RoundNumber::MAX {
            self.halt(Fault::RoundOverflow)
        } else {
            self.advance_round(tc.round).elect(Some(tc)).after(self.advance_effects(tc.round))
        }
    }

    // -- Proposing --

    /// The node asks whether it has to propose a block in the current round.
    pub open spec fn elect(self, tc: Option<TCView>) -> Transition {
        self.ask(
            RequestView::ElectLeader { round: self.round, election: ElectionView::Propose { tc } },
        )
    }

    /// What follows from who leads a round depends on why the node asked.
    pub open spec fn on_leader(self, election: ElectionView, leader: PublicKey) -> Transition {
        match election {
            ElectionView::Propose { tc } => if leader == self.name {
                self.generate_proposal(tc)
            } else {
                self.finish(Ok(()))
            },
            ElectionView::CheckProposer { block } => if block.author == leader {
                self.ask(RequestView::VerifyBlock { block })
            } else {
                self.finish(
                    Err(
                        ConsensusError::WrongLeader {
                            digest: block.digest,
                            leader: block.author,
                            round: block.round,
                        },
                    ),
                )
            },
            ElectionView::RouteVote { vote } => if leader == self.name {
                self.handle_vote(vote)
            } else {
                self.transmit(
                    CoreMessageView::Vote1(vote),
                    Some(leader),
                    ContinuationView::Finish,
                )
            },
        }
    }

    /// The node proposes a block; it observes the minimum block delay afterwards.
    pub open spec fn generate_proposal(self, tc: Option<TCView>) -> Transition {
        CoreView { delays: self.delays.push(self.parameters.min_block_delay), ..self }.ask(
            RequestView::GetPayload { max_size: self.parameters.max_payload_size, tc },
        )
    }

    /// The block extends the second-phase certificate and belongs to the current round.
    pub open spec fn on_payload(self, tc: Option<TCView>, payload: Seq<Digest>) -> Transition {
        self.ask(
            RequestView::SignBlock {
                block_draft: BlockDraftView {
                    qc: self.vote2_qc,
                    tc,
                    author: self.name,
                    round: self.round,
                    payload,
                },
            },
        )
    }

    /// The proposal goes to all others; the node then processes it itself.
    pub open spec fn on_block_signed(
        self,
        draft: BlockDraftView,
        digest: Digest,
        signature: Signature,
    ) -> Transition {
        let block = BlockView::signed(draft, digest, signature);
        self.transmit(
            CoreMessageView::Propose(block),
            None,
            ContinuationView::ProcessBlock { block },
        )
    }

    // -- Blocks --

    /// The proposer has to be the leader of the block's round.
    pub open spec fn handle_proposal(self, block: BlockView) -> Transition {
        self.ask(
            RequestView::ElectLeader {
                round: block.round,
                election: ElectionView::CheckProposer { block },
            },
        )
    }

    /// The certificates in a block may end rounds, whether or not the block is voted for.
    pub open spec fn on_block_verified(
        self,
        block: BlockView,
        result: ConsensusResult<()>,
    ) -> Transition {
        match result {
            Ok(()) => if block.qc.round == RoundNumber::MAX {
                self.halt(Fault::RoundOverflow)
            } else {
                let next = self.process_qc(block.qc);
                let first = self.advance_effects(block.qc.round);
                match block.tc {
                    None => next.ask(RequestView::VerifyPayload { block }).after(first),
                    Some(tc) => if tc.round == RoundNumber::MAX {
                        next.halt(Fault::RoundOverflow).after(first)
                    } else {
                        next.advance_round(tc.round).ask(
                            RequestView::VerifyPayload { block },
                        ).after(first + next.advance_effects(tc.round))
                    },
                }
            },
            Err(error) => self.finish(Err(error)),
        }
    }

    /// A block is processed only if its payload is there.
    pub open spec fn on_payload_verified(
        self,
        block: BlockView,
        result: ConsensusResult<bool>,
    ) -> Transition {
        match result {
            Ok(available) => if available {
                self.process_block(block)
            } else {
                self.finish(Ok(()))
            },
            Err(error) => self.finish(Err(error)),
        }
    }

    /// The parent of the block has to be there: it is the genesis block, or it is stored.
    pub open spec fn process_block(self, block: BlockView) -> Transition {
        if block.qc == QCView::genesis() {
            self.ask(RequestView::EncodeBlock { block, parent: BlockView::genesis() })
        } else {
            self.ask(
                RequestView::ReadStore {
                    key: block.previous().0@,
                    lookup: LookupView::Parent { block },
                },
            )
        }
    }

    /// A block without its parent is left to the synchronizer; a request for a block that is
    /// not stored is ignored.
    pub open spec fn on_read(
        self,
        lookup: LookupView,
        result: Result<Option<Seq<u8>>, String>,
    ) -> Transition {
        match result {
            Ok(Some(data)) => self.ask(RequestView::DecodeBlock { data, lookup }),
            Ok(None) => match lookup {
                LookupView::Parent { block } => self.finish(Ok(())).after(
                    seq![EffectView::Suspend { block }],
                ),
                LookupView::Requested { .. } => self.finish(Ok(())),
            },
            Err(error) => self.finish(Err(ConsensusError::StoreError(error))),
        }
    }

    /// A parent lets its child be stored; a block that was asked for is sent.
    pub open spec fn on_decoded(
        self,
        lookup: LookupView,
        result: Result<BlockView, String>,
    ) -> Transition {
        match result {
            Ok(stored) => match lookup {
                LookupView::Parent { block } => self.ask(
                    RequestView::EncodeBlock { block, parent: stored },
                ),
                LookupView::Requested { sender } => self.transmit(
                    CoreMessageView::Propose(stored),
                    Some(sender),
                    ContinuationView::Finish,
                ),
            },
            Err(error) => self.finish(Err(ConsensusError::SerializationError(error))),
        }
    }

    /// A block is stored under its digest.
    pub open spec fn on_block_encoded(
        self,
        block: BlockView,
        parent: BlockView,
        value: Seq<u8>,
    ) -> Transition {
        self.ask(RequestView::WriteStore { key: block.digest.0@, value, block, parent })
    }

    /// Once a block is stored, its parent is done with and the node may vote.
    pub open spec fn on_written(
        self,
        block: BlockView,
        parent: BlockView,
        result: Result<(), String>,
    ) -> Transition {
        match result {
            Ok(()) => self.vote_for(block).after(seq![EffectView::CleanupMempool { parent }]),
            Err(error) => self.finish(Err(ConsensusError::StoreError(error))),
        }
    }

    /// The node votes for a block of its current round, if that is safe.
    pub open spec fn vote_for(self, block: BlockView) -> Transition {
        if block.round != self.round {
            self.finish(Ok(()))
        } else {
            match vote_fault(block) {
                Some(fault) => self.halt(fault),
                None => if self.may_vote1(block) {
                    self.increase_last_voted_round(block.round).ask(
                        RequestView::SignVote { ballot: self.ballot(block) },
                    )
                } else {
                    self.finish(Ok(()))
                },
            }
        }
    }

    /// A vote goes to the leader of the next round.
    pub open spec fn on_vote_signed(self, ballot: Ballot, signature: Signature) -> Transition {
        if self.round == RoundNumber::MAX {
            self.halt(Fault::RoundOverflow)
        } else {
            self.ask(
                RequestView::ElectLeader {
                    round: (self.round + 1) as RoundNumber,
                    election: ElectionView::RouteVote { vote: Vote::spec_new(ballot, signature) },
                },
            )
        }
    }

    // -- Synchronisation --

    /// Another node asks for a block.
    pub open spec fn handle_sync_request(self, digest: Digest, sender: PublicKey) -> Transition {
        self.ask(
            RequestView::ReadStore { key: digest.0@, lookup: LookupView::Requested { sender } },
        )
    }

    // -- The whole node --

    /// The node starts its first round.
    pub open spec fn run(self) -> Transition {
        self.elect(None).after(seq![self.timer()])
    }

    /// A message is handled according to its kind. A timeout certificate that arrives on its
    /// own is not acted upon.
    pub open spec fn dispatch(self, message: CoreMessageView) -> Transition {
        match message {
            CoreMessageView::Propose(block) => self.handle_proposal(block),
            CoreMessageView::Vote1(vote) => self.handle_vote(vote),
            CoreMessageView::Vote2(vote) => self.handle_vote(vote),
            CoreMessageView::Timeout(timeout) => self.handle_timeout(timeout),
            CoreMessageView::TC(_) => self.finish(Ok(())),
            CoreMessageView::LoopBack(block) => self.process_block(block),
            CoreMessageView::SyncRequest(digest, sender) => self.handle_sync_request(
                digest,
                sender,
            ),
        }
    }

    /// A reply that does not answer the node's request changes nothing.
    pub open spec fn unexpected(self) -> Transition {
        Transition {
            core: self,
            effects: Seq::empty(),
            outcome: Outcome::Fault(Fault::UnexpectedReply),
        }
    }

    /// The node goes on with the reply to its request.
    pub open spec fn resume(self, reply: ReplyView) -> Transition {
        match (self.request, reply) {
            (
                Some(RequestView::VerifyVote { vote }),
                ReplyView::Verified(result),
            ) => self.on_vote_verified(vote, result),
            (
                Some(RequestView::AddVote { .. }),
                ReplyView::VoteAdded(result),
            ) => self.on_vote_added(result),
            (
                Some(RequestView::VerifyTimeout { timeout }),
                ReplyView::Verified(result),
            ) => self.on_timeout_verified(timeout, result),
            (
                Some(RequestView::AddTimeout { .. }),
                ReplyView::TimeoutAdded(result),
            ) => self.on_timeout_added(result),
            (
                Some(RequestView::VerifyBlock { block }),
                ReplyView::Verified(result),
            ) => self.on_block_verified(block, result),
            (
                Some(RequestView::VerifyPayload { block }),
                ReplyView::PayloadVerified(result),
            ) => self.on_payload_verified(block, result),
            (
                Some(RequestView::ElectLeader { election, .. }),
                ReplyView::Leader(leader),
            ) => self.on_leader(election, leader),
            (
                Some(RequestView::GetPayload { tc, .. }),
                ReplyView::Payload(payload),
            ) => self.on_payload(tc, payload),
            (
                Some(RequestView::SignBlock { block_draft }),
                ReplyView::BlockSigned(digest, signature),
            ) => self.on_block_signed(block_draft, digest, signature),
            (
                Some(RequestView::SignVote { ballot }),
                ReplyView::Signed(signature),
            ) => self.on_vote_signed(ballot, signature),
            (
                Some(RequestView::SignTimeout { timeout_draft }),
                ReplyView::Signed(signature),
            ) => self.on_timeout_signed(timeout_draft, signature),
            (
                Some(RequestView::ReadStore { lookup, .. }),
                ReplyView::Read(result),
            ) => self.on_read(lookup, result),
            (
                Some(RequestView::DecodeBlock { lookup, .. }),
                ReplyView::Decoded(result),
            ) => self.on_decoded(lookup, result),
            (
                Some(RequestView::EncodeBlock { block, parent }),
                ReplyView::Encoded(value),
            ) => self.on_block_encoded(block, parent, value),
            (
                Some(RequestView::WriteStore { block, parent, .. }),
                ReplyView::Written(result),
            ) => self.on_written(block, parent, result),
            (
                Some(RequestView::FindAddress { message, next, .. }),
                ReplyView::AddressFound(result),
            ) => self.on_address_found(message, next, result),
            (
                Some(RequestView::FindOthers { message, next, .. }),
                ReplyView::OthersFound(addresses),
            ) => self.on_others_found(message, next, addresses),
            (
                Some(RequestView::EncodeMessage { addresses, next, .. }),
                ReplyView::Encoded(data),
            ) => self.on_message_encoded(addresses, next, data),
            _ => self.unexpected(),
        }
    }

    /// One step of the node.
    pub open spec fn step(self, input: InputView) -> Transition {
        match input {
            InputView::Boot => self.run(),
            InputView::Message(message) => self.dispatch(message),
            InputView::TimerFired => self.local_timeout_round(),
            InputView::Reply(reply) => self.resume(reply),
        }
    }
}

} // verus!
