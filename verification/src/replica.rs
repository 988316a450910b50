//! The node: it handles what it is told and asks its host for the outside work it needs.
use crate::actions::{
    Continuation, Effect, Election, Fault, Input, Lookup, Outcome, Reply, Request, Step,
};
use crate::error::{ConsensusError, ConsensusResult};
use crate::keys::{Digest, PublicKey, RoundNumber, Signature};
use crate::messages::{
    Ballot, Block, BlockDraft, CoreMessage, Timeout, TimeoutDraft, Vote, QC, TC,
};
use crate::network::{Address, NetMessage};
use crate::protocol::{CoreView, Parameters};
use crate::synchronizer::{Ancestor, Synchronizer};
use vstd::prelude::*;

verus! {

/// A node of the committee.
#[derive(Debug)]
pub struct Core {
    /// The node itself.
    pub name: PublicKey,
    pub parameters: Parameters,
    /// The current round.
    pub round: RoundNumber,
    /// The highest round in which the node voted or gave up.
    pub last_voted_round: RoundNumber,
    /// The certificate of the first voting phase. Nothing updates it: it is that of genesis.
    pub vote1_qc: QC,
    /// The certificate of the second voting phase: proposals extend it. Nothing updates it: it is
    /// that of genesis.
    pub vote2_qc: QC,
    /// The certificate of the highest round that the node has processed.
    pub high_qc: QC,
    /// What the node waits for.
    pub request: Option<Request>,
    /// The delays that are due when the node is done with what it was told, one for each
    /// block that it has proposed since.
    pub delays: Vec<u64>,
}

impl View for Core {
    type V = CoreView;

    open spec fn view(&self) -> CoreView {
        CoreView {
            name: self.name,
            parameters: self.parameters,
            round: self.round,
            last_voted_round: self.last_voted_round,
            vote1_qc: self.vote1_qc@,
            vote2_qc: self.vote2_qc@,
            high_qc: self.high_qc@,
            request: match self.request {
                Some(request) => Some(request@),
                None => None,
            },
            delays: self.delays@,
        }
    }
}

/// The highest one of some rounds.
fn highest(rounds: &Vec<RoundNumber>) -> (max: RoundNumber)
    requires
        rounds.len() > 0,
    ensures
        rounds@.contains(max),
        forall|i: int| 0 <= i < rounds.len() ==> rounds[i] <= max,
{
    let mut max: RoundNumber = rounds[0];
    let mut i: usize = 1;
    while i < rounds.len()
        invariant
            1 <= i <= rounds.len(),
            rounds@.contains(max),
            forall|j: int| 0 <= j < i ==> rounds[j] <= max,
        decreases rounds.len() - i,
    {
        if rounds[i] > max {
            max = rounds[i];
        }
        i = i + 1;
    }
    max
}

/// Whether a block follows the timeout certificate that it carries.
fn follows_timeout(block: &Block, tc: &TC) -> (follows: bool)
    requires
        tc.round < RoundNumber::MAX,
        tc.votes.len() > 0,
    ensures
        follows == crate::protocol::follows_timeout(block@, tc@),
{
    let rounds = tc.high_qc_rounds();
    let max: RoundNumber = highest(&rounds);
    proof {
        let i = choose|i: int| 0 <= i < rounds@.len() && rounds@[i] == max;
        assert(tc@.high_qc_rounds()[i] == max);
    }
    tc.round + 1 == block.round && block.qc.round >= max
}

/// Whether a block extends the chain rightly: the rule of the first phase.
fn extends_rightly(block: &Block) -> (right: bool)
    requires
        crate::protocol::vote_fault(block@) is None,
    ensures
        right == crate::protocol::extends_rightly(block@),
{
    match &block.tc {
        None => block.qc.round + 1 == block.round,
        Some(tc) => follows_timeout(block, tc),
    }
}

/// Whether a block extends the chain safely: the rule of the second phase.
fn extends_safely(block: &Block) -> (safe: bool)
    requires
        crate::protocol::vote_fault(block@) is None,
    ensures
        safe == crate::protocol::extends_safely(block@),
{
    let mut safe = block.qc.round + 1 == block.round;
    if let Some(tc) = &block.tc {
        safe = safe || follows_timeout(block, tc);
    }
    safe
}

/// Why the rule for voting cannot be evaluated on a block.
fn vote_fault(block: &Block) -> (fault: Option<Fault>)
    ensures
        fault == crate::protocol::vote_fault(block@),
{
    if block.qc.round == RoundNumber::MAX {
        return Some(Fault::RoundOverflow);
    }
    match &block.tc {
        None => None,
        Some(tc) => if tc.round == RoundNumber::MAX {
            Some(Fault::RoundOverflow)
        } else if tc.votes.len() == 0 {
            Some(Fault::EmptyTC)
        } else {
            None
        },
    }
}

impl Core {
    /// A node that has not started yet: it is in round 1, has not voted and knows of no
    /// certificate but that of genesis.
    pub fn new(name: PublicKey, parameters: Parameters) -> (core: Core)
        ensures
            core@ == CoreView::new(name, parameters),
            core@.inv(),
    {
        Core {
            name,
            parameters,
            round: 1,
            last_voted_round: 0,
            vote1_qc: QC::genesis(),
            vote2_qc: QC::genesis(),
            high_qc: QC::genesis(),
            request: None,
            delays: Vec::new(),
        }
    }

    // -- What a step can come to --

    /// The node makes a request.
    fn ask(&mut self, request: Request) -> (step: Step)
        ensures
            step.performs(old(self)@.ask(request@), final(self)@),
    {
        self.request = Some(request);
        let effects: Vec<Effect> = Vec::new();
        assert(crate::actions::effects_view(effects@) =~= Seq::empty());
        Step { effects, outcome: Outcome::Waiting }
    }

    /// The node is done with what it was told. Delays are observed only after a success.
    fn finish(&mut self, result: ConsensusResult<()>) -> (step: Step)
        ensures
            step.performs(old(self)@.finish(result), final(self)@),
    {
        self.request = None;
        let mut effects: Vec<Effect> = Vec::new();
        if result.is_ok() {
            let ghost all = self.delays@;
            let ghost due = crate::protocol::sleeps(all);
            assert(crate::actions::effects_view(effects@) =~= due.take(0));
            while self.delays.len() > 0
                invariant
                    self.delays@.len() <= all.len(),
                    self.delays@ == all.take(self.delays@.len() as int),
                    effects@.len() == all.len() - self.delays@.len(),
                    due == crate::protocol::sleeps(all),
                    crate::actions::effects_view(effects@) == due.take(effects@.len() as int),
                    *self == (Core { delays: self.delays, request: None, ..*old(self) }),
                decreases self.delays.len(),
            {
                let n: usize = self.delays.len() - 1;
                let millis: u64 = self.delays[n];
                self.delays.truncate(n);
                effects.push(Effect::Sleep { millis });
                assert(self.delays@ =~= all.take(n as int));
                assert(crate::actions::effects_view(effects@) =~= due.take(effects@.len() as int));
            }
            assert(due.take(all.len() as int) =~= due);
        } else {
            self.delays.clear();
            assert(crate::actions::effects_view(effects@) =~= Seq::empty());
        }
        assert(self.delays@ =~= Seq::empty());
        Step { effects, outcome: Outcome::Finished(result) }
    }

    /// The node cannot go on.
    fn halt(&mut self, fault: Fault) -> (step: Step)
        ensures
            step.performs(old(self)@.halt(fault), final(self)@),
    {
        self.request = None;
        self.delays.clear();
        let effects: Vec<Effect> = Vec::new();
        assert(crate::actions::effects_view(effects@) =~= Seq::empty());
        assert(self.delays@ =~= Seq::empty());
        Step { effects, outcome: Outcome::Fault(fault) }
    }

    // -- Safety --

    /// The node rules out votes up to round `target`.
    pub fn increase_last_voted_round(&mut self, target: RoundNumber)
        ensures
            final(self)@ == old(self)@.increase_last_voted_round(target),
            old(self)@.inv() && old(self)@.request is None && target <= old(self)@.round
                ==> final(self)@.inv(),
    {
        if self.last_voted_round < target {
            self.last_voted_round = target;
        }
    }

    /// The node's vote for `block` in the first phase, for signing. There is one if and only
    /// if the node is in the block's round, has not voted in it or a later one, and the block
    /// extends the chain rightly; the node then votes in no round up to the block's any more.
    pub fn make_vote1(&mut self, block: &Block) -> (ballot: Option<Ballot>)
        requires
            crate::protocol::vote_fault(block@) is None,
        ensures
            old(self)@.may_vote1(block@) ==> {
                &&& ballot == Some(old(self)@.ballot(block@))
                &&& final(self)@ == (CoreView { last_voted_round: block.round, ..old(self)@ })
            },
            !old(self)@.may_vote1(block@) ==> ballot is None && final(self)@ == old(self)@,
            old(self)@.inv() && old(self)@.request is None ==> final(self)@.inv(),
    {
        if !(block.round == self.round && block.round > self.last_voted_round
            && extends_rightly(block)) {
            return None;
        }
        self.increase_last_voted_round(block.round);
        Some(Ballot { hash: block.digest, round: block.round, author: self.name })
    }

    /// The node's vote for `block` in the second phase, for signing. There is one if and only
    /// if the node has not voted in the block's round or a later one and the block extends the
    /// chain safely. Unlike in the first phase, the node need not be in the block's round, and
    /// a timeout certificate does not matter where the block extends its parent in the very
    /// next round. A vote in either phase rules out later ones in both.
    pub fn make_vote2(&mut self, block: &Block) -> (ballot: Option<Ballot>)
        requires
            crate::protocol::vote_fault(block@) is None,
        ensures
            old(self)@.may_vote2(block@) ==> {
                &&& ballot == Some(old(self)@.ballot(block@))
                &&& final(self)@ == (CoreView { last_voted_round: block.round, ..old(self)@ })
            },
            !old(self)@.may_vote2(block@) ==> ballot is None && final(self)@ == old(self)@,
            old(self)@.inv() && old(self)@.request is None && block.round <= old(self)@.round
                ==> final(self)@.inv(),
    {
        if !(block.round > self.last_voted_round && extends_safely(block)) {
            return None;
        }
        self.increase_last_voted_round(block.round);
        Some(Ballot { hash: block.digest, round: block.round, author: self.name })
    }

    // -- Pacemaker --

    /// The effect that starts the timer of the current round.
    pub fn schedule_timer(&self) -> (effect: Effect)
        ensures
            effect@ == self@.timer(),
    {
        Effect::ScheduleTimer { delay: self.parameters.timeout_delay, round: self.round }
    }

    /// The node keeps the higher one of two certificates.
    pub fn update_high_qc(&mut self, qc: &QC)
        ensures
            final(self)@ == old(self)@.update_high_qc(qc@),
            old(self)@.inv() && old(self)@.request is None && qc.round < old(self)@.round
                ==> final(self)@.inv(),
    {
        if qc.round > self.high_qc.round {
            self.high_qc = qc.clone();
        }
    }

    /// The node leaves `round`, and every round before it, behind.
    pub fn advance_round(&mut self, round: RoundNumber) -> (effects: Vec<Effect>)
        requires
            round < RoundNumber::MAX,
        ensures
            final(self)@ == old(self)@.advance_round(round),
            crate::actions::effects_view(effects@) == old(self)@.advance_effects(round),
            old(self)@.inv() && old(self)@.request is None ==> final(self)@.inv(),
    {
        let mut effects: Vec<Effect> = Vec::new();
        if round >= self.round {
            effects.push(Effect::CancelTimer { round: self.round });
            self.round = round + 1;
            effects.push(Effect::CleanupAggregator { round: self.round });
            effects.push(self.schedule_timer());
        }
        assert(crate::actions::effects_view(effects@) =~= old(self)@.advance_effects(round));
        effects
    }

    /// A certificate for a round ends that round.
    pub fn process_qc(&mut self, qc: &QC) -> (effects: Vec<Effect>)
        requires
            qc.round < RoundNumber::MAX,
        ensures
            final(self)@ == old(self)@.process_qc(qc@),
            crate::actions::effects_view(effects@) == old(self)@.advance_effects(qc.round),
            old(self)@.inv() && old(self)@.request is None ==> final(self)@.inv(),
    {
        let effects = self.advance_round(qc.round);
        self.update_high_qc(qc);
        effects
    }

    /// The node gives up on its round: it does not vote in it any more, and tells the others.
    pub fn local_timeout_round(&mut self) -> (step: Step)
        ensures
            step.performs(old(self)@.local_timeout_round(), final(self)@),
            old(self)@.inv() ==> final(self)@.inv(),
    {
        proof {
            if old(self)@.inv() {
                crate::laws::law_step_keeps_invariant(old(self)@, crate::actions::InputView::TimerFired);
            }
        }
        self.increase_last_voted_round(self.round);
        let timeout_draft = TimeoutDraft {
            high_qc: self.high_qc.clone(),
            round: self.round,
            author: self.name,
        };
        self.ask(Request::SignTimeout { timeout_draft })
    }

    /// The timer starts again, and the signed timeout goes to all others; the node then counts it.
    fn on_timeout_signed(&mut self, draft: TimeoutDraft, signature: Signature) -> (step: Step)
        ensures
            step.performs(old(self)@.on_timeout_signed(draft@, signature), final(self)@),
    {
        let timeout = Timeout::new(draft, signature);
        let mut effects: Vec<Effect> = Vec::new();
        effects.push(self.schedule_timer());
        assert(crate::actions::effects_view(effects@) =~= seq![old(self)@.timer()]);
        self.transmit(
            CoreMessage::Timeout(timeout.clone()),
            None,
            Continuation::HandleTimeout { timeout },
        ).after(effects)
    }

    // -- Sending --

    /// The node sends a message to one node, or to all others.
    pub fn transmit(
        &mut self,
        message: CoreMessage,
        to: Option<PublicKey>,
        next: Continuation,
    ) -> (step: Step)
        ensures
            step.performs(old(self)@.transmit(message@, to, next@), final(self)@),
            old(self)@.inv() ==> final(self)@.inv(),
    {
        match to {
            Some(to) => self.ask(Request::FindAddress { to, message, next }),
            None => {
                let name = self.name;
                self.ask(Request::FindOthers { name, message, next })
            },
        }
    }

    /// A message goes out only to an address that is known.
    fn on_address_found(
        &mut self,
        message: CoreMessage,
        next: Continuation,
        result: ConsensusResult<Address>,
    ) -> (step: Step)
        ensures
            step.performs(old(self)@.on_address_found(message@, next@, result), final(self)@),
    {
        match result {
            Ok(address) => {
                let mut addresses: Vec<Address> = Vec::new();
                addresses.push(address);
                assert(addresses@ =~= seq![address]);
                self.ask(Request::EncodeMessage { message, addresses, next })
            },
            Err(error) => self.finish(Err(error)),
        }
    }

    /// A message for all others goes out to whatever addresses there are.
    fn on_others_found(
        &mut self,
        message: CoreMessage,
        next: Continuation,
        addresses: Vec<Address>,
    ) -> (step: Step)
        ensures
            step.performs(old(self)@.on_others_found(message@, next@, addresses@), final(self)@),
    {
        self.ask(Request::EncodeMessage { message, addresses, next })
    }

    /// The message is sent, and the node goes on.
    fn on_message_encoded(
        &mut self,
        addresses: Vec<Address>,
        next: Continuation,
        data: Vec<u8>,
    ) -> (step: Step)
        ensures
            step.performs(old(self)@.on_message_encoded(addresses@, next@, data@), final(self)@),
    {
        let mut effects: Vec<Effect> = Vec::new();
        effects.push(Effect::Send { message: NetMessage::new(data, addresses) });
        assert(crate::actions::effects_view(effects@) =~= seq![effects@[0]@]);
        self.proceed(next).after(effects)
    }

    /// The node goes on after a message is sent.
    fn proceed(&mut self, next: Continuation) -> (step: Step)
        ensures
            step.performs(old(self)@.proceed(next@), final(self)@),
    {
        match next {
            Continuation::HandleTimeout { timeout } => self.handle_timeout(timeout),
            Continuation::Propose { tc } => self.elect(Some(tc)),
            Continuation::ProcessBlock { block } => self.process_block(block),
            Continuation::Finish => self.finish(Ok(())),
        }
    }

    // -- Votes and timeouts --

    /// Votes for rounds that are over are ignored.
    pub fn handle_vote(&mut self, vote: Vote) -> (step: Step)
        ensures
            step.performs(old(self)@.handle_vote(vote), final(self)@),
            old(self)@.inv() ==> final(self)@.inv(),
    {
        if vote.round < self.round {
            self.finish(Ok(()))
        } else {
            self.ask(Request::VerifyVote { vote })
        }
    }

    /// Only valid votes are counted.
    fn on_vote_verified(&mut self, vote: Vote, result: ConsensusResult<()>) -> (step: Step)
        ensures
            step.performs(old(self)@.on_vote_verified(vote, result), final(self)@),
    {
        match result {
            Ok(()) => self.ask(Request::AddVote { vote }),
            Err(error) => self.finish(Err(error)),
        }
    }

    /// A certificate that the vote completed ends its round; the node may then have to propose.
    fn on_vote_added(&mut self, result: ConsensusResult<Option<QC>>) -> (step: Step)
        ensures
            step.performs(
                old(self)@.on_vote_added(
                    match result {
                        Ok(Some(qc)) => Ok(Some(qc@)),
                        Ok(None) => Ok(None),
                        Err(error) => Err(error),
                    },
                ),
                final(self)@,
            ),
    {
        match result {
            Ok(Some(qc)) => {
                if qc.round == RoundNumber::MAX {
                    return self.halt(Fault::RoundOverflow);
                }
                let effects = self.process_qc(&qc);
                self.elect(None).after(effects)
            },
            Ok(None) => self.finish(Ok(())),
            Err(error) => self.finish(Err(error)),
        }
    }

    /// Timeouts of rounds that are over are ignored.
    pub fn handle_timeout(&mut self, timeout: Timeout) -> (step: Step)
        ensures
            step.performs(old(self)@.handle_timeout(timeout@), final(self)@),
            old(self)@.inv() ==> final(self)@.inv(),
    {
        if timeout.round < self.round {
            self.finish(Ok(()))
        } else {
            self.ask(Request::VerifyTimeout { timeout })
        }
    }

    /// The certificate in a timeout is processed before the timeout is counted.
    fn on_timeout_verified(&mut self, timeout: Timeout, result: ConsensusResult<()>) -> (step: Step)
        ensures
            step.performs(old(self)@.on_timeout_verified(timeout@, result), final(self)@),
    {
        match result {
            Ok(()) => {
                if timeout.high_qc.round == RoundNumber::MAX {
                    return self.halt(Fault::RoundOverflow);
                }
                let effects = self.process_qc(&timeout.high_qc);
                self.ask(Request::AddTimeout { timeout }).after(effects)
            },
            Err(error) => self.finish(Err(error)),
        }
    }

    /// A certificate that the timeout completed ends its round and is passed on.
    fn on_timeout_added(&mut self, result: ConsensusResult<Option<TC>>) -> (step: Step)
        ensures
            step.performs(
                old(self)@.on_timeout_added(
                    match result {
                        Ok(tc) => Ok(crate::messages::tc_view(tc)),
                        Err(error) => Err(error),
                    },
                ),
                final(self)@,
            ),
    {
        match result {
            Ok(Some(tc)) => {
                if tc.round == RoundNumber::MAX {
                    return self.halt(Fault::RoundOverflow);
                }
                let effects = self.advance_round(tc.round);
                self.transmit(CoreMessage::TC(tc.clone()), None, Continuation::Propose { tc }).after(
                    effects,
                )
            },
            Ok(None) => self.finish(Ok(())),
            Err(error) => self.finish(Err(error)),
        }
    }

    /// A timeout certificate ends its round; the node may then have to propose.
    pub fn handle_tc(&mut self, tc: TC) -> (step: Step)
        ensures
            step.performs(old(self)@.handle_tc(tc@), final(self)@),
            old(self)@.inv() ==> final(self)@.inv(),
    {
        if tc.round == RoundNumber::MAX {
            return self.halt(Fault::RoundOverflow);
        }
        let effects = self.advance_round(tc.round);
        self.elect(Some(tc)).after(effects)
    }

    // -- Proposing --

    /// The node asks whether it has to propose a block in the current round.
    fn elect(&mut self, tc: Option<TC>) -> (step: Step)
        ensures
            step.performs(old(self)@.elect(crate::messages::tc_view(tc)), final(self)@),
    {
        let round: RoundNumber = self.round;
        self.ask(Request::ElectLeader { round, election: Election::Propose { tc } })
    }

    /// What follows from who leads a round depends on why the node asked.
    fn on_leader(&mut self, election: Election, leader: PublicKey) -> (step: Step)
        ensures
            step.performs(old(self)@.on_leader(election@, leader), final(self)@),
    {
        match election {
            Election::Propose { tc } => if leader == self.name {
                self.generate_proposal(tc)
            } else {
                self.finish(Ok(()))
            },
            Election::CheckProposer { block } => if block.author == leader {
                self.ask(Request::VerifyBlock { block })
            } else {
                self.finish(
                    Err(
                        ConsensusError::WrongLeader {
                            digest: block.digest,
                            leader: block.author,
                            round: block.round,
                        },
                    ),
                )
            },
            Election::RouteVote { vote } => if leader == self.name {
                self.handle_vote(vote)
            } else {
                self.transmit(CoreMessage::Vote1(vote), Some(leader), Continuation::Finish)
            },
        }
    }

    /// The node proposes a block; it observes the minimum block delay afterwards.
    pub fn generate_proposal(&mut self, tc: Option<TC>) -> (step: Step)
        ensures
            step.performs(
                old(self)@.generate_proposal(crate::messages::tc_view(tc)),
                final(self)@,
            ),
            old(self)@.inv() ==> final(self)@.inv(),
    {
        let max_size: usize = self.parameters.max_payload_size;
        self.delays.push(self.parameters.min_block_delay);
        self.ask(Request::GetPayload { max_size, tc })
    }

    /// The block extends the second-phase certificate and belongs to the current round.
    fn on_payload(&mut self, tc: Option<TC>, payload: Vec<Digest>) -> (step: Step)
        ensures
            step.performs(
                old(self)@.on_payload(crate::messages::tc_view(tc), payload@),
                final(self)@,
            ),
    {
        let block_draft = BlockDraft {
            qc: self.vote2_qc.clone(),
            tc,
            author: self.name,
            round: self.round,
            payload,
        };
        self.ask(Request::SignBlock { block_draft })
    }

    /// The proposal goes to all others; the node then processes it itself.
    fn on_block_signed(
        &mut self,
        draft: BlockDraft,
        digest: Digest,
        signature: Signature,
    ) -> (step: Step)
        ensures
            step.performs(old(self)@.on_block_signed(draft@, digest, signature), final(self)@),
    {
        let block = Block::new(draft, digest, signature);
        self.transmit(
            CoreMessage::Propose(block.clone()),
            None,
            Continuation::ProcessBlock { block },
        )
    }

    // -- Blocks --

    /// The proposer has to be the leader of the block's round.
    pub fn handle_proposal(&mut self, block: Block) -> (step: Step)
        ensures
            step.performs(old(self)@.handle_proposal(block@), final(self)@),
            old(self)@.inv() ==> final(self)@.inv(),
    {
        let round: RoundNumber = block.round;
        self.ask(Request::ElectLeader { round, election: Election::CheckProposer { block } })
    }

    /// The certificates in a block may end rounds, whether or not the block is voted for.
    fn on_block_verified(&mut self, block: Block, result: ConsensusResult<()>) -> (step: Step)
        ensures
            step.performs(old(self)@.on_block_verified(block@, result), final(self)@),
    {
        match result {
            Ok(()) => {
                if block.qc.round == RoundNumber::MAX {
                    return self.halt(Fault::RoundOverflow);
                }
                let mut effects = self.process_qc(&block.qc);
                if let Some(tc) = &block.tc {
                    if tc.round == RoundNumber::MAX {
                        return self.halt(Fault::RoundOverflow).after(effects);
                    }
                    let ghost first = effects@;
                    let mut more = self.advance_round(tc.round);
                    let ghost second = more@;
                    effects.append(&mut more);
                    assert(crate::actions::effects_view(effects@)
                        =~= crate::actions::effects_view(first) + crate::actions::effects_view(
                        second,
                    ));
                }
                self.ask(Request::VerifyPayload { block }).after(effects)
            },
            Err(error) => self.finish(Err(error)),
        }
    }

    /// A block is processed only if its payload is there.
    fn on_payload_verified(&mut self, block: Block, result: ConsensusResult<bool>) -> (step: Step)
        ensures
            step.performs(old(self)@.on_payload_verified(block@, result), final(self)@),
    {
        match result {
            Ok(available) => if available {
                self.process_block(block)
            } else {
                self.finish(Ok(()))
            },
            Err(error) => self.finish(Err(error)),
        }
    }

    /// The parent of the block has to be there: it is the genesis block, or it is stored.
    pub fn process_block(&mut self, block: Block) -> (step: Step)
        ensures
            step.performs(old(self)@.process_block(block@), final(self)@),
            old(self)@.inv() ==> final(self)@.inv(),
    {
        match Synchronizer::get_ancestor(&block) {
            Ancestor::Known(parent) => self.ask(Request::EncodeBlock { block, parent }),
            Ancestor::Stored(key) => self.ask(
                Request::ReadStore { key, lookup: Lookup::Parent { block } },
            ),
        }
    }

    /// A block without its parent is left to the synchronizer.
    fn on_read(&mut self, lookup: Lookup, result: Result<Option<Vec<u8>>, String>) -> (step: Step)
        ensures
            step.performs(
                old(self)@.on_read(
                    lookup@,
                    match result {
                        Ok(Some(data)) => Ok(Some(data@)),
                        Ok(None) => Ok(None),
                        Err(error) => Err(error),
                    },
                ),
                final(self)@,
            ),
    {
        match result {
            Ok(Some(data)) => self.ask(Request::DecodeBlock { data, lookup }),
            Ok(None) => match lookup {
                Lookup::Parent { block } => {
                    let mut effects: Vec<Effect> = Vec::new();
                    effects.push(Effect::Suspend { block });
                    assert(crate::actions::effects_view(effects@) =~= seq![effects@[0]@]);
                    self.finish(Ok(())).after(effects)
                },
                Lookup::Requested { .. } => self.finish(Ok(())),
            },
            Err(error) => self.finish(Err(ConsensusError::StoreError(error))),
        }
    }

    /// A parent lets its child be stored; a block that was asked for is sent.
    fn on_decoded(&mut self, lookup: Lookup, result: Result<Block, String>) -> (step: Step)
        ensures
            step.performs(
                old(self)@.on_decoded(
                    lookup@,
                    match result {
                        Ok(block) => Ok(block@),
                        Err(error) => Err(error),
                    },
                ),
                final(self)@,
            ),
    {
        match result {
            Ok(stored) => match lookup {
                Lookup::Parent { block } => self.ask(
                    Request::EncodeBlock { block, parent: stored },
                ),
                Lookup::Requested { sender } => self.transmit(
                    CoreMessage::Propose(stored),
                    Some(sender),
                    Continuation::Finish,
                ),
            },
            Err(error) => self.finish(Err(ConsensusError::SerializationError(error))),
        }
    }

    /// A block is stored under its digest.
    fn store_block(&mut self, block: Block, parent: Block, value: Vec<u8>) -> (step: Step)
        ensures
            step.performs(old(self)@.on_block_encoded(block@, parent@, value@), final(self)@),
    {
        let key = block.digest.to_vec();
        self.ask(Request::WriteStore { key, value, block, parent })
    }

    /// Once a block is stored, its parent is done with and the node may vote.
    fn on_written(&mut self, block: Block, parent: Block, result: Result<(), String>) -> (step: Step)
        ensures
            step.performs(old(self)@.on_written(block@, parent@, result), final(self)@),
    {
        match result {
            Ok(()) => {
                let mut effects: Vec<Effect> = Vec::new();
                effects.push(Effect::CleanupMempool { parent });
                assert(crate::actions::effects_view(effects@) =~= seq![effects@[0]@]);
                self.vote_for(block).after(effects)
            },
            Err(error) => self.finish(Err(ConsensusError::StoreError(error))),
        }
    }

    /// The node votes for a block of its current round, if that is safe.
    fn vote_for(&mut self, block: Block) -> (step: Step)
        ensures
            step.performs(old(self)@.vote_for(block@), final(self)@),
    {
        if block.round != self.round {
            return self.finish(Ok(()));
        }
        if let Some(fault) = vote_fault(&block) {
            return self.halt(fault);
        }
        match self.make_vote1(&block) {
            Some(ballot) => self.ask(Request::SignVote { ballot }),
            None => self.finish(Ok(())),
        }
    }

    /// A vote goes to the leader of the next round.
    fn on_vote_signed(&mut self, ballot: Ballot, signature: Signature) -> (step: Step)
        ensures
            step.performs(old(self)@.on_vote_signed(ballot, signature), final(self)@),
    {
        if self.round == RoundNumber::MAX {
            return self.halt(Fault::RoundOverflow);
        }
        let round: RoundNumber = self.round + 1;
        let vote = Vote::new(ballot, signature);
        self.ask(Request::ElectLeader { round, election: Election::RouteVote { vote } })
    }

    // -- Synchronisation --

    /// Another node asks for a block.
    pub fn handle_sync_request(&mut self, digest: Digest, sender: PublicKey) -> (step: Step)
        ensures
            step.performs(old(self)@.handle_sync_request(digest, sender), final(self)@),
            old(self)@.inv() ==> final(self)@.inv(),
    {
        let key = digest.to_vec();
        self.ask(Request::ReadStore { key, lookup: Lookup::Requested { sender } })
    }

    // -- The whole node --

    /// The node starts its first round.
    pub fn run(&mut self) -> (step: Step)
        ensures
            step.performs(old(self)@.run(), final(self)@),
            old(self)@.inv() ==> final(self)@.inv(),
    {
        proof {
            if old(self)@.inv() {
                crate::laws::law_step_keeps_invariant(old(self)@, crate::actions::InputView::Boot);
            }
        }
        let mut effects: Vec<Effect> = Vec::new();
        effects.push(self.schedule_timer());
        assert(crate::actions::effects_view(effects@) =~= seq![old(self)@.timer()]);
        self.elect(None).after(effects)
    }

    /// A message is handled according to its kind. A timeout certificate that arrives on its
    /// own is not acted upon.
    pub fn dispatch(&mut self, message: CoreMessage) -> (step: Step)
        ensures
            step.performs(old(self)@.dispatch(message@), final(self)@),
            old(self)@.inv() ==> final(self)@.inv(),
    {
        proof {
            if old(self)@.inv() {
                crate::laws::law_step_keeps_invariant(old(self)@, crate::actions::InputView::Message(message@));
            }
        }
        match message {
            CoreMessage::Propose(block) => self.handle_proposal(block),
            CoreMessage::Vote1(vote) => self.handle_vote(vote),
            CoreMessage::Vote2(vote) => self.handle_vote(vote),
            CoreMessage::Timeout(timeout) => self.handle_timeout(timeout),
            CoreMessage::TC(_) => self.finish(Ok(())),
            CoreMessage::LoopBack(block) => self.process_block(block),
            CoreMessage::SyncRequest(digest, sender) => self.handle_sync_request(digest, sender),
        }
    }

    /// The node goes on with the reply to its request. A reply that does not answer the
    /// request changes nothing.
    pub fn resume(&mut self, reply: Reply) -> (step: Step)
        ensures
            step.performs(old(self)@.resume(reply@), final(self)@),
            old(self)@.inv() ==> final(self)@.inv(),
    {
        proof {
            if old(self)@.inv() {
                crate::laws::law_step_keeps_invariant(old(self)@, crate::actions::InputView::Reply(reply@));
            }
        }
        match (self.request.take(), reply) {
            (Some(Request::VerifyVote { vote }), Reply::Verified(result)) => self.on_vote_verified(
                vote,
                result,
            ),
            (Some(Request::AddVote { .. }), Reply::VoteAdded(result)) => self.on_vote_added(result),
            (
                Some(Request::VerifyTimeout { timeout }),
                Reply::Verified(result),
            ) => self.on_timeout_verified(timeout, result),
            (
                Some(Request::AddTimeout { .. }),
                Reply::TimeoutAdded(result),
            ) => self.on_timeout_added(result),
            (
                Some(Request::VerifyBlock { block }),
                Reply::Verified(result),
            ) => self.on_block_verified(block, result),
            (
                Some(Request::VerifyPayload { block }),
                Reply::PayloadVerified(result),
            ) => self.on_payload_verified(block, result),
            (
                Some(Request::ElectLeader { election, .. }),
                Reply::Leader(leader),
            ) => self.on_leader(election, leader),
            (
                Some(Request::GetPayload { tc, .. }),
                Reply::Payload(payload),
            ) => self.on_payload(tc, payload),
            (
                Some(Request::SignBlock { block_draft }),
                Reply::BlockSigned(digest, signature),
            ) => self.on_block_signed(block_draft, digest, signature),
            (
                Some(Request::SignVote { ballot }),
                Reply::Signed(signature),
            ) => self.on_vote_signed(ballot, signature),
            (
                Some(Request::SignTimeout { timeout_draft }),
                Reply::Signed(signature),
            ) => self.on_timeout_signed(timeout_draft, signature),
            (Some(Request::ReadStore { lookup, .. }), Reply::Read(result)) => self.on_read(
                lookup,
                result,
            ),
            (
                Some(Request::DecodeBlock { lookup, .. }),
                Reply::Decoded(result),
            ) => self.on_decoded(lookup, result),
            (
                Some(Request::EncodeBlock { block, parent }),
                Reply::Encoded(value),
            ) => self.store_block(block, parent, value),
            (
                Some(Request::WriteStore { block, parent, .. }),
                Reply::Written(result),
            ) => self.on_written(block, parent, result),
            (
                Some(Request::FindAddress { message, next, .. }),
                Reply::AddressFound(result),
            ) => self.on_address_found(message, next, result),
            (
                Some(Request::FindOthers { message, next, .. }),
                Reply::OthersFound(addresses),
            ) => self.on_others_found(message, next, addresses),
            (
                Some(Request::EncodeMessage { addresses, next, .. }),
                Reply::Encoded(data),
            ) => self.on_message_encoded(addresses, next, data),
            (request, _) => {
                self.request = request;
                let effects: Vec<Effect> = Vec::new();
                assert(crate::actions::effects_view(effects@) =~= Seq::empty());
                Step { effects, outcome: Outcome::Fault(Fault::UnexpectedReply) }
            },
        }
    }

    /// One step of the node.
    pub fn step(&mut self, input: Input) -> (step: Step)
        ensures
            step.performs(old(self)@.step(input@), final(self)@),
            old(self)@.inv() ==> final(self)@.inv(),
    {
        match input {
            Input::Boot => self.run(),
            Input::Message(message) => self.dispatch(message),
            Input::TimerFired => self.local_timeout_round(),
            Input::Reply(reply) => self.resume(reply),
        }
    }
}

} // verus!
