//! What a node does with each thing it is told, in plain terms: which of its fields change, what
//! it has done, and what it asks for next.
use crate::actions::{
    ContinuationView, EffectView, ElectionView, Fault, InputView, LookupView, Outcome, ReplyView,
    RequestView, Step,
};
use crate::error::{ConsensusError, ConsensusResult};
use crate::keys::{Digest, PublicKey, RoundNumber, Signature};
use crate::messages::{
    Ballot, BlockDraftView, BlockView, CoreMessageView, QCView, TCView, TimeoutDraftView,
    TimeoutView, Vote,
};
use crate::network::{Address, NetMessageView};
use crate::protocol::{CoreView, Parameters, Transition};
use vstd::prelude::*;

verus! {

// -- What a step can come to --

/// The node is left in the state `next`, has `effects` and waits for the reply to `request`.
pub open spec fn waits(
    transition: Transition,
    next: CoreView,
    effects: Seq<EffectView>,
    request: RequestView,
) -> bool {
    &&& transition.core == CoreView { request: Some(request), ..next }
    &&& transition.effects =~= effects
    &&& transition.outcome is Waiting
}

/// The node is left in the state `next`, waits for nothing and is done with `result`. It has
/// `effects`, and after a success it then observes the delays that were due, the latest first.
pub open spec fn ends(
    transition: Transition,
    next: CoreView,
    effects: Seq<EffectView>,
    result: ConsensusResult<()>,
) -> bool {
    let due = if result is Ok {
        next.delays.len()
    } else {
        0
    };
    &&& transition.core.request is None
    &&& transition.core.delays.len() == 0
    &&& transition.core == CoreView {
        request: transition.core.request,
        delays: transition.core.delays,
        ..next
    }
    &&& transition.effects.len() == effects.len() + due
    &&& forall|i: int|
        #![trigger transition.effects[i]]
        0 <= i < effects.len() ==> transition.effects[i] == effects[i]
    &&& forall|i: int|
        #![trigger transition.effects[i]]
        effects.len() <= i < effects.len() + due ==> transition.effects[i] == (EffectView::Sleep {
            millis: next.delays[effects.len() + due - 1 - i],
        })
    &&& transition.outcome == Outcome::Finished(result)
}

/// The node is left in the state `next` but for what it waits for, has `effects` and cannot go
/// on.
pub open spec fn stops(
    transition: Transition,
    next: CoreView,
    effects: Seq<EffectView>,
    fault: Fault,
) -> bool {
    &&& transition.core.request is None
    &&& transition.core.delays.len() == 0
    &&& transition.core == CoreView {
        request: transition.core.request,
        delays: transition.core.delays,
        ..next
    }
    &&& transition.effects =~= effects
    &&& transition.outcome == Outcome::Fault(fault)
}

/// Nothing is done.
pub open spec fn nothing() -> Seq<EffectView> {
    Seq::empty()
}

/// The round of a node in round `current` once `round` is over.
pub open spec fn round_after(current: RoundNumber, round: RoundNumber) -> RoundNumber {
    if current > round {
        current
    } else {
        (round + 1) as RoundNumber
    }
}

/// What a node in the state `core` does when it goes to the round `to`: nothing if it is there;
/// else it stops the old timer, has the old rounds forgotten and starts the new timer.
pub open spec fn on_the_way(core: CoreView, to: RoundNumber) -> Seq<EffectView> {
    if core.round == to {
        Seq::empty()
    } else {
        seq![
            EffectView::CancelTimer { round: core.round },
            EffectView::CleanupAggregator { round: to },
            EffectView::ScheduleTimer { delay: core.parameters.timeout_delay, round: to },
        ]
    }
}

/// The one of two certificates that a node keeps: its own, unless the other one is higher.
pub open spec fn kept(own: QCView, other: QCView) -> QCView {
    if own.round < other.round {
        other
    } else {
        own
    }
}

/// The block may be voted for: it carries no timeout certificate and its parent is certified in
/// the round before; or it carries one of the round before, none of whose voters knew a higher
/// certificate than the block's.
pub open spec fn votable(block: BlockView) -> bool {
    ||| block.tc is None && block.round == block.qc.round + 1
    ||| {
        &&& block.tc matches Some(tc)
        &&& block.round == tc.round + 1
        &&& forall|i: int| 0 <= i < tc.votes.len() ==> (#[trigger] tc.votes[i]).2 <= block.qc.round
    }
}

/// The rule for voting can be evaluated on the block.
pub open spec fn ratable(block: BlockView) -> bool {
    &&& block.qc.round < RoundNumber::MAX
    &&& block.tc matches Some(tc) ==> tc.round < RoundNumber::MAX && tc.votes.len() > 0
}

/// A node in the state `core` takes up a block: if the block extends genesis it is encoded for
/// the store; else its parent is read from the store.
pub open spec fn takes_up(
    transition: Transition,
    core: CoreView,
    effects: Seq<EffectView>,
    block: BlockView,
) -> bool {
    if block.qc == QCView::genesis() {
        waits(
            transition,
            core,
            effects,
            RequestView::EncodeBlock { block, parent: BlockView::genesis() },
        )
    } else {
        waits(
            transition,
            core,
            effects,
            RequestView::ReadStore { key: block.qc.hash.0@, lookup: LookupView::Parent { block } },
        )
    }
}

/// A node in the state `core` takes up a vote: it has it verified, unless its round is over.
pub open spec fn takes_up_vote(
    transition: Transition,
    core: CoreView,
    effects: Seq<EffectView>,
    vote: Vote,
) -> bool {
    if vote.round >= core.round {
        waits(transition, core, effects, RequestView::VerifyVote { vote })
    } else {
        ends(transition, core, effects, Ok(()))
    }
}

/// A node in the state `core` takes up a timeout: it has it verified, unless its round is over.
pub open spec fn takes_up_timeout(
    transition: Transition,
    core: CoreView,
    effects: Seq<EffectView>,
    timeout: TimeoutView,
) -> bool {
    if timeout.round >= core.round {
        waits(transition, core, effects, RequestView::VerifyTimeout { timeout })
    } else {
        ends(transition, core, effects, Ok(()))
    }
}

/// A node in the state `core` asks who leads its round, to propose with `tc` if it does.
pub open spec fn asks_to_propose(
    transition: Transition,
    core: CoreView,
    effects: Seq<EffectView>,
    tc: Option<TCView>,
) -> bool {
    waits(
        transition,
        core,
        effects,
        RequestView::ElectLeader { round: core.round, election: ElectionView::Propose { tc } },
    )
}

/// A node in the state `core` looks up the addresses of all others for a message.
pub open spec fn broadcasts(
    transition: Transition,
    core: CoreView,
    effects: Seq<EffectView>,
    message: CoreMessageView,
    next: ContinuationView,
) -> bool {
    waits(
        transition,
        core,
        effects,
        RequestView::FindOthers { name: core.name, message, next },
    )
}

// -- The vocabulary --

/// A new node is in round 1, has not voted, knows of no certificate but that of genesis, waits
/// for nothing and has no delay due.
pub proof fn law_new_node(name: PublicKey, parameters: Parameters)
    ensures
        ({
            let core = CoreView::new(name, parameters);
            &&& core.name == name
            &&& core.parameters == parameters
            &&& core.round == 1
            &&& core.last_voted_round == 0
            &&& core.vote1_qc == QCView::genesis()
            &&& core.vote2_qc == QCView::genesis()
            &&& core.high_qc == QCView::genesis()
            &&& core.request is None
            &&& core.delays.len() == 0
        }),
{
}

/// A step is a transition exactly if both leave the node in the same state and with the same
/// outcome, and both have the same effects in the same order.
pub proof fn law_step_is_transition(step: Step, transition: Transition, core: CoreView)
    ensures
        step.performs(transition, core) <==> {
            &&& core == transition.core
            &&& step.outcome == transition.outcome
            &&& step.effects.len() == transition.effects.len()
            &&& forall|i: int|
                0 <= i < step.effects.len() ==> (#[trigger] step.effects[i])@
                    == transition.effects[i]
        },
{
    let effects = crate::actions::effects_view(step.effects@);
    assert(effects.len() == step.effects.len());
    assert(forall|i: int|
        0 <= i < step.effects.len() ==> effects[i] == (#[trigger] step.effects[i])@);
    if step.effects.len() == transition.effects.len() && (forall|i: int|
        0 <= i < step.effects.len() ==> (#[trigger] step.effects[i])@ == transition.effects[i]) {
        assert(effects =~= transition.effects);
    }
    if step.performs(transition, core) {
        assert forall|i: int| 0 <= i < step.effects.len() implies (#[trigger] step.effects[i])@
            == transition.effects[i] by {
            assert(effects[i] == transition.effects[i]);
        }
    }
}

/// The rule of the first phase: the node votes exactly for the blocks of its own round that may
/// be voted for, if it has not voted in that round or a later one.
pub proof fn law_first_phase_rule(core: CoreView, block: BlockView)
    ensures
        core.may_vote1(block) <==> {
            &&& block.round == core.round
            &&& block.round > core.last_voted_round
            &&& votable(block)
        },
{
    if let Some(tc) = block.tc {
        let rounds = tc.high_qc_rounds();
        assert(rounds.len() == tc.votes.len());
        assert(forall|i: int| 0 <= i < tc.votes.len() ==> rounds[i] == (#[trigger] tc.votes[i]).2);
        if votable(block) {
            assert forall|i: int| 0 <= i < rounds.len() implies block.qc.round
                >= #[trigger] rounds[i] by {
                assert(tc.votes[i].2 <= block.qc.round);
            }
        }
        if core.may_vote1(block) {
            assert forall|i: int| 0 <= i < tc.votes.len() implies (#[trigger] tc.votes[i]).2
                <= block.qc.round by {
                assert(rounds[i] <= block.qc.round);
            }
        }
    }
}

/// The rule of the second phase: the node votes exactly for the blocks that may be voted for or
/// whose parent is certified in the round before, if it has not voted in the block's round or a
/// later one.
pub proof fn law_second_phase_rule(core: CoreView, block: BlockView)
    ensures
        core.may_vote2(block) <==> {
            &&& block.round > core.last_voted_round
            &&& votable(block) || block.round == block.qc.round + 1
        },
{
    law_first_phase_rule(CoreView { round: block.round, ..core }, block);
}

/// The rule for voting can be evaluated on a block unless a round would have to follow the last
/// one that can be counted, or the timeout certificate of the block has no votes; the former is
/// noticed first.
pub proof fn law_rule_can_be_evaluated(block: BlockView)
    ensures
        crate::protocol::vote_fault(block) is None <==> ratable(block),
        crate::protocol::vote_fault(block) == Some(Fault::RoundOverflow) <==> (block.qc.round
            == RoundNumber::MAX || (block.tc matches Some(tc) && tc.round == RoundNumber::MAX)),
        crate::protocol::vote_fault(block) == Some(Fault::EmptyTC) <==> {
            &&& block.qc.round < RoundNumber::MAX
            &&& block.tc matches Some(tc)
            &&& tc.round < RoundNumber::MAX
            &&& tc.votes.len() == 0
        },
{
}

/// A vote names the block, the block's round and the voter.
pub proof fn law_ballot_names_block(core: CoreView, block: BlockView)
    ensures
        core.ballot(block) == (Ballot { hash: block.digest, round: block.round, author: core.name }),
{
}

/// Ruling out votes up to a round raises the highest round voted in to it, and does nothing else.
pub proof fn law_ruling_out_rounds(core: CoreView, round: RoundNumber)
    ensures
        ({
            let next = core.increase_last_voted_round(round);
            &&& next == CoreView { last_voted_round: next.last_voted_round, ..core }
            &&& next.last_voted_round >= round && next.last_voted_round >= core.last_voted_round
            &&& next.last_voted_round == round || next.last_voted_round == core.last_voted_round
        }),
{
}

/// Leaving a round behind moves the node to the round after it, unless the node is further on,
/// and the timer with it.
pub proof fn law_leaving_a_round(core: CoreView, round: RoundNumber)
    requires
        round < RoundNumber::MAX,
    ensures
        core.advance_round(round) == (CoreView { round: round_after(core.round, round), ..core }),
        core.advance_effects(round) =~= on_the_way(core, round_after(core.round, round)),
        core.timer() == (EffectView::ScheduleTimer {
            delay: core.parameters.timeout_delay,
            round: core.round,
        }),
{
}

/// A certificate is kept whole if it is higher than the node's own, and its round is left behind.
pub proof fn law_certificate_is_kept_whole(core: CoreView, qc: QCView)
    requires
        qc.round < RoundNumber::MAX,
    ensures
        core.update_high_qc(qc) == (CoreView { high_qc: kept(core.high_qc, qc), ..core }),
        core.process_qc(qc) == (CoreView {
            round: round_after(core.round, qc.round),
            high_qc: kept(core.high_qc, qc),
            ..core
        }),
{
}

// -- What starts a node off --

/// A node that starts sets the timer of its round and asks who leads it.
pub proof fn law_start(core: CoreView)
    ensures
        core.run() == core.step(InputView::Boot),
        asks_to_propose(
            core.run(),
            core,
            seq![
                EffectView::ScheduleTimer {
                    delay: core.parameters.timeout_delay,
                    round: core.round,
                },
            ],
            None,
        ),
{
}

/// A node whose timer fires rules out votes in its round and signs a timeout of that round, with
/// the highest certificate it knows.
pub proof fn law_timer_fires(core: CoreView)
    ensures
        core.local_timeout_round() == core.step(InputView::TimerFired),
        waits(
            core.local_timeout_round(),
            CoreView {
                last_voted_round: if core.last_voted_round > core.round {
                    core.last_voted_round
                } else {
                    core.round
                },
                ..core
            },
            nothing(),
            RequestView::SignTimeout {
                timeout_draft: TimeoutDraftView {
                    high_qc: core.high_qc,
                    round: core.round,
                    author: core.name,
                },
            },
        ),
{
}

/// Whatever round the node is in, a proposal makes it ask who leads the round of the block.
pub proof fn law_proposal_is_taken_up(core: CoreView, block: BlockView)
    ensures
        core.handle_proposal(block) == core.step(
            InputView::Message(CoreMessageView::Propose(block)),
        ),
        waits(
            core.handle_proposal(block),
            core,
            nothing(),
            RequestView::ElectLeader {
                round: block.round,
                election: ElectionView::CheckProposer { block },
            },
        ),
{
}

/// Whatever round the node is in, a proposal of the right leader is verified next, and nothing
/// else changes.
pub proof fn law_right_leader_is_heard(core: CoreView, block: BlockView)
    ensures
        waits(
            core.step(InputView::Message(CoreMessageView::Propose(block))).core.step(
                InputView::Reply(ReplyView::Leader(block.author)),
            ),
            core,
            nothing(),
            RequestView::VerifyBlock { block },
        ),
{
}

/// A vote of either phase is verified exactly if its round is not over.
pub proof fn law_vote_is_taken_up(core: CoreView, vote: Vote)
    ensures
        takes_up_vote(core.handle_vote(vote), core, nothing(), vote),
        takes_up_vote(
            core.step(InputView::Message(CoreMessageView::Vote1(vote))),
            core,
            nothing(),
            vote,
        ),
        takes_up_vote(
            core.step(InputView::Message(CoreMessageView::Vote2(vote))),
            core,
            nothing(),
            vote,
        ),
{
}

/// A timeout is verified exactly if its round is not over.
pub proof fn law_timeout_is_taken_up(core: CoreView, timeout: TimeoutView)
    ensures
        takes_up_timeout(core.handle_timeout(timeout), core, nothing(), timeout),
        takes_up_timeout(
            core.step(InputView::Message(CoreMessageView::Timeout(timeout))),
            core,
            nothing(),
            timeout,
        ),
{
}

/// A timeout certificate that arrives on its own as a message is let go.
pub proof fn law_certificate_message_is_let_go(core: CoreView, tc: TCView)
    ensures
        ends(
            core.step(InputView::Message(CoreMessageView::TC(tc))),
            core,
            nothing(),
            Ok(()),
        ),
{
}

/// A timeout certificate that the node is handed ends its round, and the node asks who leads the
/// round it is in then, to propose with that certificate.
pub proof fn law_certificate_ends_round(core: CoreView, tc: TCView)
    ensures
        tc.round < RoundNumber::MAX ==> {
            let to = round_after(core.round, tc.round);
            asks_to_propose(
                core.handle_tc(tc),
                CoreView { round: to, ..core },
                on_the_way(core, to),
                Some(tc),
            )
        },
        tc.round == RoundNumber::MAX ==> stops(
            core.handle_tc(tc),
            core,
            nothing(),
            Fault::RoundOverflow,
        ),
{
}

/// A block that is looped back, or processed directly, is taken up whatever round the node is in.
pub proof fn law_block_is_taken_up(core: CoreView, block: BlockView)
    ensures
        takes_up(core.process_block(block), core, nothing(), block),
        takes_up(
            core.step(InputView::Message(CoreMessageView::LoopBack(block))),
            core,
            nothing(),
            block,
        ),
{
}

/// A request for a block makes the node read what it has stored under the block's digest.
pub proof fn law_sync_request_is_taken_up(core: CoreView, digest: Digest, sender: PublicKey)
    ensures
        core.handle_sync_request(digest, sender) == core.step(
            InputView::Message(CoreMessageView::SyncRequest(digest, sender)),
        ),
        waits(
            core.handle_sync_request(digest, sender),
            core,
            nothing(),
            RequestView::ReadStore { key: digest.0@, lookup: LookupView::Requested { sender } },
        ),
{
}

/// A message for one node makes the node look up the address of that node; one for all others
/// makes it look up the addresses of all but itself.
pub proof fn law_message_is_addressed(
    core: CoreView,
    message: CoreMessageView,
    to: PublicKey,
    next: ContinuationView,
)
    ensures
        waits(
            core.transmit(message, Some(to), next),
            core,
            nothing(),
            RequestView::FindAddress { to, message, next },
        ),
        broadcasts(core.transmit(message, None, next), core, nothing(), message, next),
{
}

/// Proposing takes payload up to the limit, keeps hold of the timeout certificate, and makes one
/// more minimum block delay due.
pub proof fn law_proposing_takes_payload(core: CoreView, tc: Option<TCView>)
    ensures
        waits(
            core.generate_proposal(tc),
            CoreView { delays: core.delays.push(core.parameters.min_block_delay), ..core },
            nothing(),
            RequestView::GetPayload { max_size: core.parameters.max_payload_size, tc },
        ),
{
}

// -- How a node goes on --

/// A vote that is found valid is counted; one that is not is refused with the reason.
pub proof fn law_vote_verified(core: CoreView, vote: Vote, error: ConsensusError)
    requires
        core.request == Some(RequestView::VerifyVote { vote }),
    ensures
        waits(
            core.step(InputView::Reply(ReplyView::Verified(Ok(())))),
            core,
            nothing(),
            RequestView::AddVote { vote },
        ),
        ends(
            core.step(InputView::Reply(ReplyView::Verified(Err(error)))),
            core,
            nothing(),
            Err(error),
        ),
{
}

/// A vote that completes a certificate ends the certificate's round, the certificate is kept
/// whole if it is higher than the node's own, and the node asks who leads the round it is in
/// then. A vote that completes nothing changes nothing.
pub proof fn law_vote_counted(core: CoreView, vote: Vote, qc: QCView, error: ConsensusError)
    requires
        core.request == Some(RequestView::AddVote { vote }),
    ensures
        qc.round < RoundNumber::MAX ==> {
            let to = round_after(core.round, qc.round);
            asks_to_propose(
                core.step(InputView::Reply(ReplyView::VoteAdded(Ok(Some(qc))))),
                CoreView { round: to, high_qc: kept(core.high_qc, qc), ..core },
                on_the_way(core, to),
                None,
            )
        },
        qc.round == RoundNumber::MAX ==> stops(
            core.step(InputView::Reply(ReplyView::VoteAdded(Ok(Some(qc))))),
            core,
            nothing(),
            Fault::RoundOverflow,
        ),
        ends(
            core.step(InputView::Reply(ReplyView::VoteAdded(Ok(None)))),
            core,
            nothing(),
            Ok(()),
        ),
        ends(
            core.step(InputView::Reply(ReplyView::VoteAdded(Err(error)))),
            core,
            nothing(),
            Err(error),
        ),
{
}

/// A timeout that is found valid ends the round of the certificate that it carries, which is kept
/// whole if it is higher than the node's own, and is then counted. One that is not valid is
/// refused with the reason.
pub proof fn law_timeout_verified(core: CoreView, timeout: TimeoutView, error: ConsensusError)
    requires
        core.request == Some(RequestView::VerifyTimeout { timeout }),
    ensures
        timeout.high_qc.round < RoundNumber::MAX ==> {
            let to = round_after(core.round, timeout.high_qc.round);
            waits(
                core.step(InputView::Reply(ReplyView::Verified(Ok(())))),
                CoreView { round: to, high_qc: kept(core.high_qc, timeout.high_qc), ..core },
                on_the_way(core, to),
                RequestView::AddTimeout { timeout },
            )
        },
        timeout.high_qc.round == RoundNumber::MAX ==> stops(
            core.step(InputView::Reply(ReplyView::Verified(Ok(())))),
            core,
            nothing(),
            Fault::RoundOverflow,
        ),
        ends(
            core.step(InputView::Reply(ReplyView::Verified(Err(error)))),
            core,
            nothing(),
            Err(error),
        ),
{
}

/// A timeout that completes a certificate ends the certificate's round, and the certificate goes
/// to all others before the node asks whether it has to propose with it. A timeout that
/// completes nothing changes nothing.
pub proof fn law_timeout_counted(
    core: CoreView,
    timeout: TimeoutView,
    tc: TCView,
    error: ConsensusError,
)
    requires
        core.request == Some(RequestView::AddTimeout { timeout }),
    ensures
        tc.round < RoundNumber::MAX ==> {
            let to = round_after(core.round, tc.round);
            broadcasts(
                core.step(InputView::Reply(ReplyView::TimeoutAdded(Ok(Some(tc))))),
                CoreView { round: to, ..core },
                on_the_way(core, to),
                CoreMessageView::TC(tc),
                ContinuationView::Propose { tc },
            )
        },
        tc.round == RoundNumber::MAX ==> stops(
            core.step(InputView::Reply(ReplyView::TimeoutAdded(Ok(Some(tc))))),
            core,
            nothing(),
            Fault::RoundOverflow,
        ),
        ends(
            core.step(InputView::Reply(ReplyView::TimeoutAdded(Ok(None)))),
            core,
            nothing(),
            Ok(()),
        ),
        ends(
            core.step(InputView::Reply(ReplyView::TimeoutAdded(Err(error)))),
            core,
            nothing(),
            Err(error),
        ),
{
}

/// A block that is found valid ends the rounds of both certificates that it carries, first that
/// of its parent's, which is kept whole if it is higher than the node's own; its payload is
/// asked for next. One that is not valid is refused with the reason.
pub proof fn law_block_verified(core: CoreView, block: BlockView, error: ConsensusError)
    requires
        core.request == Some(RequestView::VerifyBlock { block }),
    ensures
        ({
            let transition = core.step(InputView::Reply(ReplyView::Verified(Ok(()))));
            let first = round_after(core.round, block.qc.round);
            let next = CoreView { round: first, high_qc: kept(core.high_qc, block.qc), ..core };
            if block.qc.round == RoundNumber::MAX {
                stops(transition, core, nothing(), Fault::RoundOverflow)
            } else {
                match block.tc {
                    None => waits(
                        transition,
                        next,
                        on_the_way(core, first),
                        RequestView::VerifyPayload { block },
                    ),
                    Some(tc) => if tc.round == RoundNumber::MAX {
                        stops(transition, next, on_the_way(core, first), Fault::RoundOverflow)
                    } else {
                        let second = round_after(first, tc.round);
                        waits(
                            transition,
                            CoreView { round: second, ..next },
                            on_the_way(core, first) + on_the_way(next, second),
                            RequestView::VerifyPayload { block },
                        )
                    },
                }
            }
        }),
        ends(
            core.step(InputView::Reply(ReplyView::Verified(Err(error)))),
            core,
            nothing(),
            Err(error),
        ),
{
}

/// A block whose payload is there is taken up; one whose payload is missing is let go for now.
pub proof fn law_payload_verified(core: CoreView, block: BlockView, error: ConsensusError)
    requires
        core.request == Some(RequestView::VerifyPayload { block }),
    ensures
        takes_up(
            core.step(InputView::Reply(ReplyView::PayloadVerified(Ok(true)))),
            core,
            nothing(),
            block,
        ),
        ends(
            core.step(InputView::Reply(ReplyView::PayloadVerified(Ok(false)))),
            core,
            nothing(),
            Ok(()),
        ),
        ends(
            core.step(InputView::Reply(ReplyView::PayloadVerified(Err(error)))),
            core,
            nothing(),
            Err(error),
        ),
{
}

/// A node that asked who leads its round proposes exactly if it does itself, with the very
/// timeout certificate with which it asked.
pub proof fn law_leader_proposes(
    core: CoreView,
    round: RoundNumber,
    tc: Option<TCView>,
    leader: PublicKey,
)
    requires
        core.request == Some(
            RequestView::ElectLeader { round, election: ElectionView::Propose { tc } },
        ),
    ensures
        leader == core.name ==> waits(
            core.step(InputView::Reply(ReplyView::Leader(leader))),
            CoreView { delays: core.delays.push(core.parameters.min_block_delay), ..core },
            nothing(),
            RequestView::GetPayload { max_size: core.parameters.max_payload_size, tc },
        ),
        leader != core.name ==> ends(
            core.step(InputView::Reply(ReplyView::Leader(leader))),
            core,
            nothing(),
            Ok(()),
        ),
{
}

/// A proposal is verified exactly if it comes from the leader of its round; else the one who
/// made it is named.
pub proof fn law_proposer_is_checked(
    core: CoreView,
    round: RoundNumber,
    block: BlockView,
    leader: PublicKey,
)
    requires
        core.request == Some(
            RequestView::ElectLeader { round, election: ElectionView::CheckProposer { block } },
        ),
    ensures
        leader == block.author ==> waits(
            core.step(InputView::Reply(ReplyView::Leader(leader))),
            core,
            nothing(),
            RequestView::VerifyBlock { block },
        ),
        leader != block.author ==> ends(
            core.step(InputView::Reply(ReplyView::Leader(leader))),
            core,
            nothing(),
            Err(
                ConsensusError::WrongLeader {
                    digest: block.digest,
                    leader: block.author,
                    round: block.round,
                },
            ),
        ),
{
}

/// The node's own vote is sent to the leader as a vote of the first phase, and to no other; if
/// the node leads itself, it takes the vote up.
pub proof fn law_vote_is_routed(core: CoreView, round: RoundNumber, vote: Vote, leader: PublicKey)
    requires
        core.request == Some(
            RequestView::ElectLeader { round, election: ElectionView::RouteVote { vote } },
        ),
    ensures
        leader == core.name ==> takes_up_vote(
            core.step(InputView::Reply(ReplyView::Leader(leader))),
            core,
            nothing(),
            vote,
        ),
        leader != core.name ==> waits(
            core.step(InputView::Reply(ReplyView::Leader(leader))),
            core,
            nothing(),
            RequestView::FindAddress {
                to: leader,
                message: CoreMessageView::Vote1(vote),
                next: ContinuationView::Finish,
            },
        ),
{
}

/// A proposal holds the payload that was taken for it and the timeout certificate with which it
/// began, extends the second-phase certificate, and belongs to the node's round.
pub proof fn law_block_is_drafted(
    core: CoreView,
    max_size: usize,
    tc: Option<TCView>,
    payload: Seq<Digest>,
)
    requires
        core.request == Some(RequestView::GetPayload { max_size, tc }),
    ensures
        waits(
            core.step(InputView::Reply(ReplyView::Payload(payload))),
            core,
            nothing(),
            RequestView::SignBlock {
                block_draft: BlockDraftView {
                    qc: core.vote2_qc,
                    tc,
                    author: core.name,
                    round: core.round,
                    payload,
                },
            },
        ),
{
}

/// A signed proposal holds what was drafted, with its digest and signature. It goes to all others
/// before the node processes it itself.
pub proof fn law_block_is_signed(
    core: CoreView,
    draft: BlockDraftView,
    digest: Digest,
    signature: Signature,
)
    requires
        core.request == Some(RequestView::SignBlock { block_draft: draft }),
    ensures
        ({
            let block = BlockView {
                digest,
                qc: draft.qc,
                tc: draft.tc,
                author: draft.author,
                round: draft.round,
                payload: draft.payload,
                signature,
            };
            broadcasts(
                core.step(InputView::Reply(ReplyView::BlockSigned(digest, signature))),
                core,
                nothing(),
                CoreMessageView::Propose(block),
                ContinuationView::ProcessBlock { block },
            )
        }),
{
}

/// A signed vote holds what was voted for and the signature; the node asks who leads the round
/// after its own, to hand the vote over.
pub proof fn law_vote_is_signed(core: CoreView, ballot: Ballot, signature: Signature)
    requires
        core.request == Some(RequestView::SignVote { ballot }),
    ensures
        core.round < RoundNumber::MAX ==> waits(
            core.step(InputView::Reply(ReplyView::Signed(signature))),
            core,
            nothing(),
            RequestView::ElectLeader {
                round: (core.round + 1) as RoundNumber,
                election: ElectionView::RouteVote {
                    vote: Vote {
                        hash: ballot.hash,
                        round: ballot.round,
                        author: ballot.author,
                        signature,
                    },
                },
            },
        ),
        core.round == RoundNumber::MAX ==> stops(
            core.step(InputView::Reply(ReplyView::Signed(signature))),
            core,
            nothing(),
            Fault::RoundOverflow,
        ),
{
}

/// A signed timeout holds what was drafted and the signature. The timer of the node's round
/// starts again, and the timeout goes to all others before the node takes it up itself.
pub proof fn law_timeout_is_signed(core: CoreView, draft: TimeoutDraftView, signature: Signature)
    requires
        core.request == Some(RequestView::SignTimeout { timeout_draft: draft }),
    ensures
        ({
            let timeout = TimeoutView {
                high_qc: draft.high_qc,
                round: draft.round,
                author: draft.author,
                signature,
            };
            broadcasts(
                core.step(InputView::Reply(ReplyView::Signed(signature))),
                core,
                seq![
                    EffectView::ScheduleTimer {
                        delay: core.parameters.timeout_delay,
                        round: core.round,
                    },
                ],
                CoreMessageView::Timeout(timeout),
                ContinuationView::HandleTimeout { timeout },
            )
        }),
{
}

/// What is read from the store is decoded, for the same purpose. A block whose parent is not
/// there is suspended; a request for what is not there is let go; a failure of the store is
/// reported.
pub proof fn law_store_is_read(
    core: CoreView,
    key: Seq<u8>,
    lookup: LookupView,
    data: Seq<u8>,
    error: String,
)
    requires
        core.request == Some(RequestView::ReadStore { key, lookup }),
    ensures
        waits(
            core.step(InputView::Reply(ReplyView::Read(Ok(Some(data))))),
            core,
            nothing(),
            RequestView::DecodeBlock { data, lookup },
        ),
        match lookup {
            LookupView::Parent { block } => ends(
                core.step(InputView::Reply(ReplyView::Read(Ok(None)))),
                core,
                seq![EffectView::Suspend { block }],
                Ok(()),
            ),
            LookupView::Requested { sender } => ends(
                core.step(InputView::Reply(ReplyView::Read(Ok(None)))),
                core,
                nothing(),
                Ok(()),
            ),
        },
        ends(
            core.step(InputView::Reply(ReplyView::Read(Err(error)))),
            core,
            nothing(),
            Err(ConsensusError::StoreError(error)),
        ),
{
}

/// A parent that was decoded lets its child be encoded for the store; a block that was asked for
/// is sent as a proposal to the one who asked. What cannot be decoded is reported.
pub proof fn law_block_is_decoded(
    core: CoreView,
    data: Seq<u8>,
    lookup: LookupView,
    stored: BlockView,
    error: String,
)
    requires
        core.request == Some(RequestView::DecodeBlock { data, lookup }),
    ensures
        match lookup {
            LookupView::Parent { block } => waits(
                core.step(InputView::Reply(ReplyView::Decoded(Ok(stored)))),
                core,
                nothing(),
                RequestView::EncodeBlock { block, parent: stored },
            ),
            LookupView::Requested { sender } => waits(
                core.step(InputView::Reply(ReplyView::Decoded(Ok(stored)))),
                core,
                nothing(),
                RequestView::FindAddress {
                    to: sender,
                    message: CoreMessageView::Propose(stored),
                    next: ContinuationView::Finish,
                },
            ),
        },
        ends(
            core.step(InputView::Reply(ReplyView::Decoded(Err(error)))),
            core,
            nothing(),
            Err(ConsensusError::SerializationError(error)),
        ),
{
}

/// An encoded block is written to the store under its own digest.
pub proof fn law_block_is_written(
    core: CoreView,
    block: BlockView,
    parent: BlockView,
    value: Seq<u8>,
)
    requires
        core.request == Some(RequestView::EncodeBlock { block, parent }),
    ensures
        waits(
            core.step(InputView::Reply(ReplyView::Encoded(value))),
            core,
            nothing(),
            RequestView::WriteStore { key: block.digest.0@, value, block, parent },
        ),
{
}

/// Once a block is stored, the mempool is told of its parent, whatever comes next. The node then
/// votes for the block exactly if the block belongs to its round, which is above every round it
/// voted or gave up in, and may be voted for, by its parent's certificate or by a timeout
/// certificate. A vote names the block, its round and the node, and is the last one in that
/// round. A block of the node's round on which the rule cannot be evaluated stops the node.
pub proof fn law_stored_block_gets_its_vote(
    core: CoreView,
    key: Seq<u8>,
    value: Seq<u8>,
    block: BlockView,
    parent: BlockView,
    error: String,
)
    requires
        core.request == Some(RequestView::WriteStore { key, value, block, parent }),
    ensures
        ({
            let transition = core.step(InputView::Reply(ReplyView::Written(Ok(()))));
            let first = seq![EffectView::CleanupMempool { parent }];
            if block.round != core.round {
                ends(transition, core, first, Ok(()))
            } else if ratable(block) {
                if block.round > core.last_voted_round && votable(block) {
                    waits(
                        transition,
                        CoreView { last_voted_round: block.round, ..core },
                        first,
                        RequestView::SignVote {
                            ballot: Ballot {
                                hash: block.digest,
                                round: block.round,
                                author: core.name,
                            },
                        },
                    )
                } else {
                    ends(transition, core, first, Ok(()))
                }
            } else if block.qc.round < RoundNumber::MAX && block.tc->0.round < RoundNumber::MAX {
                stops(transition, core, first, Fault::EmptyTC)
            } else {
                stops(transition, core, first, Fault::RoundOverflow)
            }
        }),
        ends(
            core.step(InputView::Reply(ReplyView::Written(Err(error)))),
            core,
            nothing(),
            Err(ConsensusError::StoreError(error)),
        ),
{
    law_first_phase_rule(core, block);
    law_rule_can_be_evaluated(block);
}

/// A message for one node is encoded for the address that was found and for no other. If there is
/// none, nothing is sent and the reason is given.
pub proof fn law_address_is_found(
    core: CoreView,
    to: PublicKey,
    message: CoreMessageView,
    next: ContinuationView,
    address: Address,
    error: ConsensusError,
)
    requires
        core.request == Some(RequestView::FindAddress { to, message, next }),
    ensures
        waits(
            core.step(InputView::Reply(ReplyView::AddressFound(Ok(address)))),
            core,
            nothing(),
            RequestView::EncodeMessage { message, addresses: seq![address], next },
        ),
        ends(
            core.step(InputView::Reply(ReplyView::AddressFound(Err(error)))),
            core,
            nothing(),
            Err(error),
        ),
{
}

/// A message for all others is encoded for exactly the addresses that were found.
pub proof fn law_others_are_found(
    core: CoreView,
    name: PublicKey,
    message: CoreMessageView,
    next: ContinuationView,
    addresses: Seq<Address>,
)
    requires
        core.request == Some(RequestView::FindOthers { name, message, next }),
    ensures
        waits(
            core.step(InputView::Reply(ReplyView::OthersFound(addresses))),
            core,
            nothing(),
            RequestView::EncodeMessage { message, addresses, next },
        ),
{
}

/// An encoded message is sent to exactly the addresses it was encoded for, and the node then goes
/// on as it meant to: it takes up its own timeout, asks whether it has to propose with the
/// timeout certificate it sent, takes up its own proposal, or is done.
pub proof fn law_message_is_sent(
    core: CoreView,
    message: CoreMessageView,
    addresses: Seq<Address>,
    next: ContinuationView,
    data: Seq<u8>,
)
    requires
        core.request == Some(RequestView::EncodeMessage { message, addresses, next }),
    ensures
        ({
            let transition = core.step(InputView::Reply(ReplyView::Encoded(data)));
            let sent = seq![EffectView::Send { message: NetMessageView { data, addresses } }];
            match next {
                ContinuationView::HandleTimeout { timeout } => takes_up_timeout(
                    transition,
                    core,
                    sent,
                    timeout,
                ),
                ContinuationView::Propose { tc } => asks_to_propose(
                    transition,
                    core,
                    sent,
                    Some(tc),
                ),
                ContinuationView::ProcessBlock { block } => takes_up(
                    transition,
                    core,
                    sent,
                    block,
                ),
                ContinuationView::Finish => ends(transition, core, sent, Ok(())),
            }
        }),
{
}

/// A reply that does not answer the node's request changes nothing, and the node says so.
pub proof fn law_other_replies_change_nothing(core: CoreView, reply: ReplyView)
    requires
        core.request is None || !crate::laws::answers(core.request->0, reply),
    ensures
        core.step(InputView::Reply(reply)).core == core,
        core.step(InputView::Reply(reply)).effects.len() == 0,
        core.step(InputView::Reply(reply)).outcome == Outcome::Fault(Fault::UnexpectedReply),
{
}

/// Messages and replies reach the node alike, whether they come through `step` or directly.
pub proof fn law_step_is_dispatch_or_resume(
    core: CoreView,
    message: CoreMessageView,
    reply: ReplyView,
)
    ensures
        core.step(InputView::Message(message)) == core.dispatch(message),
        core.step(InputView::Reply(reply)) == core.resume(reply),
{
}

// -- Over several steps --

/// A leader's proposal carries the timeout certificate that made it ask who leads: from the
/// certificate that its timeouts completed to the block that it signs.
pub proof fn law_timeout_certificate_reaches_proposal(
    core: CoreView,
    timeout: TimeoutView,
    tc: TCView,
    addresses: Seq<Address>,
    data: Seq<u8>,
    payload: Seq<Digest>,
)
    requires
        core.request == Some(RequestView::AddTimeout { timeout }),
        tc.round < RoundNumber::MAX,
    ensures
        ({
            let counted = core.step(InputView::Reply(ReplyView::TimeoutAdded(Ok(Some(tc))))).core;
            let found = counted.step(InputView::Reply(ReplyView::OthersFound(addresses))).core;
            let sent = found.step(InputView::Reply(ReplyView::Encoded(data))).core;
            let named = sent.step(InputView::Reply(ReplyView::Leader(core.name))).core;
            let drafted = named.step(InputView::Reply(ReplyView::Payload(payload))).core;
            drafted.request == Some(
                RequestView::SignBlock {
                    block_draft: BlockDraftView {
                        qc: core.vote2_qc,
                        tc: Some(tc),
                        author: core.name,
                        round: round_after(core.round, tc.round),
                        payload,
                    },
                },
            )
        }),
{
}

/// A node's timeout carries the highest certificate that it was given, whole: if the certificate
/// that a vote completed is higher than the node's own, the next timeout carries it.
pub proof fn law_next_timeout_carries_certificate(core: CoreView, vote: Vote, qc: QCView)
    requires
        core.request == Some(RequestView::AddVote { vote }),
        core.high_qc.round < qc.round < RoundNumber::MAX,
    ensures
        ({
            let counted = core.step(InputView::Reply(ReplyView::VoteAdded(Ok(Some(qc))))).core;
            counted.step(InputView::TimerFired).core.request matches Some(
                RequestView::SignTimeout { timeout_draft },
            ) && timeout_draft.high_qc == qc && timeout_draft.round == counted.round
        }),
{
}

} // verus!
