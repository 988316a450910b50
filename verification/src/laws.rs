//! What holds of a node over any number of steps.
use crate::actions::{
    ContinuationView, EffectView, ElectionView, Fault, InputView, LookupView, Outcome, ReplyView,
    RequestView,
};
use crate::error::ConsensusError;
use crate::keys::{Digest, PublicKey, RoundNumber, Signature};
use crate::messages::{
    Ballot, BlockDraftView, BlockView, CoreMessageView, QCView, TCView, TimeoutView, Vote,
};
use crate::network::{Address, NetMessageView};
use crate::protocol::{CoreView, Parameters, Transition};
use vstd::prelude::*;

verus! {

/// What can happen to a node: it is told something, or one of its methods is called directly.
pub enum Event {
    /// The node is told something.
    Told(InputView),
    /// The node is handed a timeout certificate.
    Certificate(TCView),
    /// The node is made to propose a block.
    Proposal(Option<TCView>),
    /// The node is made to send a message.
    Transmission(CoreMessageView, Option<PublicKey>, ContinuationView),
    /// The node is asked for its vote on a block in the first phase.
    Vote1(BlockView),
    /// The node is asked for its vote on a block in the second phase.
    Vote2(BlockView),
    /// The node is made to rule out votes up to a round.
    RuleOut(RoundNumber),
    /// The node is made to leave a round behind.
    RoundOver(RoundNumber),
    /// The node is handed a quorum certificate.
    Certified(QCView),
    /// The node is made to keep a quorum certificate, if it is higher than its own.
    HigherCertificate(QCView),
}

impl Event {
    /// What the methods require of their callers.
    pub open spec fn callable(self) -> bool {
        match self {
            Event::Vote1(block) => crate::protocol::vote_fault(block) is None,
            Event::Vote2(block) => crate::protocol::vote_fault(block) is None,
            Event::RoundOver(round) => round < RoundNumber::MAX,
            Event::Certified(qc) => qc.round < RoundNumber::MAX,
            _ => true,
        }
    }
}

impl CoreView {
    /// The step that an event makes the node take, if it is one that a handler deals with.
    pub open spec fn handled(self, event: Event) -> Option<Transition> {
        match event {
            Event::Told(input) => Some(self.step(input)),
            Event::Certificate(tc) => Some(self.handle_tc(tc)),
            Event::Proposal(tc) => Some(self.generate_proposal(tc)),
            Event::Transmission(message, to, next) => Some(self.transmit(message, to, next)),
            _ => None,
        }
    }

    /// The state after an event.
    pub open spec fn react(self, event: Event) -> CoreView {
        match event {
            Event::Vote1(block) => if self.may_vote1(block) {
                self.increase_last_voted_round(block.round)
            } else {
                self
            },
            Event::Vote2(block) => if self.may_vote2(block) {
                self.increase_last_voted_round(block.round)
            } else {
                self
            },
            Event::RuleOut(round) => self.increase_last_voted_round(round),
            Event::RoundOver(round) => self.advance_round(round),
            Event::Certified(qc) => self.process_qc(qc),
            Event::HigherCertificate(qc) => self.update_high_qc(qc),
            _ => self.handled(event)->0.core,
        }
    }

    /// At the event, the node votes in round `round`, in either phase.
    pub open spec fn votes_at(self, event: Event, round: RoundNumber) -> bool {
        match event {
            Event::Vote1(block) => self.may_vote1(block) && block.round == round,
            Event::Vote2(block) => self.may_vote2(block) && block.round == round,
            _ => self.handled(event) matches Some(transition) && transition.votes_in(round),
        }
    }

    /// At the event, the node gives up on round `round`.
    pub open spec fn gives_up_at(self, event: Event, round: RoundNumber) -> bool {
        self.handled(event) matches Some(transition) && transition.gives_up_on(round)
    }

    /// The event leaves the invariant alone. The handlers always do; the other methods do
    /// between two requests, on rounds that the node has reached.
    pub open spec fn welcomes(self, event: Event) -> bool {
        &&& event.callable()
        &&& self.handled(event) is None ==> self.request is None
        &&& event matches Event::Vote2(block) ==> block.round <= self.round
        &&& event matches Event::RuleOut(round) ==> round <= self.round
        &&& event matches Event::HigherCertificate(qc) ==> qc.round < self.round
    }
}

/// The state of a node that starts in the state `core`, after the first `n` of `events`.
pub open spec fn state_after(core: CoreView, events: Seq<Event>, n: nat) -> CoreView
    decreases n,
{
    if n == 0 {
        core
    } else {
        state_after(core, events, (n - 1) as nat).react(events[n - 1])
    }
}

impl Transition {
    /// The step asks for the node's signature on a vote for round `round`.
    pub open spec fn votes_in(self, round: RoundNumber) -> bool {
        &&& self.outcome is Waiting
        &&& self.core.request matches Some(RequestView::SignVote { ballot })
        &&& ballot.round == round
    }

    /// The step asks for the node's signature on a timeout of round `round`.
    pub open spec fn gives_up_on(self, round: RoundNumber) -> bool {
        &&& self.outcome is Waiting
        &&& self.core.request matches Some(RequestView::SignTimeout { timeout_draft })
        &&& timeout_draft.round == round
    }
}

/// Handling a message preserves the invariant.
proof fn lemma_dispatch_inv(core: CoreView, message: CoreMessageView)
    requires
        core.inv(),
    ensures
        core.dispatch(message).core.inv(),
{
}

/// Going on with a reply preserves the invariant.
#[verifier::rlimit(40)]
#[verifier::spinoff_prover]
proof fn lemma_resume_inv(core: CoreView, reply: ReplyView)
    requires
        core.inv(),
    ensures
        core.resume(reply).core.inv(),
{
}

/// Every step preserves the invariant.
pub proof fn law_step_keeps_invariant(core: CoreView, input: InputView)
    requires
        core.inv(),
    ensures
        core.step(input).core.inv(),
{
    match input {
        InputView::Boot => {},
        InputView::Message(message) => lemma_dispatch_inv(core, message),
        InputView::TimerFired => {},
        InputView::Reply(reply) => lemma_resume_inv(core, reply),
    }
}

/// Every event that the node welcomes preserves the invariant.
pub proof fn law_event_keeps_invariant(core: CoreView, event: Event)
    requires
        core.inv(),
        core.welcomes(event),
    ensures
        core.react(event).inv(),
{
    match event {
        Event::Told(input) => law_step_keeps_invariant(core, input),
        _ => {},
    }
}

/// Whatever happens to a new node, it satisfies the invariant all along, as long as it welcomes
/// what happens; it welcomes whatever it is told.
pub proof fn law_invariant(name: PublicKey, parameters: Parameters, events: Seq<Event>, n: nat)
    requires
        n <= events.len(),
        forall|k: nat|
            k < n ==> #[trigger] state_after(
                CoreView::new(name, parameters),
                events,
                k,
            ).welcomes(events[k as int]),
    ensures
        state_after(CoreView::new(name, parameters), events, n).inv(),
        forall|core: CoreView, input: InputView| #[trigger] core.welcomes(Event::Told(input)),
    decreases n,
{
    if n > 0 {
        let before = (n - 1) as nat;
        law_invariant(name, parameters, events, before);
        law_event_keeps_invariant(
            state_after(CoreView::new(name, parameters), events, before),
            events[before as int],
        );
    }
}

/// The identity and the settings of a node never change.
pub proof fn law_identity_is_fixed(core: CoreView, event: Event)
    ensures
        core.react(event).name == core.name,
        core.react(event).parameters == core.parameters,
{
}

/// A single event never lowers the node's round, the highest round it voted or gave up in, or
/// the round of the highest certificate it has processed.
proof fn lemma_event_grows(core: CoreView, event: Event)
    requires
        event.callable(),
    ensures
        core.round <= core.react(event).round,
        core.last_voted_round <= core.react(event).last_voted_round,
        core.high_qc.round <= core.react(event).high_qc.round,
{
}

/// Whatever happens to a node, its round, the highest round it voted or gave up in and the round
/// of the highest certificate it has processed never go down.
pub proof fn law_rounds_only_grow(core: CoreView, events: Seq<Event>, i: nat, j: nat)
    requires
        i <= j <= events.len(),
        forall|k: int| 0 <= k < events.len() ==> (#[trigger] events[k]).callable(),
    ensures
        state_after(core, events, i).round <= state_after(core, events, j).round,
        state_after(core, events, i).last_voted_round <= state_after(
            core,
            events,
            j,
        ).last_voted_round,
        state_after(core, events, i).high_qc.round <= state_after(core, events, j).high_qc.round,
    decreases j - i,
{
    if i < j {
        law_rounds_only_grow(core, events, i, (j - 1) as nat);
        lemma_event_grows(state_after(core, events, (j - 1) as nat), events[j - 1]);
    }
}

/// A vote is for a round above every earlier one, and rules out further votes up to that round;
/// so does giving up on a round.
proof fn lemma_event_commits(core: CoreView, event: Event, round: RoundNumber)
    ensures
        core.votes_at(event, round) ==> {
            &&& core.last_voted_round < round
            &&& core.react(event).last_voted_round == round
        },
        core.gives_up_at(event, round) ==> round <= core.react(event).last_voted_round,
{
}

/// A node never votes twice in a round, and never votes in a round after it gave up on it:
/// whatever happens to it, each vote, in either phase, is for a higher round than every vote and
/// every timeout before it.
pub proof fn law_no_equivocation(
    core: CoreView,
    events: Seq<Event>,
    i: nat,
    j: nat,
    a: RoundNumber,
    b: RoundNumber,
)
    requires
        i < j < events.len(),
        forall|k: int| 0 <= k < events.len() ==> (#[trigger] events[k]).callable(),
        state_after(core, events, i).votes_at(events[i as int], a) || state_after(
            core,
            events,
            i,
        ).gives_up_at(events[i as int], a),
        state_after(core, events, j).votes_at(events[j as int], b),
    ensures
        a < b,
{
    lemma_event_commits(state_after(core, events, i), events[i as int], a);
    lemma_event_commits(state_after(core, events, j), events[j as int], b);
    law_rounds_only_grow(core, events, i + 1, j);
}

/// A vote for a block, in either phase, rules out votes in both phases for every block of the
/// same round or an earlier one.
pub proof fn law_vote_rules_out_rounds(core: CoreView, block: BlockView, other: BlockView)
    requires
        core.may_vote1(block) || core.may_vote2(block),
        other.round <= block.round,
    ensures
        !core.increase_last_voted_round(block.round).may_vote1(other),
        !core.increase_last_voted_round(block.round).may_vote2(other),
{
}

/// A node votes only for a block that it has just stored, that belongs to its current round,
/// whose round is above every round it voted or gave up in, and that extends the chain rightly.
pub proof fn law_votes_are_safe(core: CoreView, input: InputView, round: RoundNumber)
    requires
        core.step(input).votes_in(round),
    ensures
        core.request matches Some(RequestView::WriteStore { block, .. }) && {
            &&& input matches InputView::Reply(ReplyView::Written(Ok(_)))
            &&& core.step(input).core.request == Some(
                RequestView::SignVote { ballot: core.ballot(block) },
            )
            &&& block.round == round
            &&& block.round == core.round
            &&& block.round > core.last_voted_round
            &&& crate::protocol::extends_rightly(block)
        },
{
}

/// A block is stored only once its parent is there: it extends genesis, or what the store
/// holds under its parent's digest has been read and decoded.
pub proof fn law_parent_comes_first(
    core: CoreView,
    input: InputView,
    block: BlockView,
    parent: BlockView,
)
    requires
        core.inv(),
        core.step(input).outcome is Waiting,
        core.step(input).core.request == Some(RequestView::EncodeBlock { block, parent }),
    ensures
        block.qc == QCView::genesis() ==> parent == BlockView::genesis(),
        block.qc != QCView::genesis() ==> {
            &&& core.request matches Some(RequestView::DecodeBlock { lookup, .. })
            &&& lookup == (LookupView::Parent { block })
            &&& input == InputView::Reply(ReplyView::Decoded(Ok(parent)))
        },
{
}

/// The parent of a block that does not extend genesis is looked up under the digest that the
/// block's certificate names.
pub proof fn law_parent_is_looked_up(core: CoreView, input: InputView, data: Seq<u8>, block: BlockView)
    requires
        core.inv(),
        core.step(input).outcome is Waiting,
        core.step(input).core.request == Some(
            RequestView::DecodeBlock { data, lookup: LookupView::Parent { block } },
        ),
    ensures
        core.request == Some(
            RequestView::ReadStore {
                key: block.previous().0@,
                lookup: LookupView::Parent { block },
            },
        ),
        input == InputView::Reply(ReplyView::Read(Ok(Some(data)))),
{
}

/// Only the leader of the current round proposes a block: payload is taken only right after
/// the node was named the leader of its round.
pub proof fn law_only_the_leader_proposes(core: CoreView, input: InputView)
    requires
        core.inv(),
        core.step(input).outcome is Waiting,
        core.step(input).core.request matches Some(RequestView::GetPayload { .. }),
    ensures
        input == InputView::Reply(ReplyView::Leader(core.name)),
        core.request matches Some(RequestView::ElectLeader { round, election }) && round
            == core.round && election is Propose,
{
}

/// A proposal extends the node's second-phase certificate, belongs to its current round,
/// carries its name, and takes the payload that the mempool gave.
pub proof fn law_proposal_contents(core: CoreView, input: InputView, draft: BlockDraftView)
    requires
        core.step(input).outcome is Waiting,
        core.step(input).core.request == Some(RequestView::SignBlock { block_draft: draft }),
    ensures
        core.request matches Some(RequestView::GetPayload { tc, .. }) && draft.tc == tc,
        input == InputView::Reply(ReplyView::Payload(draft.payload)),
        draft.qc == core.vote2_qc,
        draft.author == core.name,
        draft.round == core.round,
{
}

/// A message that fails verification is refused with the reason that was given, and leaves no
/// trace.
pub proof fn law_invalid_messages_are_refused(core: CoreView, error: ConsensusError)
    requires
        core.request matches Some(request) && (request is VerifyVote || request is VerifyTimeout
            || request is VerifyBlock),
    ensures
        core.resume(ReplyView::Verified(Err(error))) == (Transition {
            core: CoreView { request: None, delays: Seq::empty(), ..core },
            effects: Seq::empty(),
            outcome: Outcome::Finished(Err(error)),
        }),
{
}

/// Votes and timeouts for rounds that are over leave no trace.
pub proof fn law_stale_messages_are_ignored(core: CoreView, vote: Vote, timeout: TimeoutView)
    requires
        core.request is None,
        core.delays.len() == 0,
    ensures
        vote.round < core.round ==> {
            let nothing = Transition {
                core,
                effects: Seq::empty(),
                outcome: Outcome::Finished(Ok(())),
            };
            &&& core.dispatch(CoreMessageView::Vote1(vote)) == nothing
            &&& core.dispatch(CoreMessageView::Vote2(vote)) == nothing
        },
        timeout.round < core.round ==> core.dispatch(CoreMessageView::Timeout(timeout)) == (
        Transition { core, effects: Seq::empty(), outcome: Outcome::Finished(Ok(())) }),
{
    assert(core.delays =~= Seq::empty());
    assert(crate::protocol::sleeps(core.delays) =~= Seq::empty());
}

/// A block that does not come from the leader of its round is refused, and leaves no trace.
pub proof fn law_wrong_leader_is_refused(core: CoreView, block: BlockView, leader: PublicKey)
    requires
        core.delays.len() == 0,
        block.author != leader,
    ensures
        ({
            let asked = core.dispatch(CoreMessageView::Propose(block));
            &&& asked.effects == Seq::<EffectView>::empty()
            &&& asked.core.request matches Some(RequestView::ElectLeader { round, .. }) && round
                == block.round
            &&& asked.core.resume(ReplyView::Leader(leader)) == (Transition {
                core: CoreView { request: None, ..core },
                effects: Seq::empty(),
                outcome: Outcome::Finished(
                    Err(
                        ConsensusError::WrongLeader {
                            digest: block.digest,
                            leader: block.author,
                            round: block.round,
                        },
                    ),
                ),
            })
        }),
{
    assert(core.delays =~= Seq::empty());
}

/// A certificate that a vote completed ends its round, whatever round the node was in.
pub proof fn law_quorum_of_votes_ends_round(core: CoreView, vote: Vote, qc: QCView)
    requires
        core.request == Some(RequestView::AddVote { vote }),
        qc.round < RoundNumber::MAX,
    ensures
        ({
            let next = core.resume(ReplyView::VoteAdded(Ok(Some(qc)))).core;
            &&& next.round == crate::protocol::max_round(
                core.round,
                (qc.round + 1) as RoundNumber,
            )
            &&& next.high_qc.round == crate::protocol::max_round(core.high_qc.round, qc.round)
            &&& next.request == Some(
                RequestView::ElectLeader {
                    round: next.round,
                    election: ElectionView::Propose { tc: None },
                },
            )
        }),
{
}

/// A certificate that a timeout completed ends its round, whatever round the node was in, and
/// is passed on to all others.
pub proof fn law_quorum_of_timeouts_ends_round(core: CoreView, timeout: TimeoutView, tc: TCView)
    requires
        core.request == Some(RequestView::AddTimeout { timeout }),
        tc.round < RoundNumber::MAX,
    ensures
        ({
            let next = core.resume(ReplyView::TimeoutAdded(Ok(Some(tc)))).core;
            &&& next.round == crate::protocol::max_round(
                core.round,
                (tc.round + 1) as RoundNumber,
            )
            &&& next.high_qc == core.high_qc
            &&& next.request == Some(
                RequestView::FindOthers {
                    name: core.name,
                    message: CoreMessageView::TC(tc),
                    next: ContinuationView::Propose { tc },
                },
            )
        }),
{
}

/// The round whose timer runs once `effects` are performed, where `timer` is the one whose
/// timer runs before.
pub open spec fn timer_after(timer: Option<RoundNumber>, effects: Seq<EffectView>) -> Option<
    RoundNumber,
>
    decreases effects.len(),
{
    if effects.len() == 0 {
        timer
    } else {
        let before = timer_after(timer, effects.drop_last());
        match effects.last() {
            EffectView::ScheduleTimer { round, .. } => Some(round),
            EffectView::CancelTimer { round } => if before == Some(round) {
                None
            } else {
                before
            },
            _ => before,
        }
    }
}

/// Effects can be performed in two parts.
proof fn lemma_timer_concat(
    timer: Option<RoundNumber>,
    first: Seq<EffectView>,
    second: Seq<EffectView>,
)
    ensures
        timer_after(timer, first + second) == timer_after(timer_after(timer, first), second),
    decreases second.len(),
{
    if second.len() == 0 {
        assert(first + second =~= first);
    } else {
        assert((first + second).drop_last() =~= first + second.drop_last());
        lemma_timer_concat(timer, first, second.drop_last());
    }
}

/// Delays do not touch the timer.
proof fn lemma_sleeps_keep_timer(timer: Option<RoundNumber>, delays: Seq<u64>)
    ensures
        timer_after(timer, crate::protocol::sleeps(delays)) == timer,
    decreases delays.len(),
{
    if delays.len() > 0 {
        let all = crate::protocol::sleeps(delays);
        let rest = delays.drop_first();
        assert(all.drop_last() =~= crate::protocol::sleeps(rest));
        lemma_sleeps_keep_timer(timer, rest);
    }
}

/// A single effect.
proof fn lemma_timer_single(timer: Option<RoundNumber>, effect: EffectView)
    ensures
        timer_after(timer, seq![effect]) == match effect {
            EffectView::ScheduleTimer { round, .. } => Some(round),
            EffectView::CancelTimer { round } => if timer == Some(round) {
                None
            } else {
                timer
            },
            _ => timer,
        },
{
    assert(seq![effect].drop_last() =~= Seq::empty());
    reveal_with_fuel(timer_after, 2);
}

/// Entering a round moves the timer to it.
proof fn lemma_advance_moves_timer(core: CoreView, round: RoundNumber)
    requires
        round < RoundNumber::MAX,
    ensures
        timer_after(Some(core.round), core.advance_effects(round)) == Some(
            core.advance_round(round).round,
        ),
{
    let effects = core.advance_effects(round);
    if effects.len() > 0 {
        assert(effects.last() == core.advance_round(round).timer());
    }
}

/// The timer follows the round: if the timer that runs is that of the node's round, it is so
/// again once the effects of a step are performed. Starting the node starts the timer of its
/// first round.
pub proof fn law_timer_follows_round(core: CoreView, input: InputView)
    ensures
        timer_after(Some(core.round), core.step(input).effects) == Some(
            core.step(input).core.round,
        ),
        timer_after(None, core.step(InputView::Boot).effects) == Some(core.round),
{
    lemma_timer_single(None, core.timer());
    assert(seq![core.timer()] + Seq::<EffectView>::empty() =~= seq![core.timer()]);
    let timer = Some(core.round);
    let effects = core.step(input).effects;
    lemma_sleeps_keep_timer(timer, core.delays);
    lemma_timer_single(timer, core.timer());
    match input {
        InputView::Boot => {},
        InputView::Message(_) => {},
        InputView::TimerFired => {},
        InputView::Reply(reply) => {
            match (core.request, reply) {
                (Some(RequestView::AddVote { .. }), ReplyView::VoteAdded(Ok(Some(qc)))) => {
                    if qc.round < RoundNumber::MAX {
                        lemma_advance_moves_timer(core, qc.round);
                        assert(effects =~= core.advance_effects(qc.round));
                    }
                },
                (
                    Some(RequestView::VerifyTimeout { timeout }),
                    ReplyView::Verified(Ok(_)),
                ) => {
                    if timeout.high_qc.round < RoundNumber::MAX {
                        lemma_advance_moves_timer(core, timeout.high_qc.round);
                        assert(effects =~= core.advance_effects(timeout.high_qc.round));
                    }
                },
                (Some(RequestView::AddTimeout { .. }), ReplyView::TimeoutAdded(Ok(Some(tc)))) => {
                    if tc.round < RoundNumber::MAX {
                        lemma_advance_moves_timer(core, tc.round);
                        assert(effects =~= core.advance_effects(tc.round));
                    }
                },
                (Some(RequestView::VerifyBlock { block }), ReplyView::Verified(Ok(_))) => {
                    if block.qc.round < RoundNumber::MAX {
                        let next = core.process_qc(block.qc);
                        let first = core.advance_effects(block.qc.round);
                        lemma_advance_moves_timer(core, block.qc.round);
                        if block.tc is Some && block.tc->0.round < RoundNumber::MAX {
                            let second = next.advance_effects(block.tc->0.round);
                            lemma_advance_moves_timer(next, block.tc->0.round);
                            lemma_timer_concat(timer, first, second);
                            assert(effects =~= first + second);
                        } else {
                            assert(effects =~= first);
                        }
                    }
                },
                (Some(RequestView::SignTimeout { .. }), ReplyView::Signed(_)) => {
                    assert(effects =~= seq![core.timer()]);
                },
                (Some(RequestView::ReadStore { lookup, .. }), ReplyView::Read(Ok(None))) => {
                    if let LookupView::Parent { block } = lookup {
                        let first = EffectView::Suspend { block };
                        lemma_timer_single(timer, first);
                        lemma_timer_concat(
                            timer,
                            seq![first],
                            crate::protocol::sleeps(core.delays),
                        );
                    }
                },
                (Some(RequestView::WriteStore { block, parent, .. }), ReplyView::Written(Ok(_))) => {
                    let first = EffectView::CleanupMempool { parent };
                    lemma_timer_single(timer, first);
                    lemma_timer_concat(timer, seq![first], core.vote_for(block).effects);
                },
                (
                    Some(RequestView::EncodeMessage { addresses, next, .. }),
                    ReplyView::Encoded(data),
                ) => {
                    let first = EffectView::Send { message: NetMessageView { data, addresses } };
                    lemma_timer_single(timer, first);
                    lemma_timer_concat(timer, seq![first], core.proceed(next).effects);
                },
                _ => {},
            }
        },
    }
}

/// A valid timeout ends the round of the certificate that it carries, and the node keeps that
/// certificate unless it knows a higher one.
pub proof fn law_timeout_brings_certificate(core: CoreView, timeout: TimeoutView)
    requires
        core.request == Some(RequestView::VerifyTimeout { timeout }),
        timeout.high_qc.round < RoundNumber::MAX,
    ensures
        ({
            let next = core.resume(ReplyView::Verified(Ok(()))).core;
            &&& next.round == crate::protocol::max_round(
                core.round,
                (timeout.high_qc.round + 1) as RoundNumber,
            )
            &&& next.high_qc == if timeout.high_qc.round > core.high_qc.round {
                timeout.high_qc
            } else {
                core.high_qc
            }
            &&& next.request == Some(RequestView::AddTimeout { timeout })
        }),
{
}

/// A valid block ends the rounds of the certificates that it carries, whether or not the node
/// goes on to vote for it.
pub proof fn law_block_brings_certificates(core: CoreView, block: BlockView)
    requires
        core.request == Some(RequestView::VerifyBlock { block }),
        block.qc.round < RoundNumber::MAX,
        block.tc is Some ==> block.tc->0.round < RoundNumber::MAX,
    ensures
        ({
            let next = core.resume(ReplyView::Verified(Ok(()))).core;
            let certified = crate::protocol::max_round(
                core.round,
                (block.qc.round + 1) as RoundNumber,
            );
            &&& next.round == if block.tc is Some {
                crate::protocol::max_round(certified, (block.tc->0.round + 1) as RoundNumber)
            } else {
                certified
            }
            &&& next.high_qc == if block.qc.round > core.high_qc.round {
                block.qc
            } else {
                core.high_qc
            }
            &&& next.request == Some(RequestView::VerifyPayload { block })
        }),
{
}

/// A message for one node is sent to the address of that node and to no other, and the node
/// then goes on. If the address is not known, nothing is sent and the reason is given.
pub proof fn law_message_reaches_one(
    core: CoreView,
    message: CoreMessageView,
    to: PublicKey,
    next: ContinuationView,
    address: Address,
    data: Seq<u8>,
    error: ConsensusError,
)
    ensures
        ({
            let asked = core.transmit(message, Some(to), next);
            let found = asked.core.resume(ReplyView::AddressFound(Ok(address)));
            let lost = asked.core.resume(ReplyView::AddressFound(Err(error)));
            &&& asked.core.request matches Some(RequestView::FindAddress { to: node, .. }) && node
                == to
            &&& found.core.request matches Some(RequestView::EncodeMessage { message: sent, .. })
                && sent == message
            &&& asked.effects + found.effects == Seq::<EffectView>::empty()
            &&& found.core.resume(ReplyView::Encoded(data)) == core.proceed(next).after(
                seq![
                    EffectView::Send { message: NetMessageView { data, addresses: seq![address] } },
                ],
            )
            &&& lost == core.finish(Err(error))
        }),
{
}

/// A message for all others is sent to the addresses of all others, and the node then goes on.
pub proof fn law_message_reaches_all(
    core: CoreView,
    message: CoreMessageView,
    next: ContinuationView,
    addresses: Seq<Address>,
    data: Seq<u8>,
)
    ensures
        ({
            let asked = core.transmit(message, None, next);
            let found = asked.core.resume(ReplyView::OthersFound(addresses));
            &&& asked.core.request matches Some(RequestView::FindOthers { name, .. }) && name
                == core.name
            &&& found.core.request matches Some(RequestView::EncodeMessage { message: sent, .. })
                && sent == message
            &&& asked.effects + found.effects == Seq::<EffectView>::empty()
            &&& found.core.resume(ReplyView::Encoded(data)) == core.proceed(next).after(
                seq![EffectView::Send { message: NetMessageView { data, addresses } }],
            )
        }),
{
}

/// A signed vote goes to the leader of the next round. If that is the node itself, it counts
/// the vote.
pub proof fn law_vote_goes_to_next_leader(
    core: CoreView,
    ballot: Ballot,
    signature: Signature,
    leader: PublicKey,
)
    requires
        core.request == Some(RequestView::SignVote { ballot }),
        core.round < RoundNumber::MAX,
    ensures
        ({
            let vote = Vote::spec_new(ballot, signature);
            let signed = core.resume(ReplyView::Signed(signature));
            let routed = signed.core.resume(ReplyView::Leader(leader));
            &&& signed.core.request matches Some(RequestView::ElectLeader { round, .. }) && round
                == core.round + 1
            &&& signed.effects == Seq::<EffectView>::empty()
            &&& leader == core.name ==> routed == core.handle_vote(vote)
            &&& leader != core.name ==> routed == core.transmit(
                CoreMessageView::Vote1(vote),
                Some(leader),
                ContinuationView::Finish,
            )
        }),
{
}

/// A leader sends its proposal to all others and then processes it like any other block.
pub proof fn law_proposal_is_broadcast(
    core: CoreView,
    draft: BlockDraftView,
    digest: Digest,
    signature: Signature,
    addresses: Seq<Address>,
    data: Seq<u8>,
)
    requires
        core.request == Some(RequestView::SignBlock { block_draft: draft }),
    ensures
        ({
            let block = BlockView::signed(draft, digest, signature);
            let signed = core.resume(ReplyView::BlockSigned(digest, signature));
            let found = signed.core.resume(ReplyView::OthersFound(addresses));
            &&& signed.effects + found.effects == Seq::<EffectView>::empty()
            &&& found.core.request matches Some(RequestView::EncodeMessage { message, .. })
                && message == CoreMessageView::Propose(block)
            &&& found.core.resume(ReplyView::Encoded(data)) == core.process_block(block).after(
                seq![EffectView::Send { message: NetMessageView { data, addresses } }],
            )
        }),
{
}

/// A node that gives up on its round starts the timer again, sends its timeout to all others
/// and then counts it like any other timeout.
pub proof fn law_timeout_is_broadcast(
    core: CoreView,
    signature: Signature,
    addresses: Seq<Address>,
    data: Seq<u8>,
)
    ensures
        ({
            let asked = core.step(InputView::TimerFired);
            let timeout = TimeoutView {
                high_qc: core.high_qc,
                round: core.round,
                author: core.name,
                signature,
            };
            let signed = asked.core.resume(ReplyView::Signed(signature));
            let found = signed.core.resume(ReplyView::OthersFound(addresses));
            &&& asked.core.last_voted_round >= core.round
            &&& asked.effects == Seq::<EffectView>::empty()
            &&& signed.effects == seq![core.timer()]
            &&& found.effects == Seq::<EffectView>::empty()
            &&& found.core.request matches Some(RequestView::EncodeMessage { message, .. })
                && message == CoreMessageView::Timeout(timeout)
            &&& found.core.resume(ReplyView::Encoded(data)) == asked.core.handle_timeout(
                timeout,
            ).after(seq![EffectView::Send { message: NetMessageView { data, addresses } }])
        }),
{
    assert(seq![core.timer()] + Seq::<EffectView>::empty() =~= seq![core.timer()]);
}

/// A node that is asked for a block which it has stored sends that block to the one who asked,
/// and to no other; if it has not stored the block, it does nothing. Either way its own state
/// does not change.
pub proof fn law_sync_request_is_answered(
    core: CoreView,
    digest: Digest,
    sender: PublicKey,
    stored: Seq<u8>,
    block: BlockView,
    address: Address,
    data: Seq<u8>,
)
    requires
        core.request is None,
        core.delays.len() == 0,
    ensures
        ({
            let asked = core.dispatch(CoreMessageView::SyncRequest(digest, sender));
            let read = asked.core.resume(ReplyView::Read(Ok(Some(stored))));
            let decoded = read.core.resume(ReplyView::Decoded(Ok(block)));
            let found = decoded.core.resume(ReplyView::AddressFound(Ok(address)));
            let done = found.core.resume(ReplyView::Encoded(data));
            &&& asked.core.request matches Some(RequestView::ReadStore { key, .. }) && key
                == digest.0@
            &&& read.core.request matches Some(RequestView::DecodeBlock { data: bytes, .. })
                && bytes == stored
            &&& decoded.core.request matches Some(RequestView::FindAddress { to, message, .. })
                && to == sender && message == CoreMessageView::Propose(block)
            &&& asked.effects + read.effects + decoded.effects + found.effects == Seq::<
                EffectView,
            >::empty()
            &&& done == (Transition {
                core,
                effects: seq![
                    EffectView::Send { message: NetMessageView { data, addresses: seq![address] } },
                ],
                outcome: Outcome::Finished(Ok(())),
            })
            &&& asked.core.resume(ReplyView::Read(Ok(None))) == (Transition {
                core,
                effects: Seq::empty(),
                outcome: Outcome::Finished(Ok(())),
            })
        }),
{
    assert(core.delays =~= Seq::empty());
    assert(crate::protocol::sleeps(core.delays) =~= Seq::empty());
    let send = seq![EffectView::Send { message: NetMessageView { data, addresses: seq![address] } }];
    assert(send + Seq::<EffectView>::empty() =~= send);
}

/// Proposing a block makes one minimum block delay due, and nothing else does.
pub proof fn law_proposing_costs_one_delay(core: CoreView, input: InputView)
    requires
        core.step(input).outcome is Waiting,
    ensures
        core.step(input).core.delays == if core.step(input).core.request matches Some(
            RequestView::GetPayload { .. },
        ) {
            core.delays.push(core.parameters.min_block_delay)
        } else {
            core.delays
        },
{
}

/// The effects of a transition end with the delays that are due in `core`, each once and the
/// latest first, if the transition is the end of a success, and hold no other delays.
pub open spec fn observes_delays(core: CoreView, transition: Transition) -> bool {
    let effects = transition.effects;
    let due = if transition.outcome matches Outcome::Finished(Ok(_)) {
        core.delays.len() as int
    } else {
        0
    };
    &&& due <= effects.len()
    &&& forall|i: int|
        #![trigger effects[i]]
        0 <= i < effects.len() - due ==> effects[i] !is Sleep
    &&& forall|i: int|
        #![trigger effects[i]]
        effects.len() - due <= i < effects.len() ==> effects[i] == (EffectView::Sleep {
            millis: core.delays[effects.len() - 1 - i],
        })
}

/// Handling a message observes the delays.
proof fn lemma_dispatch_observes_delays(core: CoreView, message: CoreMessageView)
    ensures
        observes_delays(core, core.dispatch(message)),
{
}

/// Going on with a reply observes the delays.
#[verifier::rlimit(40)]
#[verifier::spinoff_prover]
proof fn lemma_resume_observes_delays(core: CoreView, reply: ReplyView)
    ensures
        observes_delays(core, core.resume(reply)),
{
}

/// The delays that are due are observed, each once, when the node is done with what it was
/// told, and only if that was a success.
pub proof fn law_delays_follow_success(core: CoreView, input: InputView)
    ensures
        observes_delays(core, core.step(input)),
{
    match input {
        InputView::Boot => {},
        InputView::Message(message) => lemma_dispatch_observes_delays(core, message),
        InputView::TimerFired => {},
        InputView::Reply(reply) => lemma_resume_observes_delays(core, reply),
    }
}

/// Whether a reply is of the kind that a request calls for.
pub open spec fn answers(request: RequestView, reply: ReplyView) -> bool {
    match request {
        RequestView::VerifyVote { .. } => reply is Verified,
        RequestView::AddVote { .. } => reply is VoteAdded,
        RequestView::VerifyTimeout { .. } => reply is Verified,
        RequestView::AddTimeout { .. } => reply is TimeoutAdded,
        RequestView::VerifyBlock { .. } => reply is Verified,
        RequestView::VerifyPayload { .. } => reply is PayloadVerified,
        RequestView::ElectLeader { .. } => reply is Leader,
        RequestView::GetPayload { .. } => reply is Payload,
        RequestView::SignBlock { .. } => reply is BlockSigned,
        RequestView::SignVote { .. } => reply is Signed,
        RequestView::SignTimeout { .. } => reply is Signed,
        RequestView::ReadStore { .. } => reply is Read,
        RequestView::DecodeBlock { .. } => reply is Decoded,
        RequestView::EncodeBlock { .. } => reply is Encoded,
        RequestView::WriteStore { .. } => reply is Written,
        RequestView::FindAddress { .. } => reply is AddressFound,
        RequestView::FindOthers { .. } => reply is OthersFound,
        RequestView::EncodeMessage { .. } => reply is Encoded,
    }
}

/// Whether going on with a reply stays clear of the last round that can be counted and of
/// timeout certificates without votes.
pub open spec fn within_bounds(core: CoreView, request: RequestView, reply: ReplyView) -> bool {
    &&& request is SignVote ==> core.round < RoundNumber::MAX
    &&& request matches RequestView::VerifyTimeout { timeout } ==> timeout.high_qc.round
        < RoundNumber::MAX
    &&& request matches RequestView::VerifyBlock { block } ==> {
        &&& block.qc.round < RoundNumber::MAX
        &&& block.tc is Some ==> block.tc->0.round < RoundNumber::MAX
    }
    &&& request matches RequestView::WriteStore { block, .. } ==> block.round == core.round
        ==> crate::protocol::vote_fault(block) is None
    &&& reply matches ReplyView::VoteAdded(Ok(Some(qc))) ==> qc.round < RoundNumber::MAX
    &&& reply matches ReplyView::TimeoutAdded(Ok(Some(tc))) ==> tc.round < RoundNumber::MAX
}

/// A node goes on with every reply that answers its request, as long as rounds can be counted
/// and timeout certificates have votes. It is left as it was by any other reply.
pub proof fn law_node_goes_on(core: CoreView, reply: ReplyView)
    ensures
        (core.request is Some && answers(core.request->0, reply) && within_bounds(
            core,
            core.request->0,
            reply,
        )) ==> core.resume(reply).outcome !is Fault,
        (core.request is None || !answers(core.request->0, reply)) ==> core.resume(reply)
            == core.unexpected(),
{
}

/// Telling a node something new, rather than giving it the reply that it waits for, never
/// stops it.
pub proof fn law_messages_never_stop_node(core: CoreView, input: InputView)
    requires
        input !is Reply,
    ensures
        core.step(input).outcome !is Fault,
{
}

/// A node waits if and only if it has made a request; when it is done, nothing is left over.
pub proof fn law_nothing_is_left_over(core: CoreView, input: InputView)
    ensures
        core.step(input).outcome is Waiting ==> core.step(input).core.request is Some,
        core.step(input).outcome is Finished ==> core.step(input).core.request is None
            && core.step(input).core.delays.len() == 0,
{
}

} // verus!
