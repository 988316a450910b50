use consensus::{
    fatal, report, Address, Ballot, Block, BlockDraft, ConsensusError, Continuation, Core, CoreMessage,
    Digest, Effect, Election, Fault, Input, Lookup, NetMessage, Outcome, Parameters, PublicKey,
    Reply, Request, RoundNumber, Severity, Signature, Step, Timeout, TimeoutDraft, Vote, QC, TC,
};

fn key(n: u8) -> PublicKey {
    PublicKey([n; 32])
}

fn digest(n: u8) -> Digest {
    Digest([n; 32])
}

fn signature(n: u8) -> Signature {
    Signature { part1: [n; 32], part2: [n; 32] }
}

fn address(n: u8) -> Address {
    Address(format!("127.0.0.1:{}", 8000 + n as u32))
}

fn invalid(text: &str) -> ConsensusError {
    ConsensusError::Invalid(text.to_string())
}

fn parameters() -> Parameters {
    Parameters { timeout_delay: 5000, max_payload_size: 500, min_block_delay: 100 }
}

fn node() -> Core {
    Core::new(key(1), parameters())
}

fn node_in_round(round: RoundNumber) -> Core {
    let mut core = node();
    core.round = round;
    core
}

fn qc(hash: u8, round: RoundNumber) -> QC {
    QC { hash: digest(hash), round, votes: vec![(key(1), signature(1)), (key(2), signature(2))] }
}

fn tc(round: RoundNumber, high_qc_rounds: &[RoundNumber]) -> TC {
    let mut votes = Vec::new();
    for (i, high) in high_qc_rounds.iter().enumerate() {
        votes.push((key(i as u8), signature(i as u8), *high));
    }
    TC { round, votes }
}

fn block(hash: u8, parent: QC, tc: Option<TC>, round: RoundNumber) -> Block {
    Block {
        digest: digest(hash),
        qc: parent,
        tc,
        author: key(2),
        round,
        payload: vec![digest(90)],
        signature: signature(9),
    }
}

fn vote(hash: u8, round: RoundNumber) -> Vote {
    Vote { hash: digest(hash), round, author: key(3), signature: signature(3) }
}

fn timeout(high_qc: QC, round: RoundNumber) -> Timeout {
    Timeout { high_qc, round, author: key(3), signature: signature(3) }
}

fn reply(core: &mut Core, reply: Reply) -> Step {
    core.step(Input::Reply(reply))
}

fn tell(core: &mut Core, message: CoreMessage) -> Step {
    core.step(Input::Message(message))
}

fn waiting(effects: Vec<Effect>) -> Step {
    Step { effects, outcome: Outcome::Waiting }
}

fn done(effects: Vec<Effect>) -> Step {
    Step { effects, outcome: Outcome::Finished(Ok(())) }
}

fn failed(error: ConsensusError) -> Step {
    Step { effects: vec![], outcome: Outcome::Finished(Err(error)) }
}

fn fault(fault: Fault) -> Step {
    Step { effects: vec![], outcome: Outcome::Fault(fault) }
}

fn send(data: &[u8], addresses: Vec<Address>) -> Effect {
    Effect::Send { message: NetMessage::new(data.to_vec(), addresses) }
}

fn round_change(old: RoundNumber, new: RoundNumber) -> Vec<Effect> {
    vec![
        Effect::CancelTimer { round: old },
        Effect::CleanupAggregator { round: new },
        Effect::ScheduleTimer { delay: 5000, round: new },
    ]
}

/// Stores `block` on a node that is processing it, whose parent is `parent`.
fn store(core: &mut Core, block: &Block, parent: &Block) -> Step {
    assert_eq!(
        core.request,
        Some(Request::EncodeBlock { block: block.clone(), parent: parent.clone() })
    );
    assert_eq!(reply(core, Reply::Encoded(vec![7, 7])), waiting(vec![]));
    assert_eq!(
        core.request,
        Some(Request::WriteStore {
            key: block.digest.to_vec(),
            value: vec![7, 7],
            block: block.clone(),
            parent: parent.clone(),
        })
    );
    reply(core, Reply::Written(Ok(())))
}

/// Reads the stored `parent` for `block`.
fn find_parent(core: &mut Core, block: &Block, parent: &Block) {
    assert_eq!(
        core.request,
        Some(Request::ReadStore {
            key: block.qc.hash.to_vec(),
            lookup: Lookup::Parent { block: block.clone() },
        })
    );
    assert_eq!(reply(core, Reply::Read(Ok(Some(vec![8])))), waiting(vec![]));
    assert_eq!(
        core.request,
        Some(Request::DecodeBlock {
            data: vec![8],
            lookup: Lookup::Parent { block: block.clone() },
        })
    );
    assert_eq!(reply(core, Reply::Decoded(Ok(parent.clone()))), waiting(vec![]));
}

#[test]
fn new_node_is_in_round_one() {
    let core = node();
    assert_eq!(core.name, key(1));
    assert_eq!(core.round, 1);
    assert_eq!(core.last_voted_round, 0);
    assert_eq!(core.vote1_qc, QC::genesis());
    assert_eq!(core.vote2_qc, QC::genesis());
    assert_eq!(core.high_qc, QC::genesis());
    assert_eq!(core.request, None);
    assert!(core.delays.is_empty());
}

#[test]
fn node_that_does_not_lead_only_starts_its_timer() {
    let mut core = node();
    assert_eq!(
        core.step(Input::Boot),
        waiting(vec![Effect::ScheduleTimer { delay: 5000, round: 1 }])
    );
    assert_eq!(
        core.request,
        Some(Request::ElectLeader { round: 1, election: Election::Propose { tc: None } })
    );
    assert_eq!(reply(&mut core, Reply::Leader(key(2))), done(vec![]));
    assert_eq!(core.request, None);
}

#[test]
fn first_leader_proposes_votes_and_waits() {
    let mut core = node();
    core.step(Input::Boot);
    assert_eq!(reply(&mut core, Reply::Leader(key(1))), waiting(vec![]));
    assert_eq!(core.request, Some(Request::GetPayload { max_size: 500, tc: None }));
    assert_eq!(reply(&mut core, Reply::Payload(vec![digest(90)])), waiting(vec![]));
    let block_draft = BlockDraft {
        qc: QC::genesis(),
        tc: None,
        author: key(1),
        round: 1,
        payload: vec![digest(90)],
    };
    assert_eq!(core.request, Some(Request::SignBlock { block_draft }));
    let proposal = Block {
        digest: digest(10),
        qc: QC::genesis(),
        tc: None,
        author: key(1),
        round: 1,
        payload: vec![digest(90)],
        signature: signature(1),
    };
    assert_eq!(reply(&mut core, Reply::BlockSigned(digest(10), signature(1))), waiting(vec![]));
    assert_eq!(
        core.request,
        Some(Request::FindOthers {
            name: key(1),
            message: CoreMessage::Propose(proposal.clone()),
            next: Continuation::ProcessBlock { block: proposal.clone() },
        })
    );
    let others = vec![address(2), address(3)];
    assert_eq!(reply(&mut core, Reply::OthersFound(others)), waiting(vec![]));
    assert_eq!(
        reply(&mut core, Reply::Encoded(vec![1, 2, 3])),
        waiting(vec![send(&[1, 2, 3], vec![address(2), address(3)])])
    );
    let step = store(&mut core, &proposal, &Block::genesis());
    assert_eq!(step, waiting(vec![Effect::CleanupMempool { parent: Block::genesis() }]));
    assert_eq!(
        core.request,
        Some(Request::SignVote { ballot: Ballot { hash: digest(10), round: 1, author: key(1) } })
    );
    assert_eq!(core.last_voted_round, 1);
    assert_eq!(reply(&mut core, Reply::Signed(signature(4))), waiting(vec![]));
    let own = Vote { hash: digest(10), round: 1, author: key(1), signature: signature(4) };
    assert_eq!(
        core.request,
        Some(Request::ElectLeader { round: 2, election: Election::RouteVote { vote: own } })
    );
    assert_eq!(reply(&mut core, Reply::Leader(key(2))), waiting(vec![]));
    assert_eq!(
        core.request,
        Some(Request::FindAddress {
            to: key(2),
            message: CoreMessage::Vote1(own),
            next: Continuation::Finish,
        })
    );
    assert_eq!(reply(&mut core, Reply::AddressFound(Ok(address(2)))), waiting(vec![]));
    assert_eq!(
        reply(&mut core, Reply::Encoded(vec![4])),
        done(vec![send(&[4], vec![address(2)]), Effect::Sleep { millis: 100 }])
    );
    assert_eq!(core.request, None);
    assert!(core.delays.is_empty());
}

#[test]
fn every_nested_proposal_is_followed_by_a_delay() {
    let mut core = node();
    core.step(Input::Boot);
    for round in 1..3u8 {
        assert_eq!(reply(&mut core, Reply::Leader(key(1))), waiting(vec![]));
        reply(&mut core, Reply::Payload(vec![]));
        reply(&mut core, Reply::BlockSigned(digest(round), signature(1)));
        reply(&mut core, Reply::OthersFound(vec![]));
        reply(&mut core, Reply::Encoded(vec![]));
        reply(&mut core, Reply::Encoded(vec![]));
        if round == 2 {
            break;
        }
        reply(&mut core, Reply::Written(Ok(())));
        reply(&mut core, Reply::Signed(signature(1)));
        assert_eq!(reply(&mut core, Reply::Leader(key(1))), waiting(vec![]));
        let own = Vote { hash: digest(1), round: 1, author: key(1), signature: signature(1) };
        assert_eq!(core.request, Some(Request::VerifyVote { vote: own }));
        reply(&mut core, Reply::Verified(Ok(())));
        assert_eq!(
            reply(&mut core, Reply::VoteAdded(Ok(Some(qc(1, 1))))),
            waiting(round_change(1, 2))
        );
    }
    assert_eq!(core.delays, vec![100, 100]);
    assert_eq!(
        reply(&mut core, Reply::Written(Ok(()))),
        done(vec![
            Effect::CleanupMempool { parent: Block::genesis() },
            Effect::Sleep { millis: 100 },
            Effect::Sleep { millis: 100 },
        ])
    );
}

#[test]
fn failed_proposal_is_not_followed_by_a_delay() {
    let mut core = node();
    core.step(Input::Boot);
    reply(&mut core, Reply::Leader(key(1)));
    reply(&mut core, Reply::Payload(vec![]));
    reply(&mut core, Reply::BlockSigned(digest(1), signature(1)));
    reply(&mut core, Reply::OthersFound(vec![]));
    reply(&mut core, Reply::Encoded(vec![]));
    reply(&mut core, Reply::Encoded(vec![]));
    assert_eq!(
        reply(&mut core, Reply::Written(Err("disk".to_string()))),
        failed(ConsensusError::StoreError("disk".to_string()))
    );
    assert!(core.delays.is_empty());
}

#[test]
fn votes_for_past_rounds_are_ignored() {
    let mut core = node_in_round(5);
    assert_eq!(tell(&mut core, CoreMessage::Vote1(vote(1, 4))), done(vec![]));
    assert_eq!(tell(&mut core, CoreMessage::Vote2(vote(1, 4))), done(vec![]));
    assert_eq!(core.request, None);
    assert_eq!(core.round, 5);
    assert_eq!(tell(&mut core, CoreMessage::Vote1(vote(1, 5))), waiting(vec![]));
    assert_eq!(core.request, Some(Request::VerifyVote { vote: vote(1, 5) }));
}

#[test]
fn invalid_votes_are_refused() {
    let mut core = node();
    tell(&mut core, CoreMessage::Vote1(vote(1, 1)));
    assert_eq!(reply(&mut core, Reply::Verified(Err(invalid("sig")))), failed(invalid("sig")));
    tell(&mut core, CoreMessage::Vote2(vote(1, 1)));
    assert_eq!(reply(&mut core, Reply::Verified(Ok(()))), waiting(vec![]));
    assert_eq!(core.request, Some(Request::AddVote { vote: vote(1, 1) }));
    assert_eq!(
        reply(&mut core, Reply::VoteAdded(Err(invalid("reuse")))),
        failed(invalid("reuse"))
    );
    assert_eq!(core.round, 1);
}

#[test]
fn vote_without_quorum_changes_nothing() {
    let mut core = node();
    tell(&mut core, CoreMessage::Vote1(vote(1, 1)));
    reply(&mut core, Reply::Verified(Ok(())));
    assert_eq!(reply(&mut core, Reply::VoteAdded(Ok(None))), done(vec![]));
    assert_eq!(core.round, 1);
    assert_eq!(core.high_qc, QC::genesis());
}

#[test]
fn quorum_of_votes_ends_the_round() {
    let mut core = node_in_round(3);
    tell(&mut core, CoreMessage::Vote1(vote(1, 7)));
    reply(&mut core, Reply::Verified(Ok(())));
    assert_eq!(
        reply(&mut core, Reply::VoteAdded(Ok(Some(qc(1, 7))))),
        waiting(round_change(3, 8))
    );
    assert_eq!(core.round, 8);
    assert_eq!(core.high_qc, qc(1, 7));
    assert_eq!(
        core.request,
        Some(Request::ElectLeader { round: 8, election: Election::Propose { tc: None } })
    );
}

#[test]
fn old_certificate_does_not_move_the_node() {
    let mut core = node_in_round(9);
    core.high_qc = qc(5, 8);
    tell(&mut core, CoreMessage::Vote1(vote(1, 9)));
    reply(&mut core, Reply::Verified(Ok(())));
    assert_eq!(reply(&mut core, Reply::VoteAdded(Ok(Some(qc(1, 7))))), waiting(vec![]));
    assert_eq!(core.round, 9);
    assert_eq!(core.high_qc, qc(5, 8));
}

#[test]
fn timeouts_are_verified_then_counted() {
    let mut core = node_in_round(4);
    assert_eq!(tell(&mut core, CoreMessage::Timeout(timeout(qc(1, 2), 3))), done(vec![]));
    let current = timeout(qc(1, 6), 4);
    assert_eq!(tell(&mut core, CoreMessage::Timeout(current.clone())), waiting(vec![]));
    assert_eq!(core.request, Some(Request::VerifyTimeout { timeout: current.clone() }));
    assert_eq!(reply(&mut core, Reply::Verified(Ok(()))), waiting(round_change(4, 7)));
    assert_eq!(core.high_qc, qc(1, 6));
    assert_eq!(core.request, Some(Request::AddTimeout { timeout: current }));
    assert_eq!(reply(&mut core, Reply::TimeoutAdded(Ok(None))), done(vec![]));
}

#[test]
fn invalid_timeouts_are_refused() {
    let mut core = node();
    tell(&mut core, CoreMessage::Timeout(timeout(QC::genesis(), 1)));
    assert_eq!(reply(&mut core, Reply::Verified(Err(invalid("sig")))), failed(invalid("sig")));
    tell(&mut core, CoreMessage::Timeout(timeout(QC::genesis(), 1)));
    reply(&mut core, Reply::Verified(Ok(())));
    assert_eq!(
        reply(&mut core, Reply::TimeoutAdded(Err(invalid("reuse")))),
        failed(invalid("reuse"))
    );
}

#[test]
fn quorum_of_timeouts_is_passed_on() {
    let mut core = node();
    let certificate = tc(1, &[0, 0, 0]);
    tell(&mut core, CoreMessage::Timeout(timeout(QC::genesis(), 1)));
    assert_eq!(reply(&mut core, Reply::Verified(Ok(()))), waiting(vec![]));
    assert_eq!(
        reply(&mut core, Reply::TimeoutAdded(Ok(Some(certificate.clone())))),
        waiting(round_change(1, 2))
    );
    assert_eq!(
        core.request,
        Some(Request::FindOthers {
            name: key(1),
            message: CoreMessage::TC(certificate.clone()),
            next: Continuation::Propose { tc: certificate.clone() },
        })
    );
    reply(&mut core, Reply::OthersFound(vec![address(2)]));
    assert_eq!(
        reply(&mut core, Reply::Encoded(vec![5])),
        waiting(vec![send(&[5], vec![address(2)])])
    );
    assert_eq!(
        core.request,
        Some(Request::ElectLeader {
            round: 2,
            election: Election::Propose { tc: Some(certificate.clone()) },
        })
    );
    reply(&mut core, Reply::Leader(key(1)));
    assert_eq!(core.request, Some(Request::GetPayload { max_size: 500, tc: Some(certificate) }));
}

#[test]
fn node_gives_up_on_its_round() {
    let mut core = node_in_round(6);
    core.high_qc = qc(3, 4);
    assert_eq!(core.step(Input::TimerFired), waiting(vec![]));
    assert_eq!(core.last_voted_round, 6);
    assert_eq!(
        core.request,
        Some(Request::SignTimeout {
            timeout_draft: TimeoutDraft { high_qc: qc(3, 4), round: 6, author: key(1) },
        })
    );
    assert_eq!(
        reply(&mut core, Reply::Signed(signature(1))),
        waiting(vec![Effect::ScheduleTimer { delay: 5000, round: 6 }])
    );
    let own =
        Timeout { high_qc: qc(3, 4), round: 6, author: key(1), signature: signature(1) };
    assert_eq!(
        core.request,
        Some(Request::FindOthers {
            name: key(1),
            message: CoreMessage::Timeout(own.clone()),
            next: Continuation::HandleTimeout { timeout: own.clone() },
        })
    );
    reply(&mut core, Reply::OthersFound(vec![address(3)]));
    assert_eq!(
        reply(&mut core, Reply::Encoded(vec![6])),
        waiting(vec![send(&[6], vec![address(3)])])
    );
    assert_eq!(core.request, Some(Request::VerifyTimeout { timeout: own }));
}

#[test]
fn node_does_not_vote_in_a_round_it_gave_up_on() {
    let mut core = node();
    core.step(Input::TimerFired);
    let late = block(10, QC::genesis(), None, 1);
    tell(&mut core, CoreMessage::LoopBack(late.clone()));
    let step = store(&mut core, &late, &Block::genesis());
    assert_eq!(step, done(vec![Effect::CleanupMempool { parent: Block::genesis() }]));
}

#[test]
fn node_votes_once_per_round() {
    let mut core = node();
    let first = block(10, QC::genesis(), None, 1);
    let second = block(11, QC::genesis(), None, 1);
    tell(&mut core, CoreMessage::LoopBack(first.clone()));
    assert_eq!(store(&mut core, &first, &Block::genesis()).outcome, Outcome::Waiting);
    assert_eq!(
        core.request,
        Some(Request::SignVote { ballot: Ballot { hash: digest(10), round: 1, author: key(1) } })
    );
    tell(&mut core, CoreMessage::LoopBack(second.clone()));
    let step = store(&mut core, &second, &Block::genesis());
    assert_eq!(step.outcome, Outcome::Finished(Ok(())));
}

#[test]
fn proposal_of_the_wrong_leader_is_refused() {
    let mut core = node();
    let proposal = block(10, qc(3, 2), None, 3);
    assert_eq!(tell(&mut core, CoreMessage::Propose(proposal.clone())), waiting(vec![]));
    assert_eq!(
        core.request,
        Some(Request::ElectLeader {
            round: 3,
            election: Election::CheckProposer { block: proposal },
        })
    );
    assert_eq!(
        reply(&mut core, Reply::Leader(key(3))),
        failed(ConsensusError::WrongLeader { digest: digest(10), leader: key(2), round: 3 })
    );
    assert_eq!(core.round, 1);
}

#[test]
fn invalid_proposal_is_refused() {
    let mut core = node();
    let proposal = block(10, qc(3, 2), None, 3);
    tell(&mut core, CoreMessage::Propose(proposal.clone()));
    assert_eq!(reply(&mut core, Reply::Leader(key(2))), waiting(vec![]));
    assert_eq!(core.request, Some(Request::VerifyBlock { block: proposal }));
    assert_eq!(reply(&mut core, Reply::Verified(Err(invalid("qc")))), failed(invalid("qc")));
    assert_eq!(core.round, 1);
}

#[test]
fn proposal_moves_the_node_and_gets_its_vote() {
    let mut core = node();
    let parent = block(3, QC::genesis(), None, 1);
    let proposal = block(10, qc(3, 2), None, 3);
    tell(&mut core, CoreMessage::Propose(proposal.clone()));
    reply(&mut core, Reply::Leader(key(2)));
    assert_eq!(reply(&mut core, Reply::Verified(Ok(()))), waiting(round_change(1, 3)));
    assert_eq!(core.high_qc, qc(3, 2));
    assert_eq!(core.request, Some(Request::VerifyPayload { block: proposal.clone() }));
    assert_eq!(reply(&mut core, Reply::PayloadVerified(Ok(true))), waiting(vec![]));
    find_parent(&mut core, &proposal, &parent);
    let step = store(&mut core, &proposal, &parent);
    assert_eq!(step, waiting(vec![Effect::CleanupMempool { parent }]));
    assert_eq!(
        core.request,
        Some(Request::SignVote { ballot: Ballot { hash: digest(10), round: 3, author: key(1) } })
    );
    assert_eq!(core.last_voted_round, 3);
}

#[test]
fn certificates_in_a_block_both_move_the_node() {
    let mut core = node();
    let proposal = block(10, qc(3, 2), Some(tc(5, &[2, 1, 2])), 6);
    tell(&mut core, CoreMessage::Propose(proposal));
    reply(&mut core, Reply::Leader(key(2)));
    let mut effects = round_change(1, 3);
    effects.append(&mut round_change(3, 6));
    assert_eq!(reply(&mut core, Reply::Verified(Ok(()))), waiting(effects));
    assert_eq!(core.round, 6);
}

#[test]
fn proposal_without_payload_is_suspended() {
    let mut core = node();
    tell(&mut core, CoreMessage::Propose(block(10, QC::genesis(), None, 1)));
    reply(&mut core, Reply::Leader(key(2)));
    reply(&mut core, Reply::Verified(Ok(())));
    assert_eq!(reply(&mut core, Reply::PayloadVerified(Ok(false))), done(vec![]));
    tell(&mut core, CoreMessage::Propose(block(10, QC::genesis(), None, 1)));
    reply(&mut core, Reply::Leader(key(2)));
    reply(&mut core, Reply::Verified(Ok(())));
    assert_eq!(
        reply(&mut core, Reply::PayloadVerified(Err(invalid("payload")))),
        failed(invalid("payload"))
    );
}

#[test]
fn block_without_parent_is_suspended() {
    let mut core = node();
    let orphan = block(10, qc(3, 2), None, 3);
    tell(&mut core, CoreMessage::LoopBack(orphan.clone()));
    assert_eq!(
        reply(&mut core, Reply::Read(Ok(None))),
        done(vec![Effect::Suspend { block: orphan }])
    );
}

#[test]
fn store_failures_are_reported() {
    let mut core = node();
    let child = block(10, qc(3, 2), None, 3);
    tell(&mut core, CoreMessage::LoopBack(child.clone()));
    assert_eq!(
        reply(&mut core, Reply::Read(Err("io".to_string()))),
        failed(ConsensusError::StoreError("io".to_string()))
    );
    tell(&mut core, CoreMessage::LoopBack(child));
    reply(&mut core, Reply::Read(Ok(Some(vec![1]))));
    assert_eq!(
        reply(&mut core, Reply::Decoded(Err("bad".to_string()))),
        failed(ConsensusError::SerializationError("bad".to_string()))
    );
}

#[test]
fn block_of_another_round_is_stored_without_a_vote() {
    let mut core = node_in_round(4);
    let early = block(10, QC::genesis(), None, 1);
    tell(&mut core, CoreMessage::LoopBack(early.clone()));
    let step = store(&mut core, &early, &Block::genesis());
    assert_eq!(step, done(vec![Effect::CleanupMempool { parent: Block::genesis() }]));
    assert_eq!(core.last_voted_round, 0);
}

fn ballot(hash: u8, round: RoundNumber) -> Ballot {
    Ballot { hash: digest(hash), round, author: key(1) }
}

#[test]
fn voting_rule_of_the_first_phase() {
    let mut core = node_in_round(5);
    core.last_voted_round = 4;
    // The node is not in the block's round.
    assert_eq!(core.make_vote1(&block(10, qc(3, 5), None, 6)), None);
    assert_eq!(core.last_voted_round, 4);
    // There is a gap between the certificate and the block.
    assert_eq!(core.make_vote1(&block(10, qc(3, 3), None, 5)), None);
    // The parent is certified in the round before.
    let next = block(10, qc(3, 4), None, 5);
    assert_eq!(core.make_vote1(&next), Some(ballot(10, 5)));
    assert_eq!(core.last_voted_round, 5);
    // The round is not above the last one voted in.
    assert_eq!(core.make_vote1(&next), None);
    // A voter of the timeout certificate knew a higher certificate.
    core.round = 7;
    assert_eq!(core.make_vote1(&block(11, qc(3, 4), Some(tc(6, &[4, 5, 3])), 7)), None);
    // The timeout certificate is about another round.
    assert_eq!(core.make_vote1(&block(12, qc(3, 4), Some(tc(5, &[4])), 7)), None);
    // A wrong timeout certificate is not made up for by the parent's certificate.
    assert_eq!(core.make_vote1(&block(13, qc(3, 6), Some(tc(1, &[0])), 7)), None);
    assert_eq!(core.make_vote1(&block(14, qc(3, 6), Some(tc(6, &[9])), 7)), None);
    assert_eq!(core.last_voted_round, 5);
    // The gap is covered by the timeout certificate, and no voter knew a higher certificate.
    let covered = block(15, qc(3, 4), Some(tc(6, &[4, 2, 3])), 7);
    assert_eq!(core.make_vote1(&covered), Some(ballot(15, 7)));
    assert_eq!(core.last_voted_round, 7);
}

#[test]
fn new_node_does_not_vote_ahead_of_its_round() {
    let mut core = node();
    assert_eq!(core.make_vote1(&block(10, qc(3, 4), None, 5)), None);
    assert_eq!(core.round, 1);
    assert_eq!(core.last_voted_round, 0);
}

#[test]
fn voting_rule_of_the_second_phase() {
    let mut core = node_in_round(5);
    core.last_voted_round = 4;
    // The parent is certified in the round before.
    let next = block(10, qc(3, 4), None, 5);
    assert_eq!(core.make_vote2(&next), Some(ballot(10, 5)));
    // The round is not above the last one voted in, in either phase.
    assert_eq!(core.make_vote2(&next), None);
    assert_eq!(core.make_vote1(&next), None);
    // There is a gap between the certificate and the block.
    assert_eq!(core.make_vote2(&block(11, qc(3, 4), None, 6)), None);
    // The gap is covered by a timeout certificate, and no voter knew a higher certificate.
    let covered = block(12, qc(3, 4), Some(tc(5, &[4, 2, 3])), 6);
    assert_eq!(core.make_vote2(&covered), Some(ballot(12, 6)));
    // A voter knew a higher certificate.
    assert_eq!(core.make_vote2(&block(13, qc(3, 4), Some(tc(6, &[4, 5, 3])), 7)), None);
    // The timeout certificate is about another round.
    assert_eq!(core.make_vote2(&block(14, qc(3, 4), Some(tc(5, &[4])), 7)), None);
    // The parent's certificate suffices, whatever the timeout certificate says.
    let both = block(15, qc(3, 6), Some(tc(1, &[9])), 7);
    assert_eq!(core.make_vote2(&both), Some(ballot(15, 7)));
    assert_eq!(core.last_voted_round, 7);
}

#[test]
fn block_with_a_wrong_timeout_certificate_gets_no_vote() {
    let mut core = node_in_round(7);
    let parent = block(3, QC::genesis(), None, 6);
    let wrong = block(10, qc(3, 6), Some(tc(1, &[0])), 7);
    tell(&mut core, CoreMessage::LoopBack(wrong.clone()));
    find_parent(&mut core, &wrong, &parent);
    let step = store(&mut core, &wrong, &parent);
    assert_eq!(step, done(vec![Effect::CleanupMempool { parent }]));
    assert_eq!(core.last_voted_round, 0);
}

#[test]
fn last_voted_round_never_goes_down() {
    let mut core = node();
    core.increase_last_voted_round(5);
    assert_eq!(core.last_voted_round, 5);
    core.increase_last_voted_round(3);
    assert_eq!(core.last_voted_round, 5);
}

#[test]
fn higher_certificate_is_kept() {
    let mut core = node();
    core.update_high_qc(&qc(1, 3));
    assert_eq!(core.high_qc, qc(1, 3));
    core.update_high_qc(&qc(2, 3));
    assert_eq!(core.high_qc, qc(1, 3));
    core.update_high_qc(&qc(2, 2));
    assert_eq!(core.high_qc, qc(1, 3));
}

#[test]
fn round_advances_past_a_finished_one() {
    let mut core = node_in_round(5);
    assert_eq!(core.advance_round(4), vec![]);
    assert_eq!(core.round, 5);
    assert_eq!(core.advance_round(5), round_change(5, 6));
    assert_eq!(core.round, 6);
    assert_eq!(core.process_qc(&qc(2, 9)), round_change(6, 10));
    assert_eq!(core.high_qc, qc(2, 9));
}

#[test]
fn timeout_certificate_without_votes_stops_the_node() {
    let mut core = node_in_round(3);
    let bad = block(10, QC::genesis(), Some(tc(2, &[])), 3);
    tell(&mut core, CoreMessage::LoopBack(bad.clone()));
    let step = store(&mut core, &bad, &Block::genesis());
    assert_eq!(step.outcome, Outcome::Fault(Fault::EmptyTC));
}

#[test]
fn last_round_stops_the_node() {
    let max = RoundNumber::MAX;
    let mut core = node();
    tell(&mut core, CoreMessage::Vote1(vote(1, 1)));
    reply(&mut core, Reply::Verified(Ok(())));
    assert_eq!(
        reply(&mut core, Reply::VoteAdded(Ok(Some(qc(1, max))))),
        fault(Fault::RoundOverflow)
    );
    tell(&mut core, CoreMessage::Timeout(timeout(qc(1, max), 1)));
    assert_eq!(reply(&mut core, Reply::Verified(Ok(()))), fault(Fault::RoundOverflow));
    tell(&mut core, CoreMessage::Timeout(timeout(QC::genesis(), 1)));
    reply(&mut core, Reply::Verified(Ok(())));
    assert_eq!(
        reply(&mut core, Reply::TimeoutAdded(Ok(Some(tc(max, &[0]))))),
        fault(Fault::RoundOverflow)
    );
    assert_eq!(core.handle_tc(tc(max, &[0])), fault(Fault::RoundOverflow));
    tell(&mut core, CoreMessage::Propose(block(10, qc(3, max), None, 1)));
    reply(&mut core, Reply::Leader(key(2)));
    assert_eq!(reply(&mut core, Reply::Verified(Ok(()))), fault(Fault::RoundOverflow));
    tell(&mut core, CoreMessage::Propose(block(10, qc(3, 0), Some(tc(max, &[0])), 1)));
    reply(&mut core, Reply::Leader(key(2)));
    assert_eq!(reply(&mut core, Reply::Verified(Ok(()))), fault(Fault::RoundOverflow));
    assert_eq!(core.round, 1);
    // A vote in the last round has nowhere to go.
    let mut core = node_in_round(max);
    let last = block(10, qc(3, max - 1), None, max);
    tell(&mut core, CoreMessage::LoopBack(last.clone()));
    find_parent(&mut core, &last, &Block::genesis());
    assert_eq!(store(&mut core, &last, &Block::genesis()).outcome, Outcome::Waiting);
    assert_eq!(reply(&mut core, Reply::Signed(signature(1))), fault(Fault::RoundOverflow));
}

#[test]
fn unexpected_replies_change_nothing() {
    let mut core = node();
    assert_eq!(reply(&mut core, Reply::Leader(key(1))), fault(Fault::UnexpectedReply));
    tell(&mut core, CoreMessage::Vote1(vote(1, 1)));
    assert_eq!(reply(&mut core, Reply::Leader(key(1))), fault(Fault::UnexpectedReply));
    assert_eq!(core.request, Some(Request::VerifyVote { vote: vote(1, 1) }));
    assert_eq!(reply(&mut core, Reply::Verified(Ok(()))), waiting(vec![]));
}

#[test]
fn timeout_certificate_as_a_message_is_not_acted_upon() {
    let mut core = node();
    assert_eq!(tell(&mut core, CoreMessage::TC(tc(4, &[1, 2, 3]))), done(vec![]));
    assert_eq!(core.round, 1);
}

#[test]
fn timeout_certificate_ends_its_round() {
    let mut core = node();
    assert_eq!(core.handle_tc(tc(4, &[1])), waiting(round_change(1, 5)));
    assert_eq!(
        core.request,
        Some(Request::ElectLeader {
            round: 5,
            election: Election::Propose { tc: Some(tc(4, &[1])) },
        })
    );
    // A certificate of a round that is over does not take the node back.
    assert_eq!(core.handle_tc(tc(2, &[1])), waiting(vec![]));
    assert_eq!(core.round, 5);
}

#[test]
fn stored_block_is_sent_to_who_asked_for_it() {
    let mut core = node();
    let wanted = block(10, qc(3, 2), None, 3);
    assert_eq!(
        tell(&mut core, CoreMessage::SyncRequest(digest(10), key(4))),
        waiting(vec![])
    );
    assert_eq!(
        core.request,
        Some(Request::ReadStore {
            key: vec![10; 32],
            lookup: Lookup::Requested { sender: key(4) },
        })
    );
    reply(&mut core, Reply::Read(Ok(Some(vec![8, 9]))));
    reply(&mut core, Reply::Decoded(Ok(wanted.clone())));
    assert_eq!(
        core.request,
        Some(Request::FindAddress {
            to: key(4),
            message: CoreMessage::Propose(wanted),
            next: Continuation::Finish,
        })
    );
    reply(&mut core, Reply::AddressFound(Ok(address(4))));
    assert_eq!(
        reply(&mut core, Reply::Encoded(vec![3, 2, 1])),
        done(vec![send(&[3, 2, 1], vec![address(4)])])
    );
}

#[test]
fn request_for_an_unknown_block_is_ignored() {
    let mut core = node();
    tell(&mut core, CoreMessage::SyncRequest(digest(10), key(4)));
    assert_eq!(reply(&mut core, Reply::Read(Ok(None))), done(vec![]));
}

#[test]
fn stranger_gets_no_answer() {
    let mut core = node();
    tell(&mut core, CoreMessage::SyncRequest(digest(10), key(4)));
    reply(&mut core, Reply::Read(Ok(Some(vec![8]))));
    reply(&mut core, Reply::Decoded(Ok(Block::genesis())));
    assert_eq!(
        reply(&mut core, Reply::AddressFound(Err(invalid("unknown node")))),
        failed(invalid("unknown node"))
    );
}

#[test]
fn effects_are_performed_in_order() {
    let step = done(vec![Effect::Sleep { millis: 1 }]);
    let first = vec![Effect::CancelTimer { round: 1 }];
    assert_eq!(
        step.after(first),
        done(vec![Effect::CancelTimer { round: 1 }, Effect::Sleep { millis: 1 }])
    );
}

#[test]
fn errors_are_reported_by_kind() {
    assert_eq!(report(&Ok(())), None);
    assert_eq!(
        report(&Err(ConsensusError::StoreError("io".to_string()))),
        Some(Severity::Error)
    );
    assert_eq!(
        report(&Err(ConsensusError::SerializationError("bad".to_string()))),
        Some(Severity::Corrupted)
    );
    assert_eq!(
        report(&Err(ConsensusError::WrongLeader { digest: digest(1), leader: key(1), round: 1 })),
        Some(Severity::Warning)
    );
    assert_eq!(report(&Err(invalid("sig"))), Some(Severity::Warning));
}

#[test]
fn only_the_first_proposal_may_not_fail() {
    assert!(fatal(true, &Err(invalid("sig"))));
    assert!(!fatal(true, &Ok(())));
    assert!(!fatal(false, &Err(ConsensusError::StoreError("io".to_string()))));
    assert!(!fatal(false, &Ok(())));
}

#[test]
fn votes_of_both_phases_go_up() {
    let mut core = node();
    assert_eq!(core.make_vote1(&block(10, QC::genesis(), None, 1)), Some(ballot(10, 1)));
    assert_eq!(core.make_vote2(&block(11, QC::genesis(), None, 1)), None);
    core.process_qc(&qc(10, 1));
    assert_eq!(core.make_vote2(&block(12, qc(10, 1), None, 2)), Some(ballot(12, 2)));
    assert_eq!(core.make_vote1(&block(12, qc(10, 1), None, 2)), None);
    core.advance_round(3);
    core.increase_last_voted_round(4);
    assert_eq!(core.make_vote1(&block(13, qc(12, 3), None, 4)), None);
    core.advance_round(4);
    core.update_high_qc(&qc(12, 4));
    assert_eq!(core.make_vote1(&block(14, qc(12, 4), None, 5)), Some(ballot(14, 5)));
}

#[test]
fn network_message_holds_the_data() {
    let message = NetMessage::new(vec![1, 2, 3], vec![address(1)]);
    assert_eq!(&message.0[..], &[1, 2, 3]);
    assert_eq!(message.1, vec![address(1)]);
    let empty = NetMessage::new(vec![], vec![]);
    assert!(empty.0.is_empty());
    let mut spare = Vec::with_capacity(64);
    spare.push(9u8);
    assert_eq!(&NetMessage::new(spare, vec![]).0[..], &[9]);
}
