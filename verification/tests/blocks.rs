use consensus::{
    Ancestor, Block, BlockDraft, ConsensusError, CoreMessage, Digest, DigestSet, PublicKey,
    Signature, SyncEffect, Synchronizer, Timeout, TimeoutDraft, Vote, Ballot, QC, TC,
};

fn key(n: u8) -> PublicKey {
    PublicKey([n; 32])
}

fn digest(n: u8) -> Digest {
    Digest([n; 32])
}

fn signature(n: u8) -> Signature {
    Signature { part1: [n; 32], part2: [n + 1; 32] }
}

fn block(hash: u8, parent: u8) -> Block {
    Block {
        digest: digest(hash),
        qc: QC { hash: digest(parent), round: 1, votes: vec![(key(1), signature(1))] },
        tc: Some(TC { round: 4, votes: vec![(key(2), signature(2), 3)] }),
        author: key(2),
        round: 5,
        payload: vec![digest(7), digest(8)],
        signature: signature(3),
    }
}

fn wait(hash: u8, parent: u8) -> SyncEffect {
    SyncEffect::Wait { key: vec![parent; 32], block: block(hash, parent) }
}

fn request(hash: u8) -> SyncEffect {
    SyncEffect::Broadcast {
        name: key(1),
        message: CoreMessage::SyncRequest(digest(hash), key(1)),
    }
}

fn deliver(hash: u8, parent: u8) -> SyncEffect {
    SyncEffect::Deliver { message: CoreMessage::LoopBack(block(hash, parent)) }
}

fn timer() -> SyncEffect {
    SyncEffect::ScheduleTimer { delay: 10000 }
}

#[test]
fn keys_are_compared_byte_by_byte() {
    let mut bytes = [5u8; 32];
    assert_eq!(Digest(bytes), digest(5));
    assert_eq!(PublicKey(bytes), key(5));
    bytes[31] = 6;
    assert_ne!(Digest(bytes), digest(5));
    assert_ne!(PublicKey(bytes), key(5));
    bytes = [5u8; 32];
    bytes[0] = 6;
    assert_ne!(Digest(bytes), digest(5));
    assert_eq!(Digest(bytes).to_vec(), bytes.to_vec());
    assert_eq!(Digest::zero(), digest(0));
}

#[test]
fn genesis_certificate_is_recognised() {
    assert!(QC::genesis().is_genesis());
    assert_eq!(QC::genesis(), QC { hash: digest(0), round: 0, votes: vec![] });
    assert!(!QC { hash: digest(0), round: 1, votes: vec![] }.is_genesis());
    assert!(!QC { hash: digest(1), round: 0, votes: vec![] }.is_genesis());
    assert!(!QC { hash: digest(0), round: 0, votes: vec![(key(1), signature(1))] }.is_genesis());
}

#[test]
fn genesis_block_carries_nothing() {
    let genesis = Block::genesis();
    assert_eq!(genesis.qc, QC::genesis());
    assert_eq!(genesis.digest, QC::genesis().hash);
    assert_eq!(genesis.tc, None);
    assert_eq!(genesis.round, 0);
    assert!(genesis.payload.is_empty());
    assert_eq!(genesis.author, key(0));
    assert_eq!(genesis.signature, Signature { part1: [0; 32], part2: [0; 32] });
}

#[test]
fn drafts_become_signed_messages() {
    let ballot = Ballot { hash: digest(1), round: 2, author: key(3) };
    assert_eq!(
        Vote::new(ballot, signature(4)),
        Vote { hash: digest(1), round: 2, author: key(3), signature: signature(4) }
    );
    let draft = TimeoutDraft { high_qc: QC::genesis(), round: 2, author: key(3) };
    assert_eq!(
        Timeout::new(draft, signature(4)),
        Timeout { high_qc: QC::genesis(), round: 2, author: key(3), signature: signature(4) }
    );
    let whole = block(1, 2);
    let draft = BlockDraft {
        qc: whole.qc.clone(),
        tc: whole.tc.clone(),
        author: key(2),
        round: 5,
        payload: vec![digest(7), digest(8)],
    };
    assert_eq!(Block::new(draft, digest(1), signature(3)), whole);
}

#[test]
fn copies_are_equal() {
    let whole = block(1, 2);
    assert_eq!(whole.clone(), whole);
    let timeout = Timeout {
        high_qc: whole.qc.clone(),
        round: 3,
        author: key(1),
        signature: signature(1),
    };
    assert_eq!(timeout.clone(), timeout);
}

#[test]
fn rounds_of_the_voters_are_listed() {
    let tc = TC {
        round: 9,
        votes: vec![(key(1), signature(1), 4), (key(2), signature(2), 8), (key(3), signature(3), 4)],
    };
    assert_eq!(tc.high_qc_rounds(), vec![4, 8, 4]);
    assert!(TC { round: 9, votes: vec![] }.high_qc_rounds().is_empty());
}

#[test]
fn parent_is_genesis_or_stored() {
    let child = block(1, 2);
    assert_eq!(*child.previous(), digest(2));
    assert_eq!(Synchronizer::get_ancestor(&child), Ancestor::Stored(vec![2; 32]));
    let mut first = block(1, 2);
    first.qc = QC::genesis();
    assert_eq!(Synchronizer::get_ancestor(&first), Ancestor::Known(Block::genesis()));
}

#[test]
fn set_holds_each_digest_once() {
    let mut set = DigestSet::new();
    assert_eq!(set.len(), 0);
    assert!(set.insert(digest(1)));
    assert!(set.insert(digest(2)));
    assert!(set.insert(digest(3)));
    assert!(!set.insert(digest(2)));
    assert_eq!(set.len(), 3);
    assert!(set.remove(&digest(2)));
    assert!(!set.remove(&digest(2)));
    assert!(set.contains(&digest(1)));
    assert!(!set.contains(&digest(2)));
    assert_eq!(set.get(0), digest(1));
    assert_eq!(set.get(1), digest(3));
}

#[test]
fn synchronizer_starts_its_timer() {
    let (synchronizer, effect) = Synchronizer::new(key(1), 10000);
    assert_eq!(effect, timer());
    assert_eq!(synchronizer.retry(), vec![timer()]);
}

#[test]
fn suspended_block_waits_and_its_parent_is_requested() {
    let (mut synchronizer, _) = Synchronizer::new(key(1), 10000);
    assert_eq!(synchronizer.suspend(block(10, 3)), vec![wait(10, 3), request(3)]);
    assert_eq!(synchronizer.retry(), vec![request(3), timer()]);
}

#[test]
fn suspended_block_is_taken_in_once() {
    let (mut synchronizer, _) = Synchronizer::new(key(1), 10000);
    synchronizer.suspend(block(10, 3));
    assert_eq!(synchronizer.suspend(block(10, 3)), vec![]);
    assert_eq!(synchronizer.retry(), vec![request(3), timer()]);
}

#[test]
fn shared_parent_is_requested_once() {
    let (mut synchronizer, _) = Synchronizer::new(key(1), 10000);
    synchronizer.suspend(block(10, 3));
    assert_eq!(synchronizer.suspend(block(11, 3)), vec![wait(11, 3)]);
    assert_eq!(synchronizer.suspend(block(12, 4)), vec![wait(12, 4), request(4)]);
    assert_eq!(synchronizer.retry(), vec![request(3), request(4), timer()]);
}

#[test]
fn block_comes_back_when_its_parent_is_there() {
    let (mut synchronizer, _) = Synchronizer::new(key(1), 10000);
    synchronizer.suspend(block(10, 3));
    synchronizer.suspend(block(12, 4));
    assert_eq!(synchronizer.resolve(Ok(block(10, 3))), vec![deliver(10, 3)]);
    assert_eq!(synchronizer.retry(), vec![request(4), timer()]);
    // The block can be suspended anew.
    assert_eq!(synchronizer.suspend(block(10, 3)), vec![wait(10, 3), request(3)]);
}

#[test]
fn failed_wait_is_reported_and_stays_open() {
    let (mut synchronizer, _) = Synchronizer::new(key(1), 10000);
    synchronizer.suspend(block(10, 3));
    let error = || ConsensusError::StoreError("io".to_string());
    assert_eq!(
        synchronizer.resolve(Err(error())),
        vec![SyncEffect::Report { error: error() }]
    );
    assert_eq!(synchronizer.retry(), vec![request(3), timer()]);
    assert_eq!(synchronizer.suspend(block(10, 3)), vec![]);
}

#[test]
fn request_names_the_node_that_asks() {
    let (synchronizer, _) = Synchronizer::new(key(1), 10000);
    assert_eq!(synchronizer.transmit(digest(9)), request(9));
}

#[test]
fn requests_and_waits_stay_open_until_the_block_goes_back() {
    let (mut synchronizer, _) = Synchronizer::new(key(1), 10000);
    synchronizer.suspend(block(10, 3));
    synchronizer.suspend(block(12, 4));
    for _ in 0..3 {
        assert_eq!(synchronizer.retry(), vec![request(3), request(4), timer()]);
        assert_eq!(synchronizer.suspend(block(10, 3)), vec![]);
    }
    assert_eq!(synchronizer.resolve(Ok(block(12, 4))), vec![deliver(12, 4)]);
    // No tick asks for the parent of a block that has gone back.
    for _ in 0..3 {
        assert_eq!(synchronizer.retry(), vec![request(3), timer()]);
    }
    // Another child makes the synchronizer ask for it anew.
    assert_eq!(synchronizer.suspend(block(13, 4)), vec![wait(13, 4), request(4)]);
    assert_eq!(synchronizer.retry(), vec![request(3), request(4), timer()]);
    assert_eq!(synchronizer.resolve(Ok(block(10, 3))), vec![deliver(10, 3)]);
    assert_eq!(synchronizer.resolve(Ok(block(13, 4))), vec![deliver(13, 4)]);
    assert_eq!(synchronizer.retry(), vec![timer()]);
}
