//! The messages of the protocol, and their mathematical views.
use crate::keys::{Digest, PublicKey, RoundNumber, Signature};
use vstd::prelude::*;

verus! {

/// A quorum certificate: a quorum voted for the block `hash` of round `round`.
#[derive(Debug, PartialEq, Eq)]
pub struct QC {
    pub hash: Digest,
    pub round: RoundNumber,
    pub votes: Vec<(PublicKey, Signature)>,
}

#[verifier::ext_equal]
pub struct QCView {
    pub hash: Digest,
    pub round: RoundNumber,
    pub votes: Seq<(PublicKey, Signature)>,
}

impl View for QC {
    type V = QCView;

    open spec fn view(&self) -> QCView {
        QCView { hash: self.hash, round: self.round, votes: self.votes@ }
    }
}

impl QCView {
    /// The certificate that every chain starts from.
    pub open spec fn genesis() -> QCView {
        QCView { hash: Digest::spec_zero(), round: 0, votes: Seq::empty() }
    }
}

impl QC {
    /// The certificate that every chain starts from.
    pub fn genesis() -> (qc: QC)
        ensures
            qc@ == QCView::genesis(),
    {
        QC { hash: Digest::zero(), round: 0, votes: Vec::new() }
    }

    /// Whether this is the genesis certificate.
    pub fn is_genesis(&self) -> (is_genesis: bool)
        ensures
            is_genesis == (self@ == QCView::genesis()),
    {
        let is_genesis = self.hash == Digest::zero() && self.round == 0 && self.votes.len() == 0;
        assert(self.votes@.len() == 0 ==> self.votes@ =~= Seq::empty());
        is_genesis
    }
}

impl Clone for QC {
    fn clone(&self) -> (qc: Self)
        ensures
            qc@ == self@,
    {
        let mut votes: Vec<(PublicKey, Signature)> = Vec::new();
        let mut i: usize = 0;
        while i < self.votes.len()
            invariant
                i <= self.votes.len(),
                votes@ == self.votes@.take(i as int),
            decreases self.votes.len() - i,
        {
            votes.push(self.votes[i]);
            i = i + 1;
        }
        assert(self.votes@.take(i as int) =~= self.votes@);
        QC { hash: self.hash, round: self.round, votes }
    }
}

/// A timeout certificate: a quorum gave up on round `round`. Each vote comes with the round
/// of the highest certificate that its author knew.
#[derive(Debug, PartialEq, Eq)]
pub struct TC {
    pub round: RoundNumber,
    pub votes: Vec<(PublicKey, Signature, RoundNumber)>,
}

#[verifier::ext_equal]
pub struct TCView {
    pub round: RoundNumber,
    pub votes: Seq<(PublicKey, Signature, RoundNumber)>,
}

impl View for TC {
    type V = TCView;

    open spec fn view(&self) -> TCView {
        TCView { round: self.round, votes: self.votes@ }
    }
}

impl TCView {
    /// The rounds of the highest certificates that the voters knew.
    pub open spec fn high_qc_rounds(self) -> Seq<RoundNumber> {
        self.votes.map_values(|vote: (PublicKey, Signature, RoundNumber)| vote.2)
    }
}

impl TC {
    /// The rounds of the highest certificates that the voters knew.
    pub fn high_qc_rounds(&self) -> (rounds: Vec<RoundNumber>)
        ensures
            rounds@ == self@.high_qc_rounds(),
    {
        let mut rounds: Vec<RoundNumber> = Vec::new();
        let mut i: usize = 0;
        while i < self.votes.len()
            invariant
                i <= self.votes.len(),
                rounds@ == self@.high_qc_rounds().take(i as int),
            decreases self.votes.len() - i,
        {
            rounds.push(self.votes[i].2);
            i = i + 1;
        }
        assert(self@.high_qc_rounds().take(i as int) =~= self@.high_qc_rounds());
        rounds
    }
}

impl Clone for TC {
    fn clone(&self) -> (tc: Self)
        ensures
            tc@ == self@,
    {
        let mut votes: Vec<(PublicKey, Signature, RoundNumber)> = Vec::new();
        let mut i: usize = 0;
        while i < self.votes.len()
            invariant
                i <= self.votes.len(),
                votes@ == self.votes@.take(i as int),
            decreases self.votes.len() - i,
        {
            votes.push(self.votes[i]);
            i = i + 1;
        }
        assert(self.votes@.take(i as int) =~= self.votes@);
        TC { round: self.round, votes }
    }
}

/// The view of a timeout certificate that may be absent.
pub open spec fn tc_view(tc: Option<TC>) -> Option<TCView> {
    match tc {
        Some(tc) => Some(tc@),
        None => None,
    }
}

/// A copy of a timeout certificate that may be absent.
fn clone_tc(tc: &Option<TC>) -> (copy: Option<TC>)
    ensures
        tc_view(copy) == tc_view(*tc),
{
    match tc {
        Some(tc) => Some(tc.clone()),
        None => None,
    }
}

/// What a node signs to vote: the block, its round and the voter.
#[derive(Clone, Copy, Debug, PartialEq, Eq)]
pub struct Ballot {
    pub hash: Digest,
    pub round: RoundNumber,
    pub author: PublicKey,
}

/// A signed vote for the block `hash` of round `round`.
#[derive(Clone, Copy, Debug, PartialEq, Eq)]
pub struct Vote {
    pub hash: Digest,
    pub round: RoundNumber,
    pub author: PublicKey,
    pub signature: Signature,
}

/// A vote of the first phase.
pub type Vote1 = Vote;

/// A vote of the second phase.
pub type Vote2 = Vote;

impl Vote {
    /// A ballot with the signature of its author.
    pub open spec fn spec_new(ballot: Ballot, signature: Signature) -> Vote {
        Vote { hash: ballot.hash, round: ballot.round, author: ballot.author, signature }
    }

    /// A ballot with the signature of its author.
    pub fn new(ballot: Ballot, signature: Signature) -> (vote: Vote)
        ensures
            vote == Vote::spec_new(ballot, signature),
    {
        Vote { hash: ballot.hash, round: ballot.round, author: ballot.author, signature }
    }
}

/// What a node signs to give up on a round.
#[derive(Debug, PartialEq, Eq)]
pub struct TimeoutDraft {
    pub high_qc: QC,
    pub round: RoundNumber,
    pub author: PublicKey,
}

#[verifier::ext_equal]
pub struct TimeoutDraftView {
    pub high_qc: QCView,
    pub round: RoundNumber,
    pub author: PublicKey,
}

impl View for TimeoutDraft {
    type V = TimeoutDraftView;

    open spec fn view(&self) -> TimeoutDraftView {
        TimeoutDraftView { high_qc: self.high_qc@, round: self.round, author: self.author }
    }
}

/// A signed statement that its author gave up on round `round`, with the highest
/// certificate that the author knew.
#[derive(Debug, PartialEq, Eq)]
pub struct Timeout {
    pub high_qc: QC,
    pub round: RoundNumber,
    pub author: PublicKey,
    pub signature: Signature,
}

#[verifier::ext_equal]
pub struct TimeoutView {
    pub high_qc: QCView,
    pub round: RoundNumber,
    pub author: PublicKey,
    pub signature: Signature,
}

impl View for Timeout {
    type V = TimeoutView;

    open spec fn view(&self) -> TimeoutView {
        TimeoutView {
            high_qc: self.high_qc@,
            round: self.round,
            author: self.author,
            signature: self.signature,
        }
    }
}

impl TimeoutView {
    /// A draft with the signature of its author.
    pub open spec fn signed(draft: TimeoutDraftView, signature: Signature) -> TimeoutView {
        TimeoutView { high_qc: draft.high_qc, round: draft.round, author: draft.author, signature }
    }
}

impl Timeout {
    /// A draft with the signature of its author.
    pub fn new(draft: TimeoutDraft, signature: Signature) -> (timeout: Timeout)
        ensures
            timeout@ == TimeoutView::signed(draft@, signature),
    {
        Timeout { high_qc: draft.high_qc, round: draft.round, author: draft.author, signature }
    }
}

impl Clone for Timeout {
    fn clone(&self) -> (timeout: Self)
        ensures
            timeout@ == self@,
    {
        Timeout {
            high_qc: self.high_qc.clone(),
            round: self.round,
            author: self.author,
            signature: self.signature,
        }
    }
}

/// What a leader signs to propose a block.
#[derive(Debug, PartialEq, Eq)]
pub struct BlockDraft {
    pub qc: QC,
    pub tc: Option<TC>,
    pub author: PublicKey,
    pub round: RoundNumber,
    pub payload: Vec<Digest>,
}

#[verifier::ext_equal]
pub struct BlockDraftView {
    pub qc: QCView,
    pub tc: Option<TCView>,
    pub author: PublicKey,
    pub round: RoundNumber,
    pub payload: Seq<Digest>,
}

impl View for BlockDraft {
    type V = BlockDraftView;

    open spec fn view(&self) -> BlockDraftView {
        BlockDraftView {
            qc: self.qc@,
            tc: tc_view(self.tc),
            author: self.author,
            round: self.round,
            payload: self.payload@,
        }
    }
}

/// A proposed block: `qc` certifies its parent, and `tc` is there where the round before it
/// timed out. `digest` is the hash of the block, computed where the block is signed or
/// decoded.
#[derive(Debug, PartialEq, Eq)]
pub struct Block {
    pub digest: Digest,
    pub qc: QC,
    pub tc: Option<TC>,
    pub author: PublicKey,
    pub round: RoundNumber,
    pub payload: Vec<Digest>,
    pub signature: Signature,
}

#[verifier::ext_equal]
pub struct BlockView {
    pub digest: Digest,
    pub qc: QCView,
    pub tc: Option<TCView>,
    pub author: PublicKey,
    pub round: RoundNumber,
    pub payload: Seq<Digest>,
    pub signature: Signature,
}

impl View for Block {
    type V = BlockView;

    open spec fn view(&self) -> BlockView {
        BlockView {
            digest: self.digest,
            qc: self.qc@,
            tc: tc_view(self.tc),
            author: self.author,
            round: self.round,
            payload: self.payload@,
            signature: self.signature,
        }
    }
}

impl BlockView {
    /// The digest of the parent: the block that the block's certificate is about.
    pub open spec fn previous(self) -> Digest {
        self.qc.hash
    }

    /// A draft with its hash and the signature of its author.
    pub open spec fn signed(
        draft: BlockDraftView,
        digest: Digest,
        signature: Signature,
    ) -> BlockView {
        BlockView {
            digest,
            qc: draft.qc,
            tc: draft.tc,
            author: draft.author,
            round: draft.round,
            payload: draft.payload,
            signature,
        }
    }

    /// The block that every chain starts from: the genesis certificate names it, and it
    /// carries nothing.
    pub open spec fn genesis() -> BlockView {
        BlockView {
            digest: Digest::spec_zero(),
            qc: QCView::genesis(),
            tc: None,
            author: PublicKey(crate::keys::zeros()),
            round: 0,
            payload: Seq::empty(),
            signature: Signature { part1: crate::keys::zeros(), part2: crate::keys::zeros() },
        }
    }
}

impl Block {
    /// A draft with its hash and the signature of its author.
    pub fn new(draft: BlockDraft, digest: Digest, signature: Signature) -> (block: Block)
        ensures
            block@ == BlockView::signed(draft@, digest, signature),
    {
        Block {
            digest,
            qc: draft.qc,
            tc: draft.tc,
            author: draft.author,
            round: draft.round,
            payload: draft.payload,
            signature,
        }
    }

    /// The block that every chain starts from.
    pub fn genesis() -> (block: Block)
        ensures
            block@ == BlockView::genesis(),
    {
        Block {
            digest: Digest::zero(),
            qc: QC::genesis(),
            tc: None,
            author: PublicKey([0u8; 32]),
            round: 0,
            payload: Vec::new(),
            signature: Signature { part1: [0u8; 32], part2: [0u8; 32] },
        }
    }

    /// The digest of the parent: the block that the block's certificate is about.
    pub fn previous(&self) -> (digest: &Digest)
        ensures
            *digest == self@.previous(),
    {
        &self.qc.hash
    }
}

impl Clone for Block {
    fn clone(&self) -> (block: Self)
        ensures
            block@ == self@,
    {
        let mut payload: Vec<Digest> = Vec::new();
        let mut i: usize = 0;
        while i < self.payload.len()
            invariant
                i <= self.payload.len(),
                payload@ == self.payload@.take(i as int),
            decreases self.payload.len() - i,
        {
            payload.push(self.payload[i]);
            i = i + 1;
        }
        assert(self.payload@.take(i as int) =~= self.payload@);
        Block {
            digest: self.digest,
            qc: self.qc.clone(),
            tc: clone_tc(&self.tc),
            author: self.author,
            round: self.round,
            payload,
            signature: self.signature,
        }
    }
}

/// What nodes send to each other, and what the synchronizer hands back to the node.
#[derive(Debug, PartialEq, Eq)]
pub enum CoreMessage {
    Propose(Block),
    Vote1(Vote1),
    Vote2(Vote2),
    Timeout(Timeout),
    TC(TC),
    LoopBack(Block),
    SyncRequest(Digest, PublicKey),
}

#[verifier::ext_equal]
pub enum CoreMessageView {
    Propose(BlockView),
    Vote1(Vote1),
    Vote2(Vote2),
    Timeout(TimeoutView),
    TC(TCView),
    LoopBack(BlockView),
    SyncRequest(Digest, PublicKey),
}

impl View for CoreMessage {
    type V = CoreMessageView;

    open spec fn view(&self) -> CoreMessageView {
        match self {
            CoreMessage::Propose(block) => CoreMessageView::Propose(block@),
            CoreMessage::Vote1(vote) => CoreMessageView::Vote1(*vote),
            CoreMessage::Vote2(vote) => CoreMessageView::Vote2(*vote),
            CoreMessage::Timeout(timeout) => CoreMessageView::Timeout(timeout@),
            CoreMessage::TC(tc) => CoreMessageView::TC(tc@),
            CoreMessage::LoopBack(block) => CoreMessageView::LoopBack(block@),
            CoreMessage::SyncRequest(digest, sender) => CoreMessageView::SyncRequest(
                *digest,
                *sender,
            ),
        }
    }
}

} // verus!
