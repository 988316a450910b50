//! The blocks that wait for a missing parent, and the requests for those parents.
use crate::digest_set::DigestSet;
use crate::error::{ConsensusError, ConsensusResult};
use crate::keys::{Digest, PublicKey};
use crate::messages::{Block, BlockView, CoreMessage, CoreMessageView, QCView};
use vstd::prelude::*;

verus! {

/// Where the parent of a block is to be found.
#[derive(Debug, PartialEq, Eq)]
pub enum Ancestor {
    /// The parent is known without looking.
    Known(Block),
    /// The parent is in the store under this key, if it is there at all.
    Stored(Vec<u8>),
}

/// Outside work that the synchronizer wants done.
#[derive(Debug, PartialEq, Eq)]
pub enum SyncEffect {
    /// Wait until the store holds something under `key`, then report `block`.
    Wait { key: Vec<u8>, block: Block },
    /// Send a message to all nodes but `name`.
    Broadcast { name: PublicKey, message: CoreMessage },
    /// Hand a message to the node itself.
    Deliver { message: CoreMessage },
    /// Start the timer; it fires after `delay` milliseconds.
    ScheduleTimer { delay: u64 },
    /// Report an error.
    Report { error: ConsensusError },
}

#[verifier::ext_equal]
pub enum SyncEffectView {
    Wait { key: Seq<u8>, block: BlockView },
    Broadcast { name: PublicKey, message: CoreMessageView },
    Deliver { message: CoreMessageView },
    ScheduleTimer { delay: u64 },
    Report { error: ConsensusError },
}

impl View for SyncEffect {
    type V = SyncEffectView;

    open spec fn view(&self) -> SyncEffectView {
        match self {
            SyncEffect::Wait { key, block } => SyncEffectView::Wait { key: key@, block: block@ },
            SyncEffect::Broadcast { name, message } => SyncEffectView::Broadcast {
                name: *name,
                message: message@,
            },
            SyncEffect::Deliver { message } => SyncEffectView::Deliver { message: message@ },
            SyncEffect::ScheduleTimer { delay } => SyncEffectView::ScheduleTimer { delay: *delay },
            SyncEffect::Report { error } => SyncEffectView::Report { error: *error },
        }
    }
}

/// The views of a list of effects.
pub open spec fn sync_effects_view(effects: Seq<SyncEffect>) -> Seq<SyncEffectView> {
    effects.map_values(|effect: SyncEffect| effect@)
}

/// The view of the end of a wait.
pub open spec fn waited_view(result: ConsensusResult<Block>) -> ConsensusResult<BlockView> {
    match result {
        Ok(block) => Ok(block@),
        Err(error) => Err(error),
    }
}

/// The state of the synchronizer.
#[verifier::ext_equal]
pub struct SyncView {
    /// The node itself.
    pub name: PublicKey,
    /// How long it waits before it repeats its requests, in milliseconds.
    pub retry_delay: u64,
    /// The blocks that wait for their parent.
    pub pending: Set<Digest>,
    /// The parents that the other nodes are asked for.
    pub requests: Set<Digest>,
}

impl SyncView {
    /// The state of a new synchronizer.
    pub open spec fn new(name: PublicKey, retry_delay: u64) -> SyncView {
        SyncView { name, retry_delay, pending: Set::empty(), requests: Set::empty() }
    }

    /// The request for a block: all others are asked for it, in the name of the node.
    pub open spec fn transmit(self, digest: Digest) -> SyncEffectView {
        SyncEffectView::Broadcast {
            name: self.name,
            message: CoreMessageView::SyncRequest(digest, self.name),
        }
    }

    /// The requests for some blocks.
    pub open spec fn transmit_all(self, digests: Seq<Digest>) -> Seq<SyncEffectView> {
        digests.map_values(|digest: Digest| self.transmit(digest))
    }

    /// The timer for the next round of requests.
    pub open spec fn timer(self) -> SyncEffectView {
        SyncEffectView::ScheduleTimer { delay: self.retry_delay }
    }

    /// The state after a block without its parent came in.
    pub open spec fn suspended(self, block: BlockView) -> SyncView {
        if self.pending.contains(block.digest) {
            self
        } else {
            SyncView {
                pending: self.pending.insert(block.digest),
                requests: self.requests.insert(block.previous()),
                ..self
            }
        }
    }

    /// A block that does not wait yet waits for its parent from now on. The parent is asked
    /// for unless it has been already.
    pub open spec fn suspend_effects(self, block: BlockView) -> Seq<SyncEffectView> {
        if self.pending.contains(block.digest) {
            Seq::empty()
        } else if self.requests.contains(block.previous()) {
            seq![SyncEffectView::Wait { key: block.previous().0@, block }]
        } else {
            seq![
                SyncEffectView::Wait { key: block.previous().0@, block },
                self.transmit(block.previous()),
            ]
        }
    }

    /// The state after a wait has ended.
    pub open spec fn resolved(self, result: ConsensusResult<BlockView>) -> SyncView {
        match result {
            Ok(block) => SyncView {
                pending: self.pending.remove(block.digest),
                requests: self.requests.remove(block.previous()),
                ..self
            },
            Err(_) => self,
        }
    }

    /// A block whose parent has come in goes back to the node.
    pub open spec fn resolve_effects(
        self,
        result: ConsensusResult<BlockView>,
    ) -> Seq<SyncEffectView> {
        match result {
            Ok(block) => seq![
                SyncEffectView::Deliver { message: CoreMessageView::LoopBack(block) },
            ],
            Err(error) => seq![SyncEffectView::Report { error }],
        }
    }

    /// Every parent that is asked for is asked for once more, in some order, and the timer is
    /// started again.
    pub open spec fn retries(self, effects: Seq<SyncEffectView>) -> bool {
        exists|order: Seq<Digest>| #[trigger] self.retries_in(order, effects)
    }

    /// Every parent that is asked for is asked for once more, in the order `order`, and the
    /// timer is started again.
    pub open spec fn retries_in(self, order: Seq<Digest>, effects: Seq<SyncEffectView>) -> bool {
        &&& order.no_duplicates()
        &&& order.to_set() == self.requests
        &&& effects == self.transmit_all(order).push(self.timer())
    }
}

/// The blocks that wait for a missing parent.
#[derive(Debug)]
pub struct Synchronizer {
    name: PublicKey,
    retry_delay: u64,
    pending: DigestSet,
    requests: DigestSet,
}

impl View for Synchronizer {
    type V = SyncView;

    closed spec fn view(&self) -> SyncView {
        SyncView {
            name: self.name,
            retry_delay: self.retry_delay,
            pending: self.pending@,
            requests: self.requests@,
        }
    }
}

impl Synchronizer {
    /// Neither of the two sets lists a digest twice.
    pub closed spec fn wf(&self) -> bool {
        self.pending.wf() && self.requests.wf()
    }

    /// A synchronizer that waits for nothing, and the effect that starts its timer.
    pub fn new(name: PublicKey, retry_delay: u64) -> (created: (Synchronizer, SyncEffect))
        ensures
            created.0.wf(),
            created.0@ == SyncView::new(name, retry_delay),
            created.1@ == created.0@.timer(),
    {
        let synchronizer = Synchronizer {
            name,
            retry_delay,
            pending: DigestSet::new(),
            requests: DigestSet::new(),
        };
        (synchronizer, SyncEffect::ScheduleTimer { delay: retry_delay })
    }

    /// Where the parent of `block` is to be found: the parent of a block that extends the
    /// genesis certificate is the genesis block, that of any other block is stored under its
    /// digest.
    pub fn get_ancestor(block: &Block) -> (ancestor: Ancestor)
        ensures
            match ancestor {
                Ancestor::Known(parent) => block@.qc == QCView::genesis() && parent@
                    == BlockView::genesis(),
                Ancestor::Stored(key) => block@.qc != QCView::genesis() && key@
                    == block@.previous().0@,
            },
    {
        if block.qc.is_genesis() {
            Ancestor::Known(Block::genesis())
        } else {
            Ancestor::Stored(block.previous().to_vec())
        }
    }

    /// The request for a block: all others are asked for it, in the name of the node.
    pub fn transmit(&self, digest: Digest) -> (effect: SyncEffect)
        ensures
            effect@ == self@.transmit(digest),
    {
        SyncEffect::Broadcast {
            name: self.name,
            message: CoreMessage::SyncRequest(digest, self.name),
        }
    }

    /// A block came in without its parent.
    pub fn suspend(&mut self, block: Block) -> (effects: Vec<SyncEffect>)
        requires
            old(self).wf(),
        ensures
            final(self).wf(),
            final(self)@ == old(self)@.suspended(block@),
            sync_effects_view(effects@) == old(self)@.suspend_effects(block@),
    {
        let mut effects: Vec<SyncEffect> = Vec::new();
        if self.pending.insert(block.digest) {
            let previous = *block.previous();
            effects.push(SyncEffect::Wait { key: previous.to_vec(), block });
            if self.requests.insert(previous) {
                effects.push(self.transmit(previous));
            } else {
                assert(old(self)@.requests.insert(previous) =~= old(self)@.requests);
            }
        } else {
            assert(old(self)@.pending.insert(block.digest) =~= old(self)@.pending);
        }
        assert(sync_effects_view(effects@) =~= old(self)@.suspend_effects(block@));
        effects
    }

    /// A wait has ended: the parent of the block has come in, or the wait failed.
    pub fn resolve(&mut self, result: ConsensusResult<Block>) -> (effects: Vec<SyncEffect>)
        requires
            old(self).wf(),
        ensures
            final(self).wf(),
            final(self)@ == old(self)@.resolved(waited_view(result)),
            sync_effects_view(effects@) == old(self)@.resolve_effects(waited_view(result)),
    {
        let mut effects: Vec<SyncEffect> = Vec::new();
        match result {
            Ok(block) => {
                let _ = self.pending.remove(&block.digest);
                let _ = self.requests.remove(block.previous());
                effects.push(SyncEffect::Deliver { message: CoreMessage::LoopBack(block) });
            },
            Err(error) => {
                effects.push(SyncEffect::Report { error });
            },
        }
        assert(sync_effects_view(effects@) =~= old(self)@.resolve_effects(waited_view(result)));
        effects
    }

    /// The timer has fired: what was asked for and has not come in is asked for again.
    pub fn retry(&self) -> (effects: Vec<SyncEffect>)
        requires
            self.wf(),
        ensures
            self@.retries(sync_effects_view(effects@)),
    {
        let mut effects: Vec<SyncEffect> = Vec::new();
        let ghost order = self.requests.order();
        let ghost wanted = self@.transmit_all(order);
        let mut i: usize = 0;
        assert(sync_effects_view(effects@) =~= wanted.take(0));
        while i < self.requests.len()
            invariant
                i <= order.len(),
                order == self.requests.order(),
                wanted == self@.transmit_all(order),
                sync_effects_view(effects@) == wanted.take(i as int),
            decreases order.len() - i,
        {
            let ghost before = effects@;
            effects.push(self.transmit(self.requests.get(i)));
            proof {
                assert(sync_effects_view(effects@) =~= sync_effects_view(before).push(wanted[i as int]));
                assert(wanted.take(i as int).push(wanted[i as int]) =~= wanted.take(i + 1));
            }
            i = i + 1;
        }
        let ghost before = effects@;
        effects.push(SyncEffect::ScheduleTimer { delay: self.retry_delay });
        proof {
            self.requests.lemma_order();
            assert(wanted.take(i as int) =~= wanted);
            assert(sync_effects_view(effects@) =~= sync_effects_view(before).push(self@.timer()));
            assert(self@.retries_in(order, sync_effects_view(effects@)));
        }
        effects
    }
}

} // verus!
