//! What holds of the synchronizer, by itself and together with the nodes.
use crate::actions::{EffectView, LookupView, ReplyView, RequestView};
use crate::error::{ConsensusError, ConsensusResult};
use crate::keys::{Digest, PublicKey};
use crate::messages::{BlockView, CoreMessageView, QCView};
use crate::protocol::CoreView;
use crate::synchronizer::{SyncEffectView, SyncView};
use vstd::prelude::*;

verus! {

/// A block that waits already is not taken in a second time.
pub proof fn law_block_waits_once(sync: SyncView, block: BlockView, again: BlockView)
    requires
        again.digest == block.digest,
    ensures
        sync.suspended(block).suspended(again) == sync.suspended(block),
        sync.suspended(block).suspend_effects(again) == Seq::<SyncEffectView>::empty(),
{
}

/// A parent is asked for once, however many blocks wait for it: the second one only waits.
pub proof fn law_parent_is_requested_once(sync: SyncView, block: BlockView, sibling: BlockView)
    requires
        !sync.pending.contains(block.digest),
        !sync.suspended(block).pending.contains(sibling.digest),
        sibling.previous() == block.previous(),
    ensures
        sync.suspended(block).suspend_effects(sibling) == seq![
            SyncEffectView::Wait { key: sibling.previous().0@, block: sibling },
        ],
        sync.suspended(block).suspended(sibling).requests == sync.suspended(block).requests,
{
    assert(sync.suspended(block).requests.insert(sibling.previous())
        =~= sync.suspended(block).requests);
}

/// Once the parent of a block has come in, nothing is left of the block's wait: it is as if
/// the block had never come in without its parent.
pub proof fn law_wait_leaves_nothing(sync: SyncView, block: BlockView)
    requires
        !sync.pending.contains(block.digest),
        !sync.requests.contains(block.previous()),
    ensures
        sync.suspended(block).resolved(Ok(block)) == sync,
{
    assert(sync.pending.insert(block.digest).remove(block.digest) =~= sync.pending);
    assert(sync.requests.insert(block.previous()).remove(block.previous()) =~= sync.requests);
}

/// The blocks that wait after a block came in without its parent.
pub open spec fn waiting_after_suspend(
    sync: SyncView,
    waiting: Set<BlockView>,
    block: BlockView,
) -> Set<BlockView> {
    if sync.pending.contains(block.digest) {
        waiting
    } else {
        waiting.insert(block)
    }
}

/// The blocks that wait after a wait has ended.
pub open spec fn waiting_after_resolve(
    waiting: Set<BlockView>,
    result: ConsensusResult<BlockView>,
) -> Set<BlockView> {
    match result {
        Ok(block) => waiting.remove(block),
        Err(_) => waiting,
    }
}

/// What the synchronizer knows of the blocks that wait: it has the digests of exactly those
/// blocks, and asks for no block but one of their parents.
pub open spec fn tracks(sync: SyncView, waiting: Set<BlockView>) -> bool {
    &&& forall|block: BlockView| #[trigger]
        waiting.contains(block) ==> sync.pending.contains(block.digest)
    &&& forall|digest: Digest| #[trigger]
        sync.pending.contains(digest) ==> exists|block: BlockView| #[trigger]
            waiting.contains(block) && block.digest == digest
    &&& forall|a: BlockView, b: BlockView| #[trigger]
        waiting.contains(a) && #[trigger] waiting.contains(b) && a.digest == b.digest ==> a == b
    &&& forall|digest: Digest| #[trigger]
        sync.requests.contains(digest) ==> exists|block: BlockView| #[trigger]
            waiting.contains(block) && block.previous() == digest
}

/// A new synchronizer has no blocks waiting.
pub proof fn law_nothing_waits_at_first(name: PublicKey, retry_delay: u64)
    ensures
        tracks(SyncView::new(name, retry_delay), Set::empty()),
{
}

/// The synchronizer keeps track of a block that comes in without its parent.
pub proof fn law_suspended_blocks_are_tracked(
    sync: SyncView,
    waiting: Set<BlockView>,
    block: BlockView,
)
    requires
        tracks(sync, waiting),
    ensures
        tracks(sync.suspended(block), waiting_after_suspend(sync, waiting, block)),
{
    if !sync.pending.contains(block.digest) {
        let after = sync.suspended(block);
        let now = waiting.insert(block);
        assert(now.contains(block));
        assert forall|digest: Digest| #[trigger] after.pending.contains(digest) implies exists|
            b: BlockView,
        | #[trigger] now.contains(b) && b.digest == digest by {
            if digest != block.digest {
                let b = choose|b: BlockView| #[trigger]
                    waiting.contains(b) && b.digest == digest;
                assert(now.contains(b));
            }
        }
        assert forall|digest: Digest| #[trigger] after.requests.contains(digest) implies exists|
            b: BlockView,
        | #[trigger] now.contains(b) && b.previous() == digest by {
            if digest != block.previous() {
                let b = choose|b: BlockView| #[trigger]
                    waiting.contains(b) && b.previous() == digest;
                assert(now.contains(b));
            }
        }
        assert forall|a: BlockView, b: BlockView| #[trigger]
            now.contains(a) && #[trigger] now.contains(b) && a.digest == b.digest implies a == b by {
            if a != block {
                assert(waiting.contains(a));
            }
            if b != block {
                assert(waiting.contains(b));
            }
        }
    }
}

/// The synchronizer keeps track of the blocks when a wait ends, as long as waits end only for
/// blocks that wait.
pub proof fn law_resolved_blocks_are_released(
    sync: SyncView,
    waiting: Set<BlockView>,
    result: ConsensusResult<BlockView>,
)
    requires
        tracks(sync, waiting),
        result is Ok ==> waiting.contains(result->Ok_0),
    ensures
        tracks(sync.resolved(result), waiting_after_resolve(waiting, result)),
{
    if let Ok(block) = result {
        let after = sync.resolved(result);
        let now = waiting.remove(block);
        assert forall|b: BlockView| #[trigger] now.contains(b) implies after.pending.contains(
            b.digest,
        ) by {
            assert(waiting.contains(b));
            assert(waiting.contains(block));
        }
        assert forall|digest: Digest| #[trigger] after.pending.contains(digest) implies exists|
            b: BlockView,
        | #[trigger] now.contains(b) && b.digest == digest by {
            assert(sync.pending.contains(digest));
            let b = choose|b: BlockView| #[trigger] waiting.contains(b) && b.digest == digest;
            assert(now.contains(b));
        }
        assert forall|digest: Digest| #[trigger] after.requests.contains(digest) implies exists|
            b: BlockView,
        | #[trigger] now.contains(b) && b.previous() == digest by {
            assert(sync.requests.contains(digest));
            let b = choose|b: BlockView| #[trigger] waiting.contains(b) && b.previous() == digest;
            assert(now.contains(b));
        }
        assert forall|a: BlockView, b: BlockView| #[trigger]
            now.contains(a) && #[trigger] now.contains(b) && a.digest == b.digest implies a == b by {
            assert(waiting.contains(a) && waiting.contains(b));
        }
    }
}

/// A block whose parent is missing is suspended under the very key that was not found; once the
/// store holds that key the block goes back to the node, which processes it from the start.
pub proof fn law_suspended_block_resumes(
    core: CoreView,
    sync: SyncView,
    block: BlockView,
    later: CoreView,
)
    requires
        block.qc != QCView::genesis(),
        !sync.pending.contains(block.digest),
    ensures
        ({
            let asked = core.process_block(block);
            let missed = asked.core.resume(ReplyView::Read(Ok(None)));
            let effects = sync.suspend_effects(block);
            &&& asked.core.request matches Some(RequestView::ReadStore { key, .. })
            &&& missed.effects.len() > 0 && missed.effects[0] == (EffectView::Suspend { block })
            &&& effects.len() > 0 && effects[0] == (SyncEffectView::Wait { key, block })
            &&& sync.suspended(block).resolve_effects(Ok(block)) == seq![
                SyncEffectView::Deliver { message: CoreMessageView::LoopBack(block) },
            ]
            &&& later.dispatch(CoreMessageView::LoopBack(block)) == later.process_block(block)
        }),
{
}

/// A request for a missing parent, once it reaches another node, makes that node look up the
/// parent and answer the one who asked.
pub proof fn law_request_is_understood(sync: SyncView, digest: Digest, other: CoreView)
    ensures
        sync.transmit(digest) matches SyncEffectView::Broadcast { name, message } && {
            &&& name == sync.name
            &&& other.dispatch(message).core.request == Some(
                RequestView::ReadStore {
                    key: digest.0@,
                    lookup: LookupView::Requested { sender: sync.name },
                },
            )
        },
{
}

/// The timer makes the synchronizer repeat every open request once.
pub proof fn law_open_requests_are_repeated(
    sync: SyncView,
    effects: Seq<SyncEffectView>,
    digest: Digest,
)
    requires
        sync.retries(effects),
        sync.requests.contains(digest),
    ensures
        exists|i: int| 0 <= i < effects.len() && effects[i] == sync.transmit(digest),
        forall|i: int, j: int|
            #![trigger effects[i], effects[j]]
            0 <= i < effects.len() && 0 <= j < effects.len() && effects[i] == sync.transmit(digest)
                && effects[j] == sync.transmit(digest) ==> i == j,
        effects.last() == sync.timer(),
{
    let order = choose|order: Seq<Digest>| #[trigger] sync.retries_in(order, effects);
    assert(order.to_set().contains(digest));
    let i = choose|i: int| 0 <= i < order.len() && order[i] == digest;
    assert(effects[i] == sync.transmit(digest));
}

/// What can happen to a synchronizer.
pub enum SyncEvent {
    /// A block came in without its parent.
    Suspend(BlockView),
    /// A wait has ended.
    Resolve(ConsensusResult<BlockView>),
    /// The timer has fired.
    Tick,
}

impl SyncEvent {
    /// A block with the digest `digest` goes back to the node.
    pub open spec fn loops_back(self, digest: Digest) -> bool {
        self matches SyncEvent::Resolve(Ok(block)) && block.digest == digest
    }

    /// A block whose parent has the digest `parent` goes back to the node.
    pub open spec fn loops_back_child_of(self, parent: Digest) -> bool {
        self matches SyncEvent::Resolve(Ok(block)) && block.previous() == parent
    }
}

impl SyncView {
    /// The state after an event. The timer changes nothing.
    pub open spec fn react(self, event: SyncEvent) -> SyncView {
        match event {
            SyncEvent::Suspend(block) => self.suspended(block),
            SyncEvent::Resolve(result) => self.resolved(result),
            SyncEvent::Tick => self,
        }
    }

    /// These are effects of an event. On a tick, the order of the requests is open.
    pub open spec fn may_have(self, event: SyncEvent, effects: Seq<SyncEffectView>) -> bool {
        match event {
            SyncEvent::Suspend(block) => effects == self.suspend_effects(block),
            SyncEvent::Resolve(result) => effects == self.resolve_effects(result),
            SyncEvent::Tick => self.retries(effects),
        }
    }

    /// A block comes in and makes the synchronizer ask for its parent `parent`.
    pub open spec fn asks_for(self, event: SyncEvent, parent: Digest) -> bool {
        event matches SyncEvent::Suspend(block) && self.suspend_effects(block).contains(
            self.transmit(parent),
        )
    }

    /// A wait begins for `block`.
    pub open spec fn waits_for(self, event: SyncEvent, block: BlockView) -> bool {
        event == SyncEvent::Suspend(block) && self.suspend_effects(block).contains(
            SyncEffectView::Wait { key: block.previous().0@, block },
        )
    }
}

/// The state of a synchronizer that starts in the state `sync`, after the first `n` events of
/// `history`.
pub open spec fn sync_after(sync: SyncView, history: spec_fn(nat) -> SyncEvent, n: nat) -> SyncView
    decreases n,
{
    if n == 0 {
        sync
    } else {
        sync_after(sync, history, (n - 1) as nat).react(history((n - 1) as nat))
    }
}

/// The `i`th event makes the synchronizer ask for `parent`, and no child of `parent` has gone
/// back to the node between that event and the `n`th.
pub open spec fn asked_and_open(
    sync: SyncView,
    history: spec_fn(nat) -> SyncEvent,
    parent: Digest,
    i: nat,
    n: nat,
) -> bool {
    &&& i < n
    &&& sync_after(sync, history, i).asks_for(history(i), parent)
    &&& forall|j: nat| i < j < n ==> !(#[trigger] history(j)).loops_back_child_of(parent)
}

/// The `i`th event begins a wait for `block`, and no block with its digest has gone back to the
/// node between that event and the `n`th.
pub open spec fn waited_and_open(
    sync: SyncView,
    history: spec_fn(nat) -> SyncEvent,
    block: BlockView,
    i: nat,
    n: nat,
) -> bool {
    &&& i < n
    &&& sync_after(sync, history, i).waits_for(history(i), block)
    &&& forall|j: nat| i < j < n ==> !(#[trigger] history(j)).loops_back(block.digest)
}

/// The name and the delay of a synchronizer never change.
pub proof fn law_sync_identity_is_fixed(
    sync: SyncView,
    history: spec_fn(nat) -> SyncEvent,
    n: nat,
)
    ensures
        sync_after(sync, history, n).name == sync.name,
        sync_after(sync, history, n).retry_delay == sync.retry_delay,
    decreases n,
{
    if n > 0 {
        law_sync_identity_is_fixed(sync, history, (n - 1) as nat);
    }
}

/// When a parent is asked for, and when a wait begins.
proof fn lemma_suspend_effects(sync: SyncView, block: BlockView, parent: Digest)
    ensures
        sync.asks_for(SyncEvent::Suspend(block), parent) <==> {
            &&& !sync.pending.contains(block.digest)
            &&& !sync.requests.contains(parent)
            &&& block.previous() == parent
        },
        sync.waits_for(SyncEvent::Suspend(block), block) <==> !sync.pending.contains(block.digest),
{
    let effects = sync.suspend_effects(block);
    if !sync.pending.contains(block.digest) {
        assert(effects[0] == (SyncEffectView::Wait { key: block.previous().0@, block }));
        if !sync.requests.contains(block.previous()) {
            assert(effects[1] == sync.transmit(block.previous()));
        }
    }
}

/// In any history of a new synchronizer, the open requests are exactly those for the parents
/// that were asked for and of which no child has gone back to the node since.
pub proof fn law_open_requests(
    name: PublicKey,
    retry_delay: u64,
    history: spec_fn(nat) -> SyncEvent,
    n: nat,
    parent: Digest,
)
    ensures
        sync_after(SyncView::new(name, retry_delay), history, n).requests.contains(parent) <==> (
        exists|i: nat| #[trigger]
            asked_and_open(SyncView::new(name, retry_delay), history, parent, i, n)),
    decreases n,
{
    let sync = SyncView::new(name, retry_delay);
    if n > 0 {
        let last = (n - 1) as nat;
        let before = sync_after(sync, history, last);
        let after = sync_after(sync, history, n);
        law_open_requests(name, retry_delay, history, last, parent);
        if let SyncEvent::Suspend(block) = history(last) {
            lemma_suspend_effects(before, block, parent);
        }
        if after.requests.contains(parent) {
            if before.requests.contains(parent) {
                let i = choose|i: nat| #[trigger] asked_and_open(sync, history, parent, i, last);
                assert(!history(last).loops_back_child_of(parent));
                assert(asked_and_open(sync, history, parent, i, n));
            } else {
                assert(asked_and_open(sync, history, parent, last, n));
            }
        }
        assert forall|i: nat| #[trigger] asked_and_open(sync, history, parent, i, n) implies
            after.requests.contains(parent) by {
            if i < last {
                assert(!history(last).loops_back_child_of(parent));
                assert(asked_and_open(sync, history, parent, i, last));
            }
        }
    }
}

/// In any history of a new synchronizer, the digests of the blocks that wait are exactly those
/// of the blocks for which a wait has begun and which have not gone back to the node since.
pub proof fn law_open_waits(
    name: PublicKey,
    retry_delay: u64,
    history: spec_fn(nat) -> SyncEvent,
    n: nat,
    digest: Digest,
)
    ensures
        sync_after(SyncView::new(name, retry_delay), history, n).pending.contains(digest) <==> (
        exists|i: nat, block: BlockView| #[trigger]
            waited_and_open(SyncView::new(name, retry_delay), history, block, i, n) && block.digest
                == digest),
    decreases n,
{
    let sync = SyncView::new(name, retry_delay);
    if n > 0 {
        let last = (n - 1) as nat;
        let before = sync_after(sync, history, last);
        let after = sync_after(sync, history, n);
        law_open_waits(name, retry_delay, history, last, digest);
        if let SyncEvent::Suspend(block) = history(last) {
            lemma_suspend_effects(before, block, digest);
        }
        if after.pending.contains(digest) {
            if before.pending.contains(digest) {
                let (i, block) = choose|i: nat, block: BlockView| #[trigger]
                    waited_and_open(sync, history, block, i, last) && block.digest == digest;
                assert(!history(last).loops_back(digest));
                assert(waited_and_open(sync, history, block, i, n));
            } else if let SyncEvent::Suspend(block) = history(last) {
                assert(waited_and_open(sync, history, block, last, n));
            }
        }
        assert forall|i: nat, block: BlockView| #[trigger]
            waited_and_open(sync, history, block, i, n) && block.digest
                == digest implies after.pending.contains(digest) by {
            if i < last {
                assert(!history(last).loops_back(digest));
                assert(waited_and_open(sync, history, block, i, last));
            }
        }
    }
}

/// A block that came in without its parent is waited for until it goes back to the node.
pub proof fn law_block_is_waited_for(
    sync: SyncView,
    history: spec_fn(nat) -> SyncEvent,
    i: nat,
    n: nat,
    block: BlockView,
)
    requires
        i < n,
        history(i) == SyncEvent::Suspend(block),
        forall|j: nat| i < j < n ==> !(#[trigger] history(j)).loops_back(block.digest),
    ensures
        sync_after(sync, history, n).pending.contains(block.digest),
    decreases n,
{
    let last = (n - 1) as nat;
    if i < last {
        law_block_is_waited_for(sync, history, i, last, block);
        assert(!history(last).loops_back(block.digest));
    }
}

/// Once a block has gone back to the node, its parent is not asked for again, by a tick or
/// otherwise, until another block that comes in makes the synchronizer ask for it anew.
pub proof fn law_no_request_after_loop_back(
    name: PublicKey,
    retry_delay: u64,
    history: spec_fn(nat) -> SyncEvent,
    i: nat,
    n: nat,
    block: BlockView,
    effects: Seq<SyncEffectView>,
)
    requires
        i < n,
        history(i) == SyncEvent::Resolve(Ok(block)),
        forall|j: nat|
            #![trigger history(j)]
            i < j <= n ==> !sync_after(SyncView::new(name, retry_delay), history, j).asks_for(
                history(j),
                block.previous(),
            ),
        sync_after(SyncView::new(name, retry_delay), history, n).may_have(history(n), effects),
    ensures
        !sync_after(SyncView::new(name, retry_delay), history, n).requests.contains(
            block.previous(),
        ),
        !effects.contains(SyncView::new(name, retry_delay).transmit(block.previous())),
{
    let sync = SyncView::new(name, retry_delay);
    let now = sync_after(sync, history, n);
    let parent = block.previous();
    law_sync_identity_is_fixed(sync, history, n);
    law_open_requests(name, retry_delay, history, n, parent);
    if now.requests.contains(parent) {
        let k = choose|k: nat| #[trigger] asked_and_open(sync, history, parent, k, n);
        assert(history(i).loops_back_child_of(parent));
        assert(false);
    }
    if effects.contains(now.transmit(parent)) {
        match history(n) {
            SyncEvent::Suspend(_) => {
                assert(now.asks_for(history(n), parent));
            },
            SyncEvent::Resolve(_) => {},
            SyncEvent::Tick => {
                let order = choose|order: Seq<Digest>| #[trigger] now.retries_in(order, effects);
                let k = choose|k: int| 0 <= k < effects.len() && effects[k] == now.transmit(parent);
                assert(k < order.len());
                assert(effects[k] == now.transmit(order[k]));
                assert(order.to_set().contains(parent));
            },
        }
    }
}

/// What the host owes the synchronizer: a wait for a key that the store comes to hold ends, and
/// it ends well.
pub open spec fn waits_end(
    sync: SyncView,
    history: spec_fn(nat) -> SyncEvent,
    stored: Set<Seq<u8>>,
) -> bool {
    forall|i: nat, block: BlockView|
        #![trigger sync_after(sync, history, i).waits_for(history(i), block)]
        sync_after(sync, history, i).waits_for(history(i), block) && stored.contains(
            block.previous().0@,
        ) ==> exists|j: nat| i < j && #[trigger] history(j) == SyncEvent::Resolve(Ok(block))
}

/// Every block that comes in without its parent goes back to the node in the end, if the store
/// comes to hold the parent: some later event delivers it, and the node then processes it from
/// the start. This takes a host that reports the end of every such wait, and that no other block
/// with the same digest is being waited for when this one comes in.
pub proof fn law_suspended_block_goes_back(
    name: PublicKey,
    retry_delay: u64,
    history: spec_fn(nat) -> SyncEvent,
    stored: Set<Seq<u8>>,
    i: nat,
    block: BlockView,
    node: CoreView,
)
    requires
        waits_end(SyncView::new(name, retry_delay), history, stored),
        forall|k: nat, other: BlockView| #[trigger]
            waited_and_open(SyncView::new(name, retry_delay), history, other, k, i) && other.digest
                == block.digest ==> other == block,
        history(i) == SyncEvent::Suspend(block),
        stored.contains(block.previous().0@),
    ensures
        exists|j: nat|
            i < j && #[trigger] history(j) == SyncEvent::Resolve(Ok(block)) && sync_after(
                SyncView::new(name, retry_delay),
                history,
                j,
            ).resolve_effects(Ok(block)) == seq![
                SyncEffectView::Deliver { message: CoreMessageView::LoopBack(block) },
            ],
        node.dispatch(CoreMessageView::LoopBack(block)) == node.process_block(block),
{
    let sync = SyncView::new(name, retry_delay);
    let now = sync_after(sync, history, i);
    lemma_suspend_effects(now, block, block.previous());
    let start = if now.pending.contains(block.digest) {
        law_open_waits(name, retry_delay, history, i, block.digest);
        let (k, other) = choose|k: nat, other: BlockView| #[trigger]
            waited_and_open(sync, history, other, k, i) && other.digest == block.digest;
        k
    } else {
        i
    };
    assert(sync_after(sync, history, start).waits_for(history(start), block));
    let j = choose|j: nat| start < j && #[trigger] history(j) == SyncEvent::Resolve(Ok(block));
    assert(history(j).loops_back(block.digest));
    assert(i < j);
}

/// What else the host owes the synchronizer: only waits that it was asked for end well, and only
/// once the store holds the key that was waited for. `stored(m)` are the keys that the store
/// holds at the `m`th event.
pub open spec fn ends_are_due(
    sync: SyncView,
    history: spec_fn(nat) -> SyncEvent,
    stored: spec_fn(nat) -> Set<Seq<u8>>,
) -> bool {
    forall|m: nat, block: BlockView|
        #![trigger stored(m).contains(block.previous().0@)]
        #![trigger history(m), block.previous()]
        history(m) == SyncEvent::Resolve(Ok(block)) ==> {
            &&& stored(m).contains(block.previous().0@)
            &&& exists|i: nat|
                i < m && #[trigger] sync_after(sync, history, i).waits_for(history(i), block)
        }
}

/// A block goes back to the node only if that very block came in without its parent before, and
/// only once the store holds its parent's key.
pub proof fn law_only_suspended_blocks_go_back(
    sync: SyncView,
    history: spec_fn(nat) -> SyncEvent,
    stored: spec_fn(nat) -> Set<Seq<u8>>,
    j: nat,
    effects: Seq<SyncEffectView>,
    block: BlockView,
)
    requires
        ends_are_due(sync, history, stored),
        sync_after(sync, history, j).may_have(history(j), effects),
        effects.contains(SyncEffectView::Deliver { message: CoreMessageView::LoopBack(block) }),
    ensures
        history(j) == SyncEvent::Resolve(Ok(block)),
        stored(j).contains(block.previous().0@),
        exists|i: nat|
            i < j && #[trigger] history(i) == SyncEvent::Suspend(block) && sync_after(
                sync,
                history,
                i,
            ).suspend_effects(block).contains(
                SyncEffectView::Wait { key: block.previous().0@, block },
            ),
{
    let now = sync_after(sync, history, j);
    let delivery = SyncEffectView::Deliver { message: CoreMessageView::LoopBack(block) };
    let k = choose|k: int| 0 <= k < effects.len() && effects[k] == delivery;
    if let SyncEvent::Tick = history(j) {
        let order = choose|order: Seq<Digest>| #[trigger] now.retries_in(order, effects);
        if k < order.len() {
            assert(effects[k] == now.transmit(order[k]));
        }
    }
    assert(history(j) == SyncEvent::Resolve(Ok(block)));
    assert(stored(j).contains(block.previous().0@));
    let i = choose|i: nat|
        i < j && #[trigger] sync_after(sync, history, i).waits_for(history(i), block);
    assert(history(i) == SyncEvent::Suspend(block));
}

/// A new synchronizer waits for nothing and asks for nothing; its timer runs for its delay.
pub proof fn law_new_synchronizer(name: PublicKey, retry_delay: u64)
    ensures
        ({
            let sync = SyncView::new(name, retry_delay);
            &&& sync.name == name
            &&& sync.retry_delay == retry_delay
            &&& forall|digest: Digest| !(#[trigger] sync.pending.contains(digest))
            &&& forall|digest: Digest| !(#[trigger] sync.requests.contains(digest))
            &&& sync.timer() == (SyncEffectView::ScheduleTimer { delay: retry_delay })
        }),
{
}

/// A request for a block goes to all nodes but the one that asks, and names that one as the one
/// to answer.
pub proof fn law_request_names_who_asks(sync: SyncView, digest: Digest)
    ensures
        sync.transmit(digest) == (SyncEffectView::Broadcast {
            name: sync.name,
            message: CoreMessageView::SyncRequest(digest, sync.name),
        }),
{
}

/// A block that comes in without its parent waits from then on, besides those that wait already,
/// and nothing stops waiting. Its parent is among those asked for from then on, if the block did
/// not wait already, and nothing stops being asked for. Exactly a block that did not wait already
/// begins to wait, for its parent's key; and exactly a parent that was not asked for is.
pub proof fn law_block_comes_in(sync: SyncView, block: BlockView)
    ensures
        ({
            let next = sync.suspended(block);
            let effects = sync.suspend_effects(block);
            let new = !sync.pending.contains(block.digest);
            let unasked = !sync.requests.contains(block.qc.hash);
            &&& next.name == sync.name
            &&& next.retry_delay == sync.retry_delay
            &&& forall|digest: Digest| #[trigger]
                next.pending.contains(digest) <==> (sync.pending.contains(digest) || digest
                    == block.digest)
            &&& forall|digest: Digest| #[trigger]
                next.requests.contains(digest) <==> (sync.requests.contains(digest) || (new
                    && digest == block.qc.hash))
            &&& effects.len() == if !new {
                0int
            } else if unasked {
                2
            } else {
                1
            }
            &&& new ==> effects[0] == (SyncEffectView::Wait { key: block.qc.hash.0@, block })
            &&& new && unasked ==> effects[1] == (SyncEffectView::Broadcast {
                name: sync.name,
                message: CoreMessageView::SyncRequest(block.qc.hash, sync.name),
            })
        }),
{
}

/// A wait that ends well hands the block back to the node; the block and its parent, and nothing
/// else, are done with. A wait that fails is reported and changes nothing.
pub proof fn law_wait_ends(sync: SyncView, block: BlockView, error: ConsensusError)
    ensures
        ({
            let next = sync.resolved(Ok(block));
            let effects = sync.resolve_effects(Ok(block));
            &&& next.name == sync.name
            &&& next.retry_delay == sync.retry_delay
            &&& forall|digest: Digest| #[trigger]
                next.pending.contains(digest) <==> (sync.pending.contains(digest) && digest
                    != block.digest)
            &&& forall|digest: Digest| #[trigger]
                next.requests.contains(digest) <==> (sync.requests.contains(digest) && digest
                    != block.qc.hash)
            &&& effects.len() == 1
            &&& effects[0] == (SyncEffectView::Deliver { message: CoreMessageView::LoopBack(block) })
        }),
        sync.resolved(Err(error)) == sync,
        sync.resolve_effects(Err(error)).len() == 1,
        sync.resolve_effects(Err(error))[0] == (SyncEffectView::Report { error }),
{
}

/// A tick asks for open parents only, each of them in the name of the node, and ends with the
/// timer being started again for the delay.
pub proof fn law_tick_asks_for_open_parents(
    sync: SyncView,
    effects: Seq<SyncEffectView>,
    digest: Digest,
)
    requires
        sync.retries(effects),
    ensures
        effects.len() > 0,
        effects.last() == (SyncEffectView::ScheduleTimer { delay: sync.retry_delay }),
        sync.requests.contains(digest) <==> (exists|i: int|
            0 <= i < effects.len() - 1 && #[trigger] effects[i] == (SyncEffectView::Broadcast {
                name: sync.name,
                message: CoreMessageView::SyncRequest(digest, sync.name),
            })),
        forall|i: int|
            0 <= i < effects.len() - 1 ==> ((#[trigger] effects[i]) matches
                SyncEffectView::Broadcast {
                name,
                message: CoreMessageView::SyncRequest(wanted, sender),
            } && name == sync.name && sender == sync.name && sync.requests.contains(wanted)),
        forall|i: int, j: int|
            0 <= i < j < effects.len() ==> #[trigger] effects[i] != #[trigger] effects[j],
{
    let order = choose|order: Seq<Digest>| #[trigger] sync.retries_in(order, effects);
    assert(effects.len() == order.len() + 1);
    assert forall|i: int| 0 <= i < order.len() implies #[trigger] effects[i] == (
    SyncEffectView::Broadcast {
        name: sync.name,
        message: CoreMessageView::SyncRequest(order[i], sync.name),
    }) && sync.requests.contains(order[i]) by {
        assert(effects[i] == sync.transmit(order[i]));
        assert(order.to_set().contains(order[i]));
    }
    if sync.requests.contains(digest) {
        assert(order.to_set().contains(digest));
        let i = choose|i: int| 0 <= i < order.len() && order[i] == digest;
        assert(effects[i] == (SyncEffectView::Broadcast {
            name: sync.name,
            message: CoreMessageView::SyncRequest(digest, sync.name),
        }));
    }
}

} // verus!
