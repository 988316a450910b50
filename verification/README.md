# consensus

The decision core of a two-phase, leader-based BFT consensus node, verified with Verus.

- `src/replica.rs`: `Core`, the node. It is told what happens and answers with effects to
  perform and at most one request whose result it waits for.
- `src/synchronizer.rs`: `Synchronizer`, the blocks that wait for a missing parent.
- `src/protocol.rs`: what each step of the node does, as mathematics.
- `src/laws.rs`, `src/sync_laws.rs`: what holds over any number of steps: a node never votes
  twice in a round, never votes in a round it gave up on, votes only for blocks of its own
  round that extend the chain rightly, stores no block before its parent; a block that waits
  for its parent goes back to the node once the parent is there; and so on.
- `src/messages.rs`, `src/keys.rs`, `src/error.rs`, `src/actions.rs`, `src/network.rs`,
  `src/digest_set.rs`: the data.
- `app/`: runs a node on tokio, given a store, a signature service, a committee, an aggregator
  and a mempool.
