# phoenix_blend_pool

Verified rebalance automation for a blended XLM-USDC pool. Half of the pool's
USDC, or whatever share is configured, stays liquid; the rest earns interest in
a Blend lending pool.

- `src/contract.rs`, `src/executor.rs`: the handler. An entrypoint decides what
  the ledger host has to do and answers with a `Step`; `resume` takes the host's
  reply and decides the next one.
- `src/execution.rs`: what each step is, as a mathematical function of the
  handler's storage, the stage and the reply. The contracts speak of it.
- `src/policy.rs`: when and how much USDC moves.
- `src/envelope.rs`, `src/xdr.rs`: the signed envelopes and the actions in them.
- `src/storage.rs`, `src/events.rs`, `src/error.rs`, `src/externals.rs`,
  `src/primitives.rs`: the handler's data.
- `src/circuit.rs`: the off-chain circuit that turns pool events and timer ticks
  into actions.
- `src/aggregator.rs`: the off-chain aggregator that submits them.
- `src/laws.rs` and `src/laws/`: what holds of whole transactions, whatever the
  host answers.
- `tests/`: scenarios against stand-ins for the two pools.
- `app/`: the Soroban contract and the host glue around the library.
