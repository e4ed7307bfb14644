# tint

The verified core of the Tint shielded-pool SDK, written in Verus.

- `src/kv.rs`, `src/kv/memory.rs`: the key-value store interface, whose
  contents are a map from byte strings to byte strings, and an in-memory
  backend proved against it; the storage of the indexer state.
- `src/indexer.rs`: the indexer's bookkeeping: staging of commitments,
  first-in first-out posting into subtree appends, application of contract
  events, and the block ranges of a sync.
- `src/commitment.rs`, `src/field.rs`: the note-commitment data model and
  BN254 scalar-field elements by their canonical encoding.
- `src/provider.rs`: choice of the spending account, padding of operation
  slots, and the hash that binds a proof to its context.
- `src/groth16.rs`, `src/matrices.rs`: the calldata layout of a proof and
  the constraint matrices of a circuit.
- `app/`: the asynchronous shell: shared stores, the sync driver, state
  persistence with `postcard`, the contract ABI, and circuit tooling.
