# onchain

Storage and address management for a family of Soroban contracts (a username
registry, a factory that deploys usernames, and an auction), verified with
Verus.

- `src/` is the verified library. Storage is described by two maps, from the
  parts of a key (a tag symbol and the key's fields) to plain stored values:
  one for the executing contract's persistent storage and one for its
  instance storage. Every read and write states what it does to them.
- `src/host.rs` and `src/ledger.rs` hold the trusted items: the `soroban_sdk`
  types, names for their contents, and one small wrapper per host operation.
- `src/laws.rs`, together with the `law_*` functions of the storage modules,
  states what holds across operations: refused requests change nothing, the
  primary Stellar address is always the last linked one, unlinking undoes
  linking, bidders are recorded once, keys of different kinds never collide.
- `app/` is the contract-facing edge: host authorization (`require_auth`),
  contract errors, and the records whose types belong to the contracts.
- `tests/` runs the library against a real Soroban test environment; the
  library itself uses only `soroban_sdk` items that exist on every target.
