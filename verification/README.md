# liquifact_escrow

A verified model of the LiquiFact invoice escrow contract, written in Verus.

- `src/` — the library. `storage.rs` holds the contract storage as plain
  values (`EscrowStorage`, one field per storage key), its accessors, and
  the per-investor contribution entries (`InvestorContributions`);
  `contract.rs` the escrow entrypoints (`init`, `settle`, `partial_settle`,
  `withdraw`, fee configuration, beneficiary and collateral views);
  `attestation.rs` the attestation anchors (write-once primary digest,
  bounded append log with revocation); `laws.rs` properties that span calls;
  `types.rs` and `errors.rs` the shared types and typed errors.
  Entrypoints that need a party's authorization return an `Invocation`
  naming the role whose authorization the host must obtain.
- `app/` — the Soroban contract shell: storage keys, storage-form copies of
  the types, loading and saving the storage, authorization and events.
- `tests/` — tests of the library.
