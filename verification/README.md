# liquidproof

The decision logic of a contract that places bids in a liquidation queue on
behalf of its users, verified with Verus.

- `src/` — the verified library. Each handler takes what the chain gave it
  (the loaded state and admin, the outcome of an address check, a query's
  answer) and returns what to save and what to answer; its contract says
  which, for every input.
  - `contract.rs`: instantiation, admin changes, bid submission, activation,
    retraction, claims, withdrawal, and the `execute` dispatcher.
  - `query.rs`: the read-only requests, the `query` dispatcher, and the
    selection of a user's bids from the queue's answer.
  - `laws.rs`: properties that relate several operations.
  - `msg.rs`, `msg_ancliqque.rs`, `state.rs`, `response.rs`, `error.rs`: the
    data the handlers exchange; `chain_types.rs` declares the chain types
    that are carried through unopened.
- `app/` — the entry points: storage, address validation, queries and
  message encoding around the library.
- `tests/` — tests of the library on concrete values.
