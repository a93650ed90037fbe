# zenoh_raft

The decisions of a Raft node, and of the Zenoh transport that carries its messages, as a library
that Verus verifies.

- `src/` holds the logic: votes, log ids and membership, the core's handling of messages,
  notifications and commands, leadership and linearizable reads, the watch channel, waiting on
  metrics, the endpoints, keys and wire messages of the transport, and an in-memory store.  Each
  function states what it returns or changes.  Laws that span several functions are public proof
  functions beside the code they speak of; those of the core are in `raft_core/laws.rs`.
- `tests/` runs the library on concrete values.
- `app/` performs what the decisions ask for: the async runtime, the Zenoh session, the codec of
  the wire messages, and the loop that drives the core.

Calls into other crates go through small functions marked `#[verifier::external_body]`.  The doc
comment of each says what is taken for granted of the call.
