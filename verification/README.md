# a2a_framework

A framework for agent services that speak the Agent-to-Agent (A2A) protocol, with its logic
verified by Verus.

- `src/` is the verified library: the protocol's types, the life of a task, the in-memory task
  manager, how the server answers JSON-RPC requests, what the transport sends back, the
  decisions of building a server, and the keys and cleanup cutoff of Redis storage. Calls into
  `uuid`, `chrono` and `serde_json` stand behind a few trusted wrappers in `ids.rs`, `clock.rs`
  and `json_text.rs`. `laws.rs` proves properties that span several operations.
- `app/` is the program around it: the asynchronous task-manager interface, the Redis-backed
  task manager, the NATS transport, the server's run loop and builder, and the JSON forms of
  the types.
- `tests/` runs the library on concrete values.
