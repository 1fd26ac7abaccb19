//! A framework for agent services that speak the Agent-to-Agent (A2A) protocol: clients create
//! tasks, have them processed (at once or with a stream of events) and cancel them, over
//! JSON-RPC.
//!
//! - `types`: the protocol's data and the JSON-RPC envelope;
//! - `task`: what happens to one task;
//! - `task_manager`: the tasks of an agent, kept in memory;
//! - `server`: how requests are answered;
//! - `transport`: what is sent back for each request that arrives;
//! - `server_builder`: the agent settings of a server and the decisions of building it;
//! - `persistence`: the keys and cleanup cutoff of tasks kept in Redis;
//! - `ids`, `clock`, `json_text`: identifiers, time and JSON string literals, from outside crates;
//! - `laws`: properties of the library as a whole.
pub mod types;
pub mod ids;
pub mod clock;
pub mod json_text;
pub mod task;
pub mod task_manager;
pub mod server;
pub mod transport;
pub mod server_builder;
pub mod persistence;
pub mod laws;
