//! The concurrency framework: mailboxes, actors, rendezvous channels,
//! futures and stream processing.
//!
//! Every component here is the decision core of a concurrent worker:
//! explicit state, stepped by the events a host runtime observes. The
//! runtime does the waiting; these types decide.

pub mod actor_channel;
pub mod actors;
pub mod csp;
pub mod futures;
pub mod streams;
