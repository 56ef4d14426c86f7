//! A FIFO queue kept in a shared key-value store and used by many clients
//! at once, with a lock made of one key.
//!
//! The library decides; the caller talks to the store. Each lock attempt,
//! push and pop names the store command to run next (`store::Command`) and
//! takes the store's reply (`store::Reply`), so blocking and async callers
//! share one verified core. `laws` proves, against a model of the store,
//! that the queue stays a well-formed linked list and is first-in-first-out.
pub mod element;
pub mod keys;
pub mod laws;
pub mod lock;
pub mod queue;
pub mod store;
