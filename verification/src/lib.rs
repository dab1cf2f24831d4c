//! Model policy resolution for a chat-completion gateway.
//!
//! An inbound model identifier is resolved against an administrator-editable
//! policy document into the decision the gateway dispatches with. The document
//! lives in a backing store, is cached per resource name, and the cache is
//! dropped whenever an administrative write succeeds.
//!
//! Everything here is a pure decision on plain values: the surrounding program
//! reads and writes the backing resource and reports what happened.

pub mod admin;
pub mod cache;
pub mod coherence;
pub mod model;
pub mod policy;
pub mod resolver;
pub mod store;
pub mod text;
pub mod text_map;
pub mod types;
