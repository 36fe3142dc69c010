//! Core of a self-authenticating client for a content-addressed storage
//! network.
//!
//! The crate models the client's state and decisions: deriving credentials
//! from two user secrets, building and encrypting the session packet,
//! correlating dispatched requests with the responses that later arrive,
//! caching immutable data in a bounded least-recently-used cache, and the
//! recovery disciplines that reconcile optimistic mutations with network
//! state.  Network transport and thread plumbing live outside the library;
//! the library hands its caller explicit send intents and consumes the
//! responses as plain values.

pub mod account;
pub mod cache;
pub mod client;
pub mod crypto;
pub mod data;
pub mod directory_listing;
pub mod errors;
pub mod events;
pub mod recovery;
pub mod text;
pub mod types;
pub mod wire;
