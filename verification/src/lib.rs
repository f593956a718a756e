//! Verified core of an authentication service and a realtime chat-room service.
//!
//! `auth` holds the user model, the user store, password hashing, token lifetimes,
//! claims and cookies, and the register / login / refresh decisions.
//! `chat` holds the status codes, the wire messages, the per-connection room state
//! machines, the reply builder and the in-memory room store.
//! `uuid` hands out fresh identifiers.
pub mod auth;
pub mod chat;
pub mod uuid;
