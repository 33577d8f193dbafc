//! Client-side session layer for an XMPP-style presence and messaging
//! protocol: credential checks, the authentication state machine, per-session
//! presence, roster and rooms, an ordered event outbox, and a handle registry.
pub mod text;
pub mod error;
pub mod config;
pub mod clock;
pub mod auth;
pub mod communication;
pub mod registry;
