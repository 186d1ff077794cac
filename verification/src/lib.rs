//! Command dispatch and scene-state synchronisation for a multiplayer game
//! server session.
//!
//! A session receives numbered commands with undecoded bodies. The dispatcher
//! routes each one to a typed handler, the handlers move the session through
//! its scene states and queue the responses and notifications that keep the
//! client in step. Everything here is deterministic and free of I/O: the
//! transport hands in `(command id, bytes)` and drains the session's outbox.

pub mod cmd;
pub mod error;
pub mod message;
pub mod data;
pub mod registry;
pub mod session;
pub mod scene;
pub mod dispatch;
pub mod laws;
pub mod config;
pub mod wire;
