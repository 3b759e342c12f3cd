//! A minimal event-broadcast adapter.
//!
//! The library stands up a write-only WebSocket notification channel for a
//! host system: a configuration record says where to listen, a sender handle
//! wraps an optional broadcaster, and domain events are rendered to JSON text
//! before being pushed to every connected client. A handle without a
//! broadcaster is a "dummy": all of its operations succeed without doing
//! anything.

pub mod config;
pub mod events;
pub mod sender;
pub mod text;
