//! Core of a collaborative estimation service: typed identifiers, the session
//! data model, a string-keyed associative map, a per-session publish/subscribe
//! hub, an in-memory session store, and the per-connection protocol state
//! machine that ties them together.

pub mod id;
pub mod keymap;
pub mod data;
pub mod errors;
pub mod messaging;
pub mod sessions;
pub mod websocket;
pub mod health;
pub mod api;
