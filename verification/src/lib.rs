//! Judge for a two-player, hidden-information strategy game.
//!
//! The judge opens a session between two players, admits a contested move only
//! when a zero-knowledge proof bound to the session's current commitment holds,
//! and reports the start and the end of each session to an arbitration hub.
//!
//! The library decides; the embedding program performs the work that needs a
//! ledger host: it authenticates the caller, evaluates the pairing equation and
//! delivers each [`hub::HubRequest`], then hands the answer back.

pub mod bytes;
pub mod hub;
pub mod judge;
pub mod laws;
pub mod session;
pub mod store;
pub mod submission;

