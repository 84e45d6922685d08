//! Authoritative per-match game server core.
//!
//! A match admits connecting players until a configured target population is
//! seated, broadcasts each player a synchronized start message, and then runs
//! a fixed-cadence tick loop until every player has left.  This crate holds
//! the verified heart of that lifecycle: the admission decisions, the player
//! registry with its population invariant, the start broadcast construction,
//! and the tick scheduler arithmetic.  The async transport around it (socket
//! framing, clock-sync probes, the lobby handoff) lives outside and feeds the
//! library plain values.

pub mod msg;
pub mod queue;
pub mod game;
pub mod lifecycle;
