//! Token-escrow giveaways: a creator locks an amount, participants register
//! before a deadline, and the locked amount is paid out exactly once to the
//! winner that an outside authority designates.
//!
//! The crate holds the lifecycle rules and the registry they act on. Moving
//! tokens, proving control of an identity, reading the clock and publishing
//! notices are left to the host: the operations take the outcome of such a
//! step as a plain value and hand back what the host has to carry out.

pub mod types;
pub mod rules;
pub mod registry;
pub mod giveaway;
pub mod laws;
