//! Accounting and authorization rules of an autonomous trading agent's
//! vault, verified with Verus.
//!
//! An agent has a ledger record and a vault that holds pooled funds. The
//! agent's wallet attests trades, a hundredth of every realized profit goes
//! to the platform, and the rest accrues to a revenue pool from which the
//! holders of the agent's token claim their share. Every operation takes the
//! accounts it works on as plain values, changes all of them or none, and
//! states in its contract exactly what it changes and when it is refused.
//!
//! - [`manager`] holds the agent's ledger, trades, deposits and claims;
//! - [`factory`] creates agents for a fee;
//! - [`registry`] records who owns an agent and what the owner has earned;
//! - [`derivation`] derives the address that authorizes spending from a vault;
//! - [`account`], [`address`] and [`text`] hold what all of them share.

pub mod account;
pub mod address;
pub mod derivation;
pub mod factory;
pub mod manager;
pub mod registry;
pub mod text;
