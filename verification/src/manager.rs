//! The ledger of one agent: its lifecycle, deposits into its vault, the
//! settlement of its trades and the payment of revenue to its token holders.

pub mod deposit;
pub mod events;
pub mod laws;
pub mod lifecycle;
pub mod revenue;
pub mod state;
pub mod trade;
pub mod vault;
