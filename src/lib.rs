//! Accounting core of a staking reward pool: participants deposit a staked
//! asset into a shared pool and accrue a reward asset in proportion to their
//! share, over a bounded distribution window.

pub mod state;
pub mod accounting;
pub mod ledger;
pub mod laws;
