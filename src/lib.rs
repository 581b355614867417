//! Bookkeeping for a collateralized lending pool.
//!
//! The library keeps two records, a shared [`LendingPool`] and a per-participant
//! [`UserDeposit`], and offers the transitions that change them: pool
//! initialization, supply, borrow, repay and withdraw. Every transition is
//! all-or-nothing: it either applies its whole update or returns an
//! [`ErrorCode`] and leaves every record it was handed unchanged.
pub mod error;
pub mod ledger;
pub mod state;

pub use error::ErrorCode;
pub use ledger::{borrow, initialize_pool, repay, supply, withdraw};
pub use state::{Borrow, InitializePool, LendingPool, Repay, Supply, UserDeposit, Withdraw};
