//! The records that the ledger keeps, and the groups of them that each
//! transition is handed.
use vstd::prelude::*;

verus! {

/// The label that every supply writes into a participant's record.
pub open spec fn supplied_label() -> Seq<char> {
    "SOL"@
}

/// The interest model label that a new pool starts with.
pub open spec fn initial_rate_model() -> Seq<char> {
    "simple"@
}

/// A participant's deposit is part of the pool's total supply, so it can never
/// be larger than that total.
pub open spec fn deposit_within_pool(pool: &LendingPool, user: &UserDeposit) -> bool {
    user.amount <= pool.total_supplied
}

/// The shared aggregate of one deployment: what has been deposited into it and
/// what has been lent out of it, across all participants.
///
/// Nothing keeps `total_borrowed` at or below `total_supplied`: a borrow is
/// checked against the borrower's deposit alone, and a withdrawal does not
/// lower `total_supplied`.
pub struct LendingPool {
    pub total_supplied: u64,
    pub total_borrowed: u64,
    /// A descriptive label; nothing is computed from it.
    pub interest_rate_model: String,
}

/// One participant's record: the deposited amount that serves as collateral,
/// and a label for the deposited asset.
///
/// A record that has just been created holds a zero amount and an empty label.
pub struct UserDeposit {
    pub amount: u64,
    pub token_type: String,
}

/// The records that pool initialization writes.
pub struct InitializePool {
    pub lending_pool: LendingPool,
}

/// The records that a supply reads and writes.
pub struct Supply {
    pub lending_pool: LendingPool,
    pub user_deposit: UserDeposit,
}

/// The records that a borrow reads and writes.
pub struct Borrow {
    pub lending_pool: LendingPool,
    pub user_deposit: UserDeposit,
}

/// The record that a repayment writes.
pub struct Repay {
    pub lending_pool: LendingPool,
}

/// The records that a withdrawal reads and writes.
pub struct Withdraw {
    pub lending_pool: LendingPool,
    pub user_deposit: UserDeposit,
}

} // verus!
