//! The error type of the ledger.
use vstd::prelude::*;

verus! {

/// The ways a ledger transition can be rejected.
#[derive(Debug, Clone, Copy, PartialEq, Eq, Structural)]
pub enum ErrorCode {
    /// An unsigned addition would exceed the range of `u64`.
    Overflow,
    /// An unsigned subtraction would go below zero.
    Underflow,
    /// A borrow or withdrawal asks for more than the recorded deposit.
    InsufficientCollateral,
}

} // verus!
