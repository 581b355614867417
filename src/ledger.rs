//! The transitions of the ledger. Each takes its records by exclusive
//! reference and either applies its whole update or fails without touching them.
use vstd::prelude::*;

use crate::error::ErrorCode;
use crate::state::{
    deposit_within_pool, initial_rate_model, supplied_label, Borrow, InitializePool, Repay, Supply,
    Withdraw,
};

verus! {

/// Records a deposit of `amount`: the pool's total supply and the participant's
/// deposit both grow by `amount`, and the participant's label becomes `"SOL"`.
///
/// Fails with `Overflow`, changing nothing, when either sum leaves `u64`.
pub fn supply(ctx: &mut Supply, amount: u64) -> (r: Result<(), ErrorCode>)
    ensures
        r is Ok <==> (old(ctx).lending_pool.total_supplied + amount <= u64::MAX
            && old(ctx).user_deposit.amount + amount <= u64::MAX),
        r is Err ==> r == Err::<(), ErrorCode>(ErrorCode::Overflow) && *final(ctx) == *old(ctx),
        r is Ok ==> {
            &&& final(ctx).lending_pool.total_supplied == old(ctx).lending_pool.total_supplied
                + amount
            &&& final(ctx).lending_pool.total_borrowed == old(ctx).lending_pool.total_borrowed
            &&& final(ctx).lending_pool.interest_rate_model == old(
                ctx,
            ).lending_pool.interest_rate_model
            &&& final(ctx).user_deposit.amount == old(ctx).user_deposit.amount + amount
            &&& final(ctx).user_deposit.token_type@ == supplied_label()
        },
        deposit_within_pool(&old(ctx).lending_pool, &old(ctx).user_deposit) ==> {
            &&& r is Ok <==> old(ctx).lending_pool.total_supplied + amount <= u64::MAX
            &&& deposit_within_pool(&final(ctx).lending_pool, &final(ctx).user_deposit)
        },
{
    let total_supplied = match ctx.lending_pool.total_supplied.checked_add(amount) {
        Some(v) => v,
        None => return Err(ErrorCode::Overflow),
    };
    let deposited = match ctx.user_deposit.amount.checked_add(amount) {
        Some(v) => v,
        None => return Err(ErrorCode::Overflow),
    };
    ctx.lending_pool.total_supplied = total_supplied;
    ctx.user_deposit.amount = deposited;
    ctx.user_deposit.token_type = "SOL".to_string();
    Ok(())
}

/// Records a loan of `amount` against the participant's deposit: the pool's
/// total borrowed grows by `amount`. The participant's record is read, never
/// written: the deposit is not reduced and no per-participant debt is kept.
///
/// Fails with `InsufficientCollateral` when `amount` exceeds the deposit, and
/// otherwise with `Overflow` when the new total leaves `u64`; a failure changes
/// nothing.
pub fn borrow(ctx: &mut Borrow, amount: u64) -> (r: Result<(), ErrorCode>)
    ensures
        r is Ok <==> (amount <= old(ctx).user_deposit.amount && old(ctx).lending_pool.total_borrowed
            + amount <= u64::MAX),
        amount > old(ctx).user_deposit.amount ==> r == Err::<(), ErrorCode>(
            ErrorCode::InsufficientCollateral,
        ),
        amount <= old(ctx).user_deposit.amount && r is Err ==> r == Err::<(), ErrorCode>(
            ErrorCode::Overflow,
        ),
        r is Err ==> *final(ctx) == *old(ctx),
        r is Ok ==> {
            &&& final(ctx).lending_pool.total_borrowed == old(ctx).lending_pool.total_borrowed
                + amount
            &&& final(ctx).lending_pool.total_supplied == old(ctx).lending_pool.total_supplied
            &&& final(ctx).lending_pool.interest_rate_model == old(
                ctx,
            ).lending_pool.interest_rate_model
            &&& final(ctx).user_deposit == old(ctx).user_deposit
        },
{
    if ctx.user_deposit.amount < amount {
        return Err(ErrorCode::InsufficientCollateral);
    }
    let total_borrowed = match ctx.lending_pool.total_borrowed.checked_add(amount) {
        Some(v) => v,
        None => return Err(ErrorCode::Overflow),
    };
    ctx.lending_pool.total_borrowed = total_borrowed;
    Ok(())
}

/// Takes `amount` out of the participant's deposit. The pool's totals are left
/// as they are.
///
/// Fails with `InsufficientCollateral`, changing nothing, when `amount` exceeds
/// the deposit. The subtraction is still checked and would report `Underflow`,
/// but after that test it never does.
pub fn withdraw(ctx: &mut Withdraw, amount: u64) -> (r: Result<(), ErrorCode>)
    ensures
        r is Err <==> amount > old(ctx).user_deposit.amount,
        r is Err ==> r == Err::<(), ErrorCode>(ErrorCode::InsufficientCollateral) && *final(ctx)
            == *old(ctx),
        r is Ok ==> {
            &&& final(ctx).user_deposit.amount == old(ctx).user_deposit.amount - amount
            &&& final(ctx).user_deposit.token_type == old(ctx).user_deposit.token_type
            &&& final(ctx).lending_pool == old(ctx).lending_pool
        },
        deposit_within_pool(&old(ctx).lending_pool, &old(ctx).user_deposit) ==> deposit_within_pool(
            &final(ctx).lending_pool,
            &final(ctx).user_deposit,
        ),
{
    if ctx.user_deposit.amount < amount {
        return Err(ErrorCode::InsufficientCollateral);
    }
    let deposited = match ctx.user_deposit.amount.checked_sub(amount) {
        Some(v) => v,
        None => return Err(ErrorCode::Underflow),
    };
    ctx.user_deposit.amount = deposited;
    Ok(())
}

/// Records a repayment of `amount`: the pool's total borrowed shrinks by
/// `amount`. No participant's record is involved.
///
/// Fails with `Underflow`, changing nothing, when `amount` exceeds the total
/// borrowed.
pub fn repay(ctx: &mut Repay, amount: u64) -> (r: Result<(), ErrorCode>)
    ensures
        r is Err <==> amount > old(ctx).lending_pool.total_borrowed,
        r is Err ==> r == Err::<(), ErrorCode>(ErrorCode::Underflow) && *final(ctx) == *old(ctx),
        r is Ok ==> {
            &&& final(ctx).lending_pool.total_borrowed == old(ctx).lending_pool.total_borrowed
                - amount
            &&& final(ctx).lending_pool.total_supplied == old(ctx).lending_pool.total_supplied
            &&& final(ctx).lending_pool.interest_rate_model == old(
                ctx,
            ).lending_pool.interest_rate_model
        },
{
    let total_borrowed = match ctx.lending_pool.total_borrowed.checked_sub(amount) {
        Some(v) => v,
        None => return Err(ErrorCode::Underflow),
    };
    ctx.lending_pool.total_borrowed = total_borrowed;
    Ok(())
}

/// Puts a pool into its starting state: nothing supplied, nothing borrowed,
/// and the interest model labelled `"simple"`. Creating the record once per
/// deployment is left to the storage that holds it, so this always succeeds.
pub fn initialize_pool(ctx: &mut InitializePool) -> (r: Result<(), ErrorCode>)
    ensures
        r is Ok,
        final(ctx).lending_pool.total_supplied == 0,
        final(ctx).lending_pool.total_borrowed == 0,
        final(ctx).lending_pool.interest_rate_model@ == initial_rate_model(),
{
    ctx.lending_pool.total_supplied = 0;
    ctx.lending_pool.total_borrowed = 0;
    ctx.lending_pool.interest_rate_model = "simple".to_string();
    Ok(())
}

} // verus!
