//! The operations on a pool: creation, deposit, withdrawal and swap.
//!
//! Each one checks the accounts first, then computes the pool that the operation leads
//! to. Creation moves no assets and writes the record at once. The other three leave the
//! record alone and return a `Settlement`, which names the ledger calls to make and holds
//! the new pool back until they have all been accepted.

use vstd::prelude::*;
use crate::accounts::{InitializeDex, LiquidityOperations, Swap};
use crate::address::Address;
use crate::error::ErrorCode;
use crate::ledger::{LedgerCall, Receipt, Settlement};
use crate::pool::Dex;

verus! {

/// The ledger calls of a deposit: the depositor pays both amounts into the pool's
/// custody, first asset first, and is then minted the shares.
pub open spec fn deposit_calls(
    dex: Dex,
    accounts: LiquidityOperations,
    token0_amt: u64,
    token1_amt: u64,
    shares: u64,
) -> Seq<LedgerCall> {
    seq![
        LedgerCall::Transfer {
            asset: dex.token0,
            from: accounts.user_token0.key,
            to: accounts.acc_token0.key,
            amount: token0_amt,
        },
        LedgerCall::Transfer {
            asset: dex.token1,
            from: accounts.user_token1.key,
            to: accounts.acc_token1.key,
            amount: token1_amt,
        },
        LedgerCall::Mint { asset: dex.lp_token, to: accounts.user_lp.key, amount: shares },
    ]
}

/// The ledger calls of a withdrawal: the shares are burnt, then the pool pays out of its
/// custody, first asset first.
pub open spec fn withdrawal_calls(
    dex: Dex,
    accounts: LiquidityOperations,
    shares: u64,
    amount0: u64,
    amount1: u64,
) -> Seq<LedgerCall> {
    seq![
        LedgerCall::Burn { asset: dex.lp_token, from: accounts.user_lp.key, amount: shares },
        LedgerCall::Transfer {
            asset: dex.token0,
            from: accounts.acc_token0.key,
            to: accounts.user_token0.key,
            amount: amount0,
        },
        LedgerCall::Transfer {
            asset: dex.token1,
            from: accounts.acc_token1.key,
            to: accounts.user_token1.key,
            amount: amount1,
        },
    ]
}

/// The one ledger call of a swap: the trader pays the amount into the pool's custody of
/// the asset paid in.
pub open spec fn swap_calls(dex: Dex, accounts: Swap, token_in: Address, token_amt_in: u64) -> Seq<
    LedgerCall,
> {
    if token_in == dex.token0 {
        seq![
            LedgerCall::Transfer {
                asset: dex.token0,
                from: accounts.user_token0.key,
                to: accounts.acc_token0.key,
                amount: token_amt_in,
            },
        ]
    } else {
        seq![
            LedgerCall::Transfer {
                asset: dex.token1,
                from: accounts.user_token1.key,
                to: accounts.acc_token1.key,
                amount: token_amt_in,
            },
        ]
    }
}

/// A settlement that has just been set up: it leads from `before` to `after`, returns
/// `receipt`, makes `calls`, and none of them has been made.
pub open spec fn fresh(
    s: Settlement,
    before: Dex,
    after: Dex,
    receipt: Receipt,
    calls: Seq<LedgerCall>,
) -> bool {
    &&& s.before == before
    &&& s.after == after
    &&& s.receipt == receipt
    &&& s.calls@ == calls
    &&& s.confirmed == 0
    &&& !s.refused
}

/// Creates an empty pool for the assets and the authority of `accounts` in the record
/// `dex`.
///
/// Fails with `AccountMismatch` when the accounts are not bound, else with
/// `AlreadyInitialized` when the record holds a pool, else with `SameAsset` when the three
/// assets are not pairwise distinct. A failure changes nothing.
pub fn initialize_dex(dex: &mut Dex, accounts: &InitializeDex) -> (r: Result<(), ErrorCode>)
    ensures
        !accounts.bound() ==> r == Err::<(), ErrorCode>(ErrorCode::AccountMismatch) && *final(dex)
            == *old(dex),
        accounts.bound() && old(dex).is_initialized ==> r == Err::<(), ErrorCode>(
            ErrorCode::AlreadyInitialized,
        ) && *final(dex) == *old(dex),
        accounts.bound() && !old(dex).is_initialized && !accounts.distinct_mints() ==> r == Err::<
            (),
            ErrorCode,
        >(ErrorCode::SameAsset) && *final(dex) == *old(dex),
        accounts.bound() && !old(dex).is_initialized && accounts.distinct_mints() ==> r == Ok::<
            (),
            ErrorCode,
        >(()) && *final(dex) == Dex::created(
            accounts.authority,
            accounts.mint_token0,
            accounts.mint_token1,
            accounts.mint_lp,
        ),
        r is Ok ==> final(dex).wf() && final(dex).coupled(),
{
    accounts.check()?;
    dex.initialize(accounts.authority, accounts.mint_token0, accounts.mint_token1, accounts.mint_lp)
}

/// Sets up a deposit of `token0_amt` and `token1_amt`, which earns
/// `token0_amt * token1_amt` shares.
///
/// Fails with `AccountMismatch` when the accounts are not bound to the pool; else with
/// `ArithmeticOverflow` exactly when the shares, the new supply, a new reserve or the new
/// product does not fit in 64 bits; else with `InvariantViolation` when the new product
/// is below the recorded one; else with `ZeroAmount` when either amount is zero. A
/// failure returns no settlement, so nothing is asked of the ledger and the pool stays as
/// it is. On success the settlement leads to the pool
/// after the deposit, returns the shares, and makes the calls of `deposit_calls`.
pub fn add_liquidity(
    dex: &Dex,
    accounts: &LiquidityOperations,
    token0_amt: u64,
    token1_amt: u64,
) -> (r: Result<Settlement, ErrorCode>)
    ensures
        !accounts.bound_to(*dex) ==> r == Err::<Settlement, ErrorCode>(ErrorCode::AccountMismatch),
        accounts.bound_to(*dex) ==> (r == Err::<Settlement, ErrorCode>(
            ErrorCode::ArithmeticOverflow,
        ) <==> dex.deposit_overflows(token0_amt, token1_amt)),
        token0_amt == 0 || token1_amt == 0 ==> r is Err,
        accounts.bound_to(*dex) ==> match dex.after_deposit(token0_amt, token1_amt) {
            Ok(pool) => r is Ok && fresh(
                r->Ok_0,
                *dex,
                pool,
                Receipt::Shares((token0_amt * token1_amt) as u64),
                deposit_calls(
                    *dex,
                    *accounts,
                    token0_amt,
                    token1_amt,
                    (token0_amt * token1_amt) as u64,
                ),
            ),
            Err(e) => r == Err::<Settlement, ErrorCode>(e),
        },
        r is Ok ==> r->Ok_0.wf() && r->Ok_0.after.product() >= dex.product(),
{
    accounts.check(dex)?;
    let mut pool = *dex;
    let shares = pool.deposit(token0_amt, token1_amt)?;
    let mut calls: Vec<LedgerCall> = Vec::new();
    calls.push(
        LedgerCall::Transfer {
            asset: dex.token0,
            from: accounts.user_token0.key,
            to: accounts.acc_token0.key,
            amount: token0_amt,
        },
    );
    calls.push(
        LedgerCall::Transfer {
            asset: dex.token1,
            from: accounts.user_token1.key,
            to: accounts.acc_token1.key,
            amount: token1_amt,
        },
    );
    calls.push(LedgerCall::Mint { asset: dex.lp_token, to: accounts.user_lp.key, amount: shares });
    assert(calls@ =~= deposit_calls(*dex, *accounts, token0_amt, token1_amt, shares));
    Ok(Settlement::new(*dex, pool, Receipt::Shares(shares), calls))
}

/// Sets up the withdrawal of `amount` shares, which pays out the whole of both reserves.
///
/// Fails with `AccountMismatch` when the accounts are not bound to the pool; else with
/// `DivisionByZero` when no shares are outstanding; else with `InsufficientShares` when
/// more are handed in than are outstanding; else with `ArithmeticOverflow` exactly when
/// the supply times a reserve does not fit in 64 bits; else with `InvariantViolation`
/// when the recorded product is not zero; else with `ZeroAmount` when no shares are
/// handed in. A failure returns no settlement, so nothing is asked of the ledger and the
/// pool stays as it is. On success
/// the settlement leads to the pool after the withdrawal, returns the two amounts paid
/// out, and makes the calls of `withdrawal_calls`.
pub fn remove_liquidity(dex: &Dex, accounts: &LiquidityOperations, amount: u64) -> (r: Result<
    Settlement,
    ErrorCode,
>)
    ensures
        !accounts.bound_to(*dex) ==> r == Err::<Settlement, ErrorCode>(ErrorCode::AccountMismatch),
        accounts.bound_to(*dex) && dex.lp_amount == 0 ==> r == Err::<Settlement, ErrorCode>(
            ErrorCode::DivisionByZero,
        ),
        accounts.bound_to(*dex) && amount > dex.lp_amount > 0 ==> r == Err::<
            Settlement,
            ErrorCode,
        >(ErrorCode::InsufficientShares),
        accounts.bound_to(*dex) && amount <= dex.lp_amount && dex.lp_amount > 0 ==> (r == Err::<
            Settlement,
            ErrorCode,
        >(ErrorCode::ArithmeticOverflow) <==> dex.withdrawal_overflows()),
        amount == 0 ==> r is Err,
        accounts.bound_to(*dex) ==> match dex.after_withdraw(amount) {
            Ok(pool) => r is Ok && fresh(
                r->Ok_0,
                *dex,
                pool,
                Receipt::Amounts(dex.token0_amount, dex.token1_amount),
                withdrawal_calls(*dex, *accounts, amount, dex.token0_amount, dex.token1_amount),
            ),
            Err(e) => r == Err::<Settlement, ErrorCode>(e),
        },
        r is Ok ==> r->Ok_0.wf(),
{
    accounts.check(dex)?;
    let mut pool = *dex;
    let (amount0, amount1) = pool.withdraw(amount)?;
    let mut calls: Vec<LedgerCall> = Vec::new();
    calls.push(LedgerCall::Burn { asset: dex.lp_token, from: accounts.user_lp.key, amount });
    calls.push(
        LedgerCall::Transfer {
            asset: dex.token0,
            from: accounts.acc_token0.key,
            to: accounts.user_token0.key,
            amount: amount0,
        },
    );
    calls.push(
        LedgerCall::Transfer {
            asset: dex.token1,
            from: accounts.acc_token1.key,
            to: accounts.user_token1.key,
            amount: amount1,
        },
    );
    assert(calls@ =~= withdrawal_calls(*dex, *accounts, amount, amount0, amount1));
    Ok(Settlement::new(*dex, pool, Receipt::Amounts(amount0, amount1), calls))
}

/// Sets up a swap that pays `token_amt_in` of `token_in` into the pool.
///
/// Fails with `AccountMismatch` when the accounts are not bound to the pool; else with
/// `WrongInputToken` when `token_in` is neither asset of the pair; else with
/// `ArithmeticOverflow` exactly when the new reserve or the new product does not fit in
/// 64 bits. A failure returns no settlement, so nothing is asked of the ledger and the
/// pool stays as it is. On success the settlement leads to the pool after the swap and
/// makes the one call of `swap_calls`.
pub fn swap(dex: &Dex, accounts: &Swap, token_in: Address, token_amt_in: u64) -> (r: Result<
    Settlement,
    ErrorCode,
>)
    ensures
        !accounts.bound_to(*dex) ==> r == Err::<Settlement, ErrorCode>(ErrorCode::AccountMismatch),
        accounts.bound_to(*dex) && (token_in == dex.token0 || token_in == dex.token1) ==> (r
            == Err::<Settlement, ErrorCode>(ErrorCode::ArithmeticOverflow)
            <==> dex.trade_overflows(token_in, token_amt_in)),
        accounts.bound_to(*dex) ==> match dex.after_trade(token_in, token_amt_in) {
            Ok(pool) => r is Ok && fresh(
                r->Ok_0,
                *dex,
                pool,
                Receipt::Swapped,
                swap_calls(*dex, *accounts, token_in, token_amt_in),
            ),
            Err(e) => r == Err::<Settlement, ErrorCode>(e),
        },
        r is Ok ==> r->Ok_0.wf() && r->Ok_0.after.product() >= dex.product(),
{
    accounts.check(dex)?;
    let mut pool = *dex;
    pool.trade(token_in, token_amt_in)?;
    let mut calls: Vec<LedgerCall> = Vec::new();
    if token_in.same(&dex.token0) {
        calls.push(
            LedgerCall::Transfer {
                asset: dex.token0,
                from: accounts.user_token0.key,
                to: accounts.acc_token0.key,
                amount: token_amt_in,
            },
        );
    } else {
        calls.push(
            LedgerCall::Transfer {
                asset: dex.token1,
                from: accounts.user_token1.key,
                to: accounts.acc_token1.key,
                amount: token_amt_in,
            },
        );
    }
    assert(calls@ =~= swap_calls(*dex, *accounts, token_in, token_amt_in));
    Ok(Settlement::new(*dex, pool, Receipt::Swapped, calls))
}

} // verus!
