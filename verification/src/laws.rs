//! What holds of the pool over whole runs of operations, and of a settlement that the
//! ledger refuses.

use vstd::prelude::*;
use crate::address::Address;
use crate::error::ErrorCode;
use crate::ledger::{LedgerCall, net_change, net_issue, undo};
use crate::pool::Dex;

verus! {

/// One request to change a pool, as a value.
pub enum Request {
    /// A deposit of the two amounts.
    Deposit { token0_amt: u64, token1_amt: u64 },
    /// A withdrawal of `amount` shares.
    Withdraw { amount: u64 },
    /// A swap that pays `token_amt_in` of `token_in` into the pool.
    Trade { token_in: Address, token_amt_in: u64 },
}

impl Request {
    /// The pool that the request leads to from `pool`, or why it is refused.
    pub open spec fn outcome(self, pool: Dex) -> Result<Dex, ErrorCode> {
        match self {
            Request::Deposit { token0_amt, token1_amt } => pool.after_deposit(
                token0_amt,
                token1_amt,
            ),
            Request::Withdraw { amount } => pool.after_withdraw(amount),
            Request::Trade { token_in, token_amt_in } => pool.after_trade(token_in, token_amt_in),
        }
    }

    /// The pool once the request has been handled: the new pool when it is granted, the
    /// same pool when it is refused.
    pub open spec fn applied(self, pool: Dex) -> Dex {
        match self.outcome(pool) {
            Ok(next) => next,
            Err(_) => pool,
        }
    }

    /// The request gets as far as its arithmetic: every deposit; a withdrawal from
    /// outstanding shares of no more than there are; a swap of one of the pool's two
    /// assets.
    pub open spec fn reaches_arithmetic(self, pool: Dex) -> bool {
        match self {
            Request::Deposit { token0_amt, token1_amt } => true,
            Request::Withdraw { amount } => pool.lp_amount > 0 && amount <= pool.lp_amount,
            Request::Trade { token_in, token_amt_in } => token_in == pool.token0 || token_in
                == pool.token1,
        }
    }

    /// A sum or a product that the request computes does not fit in 64 bits.
    pub open spec fn overflows(self, pool: Dex) -> bool {
        match self {
            Request::Deposit { token0_amt, token1_amt } => {
                ||| token0_amt * token1_amt > u64::MAX
                ||| pool.lp_amount + token0_amt * token1_amt > u64::MAX
                ||| pool.token0_amount + token0_amt > u64::MAX
                ||| pool.token1_amount + token1_amt > u64::MAX
                ||| (pool.token0_amount + token0_amt) * (pool.token1_amount + token1_amt)
                    > u64::MAX
            },
            Request::Withdraw { amount } => {
                ||| pool.lp_amount * pool.token0_amount > u64::MAX
                ||| pool.lp_amount * pool.token1_amount > u64::MAX
            },
            Request::Trade { token_in, token_amt_in } => if token_in == pool.token0 {
                ||| pool.token0_amount + token_amt_in > u64::MAX
                ||| (pool.token0_amount + token_amt_in) * pool.token1_amount > u64::MAX
            } else {
                ||| pool.token1_amount + token_amt_in > u64::MAX
                ||| pool.token0_amount * (pool.token1_amount + token_amt_in) > u64::MAX
            },
        }
    }

    /// The requests after which shares and reserves are still coupled: every deposit; a
    /// withdrawal of all outstanding shares; a swap into a pool that has shares
    /// outstanding, or of nothing; and every request that is refused.
    pub open spec fn keeps_coupling(self, pool: Dex) -> bool {
        match self {
            Request::Deposit { token0_amt, token1_amt } => true,
            Request::Withdraw { amount } => amount == pool.lp_amount || self.outcome(pool) is Err,
            Request::Trade { token_in, token_amt_in } => pool.lp_amount > 0 || token_amt_in == 0
                || self.outcome(pool) is Err,
        }
    }
}

/// The pool after a run of requests, handled one after the other.
pub open spec fn after_requests(pool: Dex, requests: Seq<Request>) -> Dex
    decreases requests.len(),
{
    if requests.len() == 0 {
        pool
    } else {
        requests.last().applied(after_requests(pool, requests.drop_last()))
    }
}

/// Every request of the run keeps the coupling in the pool that it meets.
pub open spec fn all_keep_coupling(pool: Dex, requests: Seq<Request>) -> bool
    decreases requests.len(),
{
    requests.len() > 0 ==> all_keep_coupling(pool, requests.drop_last())
        && requests.last().keeps_coupling(after_requests(pool, requests.drop_last()))
}

/// A granted deposit or swap never lowers the product of the reserves, whatever the pool
/// records, and the new pool records its product exactly.
pub proof fn lemma_product_rises(pool: Dex, request: Request)
    requires
        !(request is Withdraw),
        request.outcome(pool) is Ok,
    ensures
        request.applied(pool).product() >= pool.product(),
        request.applied(pool).k == request.applied(pool).product(),
{
    let r0 = pool.token0_amount as int;
    let r1 = pool.token1_amount as int;
    match request {
        Request::Deposit { token0_amt, token1_amt } => {
            assert((r0 + token0_amt) * (r1 + token1_amt) >= r0 * r1) by (nonlinear_arith)
                requires
                    r0 >= 0,
                    r1 >= 0,
            ;
        },
        Request::Withdraw { amount } => {},
        Request::Trade { token_in, token_amt_in } => {
            assert((r0 + token_amt_in) * r1 >= r0 * r1) by (nonlinear_arith)
                requires
                    r0 >= 0,
                    r1 >= 0,
            ;
            assert(r0 * (r1 + token_amt_in) >= r0 * r1) by (nonlinear_arith)
                requires
                    r0 >= 0,
                    r1 >= 0,
            ;
        },
    }
}

/// One request, granted or refused, leaves a well-formed pool well formed, and neither
/// the recorded product nor the product of the reserves falls. This holds of a withdrawal
/// too: it is granted only where the recorded product is zero.
pub proof fn lemma_request_keeps_pool(pool: Dex, request: Request)
    requires
        pool.wf(),
    ensures
        request.applied(pool).wf(),
        request.applied(pool).k >= pool.k,
        request.applied(pool).product() >= pool.product(),
{
    if request.outcome(pool) is Ok {
        match request {
            Request::Withdraw { amount } => {},
            _ => {
                lemma_product_rises(pool, request);
            },
        }
    }
}

/// Over any run of deposits, withdrawals and swaps, granted or refused, a well-formed
/// pool stays well formed and its product of reserves never falls.
pub proof fn lemma_product_never_falls(pool: Dex, requests: Seq<Request>)
    requires
        pool.wf(),
    ensures
        after_requests(pool, requests).wf(),
        after_requests(pool, requests).k >= pool.k,
        after_requests(pool, requests).product() >= pool.product(),
    decreases requests.len(),
{
    if requests.len() > 0 {
        lemma_product_never_falls(pool, requests.drop_last());
        lemma_request_keeps_pool(after_requests(pool, requests.drop_last()), requests.last());
    }
}

/// A request that keeps the coupling leaves a coupled pool coupled: no shares are
/// outstanding exactly when both reserves are empty. After a granted deposit this holds
/// whatever the pool was.
pub proof fn lemma_request_keeps_coupling(pool: Dex, request: Request)
    requires
        request.keeps_coupling(pool),
        pool.coupled() || (request is Deposit && request.outcome(pool) is Ok),
    ensures
        request.applied(pool).coupled(),
{
    match request {
        Request::Deposit { token0_amt, token1_amt } => {
            if token0_amt > 0 && token1_amt > 0 {
                assert(token0_amt * token1_amt > 0) by (nonlinear_arith)
                    requires
                        token0_amt > 0,
                        token1_amt > 0,
                ;
            }
        },
        _ => {},
    }
}

/// Over a run of requests that each keep the coupling, a coupled pool stays coupled.
pub proof fn lemma_coupling_is_kept(pool: Dex, requests: Seq<Request>)
    requires
        pool.coupled(),
        all_keep_coupling(pool, requests),
    ensures
        after_requests(pool, requests).coupled(),
    decreases requests.len(),
{
    if requests.len() > 0 {
        lemma_coupling_is_kept(pool, requests.drop_last());
        lemma_request_keeps_coupling(after_requests(pool, requests.drop_last()), requests.last());
    }
}

/// A request that gets as far as its arithmetic is refused with `ArithmeticOverflow`
/// exactly when a sum or a product that it computes does not fit in 64 bits, and the pool
/// is then the same afterwards.
pub proof fn lemma_overflow_is_refused(pool: Dex, request: Request)
    requires
        request.reaches_arithmetic(pool),
    ensures
        request.outcome(pool) == Err::<Dex, ErrorCode>(ErrorCode::ArithmeticOverflow)
            <==> request.overflows(pool),
        request.overflows(pool) ==> request.applied(pool) == pool,
{
}

/// A deposit that brings nothing of one asset, and a withdrawal of no shares, is refused,
/// and the pool is the same afterwards.
pub proof fn lemma_nothing_is_refused(pool: Dex, request: Request)
    requires
        match request {
            Request::Deposit { token0_amt, token1_amt } => token0_amt == 0 || token1_amt == 0,
            Request::Withdraw { amount } => amount == 0,
            Request::Trade { token_in, token_amt_in } => false,
        },
    ensures
        request.outcome(pool) is Err,
        request.applied(pool) == pool,
{
}

/// A request that does not get as far as its arithmetic is refused, with another error
/// than `ArithmeticOverflow`, and the pool is the same afterwards: a withdrawal from an
/// empty supply with `DivisionByZero`; a withdrawal of more shares than are outstanding
/// with `InsufficientShares`; a swap of an asset that is not the pool's with
/// `WrongInputToken`.
pub proof fn lemma_refused_before_arithmetic(pool: Dex, request: Request)
    requires
        !request.reaches_arithmetic(pool),
    ensures
        !(request is Deposit),
        request.applied(pool) == pool,
        request.outcome(pool) == Err::<Dex, ErrorCode>(
            match request {
                Request::Withdraw { amount } => if pool.lp_amount == 0 {
                    ErrorCode::DivisionByZero
                } else {
                    ErrorCode::InsufficientShares
                },
                _ => ErrorCode::WrongInputToken,
            },
        ),
{
}

/// What two runs of calls add to a balance, one after the other, is the sum of what each
/// adds; and so for the amount of an asset in existence.
pub proof fn lemma_net_of_concatenation(
    first: Seq<LedgerCall>,
    second: Seq<LedgerCall>,
    address: Address,
)
    ensures
        net_change(first + second, address) == net_change(first, address) + net_change(
            second,
            address,
        ),
        net_issue(first + second, address) == net_issue(first, address) + net_issue(
            second,
            address,
        ),
    decreases second.len(),
{
    if second.len() == 0 {
        assert(first + second =~= first);
    } else {
        lemma_net_of_concatenation(first, second.drop_last(), address);
        assert((first + second).drop_last() =~= first + second.drop_last());
    }
}

/// Taking back a run of calls takes away exactly what the run added, from every balance
/// and from the amount of every asset.
pub proof fn lemma_undo_negates(calls: Seq<LedgerCall>, address: Address)
    ensures
        net_change(undo(calls), address) == -net_change(calls, address),
        net_issue(undo(calls), address) == -net_issue(calls, address),
    decreases calls.len(),
{
    if calls.len() > 0 {
        let head = seq![calls.last().reversed()];
        lemma_undo_negates(calls.drop_last(), address);
        lemma_net_of_concatenation(head, undo(calls.drop_last()), address);
        assert(undo(calls) =~= head + undo(calls.drop_last()));
        assert(head.drop_last() =~= Seq::<LedgerCall>::empty());
        assert(net_change(head, address) == net_change(head.drop_last(), address)
            + head.last().change(address));
        assert(net_issue(head, address) == net_issue(head.drop_last(), address)
            + head.last().issue(address));
    }
}

/// A settlement that is refused leaves no trace on the ledger: once the accepted calls
/// have been taken back, every balance and the amount of every asset in existence are
/// what they were before the first call.
pub proof fn lemma_undo_restores(calls: Seq<LedgerCall>, address: Address)
    ensures
        net_change(calls + undo(calls), address) == 0,
        net_issue(calls + undo(calls), address) == 0,
{
    lemma_net_of_concatenation(calls, undo(calls), address);
    lemma_undo_negates(calls, address);
}

} // verus!
