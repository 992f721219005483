//! What an operation asks of the ledger, and how it is settled.
//!
//! The pool never moves assets itself. An operation that has passed its checks becomes a
//! `Settlement`: the pool as it was, the pool as it will be, and the ledger calls to make
//! in between. Whoever drives the settlement asks it what to do, makes that one call,
//! reports how it went and asks again. The new pool is handed out only when every call
//! was accepted; after a refusal the old pool is handed back together with the calls that
//! take back what the accepted ones did.

use vstd::prelude::*;
use crate::address::Address;
use crate::error::ErrorCode;
use crate::pool::Dex;

verus! {

/// One request to the ledger.
#[derive(Clone, Copy, Debug, PartialEq, Eq)]
pub enum LedgerCall {
    /// Move `amount` of `asset` from the account `from` to the account `to`.
    Transfer { asset: Address, from: Address, to: Address, amount: u64 },
    /// Create `amount` of `asset` in the account `to`.
    Mint { asset: Address, to: Address, amount: u64 },
    /// Destroy `amount` of `asset` in the account `from`.
    Burn { asset: Address, from: Address, amount: u64 },
}

impl LedgerCall {
    /// What the call adds to the balance of `account`; negative when it takes away.
    pub open spec fn change(self, account: Address) -> int {
        match self {
            LedgerCall::Transfer { asset, from, to, amount } => (if account == to {
                amount as int
            } else {
                0
            }) - (if account == from {
                amount as int
            } else {
                0
            }),
            LedgerCall::Mint { asset, to, amount } => if account == to {
                amount as int
            } else {
                0
            },
            LedgerCall::Burn { asset, from, amount } => if account == from {
                -(amount as int)
            } else {
                0
            },
        }
    }

    /// What the call adds to the amount of `token` in existence; negative when it
    /// destroys some.
    pub open spec fn issue(self, token: Address) -> int {
        match self {
            LedgerCall::Transfer { asset, from, to, amount } => 0,
            LedgerCall::Mint { asset, to, amount } => if token == asset {
                amount as int
            } else {
                0
            },
            LedgerCall::Burn { asset, from, amount } => if token == asset {
                -(amount as int)
            } else {
                0
            },
        }
    }

    /// The call that takes back what this one does.
    pub open spec fn reversed(self) -> LedgerCall {
        match self {
            LedgerCall::Transfer { asset, from, to, amount } => LedgerCall::Transfer {
                asset,
                from: to,
                to: from,
                amount,
            },
            LedgerCall::Mint { asset, to, amount } => LedgerCall::Burn { asset, from: to, amount },
            LedgerCall::Burn { asset, from, amount } => LedgerCall::Mint { asset, to: from, amount },
        }
    }

    /// The call that takes back what this one does: a transfer the other way, a burn for
    /// a mint, a mint for a burn.
    pub fn reverse(&self) -> (back: LedgerCall)
        ensures
            back == self.reversed(),
    {
        match *self {
            LedgerCall::Transfer { asset, from, to, amount } => LedgerCall::Transfer {
                asset,
                from: to,
                to: from,
                amount,
            },
            LedgerCall::Mint { asset, to, amount } => LedgerCall::Burn { asset, from: to, amount },
            LedgerCall::Burn { asset, from, amount } => LedgerCall::Mint { asset, to: from, amount },
        }
    }
}

/// What a run of calls, all accepted, adds to the balance of `account`.
pub open spec fn net_change(calls: Seq<LedgerCall>, account: Address) -> int
    decreases calls.len(),
{
    if calls.len() == 0 {
        0
    } else {
        net_change(calls.drop_last(), account) + calls.last().change(account)
    }
}

/// What a run of calls, all accepted, adds to the amount of `token` in existence.
pub open spec fn net_issue(calls: Seq<LedgerCall>, token: Address) -> int
    decreases calls.len(),
{
    if calls.len() == 0 {
        0
    } else {
        net_issue(calls.drop_last(), token) + calls.last().issue(token)
    }
}

/// The calls that take back a run of calls: the reverse of each, last call first.
pub open spec fn undo(calls: Seq<LedgerCall>) -> Seq<LedgerCall> {
    Seq::new(calls.len(), |i: int| calls[calls.len() - 1 - i].reversed())
}

/// What a finished operation hands to its caller.
#[derive(Clone, Copy, Debug, PartialEq, Eq)]
pub enum Receipt {
    /// A deposit: the shares issued.
    Shares(u64),
    /// A withdrawal: what was paid out of the first and of the second reserve.
    Amounts(u64, u64),
    /// A swap hands nothing back.
    Swapped,
}

/// What the driver of a settlement has to do next.
#[derive(Debug, PartialEq, Eq)]
pub enum Directive {
    /// Make this ledger call and report whether the ledger accepted it.
    Call(LedgerCall),
    /// Every call was accepted: store `pool` and hand `receipt` to the caller.
    Commit { pool: Dex, receipt: Receipt },
    /// A call was refused: keep `pool`, which is the pool as it was, make the calls of
    /// `undo` in order, and fail with `error`.
    Abort { pool: Dex, undo: Vec<LedgerCall>, error: ErrorCode },
}

/// An operation that has passed its checks and waits for the ledger.
#[derive(Debug, PartialEq, Eq)]
pub struct Settlement {
    /// The pool before the operation.
    pub before: Dex,
    /// The pool after the operation, if every call is accepted.
    pub after: Dex,
    /// What the operation returns, if every call is accepted.
    pub receipt: Receipt,
    /// The ledger calls of the operation, in the order in which they are made.
    pub calls: Vec<LedgerCall>,
    /// How many of the calls the ledger has accepted so far.
    pub confirmed: usize,
    /// Whether the ledger has refused a call.
    pub refused: bool,
}

impl Settlement {
    /// No more calls are confirmed than there are.
    pub open spec fn wf(self) -> bool {
        self.confirmed <= self.calls@.len()
    }

    /// A call has been handed out, or is about to be, and its outcome is not known yet.
    pub open spec fn awaiting(self) -> bool {
        !self.refused && self.confirmed < self.calls@.len()
    }

    /// The calls that the ledger has accepted, in order.
    pub open spec fn accepted(self) -> Seq<LedgerCall> {
        self.calls@.take(self.confirmed as int)
    }

    /// A settlement of which no call has been made yet.
    pub fn new(before: Dex, after: Dex, receipt: Receipt, calls: Vec<LedgerCall>) -> (s: Settlement)
        ensures
            s.before == before,
            s.after == after,
            s.receipt == receipt,
            s.calls == calls,
            s.confirmed == 0,
            !s.refused,
            s.wf(),
    {
        Settlement { before, after, receipt, calls, confirmed: 0, refused: false }
    }

    /// The calls that take back the accepted ones: the reverse of each, last one first.
    pub fn compensation(&self) -> (back: Vec<LedgerCall>)
        requires
            self.wf(),
        ensures
            back@ == undo(self.accepted()),
    {
        let mut back: Vec<LedgerCall> = Vec::new();
        let mut left: usize = self.confirmed;
        while left > 0
            invariant
                self.wf(),
                left <= self.confirmed,
                back@.len() == self.confirmed - left,
                forall|i: int|
                    0 <= i < back@.len() ==> back@[i] == self.calls@[self.confirmed - 1
                        - i].reversed(),
            decreases left,
        {
            left -= 1;
            back.push(self.calls[left].reverse());
        }
        assert(back@ =~= undo(self.accepted()));
        back
    }

    /// What to do now.
    ///
    /// After a refusal: abort with `LedgerError`, keep the pool as it was, and take back
    /// the accepted calls. With every call accepted: commit the new pool. Otherwise: make
    /// the first call that is not confirmed yet.
    pub fn directive(&self) -> (d: Directive)
        requires
            self.wf(),
        ensures
            self.refused ==> (d matches Directive::Abort { pool, undo: back, error } && pool
                == self.before && back@ == undo(self.accepted()) && error
                == ErrorCode::LedgerError),
            !self.refused && self.confirmed == self.calls@.len() ==> d == (Directive::Commit {
                pool: self.after,
                receipt: self.receipt,
            }),
            self.awaiting() ==> d == Directive::Call(self.calls@[self.confirmed as int]),
    {
        if self.refused {
            Directive::Abort {
                pool: self.before,
                undo: self.compensation(),
                error: ErrorCode::LedgerError,
            }
        } else if self.confirmed == self.calls.len() {
            Directive::Commit { pool: self.after, receipt: self.receipt }
        } else {
            Directive::Call(self.calls[self.confirmed])
        }
    }

    /// Records how the call that was handed out went: one more call is confirmed when the
    /// ledger accepted it, and the settlement is refused when it did not. Nothing else
    /// changes.
    pub fn record(&mut self, accepted: bool)
        requires
            old(self).wf(),
            old(self).awaiting(),
        ensures
            final(self).wf(),
            final(self).before == old(self).before,
            final(self).after == old(self).after,
            final(self).receipt == old(self).receipt,
            final(self).calls == old(self).calls,
            accepted ==> final(self).confirmed == old(self).confirmed + 1 && !final(self).refused,
            !accepted ==> final(self).confirmed == old(self).confirmed && final(self).refused,
    {
        if !accepted {
            self.refused = true;
        } else if self.confirmed < self.calls.len() {
            self.confirmed += 1;
        }
    }
}

} // verus!
