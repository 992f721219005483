//! The accounts an operation is handed, and the checks that bind them to a pool.
//!
//! Before anything is computed, an operation makes sure that the caller has signed, that
//! each custody account holds the asset it is used for, and that it belongs to the party
//! it is used for: the caller's accounts to the caller, the pool's to the pool's authority.

use vstd::prelude::*;
use crate::address::Address;
use crate::error::ErrorCode;
use crate::pool::Dex;

verus! {

/// What the ledger records of a custody account: where it is, which asset it holds and
/// who owns it.
#[derive(Clone, Copy, Debug, PartialEq, Eq)]
pub struct TokenAccount {
    pub key: Address,
    pub mint: Address,
    pub owner: Address,
}

impl TokenAccount {
    /// The account holds the asset `mint` for `owner`.
    pub open spec fn holds(self, mint: Address, owner: Address) -> bool {
        self.mint == mint && self.owner == owner
    }

    /// Whether the account holds the asset `mint` for `owner`.
    pub fn is_held(&self, mint: &Address, owner: &Address) -> (r: bool)
        ensures
            r == self.holds(*mint, *owner),
    {
        self.mint.same(mint) && self.owner.same(owner)
    }
}

/// The accounts handed to the creation of a pool.
#[derive(Clone, Copy, Debug, PartialEq, Eq)]
pub struct InitializeDex {
    /// The principal that will own the pool's custody accounts.
    pub authority: Address,
    /// Who pays for the record.
    pub payer: Address,
    /// Whether the ledger has verified the payer's signature.
    pub payer_signed: bool,
    pub mint_token0: Address,
    pub mint_token1: Address,
    pub mint_lp: Address,
    /// The pool's custody account for the first asset.
    pub acc_token0: TokenAccount,
    /// The pool's custody account for the second asset.
    pub acc_token1: TokenAccount,
    /// The pool's custody account for the share asset.
    pub acc_lp: TokenAccount,
}

impl InitializeDex {
    /// The three assets are pairwise distinct.
    pub open spec fn distinct_mints(self) -> bool {
        &&& self.mint_token0 != self.mint_token1
        &&& self.mint_lp != self.mint_token0
        &&& self.mint_lp != self.mint_token1
    }

    /// The payer has signed, and each custody account holds its asset for the authority.
    pub open spec fn bound(self) -> bool {
        &&& self.payer_signed
        &&& self.acc_token0.holds(self.mint_token0, self.authority)
        &&& self.acc_token1.holds(self.mint_token1, self.authority)
        &&& self.acc_lp.holds(self.mint_lp, self.authority)
    }

    /// Passes exactly when the accounts are bound; otherwise fails with `AccountMismatch`.
    pub fn check(&self) -> (r: Result<(), ErrorCode>)
        ensures
            self.bound() ==> r == Ok::<(), ErrorCode>(()),
            !self.bound() ==> r == Err::<(), ErrorCode>(ErrorCode::AccountMismatch),
    {
        if self.payer_signed && self.acc_token0.is_held(&self.mint_token0, &self.authority)
            && self.acc_token1.is_held(&self.mint_token1, &self.authority) && self.acc_lp.is_held(
            &self.mint_lp,
            &self.authority,
        ) {
            Ok(())
        } else {
            Err(ErrorCode::AccountMismatch)
        }
    }
}

/// The accounts handed to a deposit or a withdrawal.
#[derive(Clone, Copy, Debug, PartialEq, Eq)]
pub struct LiquidityOperations {
    /// The depositor or withdrawer.
    pub user: Address,
    /// Whether the ledger has verified the user's signature.
    pub user_signed: bool,
    /// The principal that owns the pool's custody accounts.
    pub authority: Address,
    /// The share asset.
    pub mint_lp: Address,
    /// The user's account for the first asset.
    pub user_token0: TokenAccount,
    /// The user's account for the second asset.
    pub user_token1: TokenAccount,
    /// The user's account for shares.
    pub user_lp: TokenAccount,
    /// The pool's custody account for the first asset.
    pub acc_token0: TokenAccount,
    /// The pool's custody account for the second asset.
    pub acc_token1: TokenAccount,
    /// The pool's custody account for shares.
    pub acc_lp: TokenAccount,
}

impl LiquidityOperations {
    /// The user has signed; the authority and the share asset are the pool's; the user's
    /// accounts hold the pool's three assets for the user, the pool's hold them for the
    /// authority; and no asset would move within one account.
    pub open spec fn bound_to(self, dex: Dex) -> bool {
        &&& self.user_signed
        &&& self.authority == dex.authority
        &&& self.mint_lp == dex.lp_token
        &&& self.user_token0.holds(dex.token0, self.user)
        &&& self.user_token1.holds(dex.token1, self.user)
        &&& self.user_lp.holds(dex.lp_token, self.user)
        &&& self.acc_token0.holds(dex.token0, dex.authority)
        &&& self.acc_token1.holds(dex.token1, dex.authority)
        &&& self.acc_lp.holds(dex.lp_token, dex.authority)
        &&& self.user_token0.key != self.acc_token0.key
        &&& self.user_token1.key != self.acc_token1.key
    }

    /// Passes exactly when the accounts are bound to `dex`; otherwise fails with
    /// `AccountMismatch`.
    pub fn check(&self, dex: &Dex) -> (r: Result<(), ErrorCode>)
        ensures
            self.bound_to(*dex) ==> r == Ok::<(), ErrorCode>(()),
            !self.bound_to(*dex) ==> r == Err::<(), ErrorCode>(ErrorCode::AccountMismatch),
    {
        let parties = self.user_signed && self.authority.same(&dex.authority) && self.mint_lp.same(
            &dex.lp_token,
        );
        let users = self.user_token0.is_held(&dex.token0, &self.user) && self.user_token1.is_held(
            &dex.token1,
            &self.user,
        ) && self.user_lp.is_held(&dex.lp_token, &self.user);
        let pools = self.acc_token0.is_held(&dex.token0, &dex.authority)
            && self.acc_token1.is_held(&dex.token1, &dex.authority) && self.acc_lp.is_held(
            &dex.lp_token,
            &dex.authority,
        );
        let apart = !self.user_token0.key.same(&self.acc_token0.key) && !self.user_token1.key.same(
            &self.acc_token1.key,
        );
        if parties && users && pools && apart {
            Ok(())
        } else {
            Err(ErrorCode::AccountMismatch)
        }
    }
}

/// The accounts handed to a swap.
#[derive(Clone, Copy, Debug, PartialEq, Eq)]
pub struct Swap {
    /// The trader.
    pub user: Address,
    /// Whether the ledger has verified the trader's signature.
    pub user_signed: bool,
    /// The principal that owns the pool's custody accounts.
    pub authority: Address,
    /// The trader's account for the first asset.
    pub user_token0: TokenAccount,
    /// The trader's account for the second asset.
    pub user_token1: TokenAccount,
    /// The pool's custody account for the first asset.
    pub acc_token0: TokenAccount,
    /// The pool's custody account for the second asset.
    pub acc_token1: TokenAccount,
    /// The pool's custody account for shares.
    pub acc_lp: TokenAccount,
}

impl Swap {
    /// The trader has signed; the authority is the pool's; the trader's accounts hold the
    /// pair's assets for the trader, the pool's hold the pool's assets for the authority;
    /// and no asset would move within one account.
    pub open spec fn bound_to(self, dex: Dex) -> bool {
        &&& self.user_signed
        &&& self.authority == dex.authority
        &&& self.user_token0.holds(dex.token0, self.user)
        &&& self.user_token1.holds(dex.token1, self.user)
        &&& self.acc_token0.holds(dex.token0, dex.authority)
        &&& self.acc_token1.holds(dex.token1, dex.authority)
        &&& self.acc_lp.holds(dex.lp_token, dex.authority)
        &&& self.user_token0.key != self.acc_token0.key
        &&& self.user_token1.key != self.acc_token1.key
    }

    /// Passes exactly when the accounts are bound to `dex`; otherwise fails with
    /// `AccountMismatch`.
    pub fn check(&self, dex: &Dex) -> (r: Result<(), ErrorCode>)
        ensures
            self.bound_to(*dex) ==> r == Ok::<(), ErrorCode>(()),
            !self.bound_to(*dex) ==> r == Err::<(), ErrorCode>(ErrorCode::AccountMismatch),
    {
        let parties = self.user_signed && self.authority.same(&dex.authority);
        let users = self.user_token0.is_held(&dex.token0, &self.user) && self.user_token1.is_held(
            &dex.token1,
            &self.user,
        );
        let pools = self.acc_token0.is_held(&dex.token0, &dex.authority)
            && self.acc_token1.is_held(&dex.token1, &dex.authority) && self.acc_lp.is_held(
            &dex.lp_token,
            &dex.authority,
        );
        let apart = !self.user_token0.key.same(&self.acc_token0.key) && !self.user_token1.key.same(
            &self.acc_token1.key,
        );
        if parties && users && pools && apart {
            Ok(())
        } else {
            Err(ErrorCode::AccountMismatch)
        }
    }
}

} // verus!
