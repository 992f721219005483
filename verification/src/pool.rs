//! The pool record and its state transitions.
//!
//! Each transition is described twice: by a spec function that gives the pool after it
//! (or the failure) as a mathematical value, and by an executable method that is proved
//! to compute exactly that, touching the record only when it succeeds.

use vstd::prelude::*;
use crate::address::Address;
use crate::error::ErrorCode;
use crate::math::{checked_add, checked_sub, checked_mul, checked_div};

verus! {

/// The state of the market for one pair of assets.
#[derive(Clone, Copy, Debug, PartialEq, Eq)]
pub struct Dex {
    /// Set once, when the pool is created.
    pub is_initialized: bool,
    /// The principal that owns the pool's custody accounts.
    pub authority: Address,
    /// The first asset of the pair.
    pub token0: Address,
    /// The second asset of the pair.
    pub token1: Address,
    /// The share asset, minted to those who provide liquidity.
    pub lp_token: Address,
    /// The pool's reserve of the first asset.
    pub token0_amount: u64,
    /// The pool's reserve of the second asset.
    pub token1_amount: u64,
    /// The shares outstanding.
    pub lp_amount: u64,
    /// The recorded product of the two reserves.
    pub k: u64,
}

impl Dex {
    /// The product of the two reserves, as an unbounded integer.
    pub open spec fn product(self) -> int {
        self.token0_amount * self.token1_amount
    }

    /// The pool is initialized, records the product of its reserves exactly, and its
    /// three assets are pairwise distinct.
    pub open spec fn wf(self) -> bool {
        &&& self.is_initialized
        &&& self.k == self.product()
        &&& self.token0 != self.token1
        &&& self.lp_token != self.token0
        &&& self.lp_token != self.token1
    }

    /// No shares are outstanding exactly when both reserves are empty.
    pub open spec fn coupled(self) -> bool {
        self.lp_amount == 0 <==> (self.token0_amount == 0 && self.token1_amount == 0)
    }

    /// This pool with other reserves and share supply, and their product recorded.
    pub open spec fn with_amounts(self, amount0: int, amount1: int, shares: int) -> Dex {
        Dex {
            token0_amount: amount0 as u64,
            token1_amount: amount1 as u64,
            lp_amount: shares as u64,
            k: (amount0 * amount1) as u64,
            ..self
        }
    }

    /// The record holds no pool: nothing is set, every amount and every address is zero.
    pub open spec fn is_blank(self) -> bool {
        &&& !self.is_initialized
        &&& self.authority.is_zero()
        &&& self.token0.is_zero()
        &&& self.token1.is_zero()
        &&& self.lp_token.is_zero()
        &&& self.token0_amount == 0
        &&& self.token1_amount == 0
        &&& self.lp_amount == 0
        &&& self.k == 0
    }

    /// The pool that initialization creates: empty, with the given bindings.
    pub open spec fn created(authority: Address, token0: Address, token1: Address, lp_token: Address) -> Dex {
        Dex {
            is_initialized: true,
            authority,
            token0,
            token1,
            lp_token,
            token0_amount: 0,
            token1_amount: 0,
            lp_amount: 0,
            k: 0,
        }
    }

    /// The arithmetic of a deposit of `amount0` and `amount1` leaves 64 bits: the shares
    /// it earns, the new supply, a new reserve or the new product does not fit.
    pub open spec fn deposit_overflows(self, amount0: u64, amount1: u64) -> bool {
        ||| amount0 * amount1 > u64::MAX
        ||| self.lp_amount + amount0 * amount1 > u64::MAX
        ||| self.token0_amount + amount0 > u64::MAX
        ||| self.token1_amount + amount1 > u64::MAX
        ||| (self.token0_amount + amount0) * (self.token1_amount + amount1) > u64::MAX
    }

    /// The arithmetic of a withdrawal leaves 64 bits: the supply times a reserve does
    /// not fit.
    pub open spec fn withdrawal_overflows(self) -> bool {
        ||| self.lp_amount * self.token0_amount > u64::MAX
        ||| self.lp_amount * self.token1_amount > u64::MAX
    }

    /// The arithmetic of a swap that pays `amount_in` of `token_in` leaves 64 bits: the
    /// new reserve of that asset, or the new product, does not fit.
    pub open spec fn trade_overflows(self, token_in: Address, amount_in: u64) -> bool {
        if token_in == self.token0 {
            ||| self.token0_amount + amount_in > u64::MAX
            ||| (self.token0_amount + amount_in) * self.token1_amount > u64::MAX
        } else {
            ||| self.token1_amount + amount_in > u64::MAX
            ||| self.token0_amount * (self.token1_amount + amount_in) > u64::MAX
        }
    }

    /// The pool after a deposit, or why the deposit is refused. A deposit earns
    /// `amount0 * amount1` shares.
    ///
    /// A deposit that passes every other check is still refused when it brings nothing of
    /// one asset.
    pub open spec fn after_deposit(self, amount0: u64, amount1: u64) -> Result<Dex, ErrorCode> {
        if self.deposit_overflows(amount0, amount1) {
            Err(ErrorCode::ArithmeticOverflow)
        } else if (self.token0_amount + amount0) * (self.token1_amount + amount1) < self.k {
            Err(ErrorCode::InvariantViolation)
        } else if amount0 == 0 || amount1 == 0 {
            Err(ErrorCode::ZeroAmount)
        } else {
            Ok(
                self.with_amounts(
                    self.token0_amount + amount0,
                    self.token1_amount + amount1,
                    self.lp_amount + amount0 * amount1,
                ),
            )
        }
    }

    /// The pool after `shares` are handed in, or why the withdrawal is refused.
    ///
    /// The shares are looked at before anything is computed: none outstanding, or more
    /// handed in than are outstanding. A withdrawal then pays out
    /// `supply * reserve / supply` of each asset, which is the whole reserve, however
    /// many shares are handed in. Both reserves are therefore empty afterwards, and the
    /// withdrawal is refused whenever the recorded product is not zero already. A
    /// withdrawal that passes every other check is still refused when no shares are
    /// handed in.
    pub open spec fn after_withdraw(self, shares: u64) -> Result<Dex, ErrorCode> {
        if self.lp_amount == 0 {
            Err(ErrorCode::DivisionByZero)
        } else if shares > self.lp_amount {
            Err(ErrorCode::InsufficientShares)
        } else if self.withdrawal_overflows() {
            Err(ErrorCode::ArithmeticOverflow)
        } else if self.k > 0 {
            Err(ErrorCode::InvariantViolation)
        } else if shares == 0 {
            Err(ErrorCode::ZeroAmount)
        } else {
            Ok(self.with_amounts(0, 0, self.lp_amount - shares))
        }
    }

    /// The pool after `amount_in` of `token_in` is paid in, or why the swap is refused.
    /// The amount is added to the reserve of the asset paid in; nothing is paid out.
    pub open spec fn after_trade(self, token_in: Address, amount_in: u64) -> Result<Dex, ErrorCode> {
        if token_in != self.token0 && token_in != self.token1 {
            Err(ErrorCode::WrongInputToken)
        } else if self.trade_overflows(token_in, amount_in) {
            Err(ErrorCode::ArithmeticOverflow)
        } else if token_in == self.token0 {
            Ok(
                self.with_amounts(
                    self.token0_amount + amount_in,
                    self.token1_amount as int,
                    self.lp_amount as int,
                ),
            )
        } else {
            Ok(
                self.with_amounts(
                    self.token0_amount as int,
                    self.token1_amount + amount_in,
                    self.lp_amount as int,
                ),
            )
        }
    }

    /// A record with nothing set, as it is before a pool is created in it.
    pub fn blank() -> (dex: Dex)
        ensures
            dex.is_blank(),
    {
        let zero = Address::zero();
        Dex {
            is_initialized: false,
            authority: zero,
            token0: zero,
            token1: zero,
            lp_token: zero,
            token0_amount: 0,
            token1_amount: 0,
            lp_amount: 0,
            k: 0,
        }
    }

    /// Whether the record is well formed.
    pub fn is_valid(&self) -> (ok: bool)
        ensures
            ok == self.wf(),
    {
        let product = checked_mul(self.token0_amount, self.token1_amount);
        let exact = match product {
            Ok(p) => p == self.k,
            Err(_) => false,
        };
        self.is_initialized && exact && !self.token0.same(&self.token1) && !self.lp_token.same(
            &self.token0,
        ) && !self.lp_token.same(&self.token1)
    }

    /// Whether no shares are outstanding exactly when both reserves are empty.
    pub fn is_coupled(&self) -> (ok: bool)
        ensures
            ok == self.coupled(),
    {
        (self.lp_amount == 0) == (self.token0_amount == 0 && self.token1_amount == 0)
    }

    /// The record after an attempt to create a pool in it, or why the attempt is refused:
    /// the record holds a pool already, or two of the three assets are the same.
    pub open spec fn after_initialize(
        self,
        authority: Address,
        token0: Address,
        token1: Address,
        lp_token: Address,
    ) -> Result<Dex, ErrorCode> {
        if self.is_initialized {
            Err(ErrorCode::AlreadyInitialized)
        } else if token0 == token1 || lp_token == token0 || lp_token == token1 {
            Err(ErrorCode::SameAsset)
        } else {
            Ok(Dex::created(authority, token0, token1, lp_token))
        }
    }

    /// Creates the pool in a record that holds none yet.
    ///
    /// Fails with `AlreadyInitialized` when the record holds a pool, else with `SameAsset`
    /// when the three assets are not pairwise distinct. A failure changes nothing.
    pub fn initialize(
        &mut self,
        authority: Address,
        token0: Address,
        token1: Address,
        lp_token: Address,
    ) -> (r: Result<(), ErrorCode>)
        ensures
            match old(self).after_initialize(authority, token0, token1, lp_token) {
                Ok(pool) => *final(self) == pool && r == Ok::<(), ErrorCode>(()),
                Err(e) => *final(self) == *old(self) && r == Err::<(), ErrorCode>(e),
            },
            old(self).is_initialized ==> r == Err::<(), ErrorCode>(ErrorCode::AlreadyInitialized),
            r is Ok ==> final(self).wf() && final(self).coupled(),
    {
        if self.is_initialized {
            return Err(ErrorCode::AlreadyInitialized);
        }
        if token0.same(&token1) || lp_token.same(&token0) || lp_token.same(&token1) {
            return Err(ErrorCode::SameAsset);
        }
        self.is_initialized = true;
        self.authority = authority;
        self.token0 = token0;
        self.token1 = token1;
        self.lp_token = lp_token;
        self.token0_amount = 0;
        self.token1_amount = 0;
        self.lp_amount = 0;
        self.k = 0;
        Ok(())
    }

    /// Books a deposit of `token0_amt` and `token1_amt` and returns the shares it earns,
    /// `token0_amt * token1_amt`.
    ///
    /// Fails with `ArithmeticOverflow` exactly when the shares, the new supply, a new
    /// reserve or the new product does not fit in 64 bits, else with `InvariantViolation`
    /// when the new product is below the recorded one, else with `ZeroAmount` when either
    /// amount is zero. A failure changes nothing.
    pub fn deposit(&mut self, token0_amt: u64, token1_amt: u64) -> (r: Result<u64, ErrorCode>)
        ensures
            match old(self).after_deposit(token0_amt, token1_amt) {
                Ok(pool) => *final(self) == pool && r == Ok::<u64, ErrorCode>(
                    (token0_amt * token1_amt) as u64,
                ),
                Err(e) => *final(self) == *old(self) && r == Err::<u64, ErrorCode>(e),
            },
            r == Err::<u64, ErrorCode>(ErrorCode::ArithmeticOverflow) <==> old(
                self,
            ).deposit_overflows(token0_amt, token1_amt),
            token0_amt == 0 || token1_amt == 0 ==> r is Err,
            r is Ok ==> final(self).product() >= old(self).product(),
            r is Ok ==> final(self).k == final(self).product() && final(self).coupled(),
    {
        let liquidity = checked_mul(token0_amt, token1_amt)?;
        let old_k = self.k;
        let lp_amount = checked_add(self.lp_amount, liquidity)?;
        let token0_amount = checked_add(self.token0_amount, token0_amt)?;
        let token1_amount = checked_add(self.token1_amount, token1_amt)?;
        let k = checked_mul(token0_amount, token1_amount)?;
        if k < old_k {
            return Err(ErrorCode::InvariantViolation);
        }
        if token0_amt == 0 || token1_amt == 0 {
            return Err(ErrorCode::ZeroAmount);
        }
        proof {
            assert(token0_amount * token1_amount >= self.token0_amount * self.token1_amount)
                by (nonlinear_arith)
                requires
                    token0_amount >= self.token0_amount,
                    token1_amount >= self.token1_amount,
            ;
            assert(token0_amt * token1_amt > 0) by (nonlinear_arith)
                requires
                    token0_amt > 0,
                    token1_amt > 0,
            ;
        }
        self.lp_amount = lp_amount;
        self.token0_amount = token0_amount;
        self.token1_amount = token1_amount;
        self.k = k;
        Ok(liquidity)
    }

    /// Books the withdrawal of `amount` shares and returns what is paid out of each
    /// reserve: the whole of it.
    ///
    /// Fails with `DivisionByZero` when no shares are outstanding, else with
    /// `InsufficientShares` when `amount` exceeds the supply, else with
    /// `ArithmeticOverflow` exactly when the supply times a reserve does not fit in 64
    /// bits, else with `InvariantViolation` when the recorded product is not zero, else
    /// with `ZeroAmount` when `amount` is zero. A failure changes nothing.
    pub fn withdraw(&mut self, amount: u64) -> (r: Result<(u64, u64), ErrorCode>)
        ensures
            match old(self).after_withdraw(amount) {
                Ok(pool) => *final(self) == pool && r == Ok::<(u64, u64), ErrorCode>(
                    (old(self).token0_amount, old(self).token1_amount),
                ),
                Err(e) => *final(self) == *old(self) && r == Err::<(u64, u64), ErrorCode>(e),
            },
            old(self).lp_amount == 0 ==> r == Err::<(u64, u64), ErrorCode>(
                ErrorCode::DivisionByZero,
            ),
            amount > old(self).lp_amount > 0 ==> r == Err::<(u64, u64), ErrorCode>(
                ErrorCode::InsufficientShares,
            ),
            amount <= old(self).lp_amount && old(self).lp_amount > 0 ==> (r == Err::<
                (u64, u64),
                ErrorCode,
            >(ErrorCode::ArithmeticOverflow) <==> old(self).withdrawal_overflows()),
            amount == 0 ==> r is Err,
            r is Ok ==> final(self).k == final(self).product(),
    {
        let old_k = self.k;
        let supply = self.lp_amount;
        if supply == 0 {
            return Err(ErrorCode::DivisionByZero);
        }
        let lp_amount = match supply.checked_sub(amount) {
            Some(rest) => rest,
            None => {
                return Err(ErrorCode::InsufficientShares);
            },
        };
        let scaled0 = checked_mul(supply, self.token0_amount)?;
        let scaled1 = checked_mul(supply, self.token1_amount)?;
        let amount0 = checked_div(scaled0, supply)?;
        let amount1 = checked_div(scaled1, supply)?;
        proof {
            vstd::arithmetic::div_mod::lemma_div_multiples_vanish(
                self.token0_amount as int,
                supply as int,
            );
            vstd::arithmetic::div_mod::lemma_div_multiples_vanish(
                self.token1_amount as int,
                supply as int,
            );
        }
        let token0_amount = checked_sub(self.token0_amount, amount0)?;
        let token1_amount = checked_sub(self.token1_amount, amount1)?;
        assert(token0_amount * token1_amount == 0) by (nonlinear_arith)
            requires
                token0_amount == 0,
        ;
        let k = checked_mul(token0_amount, token1_amount)?;
        if k < old_k {
            return Err(ErrorCode::InvariantViolation);
        }
        if amount == 0 {
            return Err(ErrorCode::ZeroAmount);
        }
        self.lp_amount = lp_amount;
        self.token0_amount = token0_amount;
        self.token1_amount = token1_amount;
        self.k = k;
        Ok((amount0, amount1))
    }

    /// Books a swap that pays `token_amt_in` of `token_in` into the pool.
    ///
    /// Fails with `WrongInputToken` when `token_in` is neither asset of the pair, and with
    /// `ArithmeticOverflow` when the new reserve or the new product does not fit in 64
    /// bits. The product of the reserves never falls. A failure changes nothing.
    pub fn trade(&mut self, token_in: Address, token_amt_in: u64) -> (r: Result<(), ErrorCode>)
        ensures
            match old(self).after_trade(token_in, token_amt_in) {
                Ok(pool) => *final(self) == pool && r == Ok::<(), ErrorCode>(()),
                Err(e) => *final(self) == *old(self) && r == Err::<(), ErrorCode>(e),
            },
            token_in == old(self).token0 || token_in == old(self).token1 ==> (r == Err::<
                (),
                ErrorCode,
            >(ErrorCode::ArithmeticOverflow) <==> old(self).trade_overflows(token_in, token_amt_in)),
            r is Ok ==> final(self).product() >= old(self).product(),
            r is Ok ==> final(self).k == final(self).product(),
    {
        let reserve0 = self.token0_amount;
        let reserve1 = self.token1_amount;
        let balance0: u64;
        let balance1: u64;
        if token_in.same(&self.token0) {
            balance0 = checked_add(reserve0, token_amt_in)?;
            balance1 = reserve1;
        } else if token_in.same(&self.token1) {
            balance0 = reserve0;
            balance1 = checked_add(reserve1, token_amt_in)?;
        } else {
            return Err(ErrorCode::WrongInputToken);
        }
        let k = checked_mul(balance0, balance1)?;
        proof {
            assert(reserve0 * reserve1 <= balance0 * balance1) by (nonlinear_arith)
                requires
                    reserve0 <= balance0,
                    reserve1 <= balance1,
            ;
        }
        let before = checked_mul(reserve0, reserve1)?;
        if k < before {
            return Err(ErrorCode::InvariantViolation);
        }
        self.token0_amount = balance0;
        self.token1_amount = balance1;
        self.k = k;
        Ok(())
    }
}

} // verus!
