use std::collections::HashMap;

use dex_pool::{
    add_liquidity, initialize_dex, remove_liquidity, swap, Address, Dex, Directive, ErrorCode,
    InitializeDex, LedgerCall, LiquidityOperations, Receipt, Settlement, Swap, TokenAccount,
};

fn key(tag: u8) -> Address {
    let mut bytes = [0u8; 32];
    bytes[0] = tag;
    Address::new(bytes)
}

const TOKEN_A: u8 = 1;
const TOKEN_B: u8 = 2;
const TOKEN_LP: u8 = 3;
const AUTHORITY: u8 = 10;
const USER: u8 = 20;
const USER_A: u8 = 21;
const USER_B: u8 = 22;
const USER_LP: u8 = 23;
const POOL_A: u8 = 31;
const POOL_B: u8 = 32;
const POOL_LP: u8 = 33;

fn account(at: u8, mint: u8, owner: u8) -> TokenAccount {
    TokenAccount { key: key(at), mint: key(mint), owner: key(owner) }
}

fn init_accounts() -> InitializeDex {
    InitializeDex {
        authority: key(AUTHORITY),
        payer: key(USER),
        payer_signed: true,
        mint_token0: key(TOKEN_A),
        mint_token1: key(TOKEN_B),
        mint_lp: key(TOKEN_LP),
        acc_token0: account(POOL_A, TOKEN_A, AUTHORITY),
        acc_token1: account(POOL_B, TOKEN_B, AUTHORITY),
        acc_lp: account(POOL_LP, TOKEN_LP, AUTHORITY),
    }
}

fn liquidity_accounts() -> LiquidityOperations {
    LiquidityOperations {
        user: key(USER),
        user_signed: true,
        authority: key(AUTHORITY),
        mint_lp: key(TOKEN_LP),
        user_token0: account(USER_A, TOKEN_A, USER),
        user_token1: account(USER_B, TOKEN_B, USER),
        user_lp: account(USER_LP, TOKEN_LP, USER),
        acc_token0: account(POOL_A, TOKEN_A, AUTHORITY),
        acc_token1: account(POOL_B, TOKEN_B, AUTHORITY),
        acc_lp: account(POOL_LP, TOKEN_LP, AUTHORITY),
    }
}

fn swap_accounts() -> Swap {
    Swap {
        user: key(USER),
        user_signed: true,
        authority: key(AUTHORITY),
        user_token0: account(USER_A, TOKEN_A, USER),
        user_token1: account(USER_B, TOKEN_B, USER),
        acc_token0: account(POOL_A, TOKEN_A, AUTHORITY),
        acc_token1: account(POOL_B, TOKEN_B, AUTHORITY),
        acc_lp: account(POOL_LP, TOKEN_LP, AUTHORITY),
    }
}

fn created_pool() -> Dex {
    let mut dex = Dex::blank();
    assert_eq!(initialize_dex(&mut dex, &init_accounts()), Ok(()));
    dex
}

/// A ledger in memory. It refuses a call that would overdraw an account, and the call
/// whose number is `fail_at`.
struct TestLedger {
    balances: HashMap<Address, u64>,
    supply: HashMap<Address, u64>,
    calls_seen: usize,
    fail_at: Option<usize>,
}

impl TestLedger {
    fn new() -> TestLedger {
        let mut balances = HashMap::new();
        balances.insert(key(USER_A), 10_000);
        balances.insert(key(USER_B), 10_000);
        TestLedger { balances, supply: HashMap::new(), calls_seen: 0, fail_at: None }
    }

    fn balance(&self, account: u8) -> u64 {
        self.balances.get(&key(account)).copied().unwrap_or(0)
    }

    fn issued(&self, asset: u8) -> u64 {
        self.supply.get(&key(asset)).copied().unwrap_or(0)
    }

    fn take(&mut self, account: Address, amount: u64) -> bool {
        let held = self.balances.get(&account).copied().unwrap_or(0);
        if held < amount {
            return false;
        }
        self.balances.insert(account, held - amount);
        true
    }

    fn give(&mut self, account: Address, amount: u64) {
        let held = self.balances.get(&account).copied().unwrap_or(0);
        self.balances.insert(account, held + amount);
    }

    fn perform(&mut self, call: LedgerCall) -> bool {
        let number = self.calls_seen;
        self.calls_seen += 1;
        if self.fail_at == Some(number) {
            return false;
        }
        match call {
            LedgerCall::Transfer { asset: _, from, to, amount } => {
                if !self.take(from, amount) {
                    return false;
                }
                self.give(to, amount);
                true
            }
            LedgerCall::Mint { asset, to, amount } => {
                self.give(to, amount);
                let issued = self.supply.get(&asset).copied().unwrap_or(0);
                self.supply.insert(asset, issued + amount);
                true
            }
            LedgerCall::Burn { asset, from, amount } => {
                if !self.take(from, amount) {
                    return false;
                }
                let issued = self.supply.get(&asset).copied().unwrap_or(0);
                self.supply.insert(asset, issued - amount);
                true
            }
        }
    }
}

/// Drives a settlement against the ledger, as a caller of the library does.
fn settle(dex: &mut Dex, mut settlement: Settlement, ledger: &mut TestLedger) -> Result<Receipt, ErrorCode> {
    loop {
        match settlement.directive() {
            Directive::Call(call) => {
                let accepted = ledger.perform(call);
                settlement.record(accepted);
            }
            Directive::Commit { pool, receipt } => {
                *dex = pool;
                return Ok(receipt);
            }
            Directive::Abort { pool, undo, error } => {
                ledger.fail_at = None;
                for call in undo {
                    assert!(ledger.perform(call));
                }
                *dex = pool;
                return Err(error);
            }
        }
    }
}

#[test]
fn initialize_dex_yields_zeroed_pool() {
    let dex = created_pool();
    assert!(dex.is_initialized);
    assert_eq!(dex.authority, key(AUTHORITY));
    assert_eq!(dex.token0, key(TOKEN_A));
    assert_eq!(dex.token1, key(TOKEN_B));
    assert_eq!(dex.lp_token, key(TOKEN_LP));
    assert_eq!((dex.token0_amount, dex.token1_amount, dex.lp_amount, dex.k), (0, 0, 0, 0));
}

#[test]
fn initialize_dex_twice_is_already_initialized() {
    let mut dex = created_pool();
    let before = dex;
    assert_eq!(initialize_dex(&mut dex, &init_accounts()), Err(ErrorCode::AlreadyInitialized));
    assert_eq!(dex, before);
}

#[test]
fn initialize_dex_checks_accounts_first() {
    let mut unsigned = init_accounts();
    unsigned.payer_signed = false;
    let mut wrong_mint = init_accounts();
    wrong_mint.acc_token1 = account(POOL_B, TOKEN_A, AUTHORITY);
    let mut wrong_owner = init_accounts();
    wrong_owner.acc_lp = account(POOL_LP, TOKEN_LP, USER);
    let mut wrong_first = init_accounts();
    wrong_first.acc_token0 = account(POOL_A, TOKEN_B, AUTHORITY);
    for accounts in [unsigned, wrong_mint, wrong_owner, wrong_first] {
        let mut dex = Dex::blank();
        assert_eq!(initialize_dex(&mut dex, &accounts), Err(ErrorCode::AccountMismatch));
        assert_eq!(dex, Dex::blank());
        let mut live = created_pool();
        let before = live;
        assert_eq!(initialize_dex(&mut live, &accounts), Err(ErrorCode::AccountMismatch));
        assert_eq!(live, before);
    }
}

#[test]
fn initialize_dex_with_equal_assets_is_same_asset() {
    let mut same_pair = init_accounts();
    same_pair.mint_token1 = key(TOKEN_A);
    same_pair.acc_token1 = account(POOL_B, TOKEN_A, AUTHORITY);
    let mut share_is_first = init_accounts();
    share_is_first.mint_lp = key(TOKEN_A);
    share_is_first.acc_lp = account(POOL_LP, TOKEN_A, AUTHORITY);
    let mut share_is_second = init_accounts();
    share_is_second.mint_lp = key(TOKEN_B);
    share_is_second.acc_lp = account(POOL_LP, TOKEN_B, AUTHORITY);
    for accounts in [same_pair, share_is_first, share_is_second] {
        let mut dex = Dex::blank();
        assert_eq!(initialize_dex(&mut dex, &accounts), Err(ErrorCode::SameAsset));
        assert_eq!(dex, Dex::blank());
        let mut live = created_pool();
        let before = live;
        assert_eq!(initialize_dex(&mut live, &accounts), Err(ErrorCode::AlreadyInitialized));
        assert_eq!(live, before);
        let mut unsigned = accounts;
        unsigned.payer_signed = false;
        assert_eq!(initialize_dex(&mut dex, &unsigned), Err(ErrorCode::AccountMismatch));
        assert_eq!(dex, Dex::blank());
    }
}

#[test]
fn add_liquidity_plans_two_transfers_and_a_mint() {
    let dex = created_pool();
    let settlement = add_liquidity(&dex, &liquidity_accounts(), 1000, 2000).unwrap();
    assert_eq!(settlement.before, dex);
    assert_eq!(settlement.after.token0_amount, 1000);
    assert_eq!(settlement.after.token1_amount, 2000);
    assert_eq!(settlement.after.lp_amount, 2_000_000);
    assert_eq!(settlement.after.k, 2_000_000);
    assert_eq!(settlement.receipt, Receipt::Shares(2_000_000));
    assert_eq!(settlement.confirmed, 0);
    assert!(!settlement.refused);
    assert_eq!(
        settlement.calls,
        vec![
            LedgerCall::Transfer {
                asset: key(TOKEN_A),
                from: key(USER_A),
                to: key(POOL_A),
                amount: 1000
            },
            LedgerCall::Transfer {
                asset: key(TOKEN_B),
                from: key(USER_B),
                to: key(POOL_B),
                amount: 2000
            },
            LedgerCall::Mint { asset: key(TOKEN_LP), to: key(USER_LP), amount: 2_000_000 },
        ]
    );
}

#[test]
fn add_liquidity_settles_on_the_ledger() {
    let mut dex = created_pool();
    let mut ledger = TestLedger::new();
    let settlement = add_liquidity(&dex, &liquidity_accounts(), 1000, 2000).unwrap();
    assert_eq!(settle(&mut dex, settlement, &mut ledger), Ok(Receipt::Shares(2_000_000)));
    assert_eq!((dex.token0_amount, dex.token1_amount, dex.lp_amount, dex.k), (1000, 2000, 2_000_000, 2_000_000));
    assert_eq!(ledger.balance(USER_A), 9_000);
    assert_eq!(ledger.balance(USER_B), 8_000);
    assert_eq!(ledger.balance(POOL_A), 1000);
    assert_eq!(ledger.balance(POOL_B), 2000);
    assert_eq!(ledger.balance(USER_LP), 2_000_000);
    assert_eq!(ledger.issued(TOKEN_LP), 2_000_000);
}

#[test]
fn add_liquidity_overflow_is_refused() {
    let dex = created_pool();
    assert_eq!(
        add_liquidity(&dex, &liquidity_accounts(), 1 << 32, 1 << 32),
        Err(ErrorCode::ArithmeticOverflow)
    );
}

#[test]
fn add_liquidity_checks_accounts_before_arithmetic() {
    let dex = created_pool();
    let mut unsigned = liquidity_accounts();
    unsigned.user_signed = false;
    let mut wrong_authority = liquidity_accounts();
    wrong_authority.authority = key(USER);
    let mut wrong_share = liquidity_accounts();
    wrong_share.mint_lp = key(TOKEN_A);
    let mut foreign_account = liquidity_accounts();
    foreign_account.user_token0 = account(USER_A, TOKEN_A, AUTHORITY);
    let mut wrong_asset = liquidity_accounts();
    wrong_asset.user_token1 = account(USER_B, TOKEN_A, USER);
    let mut wrong_user_lp = liquidity_accounts();
    wrong_user_lp.user_lp = account(USER_LP, TOKEN_B, USER);
    let mut pool_not_owned = liquidity_accounts();
    pool_not_owned.acc_token0 = account(POOL_A, TOKEN_A, USER);
    let mut pool_wrong_asset = liquidity_accounts();
    pool_wrong_asset.acc_token1 = account(POOL_B, TOKEN_LP, AUTHORITY);
    let mut pool_wrong_lp = liquidity_accounts();
    pool_wrong_lp.acc_lp = account(POOL_LP, TOKEN_A, AUTHORITY);
    for accounts in [
        unsigned,
        wrong_authority,
        wrong_share,
        foreign_account,
        wrong_asset,
        wrong_user_lp,
        pool_not_owned,
        pool_wrong_asset,
        pool_wrong_lp,
    ] {
        assert_eq!(accounts.check(&dex), Err(ErrorCode::AccountMismatch));
        assert_eq!(add_liquidity(&dex, &accounts, 1000, 2000), Err(ErrorCode::AccountMismatch));
        assert_eq!(
            add_liquidity(&dex, &accounts, 1 << 32, 1 << 32),
            Err(ErrorCode::AccountMismatch)
        );
        assert_eq!(remove_liquidity(&dex, &accounts, 5), Err(ErrorCode::AccountMismatch));
    }
    assert_eq!(liquidity_accounts().check(&dex), Ok(()));
}

#[test]
fn transfers_within_one_account_are_a_mismatch() {
    let mut dex = created_pool();
    dex.authority = key(USER);
    let mut accounts = liquidity_accounts();
    accounts.authority = key(USER);
    accounts.acc_token0 = account(POOL_A, TOKEN_A, USER);
    accounts.acc_token1 = account(POOL_B, TOKEN_B, USER);
    accounts.acc_lp = account(POOL_LP, TOKEN_LP, USER);
    assert_eq!(accounts.check(&dex), Ok(()));
    let mut first = accounts;
    first.acc_token0 = first.user_token0;
    assert_eq!(first.check(&dex), Err(ErrorCode::AccountMismatch));
    let mut second = accounts;
    second.acc_token1 = second.user_token1;
    assert_eq!(second.check(&dex), Err(ErrorCode::AccountMismatch));
    let mut trade = swap_accounts();
    trade.authority = key(USER);
    trade.acc_token0 = account(POOL_A, TOKEN_A, USER);
    trade.acc_token1 = account(POOL_B, TOKEN_B, USER);
    trade.acc_lp = account(POOL_LP, TOKEN_LP, USER);
    assert_eq!(trade.check(&dex), Ok(()));
    let mut trade_first = trade;
    trade_first.acc_token0 = trade_first.user_token0;
    assert_eq!(trade_first.check(&dex), Err(ErrorCode::AccountMismatch));
    let mut trade_second = trade;
    trade_second.acc_token1 = trade_second.user_token1;
    assert_eq!(trade_second.check(&dex), Err(ErrorCode::AccountMismatch));
}

#[test]
fn ledger_failure_on_second_transfer_leaves_no_trace() {
    let mut dex = created_pool();
    let before = dex;
    let mut ledger = TestLedger::new();
    ledger.fail_at = Some(1);
    let settlement = add_liquidity(&dex, &liquidity_accounts(), 1000, 2000).unwrap();
    assert_eq!(settle(&mut dex, settlement, &mut ledger), Err(ErrorCode::LedgerError));
    assert_eq!(dex, before);
    assert_eq!((dex.token0_amount, dex.token1_amount, dex.lp_amount, dex.k), (0, 0, 0, 0));
    assert_eq!(ledger.balance(USER_A), 10_000);
    assert_eq!(ledger.balance(USER_B), 10_000);
    assert_eq!(ledger.balance(POOL_A), 0);
    assert_eq!(ledger.balance(POOL_B), 0);
    assert_eq!(ledger.balance(USER_LP), 0);
    assert_eq!(ledger.issued(TOKEN_LP), 0);
}

#[test]
fn refusal_hands_back_old_pool_and_reversed_calls() {
    let dex = created_pool();
    let mut settlement = add_liquidity(&dex, &liquidity_accounts(), 1000, 2000).unwrap();
    let first = LedgerCall::Transfer {
        asset: key(TOKEN_A),
        from: key(USER_A),
        to: key(POOL_A),
        amount: 1000,
    };
    let second = LedgerCall::Transfer {
        asset: key(TOKEN_B),
        from: key(USER_B),
        to: key(POOL_B),
        amount: 2000,
    };
    assert_eq!(settlement.directive(), Directive::Call(first));
    settlement.record(true);
    assert_eq!(settlement.confirmed, 1);
    assert_eq!(settlement.directive(), Directive::Call(second));
    settlement.record(true);
    assert_eq!(
        settlement.directive(),
        Directive::Call(LedgerCall::Mint { asset: key(TOKEN_LP), to: key(USER_LP), amount: 2_000_000 })
    );
    settlement.record(false);
    assert!(settlement.refused);
    assert_eq!(settlement.confirmed, 2);
    assert_eq!(
        settlement.directive(),
        Directive::Abort {
            pool: dex,
            undo: vec![
                LedgerCall::Transfer {
                    asset: key(TOKEN_B),
                    from: key(POOL_B),
                    to: key(USER_B),
                    amount: 2000
                },
                LedgerCall::Transfer {
                    asset: key(TOKEN_A),
                    from: key(POOL_A),
                    to: key(USER_A),
                    amount: 1000
                },
            ],
            error: ErrorCode::LedgerError,
        }
    );
}

#[test]
fn refusal_of_first_call_needs_no_undo() {
    let dex = created_pool();
    let mut settlement = add_liquidity(&dex, &liquidity_accounts(), 1000, 2000).unwrap();
    settlement.record(false);
    assert_eq!(
        settlement.directive(),
        Directive::Abort { pool: dex, undo: vec![], error: ErrorCode::LedgerError }
    );
}

#[test]
fn commit_comes_after_last_confirmation() {
    let dex = created_pool();
    let mut settlement = swap(&dex, &swap_accounts(), key(TOKEN_A), 500).unwrap();
    assert_eq!(settlement.calls.len(), 1);
    settlement.record(true);
    match settlement.directive() {
        Directive::Commit { pool, receipt } => {
            assert_eq!(pool.token0_amount, 500);
            assert_eq!(receipt, Receipt::Swapped);
        }
        other => panic!("unexpected directive {:?}", other),
    }
}

#[test]
fn reverse_of_each_call() {
    let mint = LedgerCall::Mint { asset: key(TOKEN_LP), to: key(USER_LP), amount: 7 };
    let burn = LedgerCall::Burn { asset: key(TOKEN_LP), from: key(USER_LP), amount: 7 };
    let there = LedgerCall::Transfer { asset: key(TOKEN_A), from: key(USER_A), to: key(POOL_A), amount: 9 };
    let back = LedgerCall::Transfer { asset: key(TOKEN_A), from: key(POOL_A), to: key(USER_A), amount: 9 };
    assert_eq!(mint.reverse(), burn);
    assert_eq!(burn.reverse(), mint);
    assert_eq!(there.reverse(), back);
    assert_eq!(back.reverse(), there);
}

#[test]
fn compensation_reverses_only_confirmed_calls() {
    let dex = created_pool();
    let calls = vec![
        LedgerCall::Burn { asset: key(TOKEN_LP), from: key(USER_LP), amount: 4 },
        LedgerCall::Transfer { asset: key(TOKEN_A), from: key(POOL_A), to: key(USER_A), amount: 5 },
        LedgerCall::Transfer { asset: key(TOKEN_B), from: key(POOL_B), to: key(USER_B), amount: 6 },
    ];
    let mut settlement = Settlement::new(dex, dex, Receipt::Amounts(5, 6), calls);
    assert_eq!(settlement.compensation(), vec![]);
    settlement.record(true);
    settlement.record(true);
    assert_eq!(
        settlement.compensation(),
        vec![
            LedgerCall::Transfer { asset: key(TOKEN_A), from: key(USER_A), to: key(POOL_A), amount: 5 },
            LedgerCall::Mint { asset: key(TOKEN_LP), to: key(USER_LP), amount: 4 },
        ]
    );
}

#[test]
fn swap_with_unrelated_asset_is_wrong_input_token() {
    let mut dex = created_pool();
    let mut ledger = TestLedger::new();
    let deposit = add_liquidity(&dex, &liquidity_accounts(), 1000, 2000).unwrap();
    settle(&mut dex, deposit, &mut ledger).unwrap();
    let before = dex;
    assert_eq!(swap(&dex, &swap_accounts(), key(99), 100), Err(ErrorCode::WrongInputToken));
    assert_eq!(dex, before);
    assert_eq!((dex.token0_amount, dex.token1_amount), (1000, 2000));
}

#[test]
fn swap_of_first_asset_after_deposit() {
    let mut dex = created_pool();
    let mut ledger = TestLedger::new();
    let deposit = add_liquidity(&dex, &liquidity_accounts(), 1000, 2000).unwrap();
    settle(&mut dex, deposit, &mut ledger).unwrap();
    let old_k = dex.k;
    let trade = swap(&dex, &swap_accounts(), key(TOKEN_A), 500).unwrap();
    assert_eq!(
        trade.calls,
        vec![LedgerCall::Transfer {
            asset: key(TOKEN_A),
            from: key(USER_A),
            to: key(POOL_A),
            amount: 500
        }]
    );
    assert_eq!(settle(&mut dex, trade, &mut ledger), Ok(Receipt::Swapped));
    assert_eq!(dex.token0_amount, 1500);
    assert_eq!(dex.token1_amount, 2000);
    assert_eq!(dex.k, 3_000_000);
    assert_eq!(old_k, 2_000_000);
    assert_eq!(ledger.balance(POOL_A), 1500);
    assert_eq!(ledger.balance(USER_A), 8_500);
    assert_eq!(ledger.balance(POOL_B), 2000);
}

#[test]
fn swap_of_second_asset_uses_second_accounts() {
    let mut dex = created_pool();
    let mut ledger = TestLedger::new();
    let deposit = add_liquidity(&dex, &liquidity_accounts(), 1000, 2000).unwrap();
    settle(&mut dex, deposit, &mut ledger).unwrap();
    let trade = swap(&dex, &swap_accounts(), key(TOKEN_B), 300).unwrap();
    assert_eq!(
        trade.calls,
        vec![LedgerCall::Transfer {
            asset: key(TOKEN_B),
            from: key(USER_B),
            to: key(POOL_B),
            amount: 300
        }]
    );
    assert_eq!(trade.after.token0_amount, 1000);
    assert_eq!(trade.after.token1_amount, 2300);
    assert_eq!(trade.after.k, 2_300_000);
}

#[test]
fn swap_refused_by_ledger_keeps_pool() {
    let mut dex = created_pool();
    let mut ledger = TestLedger::new();
    let deposit = add_liquidity(&dex, &liquidity_accounts(), 1000, 2000).unwrap();
    settle(&mut dex, deposit, &mut ledger).unwrap();
    let before = dex;
    let trade = swap(&dex, &swap_accounts(), key(TOKEN_A), 9_001).unwrap();
    assert_eq!(settle(&mut dex, trade, &mut ledger), Err(ErrorCode::LedgerError));
    assert_eq!(dex, before);
    assert_eq!(ledger.balance(USER_A), 9_000);
    assert_eq!(ledger.balance(POOL_A), 1000);
}

#[test]
fn swap_overflow_is_refused() {
    let mut dex = created_pool();
    dex.token0_amount = u64::MAX - 5;
    dex.token1_amount = 1;
    dex.lp_amount = u64::MAX - 5;
    dex.k = u64::MAX - 5;
    assert_eq!(swap(&dex, &swap_accounts(), key(TOKEN_A), 6), Err(ErrorCode::ArithmeticOverflow));
    assert_eq!(swap(&dex, &swap_accounts(), key(TOKEN_B), 1), Err(ErrorCode::ArithmeticOverflow));
}

#[test]
fn swap_checks_accounts_before_the_asset() {
    let dex = created_pool();
    let mut unsigned = swap_accounts();
    unsigned.user_signed = false;
    let mut wrong_authority = swap_accounts();
    wrong_authority.authority = key(USER);
    let mut foreign_account = swap_accounts();
    foreign_account.user_token1 = account(USER_B, TOKEN_B, AUTHORITY);
    let mut wrong_user_asset = swap_accounts();
    wrong_user_asset.user_token0 = account(USER_A, TOKEN_B, USER);
    let mut pool_wrong_asset = swap_accounts();
    pool_wrong_asset.acc_token0 = account(POOL_A, TOKEN_B, AUTHORITY);
    let mut pool_not_owned = swap_accounts();
    pool_not_owned.acc_token1 = account(POOL_B, TOKEN_B, USER);
    let mut pool_wrong_lp = swap_accounts();
    pool_wrong_lp.acc_lp = account(POOL_LP, TOKEN_B, AUTHORITY);
    for accounts in [
        unsigned,
        wrong_authority,
        foreign_account,
        wrong_user_asset,
        pool_wrong_asset,
        pool_not_owned,
        pool_wrong_lp,
    ] {
        assert_eq!(accounts.check(&dex), Err(ErrorCode::AccountMismatch));
        assert_eq!(swap(&dex, &accounts, key(TOKEN_A), 5), Err(ErrorCode::AccountMismatch));
        assert_eq!(swap(&dex, &accounts, key(99), 5), Err(ErrorCode::AccountMismatch));
    }
    assert_eq!(swap_accounts().check(&dex), Ok(()));
}

#[test]
fn remove_liquidity_errors_in_order() {
    let empty = created_pool();
    assert_eq!(remove_liquidity(&empty, &liquidity_accounts(), 5), Err(ErrorCode::DivisionByZero));
    let mut funded = empty;
    funded.token0_amount = 1000;
    funded.token1_amount = 2000;
    funded.lp_amount = 2_000_000;
    funded.k = 2_000_000;
    assert_eq!(
        remove_liquidity(&funded, &liquidity_accounts(), 2_000_001),
        Err(ErrorCode::InsufficientShares)
    );
    assert_eq!(
        remove_liquidity(&funded, &liquidity_accounts(), 2_000_000),
        Err(ErrorCode::InvariantViolation)
    );
    let mut huge = funded;
    huge.lp_amount = 1 << 62;
    assert_eq!(
        remove_liquidity(&huge, &liquidity_accounts(), u64::MAX),
        Err(ErrorCode::InsufficientShares)
    );
    assert_eq!(
        remove_liquidity(&huge, &liquidity_accounts(), 1 << 62),
        Err(ErrorCode::ArithmeticOverflow)
    );
    assert_eq!(
        remove_liquidity(&huge, &liquidity_accounts(), 1),
        Err(ErrorCode::ArithmeticOverflow)
    );
    assert_eq!(
        remove_liquidity(&huge, &liquidity_accounts(), 0),
        Err(ErrorCode::ArithmeticOverflow)
    );
    assert_eq!(remove_liquidity(&funded, &liquidity_accounts(), 0), Err(ErrorCode::InvariantViolation));
    assert_eq!(remove_liquidity(&empty, &liquidity_accounts(), 0), Err(ErrorCode::DivisionByZero));
    let mut one_sided = empty;
    one_sided.token0_amount = 40;
    one_sided.lp_amount = 10;
    assert_eq!(remove_liquidity(&one_sided, &liquidity_accounts(), 0), Err(ErrorCode::ZeroAmount));
    assert_eq!(remove_liquidity(&one_sided, &liquidity_accounts(), 11), Err(ErrorCode::InsufficientShares));
}

#[test]
fn remove_liquidity_of_too_many_shares_after_large_deposit() {
    let mut dex = created_pool();
    let mut ledger = TestLedger::new();
    ledger.balances.insert(key(USER_A), 4_194_304);
    ledger.balances.insert(key(USER_B), 4_194_304);
    let deposit = add_liquidity(&dex, &liquidity_accounts(), 4_194_304, 4_194_304).unwrap();
    assert_eq!(settle(&mut dex, deposit, &mut ledger), Ok(Receipt::Shares(1 << 44)));
    let before = dex;
    assert_eq!(
        remove_liquidity(&dex, &liquidity_accounts(), (1 << 44) + 1),
        Err(ErrorCode::InsufficientShares)
    );
    assert_eq!(dex, before);
    assert_eq!(ledger.balance(USER_LP), 1 << 44);
    assert_eq!(ledger.balance(POOL_A), 4_194_304);
}

#[test]
fn add_liquidity_of_nothing_is_refused() {
    let dex = created_pool();
    for (x, y) in [(0, 2000), (1000, 0), (0, 0), (0, u64::MAX)] {
        assert_eq!(add_liquidity(&dex, &liquidity_accounts(), x, y), Err(ErrorCode::ZeroAmount));
    }
    let mut funded = dex;
    funded.token0_amount = 1000;
    funded.token1_amount = 2000;
    funded.lp_amount = 2_000_000;
    funded.k = 2_000_000;
    assert_eq!(add_liquidity(&funded, &liquidity_accounts(), 0, 2000), Err(ErrorCode::ZeroAmount));
    assert_eq!(
        add_liquidity(&funded, &liquidity_accounts(), 0, u64::MAX),
        Err(ErrorCode::ArithmeticOverflow)
    );
    let mut unsigned = liquidity_accounts();
    unsigned.user_signed = false;
    assert_eq!(add_liquidity(&dex, &unsigned, 0, 2000), Err(ErrorCode::AccountMismatch));
    assert_eq!(remove_liquidity(&dex, &unsigned, 0), Err(ErrorCode::AccountMismatch));
}

#[test]
fn add_liquidity_overflow_in_each_quantity() {
    let accounts = liquidity_accounts();
    let empty = created_pool();
    assert_eq!(add_liquidity(&empty, &accounts, 1 << 32, 1 << 32), Err(ErrorCode::ArithmeticOverflow));
    let mut full_supply = empty;
    full_supply.lp_amount = u64::MAX - 10;
    assert_eq!(add_liquidity(&full_supply, &accounts, 3, 4), Err(ErrorCode::ArithmeticOverflow));
    assert!(add_liquidity(&full_supply, &accounts, 2, 5).is_ok());
    let mut full_first = empty;
    full_first.token0_amount = u64::MAX - 5;
    assert_eq!(add_liquidity(&full_first, &accounts, 6, 1), Err(ErrorCode::ArithmeticOverflow));
    let mut full_second = empty;
    full_second.token1_amount = u64::MAX - 5;
    assert_eq!(add_liquidity(&full_second, &accounts, 1, 6), Err(ErrorCode::ArithmeticOverflow));
    let mut large = empty;
    large.token0_amount = 1 << 31;
    large.token1_amount = 1 << 31;
    large.lp_amount = 1 << 62;
    large.k = 1 << 62;
    assert_eq!(add_liquidity(&large, &accounts, 1 << 31, 1 << 31), Err(ErrorCode::ArithmeticOverflow));
    assert_eq!(
        add_liquidity(&large, &accounts, 1, 1).map(|s| (s.receipt, s.after.k)),
        Ok((Receipt::Shares(1), ((1u64 << 31) + 1) * ((1u64 << 31) + 1)))
    );
}

#[test]
fn remove_liquidity_burns_then_pays_out() {
    let mut dex = created_pool();
    dex.token0_amount = 40;
    dex.lp_amount = 10;
    let mut ledger = TestLedger::new();
    ledger.balances.insert(key(POOL_A), 40);
    ledger.balances.insert(key(USER_LP), 10);
    ledger.supply.insert(key(TOKEN_LP), 10);
    let settlement = remove_liquidity(&dex, &liquidity_accounts(), 10).unwrap();
    assert_eq!(settlement.receipt, Receipt::Amounts(40, 0));
    assert_eq!(
        settlement.calls,
        vec![
            LedgerCall::Burn { asset: key(TOKEN_LP), from: key(USER_LP), amount: 10 },
            LedgerCall::Transfer {
                asset: key(TOKEN_A),
                from: key(POOL_A),
                to: key(USER_A),
                amount: 40
            },
            LedgerCall::Transfer {
                asset: key(TOKEN_B),
                from: key(POOL_B),
                to: key(USER_B),
                amount: 0
            },
        ]
    );
    assert_eq!(settle(&mut dex, settlement, &mut ledger), Ok(Receipt::Amounts(40, 0)));
    assert_eq!((dex.token0_amount, dex.token1_amount, dex.lp_amount, dex.k), (0, 0, 0, 0));
    assert_eq!(ledger.balance(POOL_A), 0);
    assert_eq!(ledger.balance(USER_A), 10_040);
    assert_eq!(ledger.balance(USER_LP), 0);
    assert_eq!(ledger.issued(TOKEN_LP), 0);
}

#[test]
fn remove_liquidity_refused_midway_restores_ledger() {
    let mut dex = created_pool();
    dex.token0_amount = 40;
    dex.lp_amount = 10;
    let before = dex;
    let mut ledger = TestLedger::new();
    ledger.balances.insert(key(POOL_A), 40);
    ledger.balances.insert(key(USER_LP), 10);
    ledger.supply.insert(key(TOKEN_LP), 10);
    ledger.fail_at = Some(2);
    let settlement = remove_liquidity(&dex, &liquidity_accounts(), 10).unwrap();
    assert_eq!(settle(&mut dex, settlement, &mut ledger), Err(ErrorCode::LedgerError));
    assert_eq!(dex, before);
    assert_eq!(ledger.balance(POOL_A), 40);
    assert_eq!(ledger.balance(USER_A), 10_000);
    assert_eq!(ledger.balance(USER_LP), 10);
    assert_eq!(ledger.issued(TOKEN_LP), 10);
}
