use my_solami_token::{
    add_wallet, freeze_contract, manual_burn, prepare_rewards_swap, remove_wallet,
    transfer_ownership, transfer_tokens, update_tvl_data, user_burn, Address, BurnEvent,
    ErrorCode, FreezeContract, LedgerOp, ManualBurn, PoolRefresh, SwapEvent, SwapRewards,
    TokenState, TransferEvent, TransferOwnership, TransferTokens, UpdateTVL, UserBurn, Whitelist,
    WhitelistEvent, WhitelistOperation,
};

fn addr(b: u8) -> Address {
    Address::new([b; 32])
}

fn state() -> TokenState {
    TokenState {
        admin: addr(1),
        total_supply: 1_000_000,
        launch_time: 1_000,
        reward_distribution_start_time: 3_520,
        total_transactions: 4,
        total_tax_collected: 50,
        total_burned: 20,
        last_transfer_timestamp: 0,
        last_transfer_amount: 0,
        is_frozen: false,
        liquidity_pool_balance: 0,
        staking_pool_balance: 0,
        rewards_pool_balance: 0,
    }
}

fn accounts(receiver: Address) -> TransferTokens {
    TransferTokens {
        sender: addr(10),
        receiver,
        rewards_pool: addr(11),
        lp_fund: addr(12),
        lp_pool: addr(13),
        sender_authority: addr(14),
    }
}

#[test]
fn transfer_thousand_taxed() {
    let mut st = state();
    let wl = Whitelist { wallets: vec![addr(30)] };
    let out = transfer_tokens(&mut st, &wl, accounts(addr(20)), 5_000, 1_300, 1_000).unwrap();
    assert_eq!(
        out.ops,
        vec![
            LedgerOp::Transfer { from: addr(10), to: addr(20), amount: 900, authority: addr(14) },
            LedgerOp::Transfer { from: addr(10), to: addr(11), amount: 70, authority: addr(14) },
            LedgerOp::Transfer { from: addr(10), to: addr(12), amount: 20, authority: addr(14) },
            LedgerOp::Burn { from: addr(10), amount: 10, authority: addr(14) },
        ]
    );
    assert_eq!(
        out.event,
        TransferEvent {
            sender: addr(10),
            receiver: addr(20),
            amount: 900,
            timestamp: 1_300,
            tax_amount: 100
        }
    );
    assert_eq!(out.refresh, PoolRefresh::Nothing);
    assert_eq!(st.total_transactions, 5);
    assert_eq!(st.total_tax_collected, 150);
    assert_eq!(st.total_burned, 30);
    assert_eq!(st.total_supply, 1_000_000);
}

#[test]
fn transfer_to_whitelisted_untaxed() {
    let mut st = state();
    let wl = Whitelist { wallets: vec![addr(20)] };
    let out = transfer_tokens(&mut st, &wl, accounts(addr(20)), 1_000, 2_000, 1_000).unwrap();
    assert_eq!(
        out.ops,
        vec![LedgerOp::Transfer { from: addr(10), to: addr(20), amount: 1_000, authority: addr(14) }]
    );
    assert_eq!(out.event.tax_amount, 0);
    assert_eq!(out.event.amount, 1_000);
    assert_eq!(st.total_transactions, 5);
    assert_eq!(st.total_tax_collected, 50);
    assert_eq!(st.total_burned, 20);
}

#[test]
fn transfer_small_amount_no_allocation() {
    let mut st = state();
    let wl = Whitelist { wallets: vec![] };
    let out = transfer_tokens(&mut st, &wl, accounts(addr(20)), 9, 2_000, 9).unwrap();
    assert_eq!(out.ops.len(), 1);
    assert_eq!(out.event.tax_amount, 0);
    assert_eq!(st.total_burned, 20);
}

#[test]
fn transfer_before_trading_opens() {
    let mut st = state();
    let before = st;
    let wl = Whitelist { wallets: vec![] };
    let r = transfer_tokens(&mut st, &wl, accounts(addr(20)), 5_000, 1_299, 1_000);
    assert_eq!(r.err(), Some(ErrorCode::TradingNotEnabled));
    assert_eq!(st, before);
    let r = transfer_tokens(&mut st, &wl, accounts(addr(20)), 5_000, i64::MIN, 1_000);
    assert_eq!(r.err(), Some(ErrorCode::TradingNotEnabled));
    assert_eq!(st, before);
}

#[test]
fn transfer_opens_at_exactly_three_hundred() {
    let mut st = state();
    let wl = Whitelist { wallets: vec![] };
    assert!(transfer_tokens(&mut st, &wl, accounts(addr(20)), 5_000, 1_300, 1_000).is_ok());
}

#[test]
fn transfer_while_frozen() {
    let mut st = state();
    st.is_frozen = true;
    let before = st;
    let wl = Whitelist { wallets: vec![] };
    let r = transfer_tokens(&mut st, &wl, accounts(addr(20)), 5_000, 2_000, 1_000);
    assert_eq!(r.err(), Some(ErrorCode::ContractFrozen));
    let r = transfer_tokens(&mut st, &wl, accounts(addr(20)), 0, 2_000, 1_000);
    assert_eq!(r.err(), Some(ErrorCode::ContractFrozen));
    assert_eq!(st, before);
}

#[test]
fn transfer_insufficient_balance_and_zero_amount() {
    let mut st = state();
    let before = st;
    let wl = Whitelist { wallets: vec![] };
    let r = transfer_tokens(&mut st, &wl, accounts(addr(20)), 999, 2_000, 1_000);
    assert_eq!(r.err(), Some(ErrorCode::InsufficientBalance));
    let r = transfer_tokens(&mut st, &wl, accounts(addr(20)), 999, 2_000, 0);
    assert_eq!(r.err(), Some(ErrorCode::InvalidAmount));
    assert_eq!(st, before);
}

#[test]
fn transfer_counter_overflow_leaves_state() {
    let mut st = state();
    st.total_transactions = u64::MAX;
    let before = st;
    let wl = Whitelist { wallets: vec![] };
    let r = transfer_tokens(&mut st, &wl, accounts(addr(20)), 5_000, 2_000, 1_000);
    assert_eq!(r.err(), Some(ErrorCode::ArithmeticOverflow));
    assert_eq!(st, before);
}

#[test]
fn transfer_into_pools_asks_refresh() {
    let wl = Whitelist { wallets: vec![] };
    let mut st = state();
    let out = transfer_tokens(&mut st, &wl, accounts(addr(13)), 5_000, 2_000, 100).unwrap();
    assert_eq!(out.refresh, PoolRefresh::Liquidity);
    let out = transfer_tokens(&mut st, &wl, accounts(addr(11)), 5_000, 2_000, 100).unwrap();
    assert_eq!(out.refresh, PoolRefresh::Rewards);
}

#[test]
fn admin_burn_updates_counters() {
    let mut st = state();
    let ctx = ManualBurn { admin: addr(1), admin_token_account: addr(40) };
    let out = manual_burn(&mut st, ctx, 500, 77, 300).unwrap();
    assert_eq!(out.op, LedgerOp::Burn { from: addr(40), amount: 300, authority: addr(1) });
    assert_eq!(
        out.event,
        BurnEvent { burner: addr(1), amount: 300, timestamp: 77, new_total_supply: 999_700 }
    );
    assert_eq!(st.total_supply, 999_700);
    assert_eq!(st.total_burned, 320);
}

#[test]
fn admin_burn_refusals() {
    let mut st = state();
    let before = st;
    let bad = ManualBurn { admin: addr(2), admin_token_account: addr(40) };
    assert_eq!(manual_burn(&mut st, bad, 500, 77, 300).err(), Some(ErrorCode::Unauthorized));
    let ctx = ManualBurn { admin: addr(1), admin_token_account: addr(40) };
    assert_eq!(manual_burn(&mut st, ctx, 299, 77, 300).err(), Some(ErrorCode::InsufficientBalance));
    assert_eq!(
        manual_burn(&mut st, ctx, u64::MAX, 77, 1_000_001).err(),
        Some(ErrorCode::ArithmeticOverflow)
    );
    assert_eq!(st, before);
}

#[test]
fn user_burn_whole_supply() {
    let mut st = state();
    let ctx = UserBurn { user: addr(5), user_token_account: addr(41) };
    let out = user_burn(&mut st, ctx, 1_000_000, 9, 1_000_000).unwrap();
    assert_eq!(out.event.new_total_supply, 0);
    assert_eq!(out.op, LedgerOp::Burn { from: addr(41), amount: 1_000_000, authority: addr(5) });
    assert_eq!(st.total_supply, 0);
    assert_eq!(st.total_burned, 1_000_020);
}

#[test]
fn user_burn_refusals() {
    let mut st = state();
    let before = st;
    let ctx = UserBurn { user: addr(5), user_token_account: addr(41) };
    assert_eq!(user_burn(&mut st, ctx, 10, 9, 11).err(), Some(ErrorCode::InsufficientBalance));
    assert_eq!(
        user_burn(&mut st, ctx, u64::MAX, 9, 1_000_001).err(),
        Some(ErrorCode::ArithmeticOverflow)
    );
    st.total_burned = u64::MAX;
    let full = st;
    assert_eq!(user_burn(&mut st, ctx, 10, 9, 1).err(), Some(ErrorCode::ArithmeticOverflow));
    assert_eq!(st, full);
    assert_ne!(before, full);
}

#[test]
fn rewards_swap() {
    let st = state();
    let ctx = SwapRewards { admin: addr(1), rewards_pool: addr(11), swap_wallet: addr(50) };
    let (op, ev) = prepare_rewards_swap(&st, ctx, 100, 42, 60).unwrap();
    assert_eq!(op, LedgerOp::Transfer { from: addr(11), to: addr(50), amount: 60, authority: addr(1) });
    assert_eq!(ev, SwapEvent { amount: 60, timestamp: 42, pool: addr(11) });
    assert_eq!(prepare_rewards_swap(&st, ctx, 59, 42, 60).err(), Some(ErrorCode::InsufficientBalance));
    let bad = SwapRewards { admin: addr(2), ..ctx };
    assert_eq!(prepare_rewards_swap(&st, bad, 100, 42, 60).err(), Some(ErrorCode::Unauthorized));
}

#[test]
fn ownership_to_default_identity_refused() {
    let mut st = state();
    let r = transfer_ownership(&mut st, TransferOwnership { admin: addr(1) }, Address::new([0; 32]));
    assert_eq!(r, Err(ErrorCode::InvalidAdminAddress));
    assert_eq!(st.admin, addr(1));
}

#[test]
fn ownership_handover() {
    let mut st = state();
    assert_eq!(
        transfer_ownership(&mut st, TransferOwnership { admin: addr(2) }, addr(3)),
        Err(ErrorCode::Unauthorized)
    );
    assert_eq!(st.admin, addr(1));
    let mut key = [0u8; 32];
    key[31] = 1;
    assert_eq!(transfer_ownership(&mut st, TransferOwnership { admin: addr(1) }, Address::new(key)), Ok(()));
    assert_eq!(st.admin, Address::new(key));
    assert_eq!(
        freeze_contract(&mut st, FreezeContract { admin: addr(1) }, true),
        Err(ErrorCode::Unauthorized)
    );
}

#[test]
fn freeze_is_idempotent() {
    let mut st = state();
    assert_eq!(freeze_contract(&mut st, FreezeContract { admin: addr(1) }, true), Ok(()));
    assert!(st.is_frozen);
    assert_eq!(freeze_contract(&mut st, FreezeContract { admin: addr(1) }, true), Ok(()));
    assert!(st.is_frozen);
    assert_eq!(freeze_contract(&mut st, FreezeContract { admin: addr(1) }, false), Ok(()));
    assert!(!st.is_frozen);
}

#[test]
fn tvl_snapshot_and_total() {
    let mut st = state();
    assert_eq!(update_tvl_data(&mut st, UpdateTVL { admin: addr(2) }, 1, 2, 3), Err(ErrorCode::Unauthorized));
    assert_eq!(update_tvl_data(&mut st, UpdateTVL { admin: addr(1) }, 100, 20, 3), Ok(()));
    assert_eq!(st.liquidity_pool_balance, 100);
    assert_eq!(st.rewards_pool_balance, 20);
    assert_eq!(st.staking_pool_balance, 3);
    assert_eq!(st.get_total_tvl(), 123);
    assert_eq!(update_tvl_data(&mut st, UpdateTVL { admin: addr(1) }, u64::MAX, 1, 0), Ok(()));
    assert_eq!(st.get_total_tvl(), 0);
    assert_eq!(update_tvl_data(&mut st, UpdateTVL { admin: addr(1) }, u64::MAX - 1, 0, 1), Ok(()));
    assert_eq!(st.get_total_tvl(), u64::MAX);
}

#[test]
fn whitelist_add_and_remove() {
    let st = state();
    let op = WhitelistOperation { admin: addr(1) };
    let mut wl = Whitelist { wallets: vec![addr(20)] };
    assert_eq!(
        add_wallet(&st, op, &mut wl, addr(21), 5),
        Ok(WhitelistEvent { wallet: addr(21), is_added: true, timestamp: 5 })
    );
    assert_eq!(wl.wallets, vec![addr(20), addr(21)]);
    assert!(add_wallet(&st, op, &mut wl, addr(20), 5).is_ok());
    assert_eq!(wl.wallets, vec![addr(20), addr(21)]);
    assert!(wl.contains(&addr(21)));
    assert_eq!(
        remove_wallet(&st, op, &mut wl, addr(20), 6),
        Ok(WhitelistEvent { wallet: addr(20), is_added: false, timestamp: 6 })
    );
    assert_eq!(wl.wallets, vec![addr(21)]);
    assert!(!wl.contains(&addr(20)));
    assert_eq!(remove_wallet(&st, op, &mut wl, addr(20), 6), Err(ErrorCode::NotInWhitelist));
    let bad = WhitelistOperation { admin: addr(9) };
    assert_eq!(add_wallet(&st, bad, &mut wl, addr(22), 5), Err(ErrorCode::Unauthorized));
    assert_eq!(remove_wallet(&st, bad, &mut wl, addr(21), 5), Err(ErrorCode::Unauthorized));
    assert_eq!(wl.wallets, vec![addr(21)]);
}

#[test]
fn whitelist_capacity() {
    let st = state();
    let op = WhitelistOperation { admin: addr(1) };
    let mut wl = Whitelist { wallets: (0..14u8).map(addr).collect() };
    assert!(add_wallet(&st, op, &mut wl, addr(100), 1).is_ok());
    assert_eq!(wl.wallets.len(), 15);
    assert_eq!(add_wallet(&st, op, &mut wl, addr(101), 1), Err(ErrorCode::WhitelistFull));
    assert_eq!(wl.wallets.len(), 15);
}

fn amount_of(op: &LedgerOp) -> u64 {
    match op {
        LedgerOp::Mint { amount, .. } => *amount,
        LedgerOp::Transfer { amount, .. } => *amount,
        LedgerOp::Burn { amount, .. } => *amount,
        LedgerOp::CreateEntry { .. } => 0,
    }
}

#[test]
fn transfer_ops_take_exactly_the_amount() {
    let wl = Whitelist { wallets: vec![addr(21)] };
    for (receiver, amount) in [(addr(20), 1_000u64), (addr(20), 12_345), (addr(21), 777), (addr(20), 10)] {
        let mut st = state();
        let out = transfer_tokens(&mut st, &wl, accounts(receiver), u64::MAX, 5_000, amount).unwrap();
        let total: u64 = out.ops.iter().map(amount_of).sum();
        assert_eq!(total, amount);
        for op in &out.ops {
            match op {
                LedgerOp::Transfer { from, .. } | LedgerOp::Burn { from, .. } => assert_eq!(*from, addr(10)),
                _ => panic!("unexpected operation"),
            }
        }
    }
}
