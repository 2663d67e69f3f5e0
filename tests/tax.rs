use my_solami_token::{
    allocate_tax, calculate_transfer_amounts, split_tax, Address, AllocateTaxAccounts, ErrorCode,
    LedgerOp, TaxSplit, TokenState, Whitelist,
};

fn addr(b: u8) -> Address {
    Address::new([b; 32])
}

fn state() -> TokenState {
    TokenState {
        admin: addr(1),
        total_supply: 1_000_000,
        launch_time: 1_000,
        reward_distribution_start_time: 3_520,
        total_transactions: 0,
        total_tax_collected: 0,
        total_burned: 0,
        last_transfer_timestamp: 0,
        last_transfer_amount: 0,
        is_frozen: false,
        liquidity_pool_balance: 0,
        staking_pool_balance: 0,
        rewards_pool_balance: 0,
    }
}

#[test]
fn taxed_transfer_of_thousand() {
    let wl = Whitelist { wallets: vec![addr(7)] };
    assert_eq!(calculate_transfer_amounts(&wl, &addr(9), 1_000), Ok((900, 100)));
}

#[test]
fn whitelisted_receiver_pays_no_tax() {
    let wl = Whitelist { wallets: vec![addr(7), addr(9)] };
    assert_eq!(calculate_transfer_amounts(&wl, &addr(9), 1_000), Ok((1_000, 0)));
    assert_eq!(calculate_transfer_amounts(&wl, &addr(9), u64::MAX), Ok((u64::MAX, 0)));
}

#[test]
fn tax_rounds_down() {
    let wl = Whitelist { wallets: vec![] };
    assert_eq!(calculate_transfer_amounts(&wl, &addr(9), 19), Ok((18, 1)));
    assert_eq!(calculate_transfer_amounts(&wl, &addr(9), 9), Ok((9, 0)));
    for a in [1u64, 55, 12_345, u64::MAX / 10] {
        let (net, tax) = calculate_transfer_amounts(&wl, &addr(9), a).unwrap();
        assert_eq!(tax, a * 10 / 100);
        assert_eq!(net + tax, a);
    }
}

#[test]
fn tax_multiply_overflows() {
    let wl = Whitelist { wallets: vec![] };
    assert_eq!(
        calculate_transfer_amounts(&wl, &addr(9), u64::MAX / 10 + 1),
        Err(ErrorCode::ArithmeticOverflow)
    );
}

#[test]
fn split_of_hundred() {
    assert_eq!(split_tax(100), Ok(TaxSplit { rewards: 70, lp: 20, burn: 10 }));
}

#[test]
fn split_remainder_goes_to_burn() {
    assert_eq!(split_tax(1), Ok(TaxSplit { rewards: 0, lp: 0, burn: 1 }));
    assert_eq!(split_tax(19), Ok(TaxSplit { rewards: 13, lp: 3, burn: 3 }));
    assert_eq!(split_tax(0), Ok(TaxSplit { rewards: 0, lp: 0, burn: 0 }));
}

#[test]
fn split_sums_to_tax() {
    for t in [0u64, 1, 3, 7, 99, 1_000_001, u64::MAX / 10] {
        let s = split_tax(t).unwrap();
        assert_eq!(s.rewards + s.lp + s.burn, t);
    }
}

#[test]
fn split_overflow() {
    assert_eq!(split_tax(u64::MAX), Err(ErrorCode::ArithmeticOverflow));
}

#[test]
fn allocation_moves_and_burns() {
    let mut st = state();
    st.total_burned = 5;
    let acc = AllocateTaxAccounts {
        sender: addr(2),
        rewards_pool: addr(3),
        lp_fund: addr(4),
        sender_authority: addr(5),
    };
    let ops = allocate_tax(&mut st, acc, 100).unwrap();
    assert_eq!(
        ops,
        vec![
            LedgerOp::Transfer { from: addr(2), to: addr(3), amount: 70, authority: addr(5) },
            LedgerOp::Transfer { from: addr(2), to: addr(4), amount: 20, authority: addr(5) },
            LedgerOp::Burn { from: addr(2), amount: 10, authority: addr(5) },
        ]
    );
    assert_eq!(st.total_burned, 15);
    assert_eq!(st.total_tax_collected, 0);
    assert_eq!(st.total_supply, 1_000_000);
}

#[test]
fn allocation_burn_counter_overflow() {
    let mut st = state();
    st.total_burned = u64::MAX;
    let acc = AllocateTaxAccounts {
        sender: addr(2),
        rewards_pool: addr(3),
        lp_fund: addr(4),
        sender_authority: addr(5),
    };
    assert_eq!(allocate_tax(&mut st, acc, 100), Err(ErrorCode::ArithmeticOverflow));
    assert_eq!(st.total_burned, u64::MAX);
}
