use my_solami_token::{
    get_or_create_associated_token_account, Address, ErrorCode, HoldingEntry, LedgerOp,
    TokenState, Whitelist,
};

fn addr(b: u8) -> Address {
    Address::new([b; 32])
}

fn messy_state() -> TokenState {
    TokenState {
        admin: addr(9),
        total_supply: 5,
        launch_time: -4,
        reward_distribution_start_time: 8,
        total_transactions: 3,
        total_tax_collected: 2,
        total_burned: 1,
        last_transfer_timestamp: 6,
        last_transfer_amount: 7,
        is_frozen: true,
        liquidity_pool_balance: 10,
        staking_pool_balance: 11,
        rewards_pool_balance: 12,
    }
}

#[test]
fn state_initialize_resets() {
    let mut st = messy_state();
    st.initialize(addr(1), 1_000_000, 1_700_000_000);
    assert_eq!(
        st,
        TokenState {
            admin: addr(1),
            total_supply: 1_000_000,
            launch_time: 1_700_000_000,
            reward_distribution_start_time: 1_700_002_520,
            total_transactions: 0,
            total_tax_collected: 0,
            total_burned: 0,
            last_transfer_timestamp: 0,
            last_transfer_amount: 0,
            is_frozen: false,
            liquidity_pool_balance: 0,
            staking_pool_balance: 0,
            rewards_pool_balance: 0,
        }
    );
}

#[test]
fn pool_balance_updates() {
    let mut st = messy_state();
    assert_eq!(st.update_liquidity_pool(100), Ok(()));
    assert_eq!(st.update_staking_pool(200), Ok(()));
    assert_eq!(st.update_rewards_pool(300), Ok(()));
    assert_eq!(st.liquidity_pool_balance, 100);
    assert_eq!(st.staking_pool_balance, 200);
    assert_eq!(st.rewards_pool_balance, 300);
    assert_eq!(st.get_total_tvl(), 600);
    assert_eq!(st.total_supply, 5);
}

#[test]
fn whitelist_initialize_and_contains() {
    let mut wl = Whitelist { wallets: vec![addr(3)] };
    wl.initialize(vec![addr(1), addr(2)]);
    assert_eq!(wl.wallets, vec![addr(1), addr(2)]);
    assert!(wl.contains(&addr(2)));
    assert!(!wl.contains(&addr(3)));
    let empty = Whitelist { wallets: vec![] };
    assert!(!empty.contains(&addr(0)));
}

#[test]
fn entry_present_needs_no_creation() {
    let e = HoldingEntry { key: addr(5), exists: true };
    assert_eq!(get_or_create_associated_token_account(Some(addr(5)), addr(1), addr(2), e), Ok(None));
}

#[test]
fn entry_missing_is_created() {
    let e = HoldingEntry { key: addr(5), exists: false };
    assert_eq!(
        get_or_create_associated_token_account(Some(addr(5)), addr(1), addr(2), e),
        Ok(Some(LedgerOp::CreateEntry { owner: addr(1), entry: addr(5), payer: addr(2) }))
    );
}

#[test]
fn entry_mismatch() {
    let e = HoldingEntry { key: addr(5), exists: false };
    assert_eq!(
        get_or_create_associated_token_account(Some(addr(6)), addr(1), addr(2), e),
        Err(ErrorCode::AccountMismatch)
    );
    assert_eq!(
        get_or_create_associated_token_account(None, addr(1), addr(2), e),
        Err(ErrorCode::AccountMismatch)
    );
}

#[test]
fn error_messages() {
    assert_eq!(ErrorCode::TradingNotEnabled.message(), "Trading not enabled yet");
    assert_eq!(ErrorCode::InvalidAdminAddress.message(), "Invalid new admin address");
}
