use vstd::prelude::*;
use crate::address::Address;
use crate::error::ErrorCode;

verus! {

/// Seconds between launch and the start of reward distribution.
pub const REWARD_DELAY: i64 = 2520;

/// Most addresses a whitelist holds.
pub const WHITELIST_CAPACITY: usize = 15;

/// Global counters and flags of one token mint.
#[derive(Clone, Copy, Debug, PartialEq, Eq)]
pub struct TokenState {
    pub admin: Address,
    pub total_supply: u64,
    pub launch_time: i64,
    pub reward_distribution_start_time: i64,
    pub total_transactions: u64,
    pub total_tax_collected: u64,
    pub total_burned: u64,
    pub last_transfer_timestamp: i64,
    pub last_transfer_amount: u64,
    pub is_frozen: bool,
    pub liquidity_pool_balance: u64,
    pub staking_pool_balance: u64,
    pub rewards_pool_balance: u64,
}

/// The sum of the three cached pool balances, or 0 where it does not fit in
/// a `u64`.
pub open spec fn tvl_of(s: TokenState) -> int {
    let sum = s.liquidity_pool_balance + s.staking_pool_balance + s.rewards_pool_balance;
    if sum <= u64::MAX {
        sum
    } else {
        0
    }
}

/// The state of a freshly launched token.
pub open spec fn genesis_state(admin: Address, supply: u64, launch_time: i64) -> TokenState {
    TokenState {
        admin,
        total_supply: supply,
        launch_time,
        reward_distribution_start_time: (launch_time + REWARD_DELAY) as i64,
        total_transactions: 0,
        total_tax_collected: 0,
        total_burned: 0,
        last_transfer_timestamp: 0,
        last_transfer_amount: 0,
        is_frozen: false,
        liquidity_pool_balance: 0,
        staking_pool_balance: 0,
        rewards_pool_balance: 0,
    }
}

impl TokenState {
    /// Resets every field to the values of a launch at `launch_time`.
    pub fn initialize(&mut self, admin: Address, supply: u64, launch_time: i64)
        requires
            launch_time <= i64::MAX - REWARD_DELAY,
        ensures
            *final(self) == genesis_state(admin, supply, launch_time),
    {
        self.admin = admin;
        self.total_supply = supply;
        self.launch_time = launch_time;
        self.reward_distribution_start_time = launch_time + REWARD_DELAY;
        self.total_transactions = 0;
        self.total_tax_collected = 0;
        self.total_burned = 0;
        self.last_transfer_timestamp = 0;
        self.last_transfer_amount = 0;
        self.is_frozen = false;
        self.liquidity_pool_balance = 0;
        self.staking_pool_balance = 0;
        self.rewards_pool_balance = 0;
    }

    pub fn update_liquidity_pool(&mut self, new_balance: u64) -> (r: Result<(), ErrorCode>)
        ensures
            r.is_ok(),
            *final(self) == (TokenState { liquidity_pool_balance: new_balance, ..*old(self) }),
    {
        self.liquidity_pool_balance = new_balance;
        Ok(())
    }

    pub fn update_staking_pool(&mut self, new_balance: u64) -> (r: Result<(), ErrorCode>)
        ensures
            r.is_ok(),
            *final(self) == (TokenState { staking_pool_balance: new_balance, ..*old(self) }),
    {
        self.staking_pool_balance = new_balance;
        Ok(())
    }

    pub fn update_rewards_pool(&mut self, new_balance: u64) -> (r: Result<(), ErrorCode>)
        ensures
            r.is_ok(),
            *final(self) == (TokenState { rewards_pool_balance: new_balance, ..*old(self) }),
    {
        self.rewards_pool_balance = new_balance;
        Ok(())
    }

    /// Total value locked: liquidity + staking + rewards, or 0 on overflow.
    pub fn get_total_tvl(&self) -> (r: u64)
        ensures
            r == tvl_of(*self),
    {
        match self.liquidity_pool_balance.checked_add(self.staking_pool_balance) {
            Some(sum) => match sum.checked_add(self.rewards_pool_balance) {
                Some(total) => total,
                None => 0,
            },
            None => 0,
        }
    }
}

/// The tax-exempt addresses of one mint, in the order they were added.
#[derive(Clone, Debug, PartialEq, Eq)]
pub struct Whitelist {
    pub wallets: Vec<Address>,
}

impl View for Whitelist {
    type V = Seq<Seq<u8>>;

    open spec fn view(&self) -> Seq<Seq<u8>> {
        self.wallets@.map_values(|a: Address| a@)
    }
}

impl Whitelist {
    /// A whitelist within capacity.
    pub open spec fn wf(&self) -> bool {
        self.wallets@.len() <= WHITELIST_CAPACITY
    }

    pub fn initialize(&mut self, wallets: Vec<Address>)
        ensures
            final(self).wallets@ == wallets@,
    {
        self.wallets = wallets;
    }

    /// Whether `wallet` is on the whitelist.
    pub fn contains(&self, wallet: &Address) -> (r: bool)
        ensures
            r == self@.contains(wallet@),
    {
        let mut i: usize = 0;
        while i < self.wallets.len()
            invariant
                0 <= i <= self.wallets@.len(),
                forall|j: int| 0 <= j < i ==> self.wallets@[j]@ != wallet@,
            decreases self.wallets@.len() - i,
        {
            if self.wallets[i].same_as(wallet) {
                assert(self@[i as int] == wallet@);
                return true;
            }
            i = i + 1;
        }
        assert(!self@.contains(wallet@));
        false
    }
}

/// An operation that the hosting ledger applies on the engine's behalf.
/// Holdings are named by the address of their ledger entry.
#[derive(Clone, Copy, Debug, PartialEq, Eq)]
pub enum LedgerOp {
    /// Create `amount` new tokens in holding `to`, signed by `authority`.
    Mint { to: Address, amount: u64, authority: Address },
    /// Move `amount` tokens from holding `from` to holding `to`.
    Transfer { from: Address, to: Address, amount: u64, authority: Address },
    /// Destroy `amount` tokens held in holding `from`.
    Burn { from: Address, amount: u64, authority: Address },
    /// Create the holding entry `entry` of `owner`, paid by `payer`.
    CreateEntry { owner: Address, entry: Address, payer: Address },
}

/// The amount a ledger operation creates, moves or destroys.
pub open spec fn op_amount(op: LedgerOp) -> int {
    match op {
        LedgerOp::Mint { amount, .. } => amount as int,
        LedgerOp::Transfer { amount, .. } => amount as int,
        LedgerOp::Burn { amount, .. } => amount as int,
        LedgerOp::CreateEntry { .. } => 0,
    }
}

/// The holding an operation takes tokens out of, if any.
pub open spec fn op_source(op: LedgerOp) -> Option<Address> {
    match op {
        LedgerOp::Transfer { from, .. } => Some(from),
        LedgerOp::Burn { from, .. } => Some(from),
        _ => None,
    }
}

/// The sum of the amounts of `ops`.
pub open spec fn ops_total(ops: Seq<LedgerOp>) -> int
    decreases ops.len(),
{
    if ops.len() == 0 {
        0
    } else {
        ops_total(ops.drop_last()) + op_amount(ops.last())
    }
}

/// Notification of a completed transfer.
#[derive(Clone, Copy, Debug, PartialEq, Eq)]
pub struct TransferEvent {
    pub sender: Address,
    pub receiver: Address,
    pub amount: u64,
    pub timestamp: i64,
    pub tax_amount: u64,
}

/// Notification of a completed burn.
#[derive(Clone, Copy, Debug, PartialEq, Eq)]
pub struct BurnEvent {
    pub burner: Address,
    pub amount: u64,
    pub timestamp: i64,
    pub new_total_supply: u64,
}

/// Notification of a reward sweep out of a pool.
#[derive(Clone, Copy, Debug, PartialEq, Eq)]
pub struct SwapEvent {
    pub amount: u64,
    pub timestamp: i64,
    pub pool: Address,
}

/// Notification of a whitelist change.
#[derive(Clone, Copy, Debug, PartialEq, Eq)]
pub struct WhitelistEvent {
    pub wallet: Address,
    pub is_added: bool,
    pub timestamp: i64,
}

} // verus!
