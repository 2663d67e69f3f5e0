use vstd::prelude::*;
use crate::address::{
    Address, ProgramIds, associated_address, authority_of, derive_authority, entry_address_of,
};
use crate::error::ErrorCode;
use crate::state::{
    LedgerOp, REWARD_DELAY, TokenState, Whitelist, WHITELIST_CAPACITY, genesis_state,
};

verus! {

/// The accounts of a token launch, named by their addresses.
#[derive(Clone, Copy, Debug)]
pub struct InitializeToken {
    /// The launching admin, who also pays for new holding entries.
    pub admin: Address,
    pub mint: Address,
    /// The mint authority the caller supplies; it must be the derived one.
    pub mint_authority: Address,
    /// Receives the burn reserve and the marketing share.
    pub admin_token_account: Address,
    /// Receives the liquidity share.
    pub lp_pool: Address,
}

/// A whitelisted wallet's holding entry as supplied by the caller: its
/// address, and whether the ledger already has it.
#[derive(Clone, Copy, Debug)]
pub struct HoldingEntry {
    pub key: Address,
    pub exists: bool,
}

/// `supply * pct / 100`, the share of the supply at `pct` percent.
pub open spec fn share_of(supply: u64, pct: int) -> int {
    supply * pct / 100
}

/// What each of `n` whitelisted wallets receives: an even split of fifteen
/// percent of the supply, the remainder dropped.
pub open spec fn per_wallet_of(supply: u64, n: int) -> int {
    share_of(supply, 15) / n
}

/// The mints of the liquidity share, the burn reserve and the marketing
/// share.
pub open spec fn supply_ops(ctx: InitializeToken, supply: u64) -> Seq<LedgerOp> {
    seq![
        LedgerOp::Mint {
            to: ctx.lp_pool,
            amount: share_of(supply, 40) as u64,
            authority: ctx.mint_authority,
        },
        LedgerOp::Mint {
            to: ctx.admin_token_account,
            amount: share_of(supply, 30) as u64,
            authority: ctx.mint_authority,
        },
        LedgerOp::Mint {
            to: ctx.admin_token_account,
            amount: share_of(supply, 15) as u64,
            authority: ctx.mint_authority,
        },
    ]
}

/// The operations for one whitelisted wallet: create its entry where
/// missing, then mint its share into it.
pub open spec fn wallet_ops(
    ctx: InitializeToken,
    owner: Address,
    e: HoldingEntry,
    share: u64,
) -> Seq<LedgerOp> {
    let mint = seq![LedgerOp::Mint { to: e.key, amount: share, authority: ctx.mint_authority }];
    if e.exists {
        mint
    } else {
        seq![LedgerOp::CreateEntry { owner, entry: e.key, payer: ctx.admin }] + mint
    }
}

/// The operations for the first `n` whitelisted wallets, in order.
pub open spec fn wallets_ops(
    ctx: InitializeToken,
    wallets: Seq<Address>,
    entries: Seq<HoldingEntry>,
    share: u64,
    n: nat,
) -> Seq<LedgerOp>
    decreases n,
{
    if n == 0 {
        seq![]
    } else {
        wallets_ops(ctx, wallets, entries, share, (n - 1) as nat) + wallet_ops(
            ctx,
            wallets[n - 1],
            entries[n - 1],
            share,
        )
    }
}

/// Whether the `i`-th supplied entry is the derived holding entry of the
/// `i`-th wallet.
pub open spec fn entry_matches(
    ctx: InitializeToken,
    ids: ProgramIds,
    wallets: Seq<Address>,
    entries: Seq<HoldingEntry>,
    i: int,
) -> bool {
    entry_address_of(wallets[i]@, ctx.mint@, ids) == Some(entries[i].key@)
}

/// Whether `expected`, a derived entry address, is `key`.
pub open spec fn entry_is(expected: Option<Address>, key: Address) -> bool {
    match expected {
        Some(a) => a@ == key@,
        None => false,
    }
}

/// Checks the supplied holding entry of `owner` against `expected`, the
/// address derived for it, and asks for the entry's creation, paid by
/// `payer`, where the ledger does not have it yet.
pub fn get_or_create_associated_token_account(
    expected: Option<Address>,
    owner: Address,
    payer: Address,
    entry: HoldingEntry,
) -> (r: Result<Option<LedgerOp>, ErrorCode>)
    ensures
        !entry_is(expected, entry.key) ==> r == Err::<Option<LedgerOp>, ErrorCode>(
            ErrorCode::AccountMismatch,
        ),
        entry_is(expected, entry.key) && entry.exists ==> r == Ok::<Option<LedgerOp>, ErrorCode>(
            None,
        ),
        entry_is(expected, entry.key) && !entry.exists ==> r == Ok::<Option<LedgerOp>, ErrorCode>(
            Some(LedgerOp::CreateEntry { owner, entry: entry.key, payer }),
        ),
{
    let matches = match expected {
        Some(a) => a.same_as(&entry.key),
        None => false,
    };
    if !matches {
        return Err(ErrorCode::AccountMismatch);
    }
    if entry.exists {
        Ok(None)
    } else {
        Ok(Some(LedgerOp::CreateEntry { owner, entry: entry.key, payer }))
    }
}

/// What the distribution of `supply` to `wallets` asks of the ledger.
pub open spec fn distribution(
    ctx: InitializeToken,
    ids: ProgramIds,
    supply: u64,
    wallets: Seq<Address>,
    entries: Seq<HoldingEntry>,
) -> Result<Seq<LedgerOp>, ErrorCode> {
    if supply * 40 > u64::MAX || wallets.len() == 0 {
        Err(ErrorCode::ArithmeticOverflow)
    } else if entries.len() < wallets.len() {
        Err(ErrorCode::InsufficientAccounts)
    } else if exists|i: int|
        0 <= i < wallets.len() && !entry_matches(ctx, ids, wallets, entries, i) {
        Err(ErrorCode::AccountMismatch)
    } else {
        Ok(
            supply_ops(ctx, supply) + wallets_ops(
                ctx,
                wallets,
                entries,
                per_wallet_of(supply, wallets.len() as int) as u64,
                wallets.len(),
            ),
        )
    }
}

/// Splits the initial supply: forty percent to the liquidity pool, thirty
/// (burn reserve) and fifteen (marketing) to the admin's holding, and fifteen
/// evenly across the whitelisted wallets, whose holding entries `entries`
/// gives in the same order.
pub fn distribute_initial_supply(
    ctx: InitializeToken,
    ids: &ProgramIds,
    total_supply: u64,
    whitelist_wallets: &Vec<Address>,
    entries: &Vec<HoldingEntry>,
) -> (r: Result<Vec<LedgerOp>, ErrorCode>)
    ensures
        match distribution(ctx, *ids, total_supply, whitelist_wallets@, entries@) {
            Ok(ops) => r matches Ok(v) && v@ == ops,
            Err(e) => r == Err::<Vec<LedgerOp>, ErrorCode>(e),
        },
{
    let lp_amount = match total_supply.checked_mul(40) {
        Some(t) => t / 100,
        None => {
            return Err(ErrorCode::ArithmeticOverflow);
        },
    };
    let whitelist_amount = total_supply * 15 / 100;
    let burn_allocation = total_supply * 30 / 100;
    let marketing_amount = total_supply * 15 / 100;
    let n = whitelist_wallets.len();
    if n == 0 {
        return Err(ErrorCode::ArithmeticOverflow);
    }
    let whitelist_per_wallet = whitelist_amount / (n as u64);
    if entries.len() < n {
        return Err(ErrorCode::InsufficientAccounts);
    }
    let mut ops: Vec<LedgerOp> = vec![
        LedgerOp::Mint { to: ctx.lp_pool, amount: lp_amount, authority: ctx.mint_authority },
        LedgerOp::Mint {
            to: ctx.admin_token_account,
            amount: burn_allocation,
            authority: ctx.mint_authority,
        },
        LedgerOp::Mint {
            to: ctx.admin_token_account,
            amount: marketing_amount,
            authority: ctx.mint_authority,
        },
    ];
    let ghost share = whitelist_per_wallet;
    assert(share == per_wallet_of(total_supply, n as int));
    assert(ops@ =~= supply_ops(ctx, total_supply) + wallets_ops(
        ctx,
        whitelist_wallets@,
        entries@,
        share,
        0,
    ));
    let mut i: usize = 0;
    while i < n
        invariant
            n == whitelist_wallets@.len(),
            n <= entries@.len(),
            n > 0,
            total_supply * 40 <= u64::MAX,
            0 <= i <= n,
            share == whitelist_per_wallet,
            ops@ == supply_ops(ctx, total_supply) + wallets_ops(
                ctx,
                whitelist_wallets@,
                entries@,
                share,
                i as nat,
            ),
            forall|j: int| 0 <= j < i ==> entry_matches(ctx, *ids, whitelist_wallets@, entries@, j),
        decreases n - i,
    {
        let wallet = whitelist_wallets[i];
        let entry = entries[i];
        let expected = associated_address(&wallet, &ctx.mint, ids);
        let checked = get_or_create_associated_token_account(expected, wallet, ctx.admin, entry);
        let create = match checked {
            Ok(c) => c,
            Err(e) => {
                assert(!entry_matches(ctx, *ids, whitelist_wallets@, entries@, i as int));
                return Err(e);
            },
        };
        let ghost before = ops@;
        match create {
            Some(op) => ops.push(op),
            None => {},
        }
        ops.push(
            LedgerOp::Mint {
                to: entry.key,
                amount: whitelist_per_wallet,
                authority: ctx.mint_authority,
            },
        );
        assert(ops@ =~= before + wallet_ops(ctx, wallet, entry, share));
        assert(ops@ =~= supply_ops(ctx, total_supply) + wallets_ops(
            ctx,
            whitelist_wallets@,
            entries@,
            share,
            (i + 1) as nat,
        ));
        i = i + 1;
    }
    Ok(ops)
}

/// A launched token: its state, its whitelist, and the mints and entry
/// creations the ledger must apply.
#[derive(Clone, Debug)]
pub struct Genesis {
    pub state: TokenState,
    pub whitelist: Whitelist,
    pub ops: Vec<LedgerOp>,
}

/// The first precondition of a launch that fails, if any.
pub open spec fn launch_gate(
    ctx: InitializeToken,
    ids: ProgramIds,
    now: i64,
    total_supply: u64,
    n: int,
) -> Option<ErrorCode> {
    if total_supply == 0 {
        Some(ErrorCode::InvalidSupply)
    } else if n < 1 || n > WHITELIST_CAPACITY {
        Some(ErrorCode::InvalidWhitelistSize)
    } else if authority_of(ctx.mint@, ids.program@) != Some(ctx.mint_authority@) {
        Some(ErrorCode::AccountMismatch)
    } else if now > i64::MAX - REWARD_DELAY {
        Some(ErrorCode::ArithmeticOverflow)
    } else {
        None
    }
}

/// Launches a token at time `now` with `total_supply` tokens and the given
/// whitelist, and distributes the supply.
pub fn initialize_token(
    ctx: InitializeToken,
    ids: &ProgramIds,
    now: i64,
    total_supply: u64,
    whitelist_wallets: Vec<Address>,
    entries: &Vec<HoldingEntry>,
) -> (r: Result<Genesis, ErrorCode>)
    ensures
        launch_gate(ctx, *ids, now, total_supply, whitelist_wallets@.len() as int) matches Some(e)
            ==> r == Err::<Genesis, ErrorCode>(e),
        launch_gate(ctx, *ids, now, total_supply, whitelist_wallets@.len() as int) is None
            ==> match distribution(ctx, *ids, total_supply, whitelist_wallets@, entries@) {
            Ok(ops) => r matches Ok(g) && {
                &&& g.ops@ == ops
                &&& g.state == genesis_state(ctx.admin, total_supply, now)
                &&& g.whitelist.wallets@ == whitelist_wallets@
                &&& g.whitelist.wf()
            },
            Err(e) => r == Err::<Genesis, ErrorCode>(e),
        },
{
    if total_supply == 0 {
        return Err(ErrorCode::InvalidSupply);
    }
    if whitelist_wallets.len() < 1 || whitelist_wallets.len() > WHITELIST_CAPACITY {
        return Err(ErrorCode::InvalidWhitelistSize);
    }
    let authorized = match derive_authority(&ctx.mint, &ids.program) {
        Some(a) => a.same_as(&ctx.mint_authority),
        None => false,
    };
    if !authorized {
        return Err(ErrorCode::AccountMismatch);
    }
    if now > i64::MAX - REWARD_DELAY {
        return Err(ErrorCode::ArithmeticOverflow);
    }
    let mut state = TokenState {
        admin: ctx.admin,
        total_supply: 0,
        launch_time: 0,
        reward_distribution_start_time: 0,
        total_transactions: 0,
        total_tax_collected: 0,
        total_burned: 0,
        last_transfer_timestamp: 0,
        last_transfer_amount: 0,
        is_frozen: false,
        liquidity_pool_balance: 0,
        staking_pool_balance: 0,
        rewards_pool_balance: 0,
    };
    state.initialize(ctx.admin, total_supply, now);
    let ops = match distribute_initial_supply(ctx, ids, total_supply, &whitelist_wallets, entries) {
        Ok(o) => o,
        Err(e) => {
            return Err(e);
        },
    };
    let mut whitelist = Whitelist { wallets: Vec::new() };
    whitelist.initialize(whitelist_wallets);
    Ok(Genesis { state, whitelist, ops })
}

} // verus!
