use vstd::prelude::*;
use crate::address::{Address, is_zero};
use crate::error::ErrorCode;
use crate::state::{
    BurnEvent, LedgerOp, SwapEvent, TokenState, TransferEvent, Whitelist, WhitelistEvent,
    WHITELIST_CAPACITY,
};
use crate::state::{op_source, ops_total};
use crate::tax::{
    allocation_routes_whole_tax,
    AllocateTaxAccounts, allocate_tax, allocation_fits, allocation_ops, calculate_transfer_amounts,
    split_of, transfer_split,
};

verus! {

/// Seconds after launch before transfers are accepted.
pub const TRADING_DELAY: i64 = 300;

/// Whether trading has opened at time `now`.
pub open spec fn trading_open(state: TokenState, now: i64) -> bool {
    now - state.launch_time >= TRADING_DELAY
}

/// The holdings a transfer touches, named by their entry addresses.
#[derive(Clone, Copy, Debug)]
pub struct TransferTokens {
    pub sender: Address,
    pub receiver: Address,
    pub rewards_pool: Address,
    pub lp_fund: Address,
    pub lp_pool: Address,
    /// The mint-derived authority that signs the moves.
    pub sender_authority: Address,
}

/// Which cached pool balance must be re-read once a transfer has been
/// applied, because the transfer paid into that pool.
#[derive(Clone, Copy, Debug, PartialEq, Eq, Structural)]
pub enum PoolRefresh {
    Nothing,
    Liquidity,
    Rewards,
}

/// What an accepted transfer asks of the ledger and reports.
#[derive(Clone, Debug)]
pub struct TransferOutcome {
    pub ops: Vec<LedgerOp>,
    pub event: TransferEvent,
    pub refresh: PoolRefresh,
}

/// The first precondition of a transfer that fails, if any.
pub open spec fn transfer_gate(
    state: TokenState,
    sender_balance: u64,
    now: i64,
    amount: u64,
) -> Option<ErrorCode> {
    if !trading_open(state, now) {
        Some(ErrorCode::TradingNotEnabled)
    } else if state.is_frozen {
        Some(ErrorCode::ContractFrozen)
    } else if sender_balance < amount {
        Some(ErrorCode::InsufficientBalance)
    } else if amount == 0 {
        Some(ErrorCode::InvalidAmount)
    } else {
        None
    }
}

/// Whether the counters of `state` can absorb a transfer taxed `tax`.
pub open spec fn counters_fit(state: TokenState, tax: u64) -> bool {
    &&& state.total_transactions + 1 <= u64::MAX
    &&& state.total_tax_collected + tax <= u64::MAX
    &&& tax > 0 ==> allocation_fits(state, tax)
}

pub open spec fn allocation_accounts(ctx: TransferTokens) -> AllocateTaxAccounts {
    AllocateTaxAccounts {
        sender: ctx.sender,
        rewards_pool: ctx.rewards_pool,
        lp_fund: ctx.lp_fund,
        sender_authority: ctx.sender_authority,
    }
}

/// The ledger operations of a transfer that moves `net` and withholds `tax`.
pub open spec fn transfer_ops(ctx: TransferTokens, net: u64, tax: u64) -> Seq<LedgerOp> {
    let head = seq![
        LedgerOp::Transfer {
            from: ctx.sender,
            to: ctx.receiver,
            amount: net,
            authority: ctx.sender_authority,
        },
    ];
    if tax > 0 {
        head + allocation_ops(allocation_accounts(ctx), split_of(tax))
    } else {
        head
    }
}

/// The state after a transfer withholding `tax`.
pub open spec fn state_after_transfer(state: TokenState, tax: u64) -> TokenState {
    TokenState {
        total_transactions: (state.total_transactions + 1) as u64,
        total_tax_collected: (state.total_tax_collected + tax) as u64,
        total_burned: if tax > 0 {
            (state.total_burned + split_of(tax).burn) as u64
        } else {
            state.total_burned
        },
        ..state
    }
}

pub open spec fn refresh_for(ctx: TransferTokens) -> PoolRefresh {
    if ctx.receiver@ == ctx.lp_pool@ {
        PoolRefresh::Liquidity
    } else if ctx.receiver@ == ctx.rewards_pool@ {
        PoolRefresh::Rewards
    } else {
        PoolRefresh::Nothing
    }
}

/// Moves `amount` from the sender to the receiver, withholding the tax that
/// the whitelist calls for and routing it, and counts the transfer.
/// `sender_balance` is the sender's holding before the call.
pub fn transfer_tokens(
    state: &mut TokenState,
    whitelist: &Whitelist,
    ctx: TransferTokens,
    sender_balance: u64,
    now: i64,
    amount: u64,
) -> (r: Result<TransferOutcome, ErrorCode>)
    ensures
        r.is_err() ==> *final(state) == *old(state),
        !trading_open(*old(state), now) ==> r == Err::<TransferOutcome, ErrorCode>(
            ErrorCode::TradingNotEnabled,
        ) && *final(state) == *old(state),
        old(state).is_frozen ==> r.is_err() && *final(state) == *old(state),
        r matches Ok(out) ==> (whitelist@.contains(ctx.receiver@) ==> out.event.tax_amount == 0
            && out.event.amount == amount),
        r matches Ok(out) ==> (!whitelist@.contains(ctx.receiver@) ==> out.event.tax_amount
            == amount * 10 / 100 && out.event.amount + out.event.tax_amount == amount),
        transfer_gate(*old(state), sender_balance, now, amount) matches Some(e) ==> r == Err::<
            TransferOutcome,
            ErrorCode,
        >(e),
        transfer_gate(*old(state), sender_balance, now, amount) is None ==> match transfer_split(
            whitelist@.contains(ctx.receiver@),
            amount,
        ) {
            Err(e) => r == Err::<TransferOutcome, ErrorCode>(e),
            Ok((net, tax)) => if counters_fit(*old(state), tax) {
                r matches Ok(out) && {
                    &&& out.ops@ == transfer_ops(ctx, net, tax)
                    &&& out.event == (TransferEvent {
                        sender: ctx.sender,
                        receiver: ctx.receiver,
                        amount: net,
                        timestamp: now,
                        tax_amount: tax,
                    })
                    &&& out.refresh == refresh_for(ctx)
                    &&& *final(state) == state_after_transfer(*old(state), tax)
                }
            } else {
                r == Err::<TransferOutcome, ErrorCode>(ErrorCode::ArithmeticOverflow)
            },
        },
{
    if (now as i128) - (state.launch_time as i128) < TRADING_DELAY as i128 {
        return Err(ErrorCode::TradingNotEnabled);
    }
    if state.is_frozen {
        return Err(ErrorCode::ContractFrozen);
    }
    if sender_balance < amount {
        return Err(ErrorCode::InsufficientBalance);
    }
    if amount == 0 {
        return Err(ErrorCode::InvalidAmount);
    }
    let split = calculate_transfer_amounts(whitelist, &ctx.receiver, amount);
    let (net_amount, tax_amount) = match split {
        Ok(p) => p,
        Err(e) => {
            return Err(e);
        },
    };
    if state.total_transactions == u64::MAX {
        return Err(ErrorCode::ArithmeticOverflow);
    }
    let tax_collected = match state.total_tax_collected.checked_add(tax_amount) {
        Some(t) => t,
        None => {
            return Err(ErrorCode::ArithmeticOverflow);
        },
    };
    let mut ops: Vec<LedgerOp> = vec![
        LedgerOp::Transfer {
            from: ctx.sender,
            to: ctx.receiver,
            amount: net_amount,
            authority: ctx.sender_authority,
        },
    ];
    if tax_amount > 0 {
        let acc = AllocateTaxAccounts {
            sender: ctx.sender,
            rewards_pool: ctx.rewards_pool,
            lp_fund: ctx.lp_fund,
            sender_authority: ctx.sender_authority,
        };
        let mut moves = match allocate_tax(state, acc, tax_amount) {
            Ok(m) => m,
            Err(e) => {
                return Err(e);
            },
        };
        ops.append(&mut moves);
    }
    state.total_transactions = state.total_transactions + 1;
    state.total_tax_collected = tax_collected;
    let event = TransferEvent {
        sender: ctx.sender,
        receiver: ctx.receiver,
        amount: net_amount,
        timestamp: now,
        tax_amount,
    };
    let refresh = if ctx.receiver.same_as(&ctx.lp_pool) {
        PoolRefresh::Liquidity
    } else if ctx.receiver.same_as(&ctx.rewards_pool) {
        PoolRefresh::Rewards
    } else {
        PoolRefresh::Nothing
    };
    assert(ops@ =~= transfer_ops(ctx, net_amount, tax_amount));
    Ok(TransferOutcome { ops, event, refresh })
}

/// An accepted transfer takes exactly the transferred amount out of the
/// sender's holding: the receiver's part, the moves to the rewards pool and
/// the liquidity fund, and the burn add up to it, whether or not the receiver
/// is exempt from the tax.
pub proof fn transfer_moves_whole_amount(ctx: TransferTokens, exempt: bool, amount: u64)
    requires
        transfer_split(exempt, amount) is Ok,
    ensures
        ({
            let (net, tax) = transfer_split(exempt, amount)->Ok_0;
            &&& ops_total(transfer_ops(ctx, net, tax)) == amount
            &&& forall|i: int|
                0 <= i < transfer_ops(ctx, net, tax).len() ==> op_source(
                    transfer_ops(ctx, net, tax)[i],
                ) == Some(ctx.sender)
        }),
{
    let (net, tax) = transfer_split(exempt, amount)->Ok_0;
    let ops = transfer_ops(ctx, net, tax);
    if tax > 0 {
        assert(amount * 10 <= u64::MAX);
        allocation_routes_whole_tax(allocation_accounts(ctx), tax);
        let alloc = allocation_ops(allocation_accounts(ctx), split_of(tax));
        assert(ops.drop_last() =~= seq![ops[0], ops[1], ops[2]]);
        assert(alloc.drop_last() =~= seq![alloc[0], alloc[1]]);
        assert(ops.drop_last().drop_last() =~= seq![ops[0], ops[1]]);
        assert(alloc.drop_last().drop_last() =~= seq![alloc[0]]);
        assert(ops.drop_last().drop_last().drop_last() =~= seq![ops[0]]);
        assert(alloc.drop_last().drop_last().drop_last() =~= Seq::<LedgerOp>::empty());
        assert(seq![ops[0]].drop_last() =~= Seq::<LedgerOp>::empty());
        reveal_with_fuel(ops_total, 5);
    } else {
        assert(ops.drop_last() =~= Seq::<LedgerOp>::empty());
        reveal_with_fuel(ops_total, 2);
    }
}

/// Whether `caller` holds the admin authority of `state`.
pub open spec fn is_admin(state: TokenState, caller: Address) -> bool {
    caller@ == state.admin@
}

/// Whether a burn of `amount` can be recorded: it does not exceed the supply
/// and the burn counter does not overflow.
pub open spec fn burn_fits(state: TokenState, amount: u64) -> bool {
    amount <= state.total_supply && state.total_burned + amount <= u64::MAX
}

/// The state after a burn of `amount`.
pub open spec fn state_after_burn(state: TokenState, amount: u64) -> TokenState {
    TokenState {
        total_supply: (state.total_supply - amount) as u64,
        total_burned: (state.total_burned + amount) as u64,
        ..state
    }
}

/// Takes `amount` out of the supply and adds it to the burned total, with
/// checked arithmetic on both counters.
pub fn record_burn(state: &mut TokenState, amount: u64) -> (r: Result<(), ErrorCode>)
    ensures
        burn_fits(*old(state), amount) ==> r.is_ok() && *final(state) == state_after_burn(
            *old(state),
            amount,
        ),
        !burn_fits(*old(state), amount) ==> r == Err::<(), ErrorCode>(ErrorCode::ArithmeticOverflow)
            && *final(state) == *old(state),
{
    let supply = match state.total_supply.checked_sub(amount) {
        Some(s) => s,
        None => {
            return Err(ErrorCode::ArithmeticOverflow);
        },
    };
    let burned = match state.total_burned.checked_add(amount) {
        Some(b) => b,
        None => {
            return Err(ErrorCode::ArithmeticOverflow);
        },
    };
    state.total_supply = supply;
    state.total_burned = burned;
    Ok(())
}

/// What an accepted burn asks of the ledger and reports.
#[derive(Clone, Copy, Debug, PartialEq, Eq)]
pub struct BurnOutcome {
    pub op: LedgerOp,
    pub event: BurnEvent,
}

/// The outcome of a burn of `amount` from `holding` by `burner`, leaving
/// `state` behind.
pub open spec fn burn_outcome(
    burner: Address,
    holding: Address,
    amount: u64,
    now: i64,
    state: TokenState,
) -> BurnOutcome {
    BurnOutcome {
        op: LedgerOp::Burn { from: holding, amount, authority: burner },
        event: BurnEvent {
            burner,
            amount,
            timestamp: now,
            new_total_supply: state.total_supply,
        },
    }
}

/// What a burn of `amount` by `burner` from `holding`, whose balance is
/// `balance`, returns.
pub open spec fn burn_result(
    state: TokenState,
    burner: Address,
    holding: Address,
    balance: u64,
    now: i64,
    amount: u64,
) -> Result<BurnOutcome, ErrorCode> {
    if balance < amount {
        Err(ErrorCode::InsufficientBalance)
    } else if !burn_fits(state, amount) {
        Err(ErrorCode::ArithmeticOverflow)
    } else {
        Ok(burn_outcome(burner, holding, amount, now, state_after_burn(state, amount)))
    }
}

fn burn_from(
    state: &mut TokenState,
    burner: Address,
    holding: Address,
    balance: u64,
    now: i64,
    amount: u64,
) -> (r: Result<BurnOutcome, ErrorCode>)
    ensures
        r == burn_result(*old(state), burner, holding, balance, now, amount),
        r.is_ok() ==> *final(state) == state_after_burn(*old(state), amount),
        r.is_err() ==> *final(state) == *old(state),
{
    if balance < amount {
        return Err(ErrorCode::InsufficientBalance);
    }
    match record_burn(state, amount) {
        Ok(()) => {},
        Err(e) => {
            return Err(e);
        },
    }
    Ok(BurnOutcome {
        op: LedgerOp::Burn { from: holding, amount, authority: burner },
        event: BurnEvent { burner, amount, timestamp: now, new_total_supply: state.total_supply },
    })
}

/// The caller of an admin burn and the holding it burns from.
#[derive(Clone, Copy, Debug)]
pub struct ManualBurn {
    pub admin: Address,
    pub admin_token_account: Address,
}

/// Burns `amount` from an admin-designated holding whose balance is
/// `balance`. Only the admin may do so.
pub fn manual_burn(
    state: &mut TokenState,
    ctx: ManualBurn,
    balance: u64,
    now: i64,
    amount: u64,
) -> (r: Result<BurnOutcome, ErrorCode>)
    ensures
        !is_admin(*old(state), ctx.admin) ==> r == Err::<BurnOutcome, ErrorCode>(
            ErrorCode::Unauthorized,
        ),
        is_admin(*old(state), ctx.admin) ==> r == burn_result(
            *old(state),
            ctx.admin,
            ctx.admin_token_account,
            balance,
            now,
            amount,
        ),
        r.is_ok() ==> *final(state) == state_after_burn(*old(state), amount),
        r.is_err() ==> *final(state) == *old(state),
        r is Ok ==> final(state).total_supply == old(state).total_supply - amount
            && final(state).total_burned == old(state).total_burned + amount,
        amount > old(state).total_supply || amount > balance ==> r.is_err()
            && final(state).total_supply == old(state).total_supply
            && final(state).total_burned == old(state).total_burned,
{
    if !ctx.admin.same_as(&state.admin) {
        return Err(ErrorCode::Unauthorized);
    }
    burn_from(state, ctx.admin, ctx.admin_token_account, balance, now, amount)
}

/// A holder burning from its own holding.
#[derive(Clone, Copy, Debug)]
pub struct UserBurn {
    pub user: Address,
    pub user_token_account: Address,
}

/// Burns `amount` from the caller's own holding whose balance is `balance`.
pub fn user_burn(state: &mut TokenState, ctx: UserBurn, balance: u64, now: i64, amount: u64) -> (r:
    Result<BurnOutcome, ErrorCode>)
    ensures
        r == burn_result(*old(state), ctx.user, ctx.user_token_account, balance, now, amount),
        r.is_ok() ==> *final(state) == state_after_burn(*old(state), amount),
        r.is_err() ==> *final(state) == *old(state),
        r is Ok ==> final(state).total_supply == old(state).total_supply - amount
            && final(state).total_burned == old(state).total_burned + amount,
        amount > old(state).total_supply || amount > balance ==> r.is_err()
            && final(state).total_supply == old(state).total_supply
            && final(state).total_burned == old(state).total_burned,
{
    burn_from(state, ctx.user, ctx.user_token_account, balance, now, amount)
}

/// The caller of a reward sweep and the holdings it moves between.
#[derive(Clone, Copy, Debug)]
pub struct SwapRewards {
    pub admin: Address,
    pub rewards_pool: Address,
    pub swap_wallet: Address,
}

/// What a sweep of `amount` out of a rewards pool holding `pool_balance`
/// returns.
pub open spec fn swap_result(
    state: TokenState,
    ctx: SwapRewards,
    pool_balance: u64,
    now: i64,
    amount: u64,
) -> Result<(LedgerOp, SwapEvent), ErrorCode> {
    if !is_admin(state, ctx.admin) {
        Err(ErrorCode::Unauthorized)
    } else if pool_balance < amount {
        Err(ErrorCode::InsufficientBalance)
    } else {
        Ok(
            (
                LedgerOp::Transfer {
                    from: ctx.rewards_pool,
                    to: ctx.swap_wallet,
                    amount,
                    authority: ctx.admin,
                },
                SwapEvent { amount, timestamp: now, pool: ctx.rewards_pool },
            ),
        )
    }
}

/// Moves `amount` out of the rewards pool, whose balance is `pool_balance`,
/// to the swap-out holding. Only the admin may do so; no counter changes.
pub fn prepare_rewards_swap(
    state: &TokenState,
    ctx: SwapRewards,
    pool_balance: u64,
    now: i64,
    amount: u64,
) -> (r: Result<(LedgerOp, SwapEvent), ErrorCode>)
    ensures
        r == swap_result(*state, ctx, pool_balance, now, amount),
{
    if !ctx.admin.same_as(&state.admin) {
        return Err(ErrorCode::Unauthorized);
    }
    if pool_balance < amount {
        return Err(ErrorCode::InsufficientBalance);
    }
    let op = LedgerOp::Transfer {
        from: ctx.rewards_pool,
        to: ctx.swap_wallet,
        amount,
        authority: ctx.admin,
    };
    Ok((op, SwapEvent { amount, timestamp: now, pool: ctx.rewards_pool }))
}

/// The caller of an ownership transfer.
#[derive(Clone, Copy, Debug)]
pub struct TransferOwnership {
    pub admin: Address,
}

/// Hands the admin authority to `new_admin`, which may not be the default
/// identity.
pub fn transfer_ownership(state: &mut TokenState, ctx: TransferOwnership, new_admin: Address) -> (r:
    Result<(), ErrorCode>)
    ensures
        r.is_err() ==> *final(state) == *old(state),
        !is_admin(*old(state), ctx.admin) ==> r == Err::<(), ErrorCode>(ErrorCode::Unauthorized),
        is_admin(*old(state), ctx.admin) && is_zero(new_admin@) ==> r == Err::<(), ErrorCode>(
            ErrorCode::InvalidAdminAddress,
        ),
        is_admin(*old(state), ctx.admin) && !is_zero(new_admin@) ==> r.is_ok() && *final(state) == (
        TokenState { admin: new_admin, ..*old(state) }),
{
    if !ctx.admin.same_as(&state.admin) {
        return Err(ErrorCode::Unauthorized);
    }
    if new_admin.is_default() {
        return Err(ErrorCode::InvalidAdminAddress);
    }
    state.admin = new_admin;
    Ok(())
}

/// The caller of a freeze.
#[derive(Clone, Copy, Debug)]
pub struct FreezeContract {
    pub admin: Address,
}

/// Sets the frozen flag to `freeze`.
pub fn freeze_contract(state: &mut TokenState, ctx: FreezeContract, freeze: bool) -> (r: Result<
    (),
    ErrorCode,
>)
    ensures
        r.is_err() ==> *final(state) == *old(state),
        !is_admin(*old(state), ctx.admin) ==> r == Err::<(), ErrorCode>(ErrorCode::Unauthorized),
        is_admin(*old(state), ctx.admin) ==> r.is_ok() && *final(state) == (TokenState {
            is_frozen: freeze,
            ..*old(state)
        }),
{
    if !ctx.admin.same_as(&state.admin) {
        return Err(ErrorCode::Unauthorized);
    }
    state.is_frozen = freeze;
    Ok(())
}

/// The caller of a snapshot of the pool balances.
#[derive(Clone, Copy, Debug)]
pub struct UpdateTVL {
    pub admin: Address,
}

/// Overwrites the three cached pool balances with the current ones.
pub fn update_tvl_data(
    state: &mut TokenState,
    ctx: UpdateTVL,
    liquidity: u64,
    rewards: u64,
    staking: u64,
) -> (r: Result<(), ErrorCode>)
    ensures
        r.is_err() ==> *final(state) == *old(state),
        !is_admin(*old(state), ctx.admin) ==> r == Err::<(), ErrorCode>(ErrorCode::Unauthorized),
        is_admin(*old(state), ctx.admin) ==> r.is_ok() && *final(state) == (TokenState {
            liquidity_pool_balance: liquidity,
            rewards_pool_balance: rewards,
            staking_pool_balance: staking,
            ..*old(state)
        }),
{
    if !ctx.admin.same_as(&state.admin) {
        return Err(ErrorCode::Unauthorized);
    }
    let _ = state.update_liquidity_pool(liquidity);
    let _ = state.update_rewards_pool(rewards);
    let _ = state.update_staking_pool(staking);
    Ok(())
}

/// The caller of a whitelist change.
#[derive(Clone, Copy, Debug)]
pub struct WhitelistOperation {
    pub admin: Address,
}

/// Adds `wallet` to the whitelist. A wallet already on it stays once.
pub fn add_wallet(
    state: &TokenState,
    ctx: WhitelistOperation,
    whitelist: &mut Whitelist,
    wallet: Address,
    now: i64,
) -> (r: Result<WhitelistEvent, ErrorCode>)
    ensures
        r.is_err() ==> final(whitelist)@ == old(whitelist)@,
        old(whitelist).wf() ==> final(whitelist).wf(),
        !is_admin(*state, ctx.admin) ==> r == Err::<WhitelistEvent, ErrorCode>(
            ErrorCode::Unauthorized,
        ),
        is_admin(*state, ctx.admin) && old(whitelist)@.len() >= WHITELIST_CAPACITY ==> r == Err::<
            WhitelistEvent,
            ErrorCode,
        >(ErrorCode::WhitelistFull),
        is_admin(*state, ctx.admin) && old(whitelist)@.len() < WHITELIST_CAPACITY ==> {
            &&& r == Ok::<WhitelistEvent, ErrorCode>(
                WhitelistEvent { wallet, is_added: true, timestamp: now },
            )
            &&& old(whitelist)@.contains(wallet@) ==> final(whitelist)@ == old(whitelist)@
            &&& !old(whitelist)@.contains(wallet@) ==> final(whitelist)@ == old(
                whitelist,
            )@.push(wallet@)
        },
{
    if !ctx.admin.same_as(&state.admin) {
        return Err(ErrorCode::Unauthorized);
    }
    if whitelist.wallets.len() >= WHITELIST_CAPACITY {
        return Err(ErrorCode::WhitelistFull);
    }
    if !whitelist.contains(&wallet) {
        whitelist.wallets.push(wallet);
        assert(whitelist@ =~= old(whitelist)@.push(wallet@));
    }
    Ok(WhitelistEvent { wallet, is_added: true, timestamp: now })
}

/// Removes the first occurrence of `wallet` from the whitelist.
pub fn remove_wallet(
    state: &TokenState,
    ctx: WhitelistOperation,
    whitelist: &mut Whitelist,
    wallet: Address,
    now: i64,
) -> (r: Result<WhitelistEvent, ErrorCode>)
    ensures
        r.is_err() ==> final(whitelist)@ == old(whitelist)@,
        old(whitelist).wf() ==> final(whitelist).wf(),
        !is_admin(*state, ctx.admin) ==> r == Err::<WhitelistEvent, ErrorCode>(
            ErrorCode::Unauthorized,
        ),
        is_admin(*state, ctx.admin) && !old(whitelist)@.contains(wallet@) ==> r == Err::<
            WhitelistEvent,
            ErrorCode,
        >(ErrorCode::NotInWhitelist),
        is_admin(*state, ctx.admin) && old(whitelist)@.contains(wallet@) ==> {
            &&& r == Ok::<WhitelistEvent, ErrorCode>(
                WhitelistEvent { wallet, is_added: false, timestamp: now },
            )
            &&& exists|i: int|
                {
                    &&& 0 <= i < old(whitelist)@.len()
                    &&& old(whitelist)@[i] == wallet@
                    &&& forall|j: int| 0 <= j < i ==> old(whitelist)@[j] != wallet@
                    &&& final(whitelist)@ == old(whitelist)@.remove(i)
                }
        },
{
    if !ctx.admin.same_as(&state.admin) {
        return Err(ErrorCode::Unauthorized);
    }
    let mut i: usize = 0;
    while i < whitelist.wallets.len()
        invariant
            0 <= i <= whitelist.wallets@.len(),
            *whitelist == *old(whitelist),
            is_admin(*state, ctx.admin),
            forall|j: int| 0 <= j < i ==> whitelist@[j] != wallet@,
        decreases whitelist.wallets@.len() - i,
    {
        if whitelist.wallets[i].same_as(&wallet) {
            let ghost before = whitelist@;
            assert(before[i as int] == wallet@);
            whitelist.wallets.remove(i);
            assert(whitelist@ =~= before.remove(i as int));
            return Ok(WhitelistEvent { wallet, is_added: false, timestamp: now });
        }
        i = i + 1;
    }
    assert(!whitelist@.contains(wallet@));
    Err(ErrorCode::NotInWhitelist)
}

} // verus!
