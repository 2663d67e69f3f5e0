use vstd::prelude::*;
use crate::address::Address;
use crate::error::ErrorCode;
use crate::state::{LedgerOp, TokenState, Whitelist, ops_total};

verus! {

/// The tax withheld from a transfer of `amount` to a non-exempt receiver:
/// ten percent, rounded down.
pub open spec fn tax_of(amount: u64) -> int {
    amount * 10 / 100
}

/// What the tax policy returns for a transfer of `amount`.
pub open spec fn transfer_split(exempt: bool, amount: u64) -> Result<(u64, u64), ErrorCode> {
    if exempt {
        Ok((amount, 0u64))
    } else if amount * 10 > u64::MAX {
        Err(ErrorCode::ArithmeticOverflow)
    } else {
        Ok(((amount - tax_of(amount)) as u64, tax_of(amount) as u64))
    }
}

/// Splits a transfer of `amount` to `receiver` into `(net, tax)`. Receivers
/// on the whitelist pay no tax; others pay ten percent, rounded down.
pub fn calculate_transfer_amounts(whitelist: &Whitelist, receiver: &Address, amount: u64) -> (r:
    Result<(u64, u64), ErrorCode>)
    ensures
        r == transfer_split(whitelist@.contains(receiver@), amount),
        whitelist@.contains(receiver@) ==> r == Ok::<(u64, u64), ErrorCode>((amount, 0u64)),
        !whitelist@.contains(receiver@) && amount * 10 <= u64::MAX ==> (r matches Ok((net, tax))
            && tax == amount * 10 / 100 && net + tax == amount),
{
    let tax_amount: u64 = if whitelist.contains(receiver) {
        0
    } else {
        match amount.checked_mul(10) {
            Some(t) => t / 100,
            None => {
                return Err(ErrorCode::ArithmeticOverflow);
            },
        }
    };
    match amount.checked_sub(tax_amount) {
        Some(net_amount) => Ok((net_amount, tax_amount)),
        None => Err(ErrorCode::ArithmeticUnderflow),
    }
}

/// The three parts a collected tax is routed to.
#[derive(Clone, Copy, Debug, PartialEq, Eq, Structural)]
pub struct TaxSplit {
    /// Seventy percent, rounded down, to the rewards pool.
    pub rewards: u64,
    /// Twenty percent, rounded down, to the liquidity fund.
    pub lp: u64,
    /// The rest, burned.
    pub burn: u64,
}

/// The exact split of `tax`, where `tax * 7` fits in a `u64`.
pub open spec fn split_of(tax: u64) -> TaxSplit {
    TaxSplit {
        rewards: (tax * 7 / 10) as u64,
        lp: (tax * 2 / 10) as u64,
        burn: (tax - tax * 7 / 10 - tax * 2 / 10) as u64,
    }
}

/// Computes the rewards, liquidity and burn shares of `tax`. Fails with
/// `ArithmeticOverflow` where `tax * 7` does not fit in a `u64`.
pub fn split_tax(tax: u64) -> (r: Result<TaxSplit, ErrorCode>)
    ensures
        tax * 7 > u64::MAX ==> r == Err::<TaxSplit, ErrorCode>(ErrorCode::ArithmeticOverflow),
        tax * 7 <= u64::MAX ==> r == Ok::<TaxSplit, ErrorCode>(split_of(tax)),
        r matches Ok(s) ==> s.rewards + s.lp + s.burn == tax,
        tax <= u64::MAX / 10 ==> (r matches Ok(s) && s.rewards + s.lp + s.burn == tax),
{
    let rewards = match tax.checked_mul(7) {
        Some(t) => t / 10,
        None => {
            return Err(ErrorCode::ArithmeticOverflow);
        },
    };
    let lp = match tax.checked_mul(2) {
        Some(t) => t / 10,
        None => {
            return Err(ErrorCode::ArithmeticOverflow);
        },
    };
    assert(rewards + lp <= tax) by (nonlinear_arith)
        requires
            rewards == tax * 7 / 10,
            lp == tax * 2 / 10,
    ;
    let burn = match tax.checked_sub(rewards) {
        Some(t) => match t.checked_sub(lp) {
            Some(b) => b,
            None => {
                return Err(ErrorCode::ArithmeticOverflow);
            },
        },
        None => {
            return Err(ErrorCode::ArithmeticOverflow);
        },
    };
    Ok(TaxSplit { rewards, lp, burn })
}

/// The holdings a tax allocation touches.
#[derive(Clone, Copy, Debug)]
pub struct AllocateTaxAccounts {
    /// The sender's holding, which still holds the withheld tax.
    pub sender: Address,
    pub rewards_pool: Address,
    pub lp_fund: Address,
    /// The mint-derived authority that signs the moves.
    pub sender_authority: Address,
}

/// The ledger operations that route the shares `s` out of the sender's
/// holding.
pub open spec fn allocation_ops(acc: AllocateTaxAccounts, s: TaxSplit) -> Seq<LedgerOp> {
    seq![
        LedgerOp::Transfer {
            from: acc.sender,
            to: acc.rewards_pool,
            amount: s.rewards,
            authority: acc.sender_authority,
        },
        LedgerOp::Transfer {
            from: acc.sender,
            to: acc.lp_fund,
            amount: s.lp,
            authority: acc.sender_authority,
        },
        LedgerOp::Burn { from: acc.sender, amount: s.burn, authority: acc.sender_authority },
    ]
}

/// The allocation of a tax up to a tenth of the largest amount routes the
/// whole tax, no more and no less, out of the sender's holding: the two moves
/// and the burn add up to it.
pub proof fn allocation_routes_whole_tax(acc: AllocateTaxAccounts, tax: u64)
    requires
        tax <= u64::MAX / 10,
    ensures
        tax * 7 <= u64::MAX,
        ops_total(allocation_ops(acc, split_of(tax))) == tax,
{
    assert(tax * 7 / 10 + tax * 2 / 10 <= tax) by (nonlinear_arith)
        requires
            tax <= u64::MAX / 10,
    ;
    reveal_with_fuel(ops_total, 4);
}

/// Whether the allocation of `tax` goes through: the shares can be computed
/// and the burn counter does not overflow.
pub open spec fn allocation_fits(state: TokenState, tax: u64) -> bool {
    tax * 7 <= u64::MAX && state.total_burned + split_of(tax).burn <= u64::MAX
}

/// Routes `tax`, still held by the sender, to the rewards pool, the
/// liquidity fund and a burn, and counts the burned share. The tax itself is
/// counted by the caller.
pub fn allocate_tax(state: &mut TokenState, ctx: AllocateTaxAccounts, tax_amount: u64) -> (r:
    Result<Vec<LedgerOp>, ErrorCode>)
    ensures
        allocation_fits(*old(state), tax_amount) ==> r.is_ok(),
        !allocation_fits(*old(state), tax_amount) ==> r == Err::<Vec<LedgerOp>, ErrorCode>(
            ErrorCode::ArithmeticOverflow,
        ),
        r.is_err() ==> *final(state) == *old(state),
        r matches Ok(ops) ==> {
            &&& ops@ == allocation_ops(ctx, split_of(tax_amount))
            &&& *final(state) == (TokenState {
                total_burned: (old(state).total_burned + split_of(tax_amount).burn) as u64,
                ..*old(state)
            })
        },
{
    let split = match split_tax(tax_amount) {
        Ok(s) => s,
        Err(e) => {
            return Err(e);
        },
    };
    let burned = match state.total_burned.checked_add(split.burn) {
        Some(b) => b,
        None => {
            return Err(ErrorCode::ArithmeticOverflow);
        },
    };
    let ops: Vec<LedgerOp> = vec![
        LedgerOp::Transfer {
            from: ctx.sender,
            to: ctx.rewards_pool,
            amount: split.rewards,
            authority: ctx.sender_authority,
        },
        LedgerOp::Transfer {
            from: ctx.sender,
            to: ctx.lp_fund,
            amount: split.lp,
            authority: ctx.sender_authority,
        },
        LedgerOp::Burn { from: ctx.sender, amount: split.burn, authority: ctx.sender_authority },
    ];
    state.total_burned = burned;
    assert(ops@ =~= allocation_ops(ctx, split));
    Ok(ops)
}

} // verus!
