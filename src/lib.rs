//! Accounting core of a taxed fungible token: supply and burn counters, a
//! withholding tax with a whitelist exemption, the split of that tax across a
//! rewards pool, a liquidity fund and a burn, and admin-gated supply control.
//!
//! The engine never moves tokens itself. Every operation checks its
//! preconditions, updates the token state and returns the ledger operations
//! (mint, transfer, burn, entry creation) that the hosting ledger must apply
//! as one atomic unit together with the new state. A failed operation leaves
//! the state as it was and issues no ledger operation.
//!
//! - `address`: account identities and the addresses derived from them.
//! - `state`: the token state, the whitelist, ledger operations, events.
//! - `tax`: the tax policy and the tax allocator.
//! - `engine`: transfers, burns and the admin operations.
//! - `genesis`: the launch and the initial supply distribution.

pub mod address;
pub mod engine;
pub mod error;
pub mod genesis;
pub mod state;
pub mod tax;

pub use address::{Address, ProgramIds, associated_address, derive_authority};
pub use engine::{
    BurnOutcome, FreezeContract, ManualBurn, PoolRefresh, SwapRewards, TransferOutcome,
    TransferOwnership, TransferTokens, UpdateTVL, UserBurn, WhitelistOperation, add_wallet,
    freeze_contract, manual_burn, prepare_rewards_swap, record_burn, remove_wallet,
    transfer_ownership, transfer_tokens, update_tvl_data, user_burn,
};
pub use error::ErrorCode;
pub use genesis::{
    Genesis, HoldingEntry, InitializeToken, distribute_initial_supply,
    get_or_create_associated_token_account, initialize_token,
};
pub use state::{
    BurnEvent, LedgerOp, SwapEvent, TokenState, TransferEvent, Whitelist, WhitelistEvent,
};
pub use tax::{
    AllocateTaxAccounts, TaxSplit, allocate_tax, calculate_transfer_amounts, split_tax,
};
