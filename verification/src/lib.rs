//! Integer-exact pricing and rebalancing math for a constant-product
//! liquidity pool: swap quoting, fee calculation, ratio rebalancing, and
//! pool-share issuance and redemption.
//!
//! Every operation is a pure function over its arguments: nothing here
//! moves funds, persists state, or decides authorization. The external
//! collaborator supplies validated numeric snapshots (balances, fee rates,
//! transfer-fee schedules) and applies the computed outputs atomically.

pub mod constants;
pub mod errors;
pub mod liquidity;
pub mod state;
pub mod swap;
pub mod transfer_fee;
pub mod utils;

pub use constants::MAX_PERCENTAGE;
pub use errors::ErrorCode;
pub use liquidity::{deposit_lp, floor_sqrt, withdraw_lp};
pub use state::{AmmConfig, QuoteOutput, RebalanceResult, SwapResult, SwapResultWithFromToLock};
pub use swap::quote;
pub use transfer_fee::{get_transfer_fee, TransferFeeParams, TransferFeeSchedule};
pub use utils::{
    ceil_div, floor_div, get_protocol_fee, get_trade_fee, rebalance_pool_ratio, swap,
    swap_base_input_without_fees,
};
