//! A constant-product bonding curve over virtual reserves: the policy, the
//! state of one trading pair, and the buy and sell transitions with their
//! fees, slippage bounds and one-way completion.

pub mod error;
pub mod laws;
pub mod pricing;
pub mod state;
pub mod trade;

pub use error::PumpError;
pub use state::{
    create, initialize_global, BondingCurve, Global, FEE_BASIS_POINTS,
    INITIAL_REAL_TOKEN_RESERVES, INITIAL_VIRTUAL_SOL_RESERVES, INITIAL_VIRTUAL_TOKEN_RESERVES,
    MIGRATION_THRESHOLD_SOL, TOKEN_TOTAL_SUPPLY,
};
pub use trade::{buy, sell, Quote};
