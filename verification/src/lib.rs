//! A confidential lending ledger.
//!
//! A pool holds public aggregates; each position holds its collateral and debt
//! as opaque 32-byte ciphertexts. Operations that depend on a hidden comparison
//! carry an attestation, which the ledger checks for shape and for its binding
//! to the position's stored ciphertexts and to the requested amount before it
//! commits the transition.

pub mod accounts;
pub mod attestation;
pub mod bytes;
pub mod engine;
pub mod error;
pub mod events;
pub mod flows;
pub mod laws;
pub mod state;

pub use accounts::{
    Borrow, ClosePosition, DepositCollateral, InitializePool, Liquidate, OpenPosition, Repay,
    WithdrawCollateral,
};
pub use attestation::{
    compute_proof_binding, verify_inco_borrow_proof, verify_inco_liquidation_proof,
    verify_inco_withdrawal_proof,
};
pub use engine::{
    borrow, close_position, deposit_collateral, initialize_pool, liquidate, open_position, repay,
    withdraw_collateral,
};
pub use error::ShadowLendError;
pub use events::{
    Borrowed, CollateralDeposited, CollateralWithdrawn, PoolInitialized, PositionClosed,
    PositionLiquidated, PositionOpened, Repaid,
};
pub use state::{Pool, Position, Pubkey, Wallet};
