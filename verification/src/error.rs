//! Why an operation is turned down.

use vstd::prelude::*;

verus! {

/// The reason a whole operation is rejected. A rejected operation changes
/// nothing.
#[derive(Clone, Copy, Debug, PartialEq, Eq, Structural)]
pub enum ShadowLendError {
    /// The amount is zero.
    InvalidAmount,
    /// The attestation for a borrow or a withdrawal does not hold.
    InvalidIncoProof,
    /// The escrow holds less than the amount asked for.
    InsufficientLiquidity,
    /// The attestation for a liquidation does not hold.
    PositionHealthy,
    /// The position's debt is not the zero ciphertext.
    PositionHasDebt,
    /// The caller is not the position's owner.
    Unauthorized,
    /// The position was deactivated by an earlier liquidation.
    PositionInactive,
    /// The payer holds less than the amount to be moved into escrow.
    InsufficientFunds,
    /// A record already exists where a new one was to be created.
    AlreadyInitialized,
    /// There is no position record to close.
    PositionNotFound,
}

impl ShadowLendError {
    /// The text of the message that goes with each rejection.
    pub open spec fn message_text(self) -> Seq<char> {
        match self {
            ShadowLendError::InvalidAmount => "Invalid amount: must be greater than 0"@,
            ShadowLendError::InvalidIncoProof => "Invalid Inco proof"@,
            ShadowLendError::InsufficientLiquidity => "Insufficient liquidity in pool"@,
            ShadowLendError::PositionHealthy => "Position is healthy, cannot liquidate"@,
            ShadowLendError::PositionHasDebt => "Position has outstanding debt"@,
            ShadowLendError::Unauthorized => "Unauthorized"@,
            ShadowLendError::PositionInactive => "Position is no longer active"@,
            ShadowLendError::InsufficientFunds => "Insufficient funds for transfer"@,
            ShadowLendError::AlreadyInitialized => "Record already initialized"@,
            ShadowLendError::PositionNotFound => "Position not found"@,
        }
    }

    /// The message that goes with the rejection.
    pub fn message(&self) -> (text: &'static str)
        ensures
            text@ == self.message_text(),
    {
        match self {
            ShadowLendError::InvalidAmount => "Invalid amount: must be greater than 0",
            ShadowLendError::InvalidIncoProof => "Invalid Inco proof",
            ShadowLendError::InsufficientLiquidity => "Insufficient liquidity in pool",
            ShadowLendError::PositionHealthy => "Position is healthy, cannot liquidate",
            ShadowLendError::PositionHasDebt => "Position has outstanding debt",
            ShadowLendError::Unauthorized => "Unauthorized",
            ShadowLendError::PositionInactive => "Position is no longer active",
            ShadowLendError::InsufficientFunds => "Insufficient funds for transfer",
            ShadowLendError::AlreadyInitialized => "Record already initialized",
            ShadowLendError::PositionNotFound => "Position not found",
        }
    }
}

} // verus!
