//! What each operation reads and writes: the records and balances it is
//! handed, the reason it is turned down, and the state it leaves behind.
//!
//! A record slot that may be empty is an `Option`: `None` before the record is
//! created and after it is deleted.

use vstd::prelude::*;
use crate::attestation::{borrow_proof_valid, liquidation_proof_valid, withdrawal_proof_valid};
use crate::error::ShadowLendError;
use crate::state::{credited, debited, zero_ciphertext, Pool, Position, Pubkey, Wallet};

verus! {

/// The accounts of `initialize_pool`.
#[derive(Clone, Copy, Debug, PartialEq, Eq)]
pub struct InitializePool {
    /// The slot at the pool's address.
    pub pool: Option<Pool>,
    pub pool_key: Pubkey,
    /// The bump of the pool's derived address.
    pub pool_bump: u8,
    pub authority: Wallet,
}

/// The accounts of `open_position`.
#[derive(Clone, Copy, Debug, PartialEq, Eq)]
pub struct OpenPosition {
    pub pool: Pool,
    pub pool_key: Pubkey,
    /// The slot at the position's address.
    pub position: Option<Position>,
    pub position_key: Pubkey,
    /// The bump of the position's derived address.
    pub position_bump: u8,
    pub owner: Wallet,
}

/// The accounts of `deposit_collateral`.
#[derive(Clone, Copy, Debug, PartialEq, Eq)]
pub struct DepositCollateral {
    pub pool: Pool,
    pub position: Position,
    pub position_key: Pubkey,
    /// The pool's escrow.
    pub vault: Wallet,
    pub owner: Wallet,
}

/// The accounts of `borrow`.
#[derive(Clone, Copy, Debug, PartialEq, Eq)]
pub struct Borrow {
    pub pool: Pool,
    pub position: Position,
    pub position_key: Pubkey,
    /// The pool's escrow.
    pub vault: Wallet,
    pub owner: Wallet,
}

/// The accounts of `repay`.
#[derive(Clone, Copy, Debug, PartialEq, Eq)]
pub struct Repay {
    pub pool: Pool,
    pub position: Position,
    pub position_key: Pubkey,
    /// The pool's escrow.
    pub vault: Wallet,
    pub owner: Wallet,
}

/// The accounts of `withdraw_collateral`.
#[derive(Clone, Copy, Debug, PartialEq, Eq)]
pub struct WithdrawCollateral {
    pub pool: Pool,
    pub position: Position,
    pub position_key: Pubkey,
    /// The pool's escrow.
    pub vault: Wallet,
    pub owner: Wallet,
}

/// The accounts of `liquidate`.
#[derive(Clone, Copy, Debug, PartialEq, Eq)]
pub struct Liquidate {
    pub pool: Pool,
    pub position: Position,
    pub position_key: Pubkey,
    /// The pool's escrow.
    pub vault: Wallet,
    pub liquidator: Wallet,
}

/// The accounts of `close_position`.
#[derive(Clone, Copy, Debug, PartialEq, Eq)]
pub struct ClosePosition {
    pub pool: Pool,
    /// The slot at the position's address.
    pub position: Option<Position>,
    pub position_key: Pubkey,
    /// The storage allowance that the position's record holds.
    pub position_lamports: u64,
    pub owner: Wallet,
}

/// A fresh pool: the given parameters, all aggregates zero, active.
pub open spec fn new_pool(
    authority: Pubkey,
    collateral_mint: Pubkey,
    borrow_mint: Pubkey,
    ltv_ratio: u16,
    interest_rate: u16,
    liquidation_threshold: u16,
    bump: u8,
) -> Pool {
    Pool {
        authority,
        collateral_mint,
        borrow_mint,
        ltv_ratio,
        interest_rate,
        liquidation_threshold,
        total_deposits: 0,
        total_borrows: 0,
        active_positions: 0,
        bump,
        is_active: true,
    }
}

/// A fresh position: both ciphertexts are the zero ciphertext, active.
pub open spec fn new_position(owner: Pubkey, pool: Pubkey, now: i64, bump: u8) -> Position {
    Position {
        owner,
        pool,
        encrypted_collateral: zero_ciphertext(),
        encrypted_debt: zero_ciphertext(),
        last_update: now,
        is_active: true,
        bump,
    }
}

impl InitializePool {
    /// Why the pool is not created, if it is not.
    pub open spec fn rejection(self) -> Option<ShadowLendError> {
        if self.pool is Some {
            Some(ShadowLendError::AlreadyInitialized)
        } else {
            None
        }
    }

    /// The accounts once the pool is created.
    pub open spec fn after(
        self,
        collateral_mint: Pubkey,
        borrow_mint: Pubkey,
        ltv_ratio: u16,
        interest_rate: u16,
        liquidation_threshold: u16,
    ) -> InitializePool {
        InitializePool {
            pool: Some(
                new_pool(
                    self.authority.key,
                    collateral_mint,
                    borrow_mint,
                    ltv_ratio,
                    interest_rate,
                    liquidation_threshold,
                    self.pool_bump,
                ),
            ),
            ..self
        }
    }
}

impl OpenPosition {
    /// Why the position is not opened, if it is not.
    pub open spec fn rejection(self) -> Option<ShadowLendError> {
        if self.position is Some {
            Some(ShadowLendError::AlreadyInitialized)
        } else {
            None
        }
    }

    /// The accounts once the position is opened.
    pub open spec fn after(self, now: i64) -> OpenPosition {
        OpenPosition {
            pool: Pool {
                active_positions: credited(self.pool.active_positions as int, 1) as u64,
                ..self.pool
            },
            position: Some(new_position(self.owner.key, self.pool_key, now, self.position_bump)),
            ..self
        }
    }
}

impl DepositCollateral {
    /// Why the deposit is turned down, if it is. The checks come in this
    /// order: the caller, the amount, the payer's balance.
    pub open spec fn rejection(self, amount: u64) -> Option<ShadowLendError> {
        if self.position.owner != self.owner.key {
            Some(ShadowLendError::Unauthorized)
        } else if amount == 0 {
            Some(ShadowLendError::InvalidAmount)
        } else if self.owner.lamports < amount {
            Some(ShadowLendError::InsufficientFunds)
        } else {
            None
        }
    }

    /// The accounts after an accepted deposit.
    pub open spec fn after(
        self,
        amount: u64,
        encrypted_amount: [u8; 32],
        now: i64,
    ) -> DepositCollateral {
        DepositCollateral {
            pool: Pool {
                total_deposits: credited(self.pool.total_deposits as int, amount as int) as u64,
                ..self.pool
            },
            position: Position {
                encrypted_collateral: encrypted_amount,
                last_update: now,
                ..self.position
            },
            vault: Wallet { lamports: (self.vault.lamports + amount) as u64, ..self.vault },
            owner: Wallet { lamports: (self.owner.lamports - amount) as u64, ..self.owner },
            ..self
        }
    }
}

impl Borrow {
    /// Why the borrow is turned down, if it is. The checks come in this
    /// order: the caller, the amount, the attestation, the escrow's balance.
    pub open spec fn rejection(self, amount: u64, proof: Seq<u8>) -> Option<ShadowLendError> {
        if self.position.owner != self.owner.key {
            Some(ShadowLendError::Unauthorized)
        } else if amount == 0 {
            Some(ShadowLendError::InvalidAmount)
        } else if !borrow_proof_valid(proof, self.position, amount) {
            Some(ShadowLendError::InvalidIncoProof)
        } else if self.vault.lamports < amount {
            Some(ShadowLendError::InsufficientLiquidity)
        } else {
            None
        }
    }

    /// The accounts after an accepted borrow.
    pub open spec fn after(self, amount: u64, encrypted_new_debt: [u8; 32], now: i64) -> Borrow {
        Borrow {
            pool: Pool {
                total_borrows: credited(self.pool.total_borrows as int, amount as int) as u64,
                ..self.pool
            },
            position: Position {
                encrypted_debt: encrypted_new_debt,
                last_update: now,
                ..self.position
            },
            vault: Wallet { lamports: (self.vault.lamports - amount) as u64, ..self.vault },
            owner: Wallet { lamports: (self.owner.lamports + amount) as u64, ..self.owner },
            ..self
        }
    }
}

impl Repay {
    /// Why the repayment is turned down, if it is. The checks come in this
    /// order: the caller, the amount, the payer's balance.
    pub open spec fn rejection(self, amount: u64) -> Option<ShadowLendError> {
        if self.position.owner != self.owner.key {
            Some(ShadowLendError::Unauthorized)
        } else if amount == 0 {
            Some(ShadowLendError::InvalidAmount)
        } else if self.owner.lamports < amount {
            Some(ShadowLendError::InsufficientFunds)
        } else {
            None
        }
    }

    /// The accounts after an accepted repayment.
    pub open spec fn after(self, amount: u64, encrypted_new_debt: [u8; 32], now: i64) -> Repay {
        Repay {
            pool: Pool {
                total_borrows: debited(self.pool.total_borrows as int, amount as int) as u64,
                ..self.pool
            },
            position: Position {
                encrypted_debt: encrypted_new_debt,
                last_update: now,
                ..self.position
            },
            vault: Wallet { lamports: (self.vault.lamports + amount) as u64, ..self.vault },
            owner: Wallet { lamports: (self.owner.lamports - amount) as u64, ..self.owner },
            ..self
        }
    }
}

impl WithdrawCollateral {
    /// Why the withdrawal is turned down, if it is. The checks come in this
    /// order: the caller, the amount, the attestation, the escrow's balance.
    pub open spec fn rejection(self, amount: u64, proof: Seq<u8>) -> Option<ShadowLendError> {
        if self.position.owner != self.owner.key {
            Some(ShadowLendError::Unauthorized)
        } else if amount == 0 {
            Some(ShadowLendError::InvalidAmount)
        } else if !withdrawal_proof_valid(proof, self.position, amount) {
            Some(ShadowLendError::InvalidIncoProof)
        } else if self.vault.lamports < amount {
            Some(ShadowLendError::InsufficientLiquidity)
        } else {
            None
        }
    }

    /// The accounts after an accepted withdrawal.
    pub open spec fn after(
        self,
        amount: u64,
        encrypted_new_collateral: [u8; 32],
        now: i64,
    ) -> WithdrawCollateral {
        WithdrawCollateral {
            pool: Pool {
                total_deposits: debited(self.pool.total_deposits as int, amount as int) as u64,
                ..self.pool
            },
            position: Position {
                encrypted_collateral: encrypted_new_collateral,
                last_update: now,
                ..self.position
            },
            vault: Wallet { lamports: (self.vault.lamports - amount) as u64, ..self.vault },
            owner: Wallet { lamports: (self.owner.lamports + amount) as u64, ..self.owner },
            ..self
        }
    }
}

impl Liquidate {
    /// Why the liquidation is turned down, if it is. The checks come in this
    /// order: the position's activity, the attestation. The caller need not
    /// be the owner.
    pub open spec fn rejection(self, proof: Seq<u8>) -> Option<ShadowLendError> {
        if !self.position.is_active {
            Some(ShadowLendError::PositionInactive)
        } else if !liquidation_proof_valid(proof, self.position) {
            Some(ShadowLendError::PositionHealthy)
        } else {
            None
        }
    }

    /// What the liquidator receives: the escrow's balance above the minimum
    /// that it retains.
    pub open spec fn swept(self, retained_minimum: u64) -> int {
        debited(self.vault.lamports as int, retained_minimum as int)
    }

    /// The accounts after an accepted liquidation.
    pub open spec fn after(self, retained_minimum: u64) -> Liquidate {
        Liquidate {
            pool: Pool {
                active_positions: debited(self.pool.active_positions as int, 1) as u64,
                ..self.pool
            },
            position: Position { is_active: false, ..self.position },
            vault: Wallet {
                lamports: (self.vault.lamports - self.swept(retained_minimum)) as u64,
                ..self.vault
            },
            liquidator: Wallet {
                lamports: (self.liquidator.lamports + self.swept(retained_minimum)) as u64,
                ..self.liquidator
            },
            ..self
        }
    }
}

impl ClosePosition {
    /// Why the position is not closed, if it is not. The checks come in this
    /// order: the record, the caller, the debt.
    pub open spec fn rejection(self) -> Option<ShadowLendError> {
        match self.position {
            None => Some(ShadowLendError::PositionNotFound),
            Some(position) => if position.owner != self.owner.key {
                Some(ShadowLendError::Unauthorized)
            } else if !position.debt_is_zero() {
                Some(ShadowLendError::PositionHasDebt)
            } else {
                None
            },
        }
    }

    /// The accounts once the position is closed: the record is gone and its
    /// storage allowance is with the owner.
    pub open spec fn after(self) -> ClosePosition {
        ClosePosition {
            pool: Pool {
                active_positions: debited(self.pool.active_positions as int, 1) as u64,
                ..self.pool
            },
            position: None,
            position_lamports: 0,
            owner: Wallet {
                lamports: (self.owner.lamports + self.position_lamports) as u64,
                ..self.owner
            },
            ..self
        }
    }
}

} // verus!
