//! The record that each accepted operation hands out for the event log.
//!
//! Amounts appear here in the clear although the stored collateral and debt
//! stay encrypted: single amounts are observable, running balances are not.

use vstd::prelude::*;
use crate::state::Pubkey;

verus! {

#[derive(Clone, Copy, Debug, PartialEq, Eq)]
pub struct PoolInitialized {
    pub pool: Pubkey,
    pub collateral_mint: Pubkey,
    pub borrow_mint: Pubkey,
    pub ltv_ratio: u16,
    pub interest_rate: u16,
}

#[derive(Clone, Copy, Debug, PartialEq, Eq)]
pub struct PositionOpened {
    pub position: Pubkey,
    pub owner: Pubkey,
    pub pool: Pubkey,
}

#[derive(Clone, Copy, Debug, PartialEq, Eq)]
pub struct CollateralDeposited {
    pub position: Pubkey,
    pub owner: Pubkey,
    pub amount: u64,
    pub timestamp: i64,
}

#[derive(Clone, Copy, Debug, PartialEq, Eq)]
pub struct Borrowed {
    pub position: Pubkey,
    pub owner: Pubkey,
    pub amount: u64,
    pub timestamp: i64,
}

#[derive(Clone, Copy, Debug, PartialEq, Eq)]
pub struct Repaid {
    pub position: Pubkey,
    pub owner: Pubkey,
    pub amount: u64,
    pub timestamp: i64,
}

#[derive(Clone, Copy, Debug, PartialEq, Eq)]
pub struct CollateralWithdrawn {
    pub position: Pubkey,
    pub owner: Pubkey,
    pub amount: u64,
    pub timestamp: i64,
}

#[derive(Clone, Copy, Debug, PartialEq, Eq)]
pub struct PositionLiquidated {
    pub position: Pubkey,
    pub owner: Pubkey,
    pub liquidator: Pubkey,
    pub timestamp: i64,
}

#[derive(Clone, Copy, Debug, PartialEq, Eq)]
pub struct PositionClosed {
    pub position: Pubkey,
    pub owner: Pubkey,
}

} // verus!
