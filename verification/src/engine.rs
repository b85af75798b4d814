//! The eight operations of the ledger.
//!
//! Each one is a single transition. It checks everything first and writes
//! afterwards, so a rejected operation leaves every record and every balance
//! as it found them. An accepted operation hands out the record for the event
//! log.
//!
//! Balances and aggregates are `u64`. An operation that adds to one asks of its
//! caller that the sum fits.

use vstd::prelude::*;
use crate::accounts::{
    Borrow, ClosePosition, DepositCollateral, InitializePool, Liquidate, OpenPosition, Repay,
    WithdrawCollateral,
};
use crate::attestation::{
    verify_inco_borrow_proof, verify_inco_liquidation_proof, verify_inco_withdrawal_proof,
};
use crate::error::ShadowLendError;
use crate::events::{
    Borrowed, CollateralDeposited, CollateralWithdrawn, PoolInitialized, PositionClosed,
    PositionLiquidated, PositionOpened, Repaid,
};
use crate::state::{Pool, Position, Pubkey};

verus! {

/// Creates the pool with the given risk parameters, all aggregates zero.
///
/// Fails with `AlreadyInitialized` if the pool exists.
pub fn initialize_pool(
    ctx: &mut InitializePool,
    collateral_mint: Pubkey,
    borrow_mint: Pubkey,
    ltv_ratio: u16,
    interest_rate: u16,
    liquidation_threshold: u16,
) -> (result: Result<PoolInitialized, ShadowLendError>)
    ensures
        match result {
            Ok(event) => {
                &&& old(ctx).rejection() is None
                &&& *final(ctx) == old(ctx).after(
                    collateral_mint,
                    borrow_mint,
                    ltv_ratio,
                    interest_rate,
                    liquidation_threshold,
                )
                &&& event == (PoolInitialized {
                    pool: old(ctx).pool_key,
                    collateral_mint,
                    borrow_mint,
                    ltv_ratio,
                    interest_rate,
                })
            },
            Err(e) => old(ctx).rejection() == Some(e) && *final(ctx) == *old(ctx),
        },
{
    if ctx.pool.is_some() {
        return Err(ShadowLendError::AlreadyInitialized);
    }
    ctx.pool = Some(
        Pool {
            authority: ctx.authority.key,
            collateral_mint,
            borrow_mint,
            ltv_ratio,
            interest_rate,
            liquidation_threshold,
            total_deposits: 0,
            total_borrows: 0,
            active_positions: 0,
            bump: ctx.pool_bump,
            is_active: true,
        },
    );
    Ok(
        PoolInitialized {
            pool: ctx.pool_key,
            collateral_mint,
            borrow_mint,
            ltv_ratio,
            interest_rate,
        },
    )
}

/// Opens the owner's position in the pool with both ciphertexts zero, and
/// counts it among the pool's active positions.
///
/// Fails with `AlreadyInitialized` if the position exists.
pub fn open_position(ctx: &mut OpenPosition, now: i64) -> (result: Result<
    PositionOpened,
    ShadowLendError,
>)
    requires
        old(ctx).pool.active_positions < u64::MAX,
    ensures
        match result {
            Ok(event) => {
                &&& old(ctx).rejection() is None
                &&& *final(ctx) == old(ctx).after(now)
                &&& event == (PositionOpened {
                    position: old(ctx).position_key,
                    owner: old(ctx).owner.key,
                    pool: old(ctx).pool_key,
                })
            },
            Err(e) => old(ctx).rejection() == Some(e) && *final(ctx) == *old(ctx),
        },
{
    if ctx.position.is_some() {
        return Err(ShadowLendError::AlreadyInitialized);
    }
    ctx.position = Some(
        Position {
            owner: ctx.owner.key,
            pool: ctx.pool_key,
            encrypted_collateral: [0u8; 32],
            encrypted_debt: [0u8; 32],
            last_update: now,
            is_active: true,
            bump: ctx.position_bump,
        },
    );
    ctx.pool.active_positions = ctx.pool.active_positions + 1;
    Ok(PositionOpened { position: ctx.position_key, owner: ctx.owner.key, pool: ctx.pool_key })
}

/// Moves `amount` from the owner into escrow, stores the new collateral
/// ciphertext and adds `amount` to the pool's deposits. No attestation is
/// needed: a deposit only adds collateral.
///
/// Fails with `Unauthorized` if the caller does not own the position, with
/// `InvalidAmount` if `amount` is zero, with `InsufficientFunds` if the owner
/// holds less than `amount`.
pub fn deposit_collateral(
    ctx: &mut DepositCollateral,
    amount: u64,
    encrypted_amount: [u8; 32],
    now: i64,
) -> (result: Result<CollateralDeposited, ShadowLendError>)
    requires
        old(ctx).pool.total_deposits + amount <= u64::MAX,
        old(ctx).vault.lamports + amount <= u64::MAX,
    ensures
        match result {
            Ok(event) => {
                &&& old(ctx).rejection(amount) is None
                &&& *final(ctx) == old(ctx).after(amount, encrypted_amount, now)
                &&& event == (CollateralDeposited {
                    position: old(ctx).position_key,
                    owner: old(ctx).position.owner,
                    amount,
                    timestamp: now,
                })
            },
            Err(e) => old(ctx).rejection(amount) == Some(e) && *final(ctx) == *old(ctx),
        },
{
    if !ctx.position.owner.same_as(&ctx.owner.key) {
        return Err(ShadowLendError::Unauthorized);
    }
    if amount == 0 {
        return Err(ShadowLendError::InvalidAmount);
    }
    if ctx.owner.lamports < amount {
        return Err(ShadowLendError::InsufficientFunds);
    }
    ctx.owner.lamports = ctx.owner.lamports - amount;
    ctx.vault.lamports = ctx.vault.lamports + amount;
    ctx.position.encrypted_collateral = encrypted_amount;
    ctx.position.last_update = now;
    ctx.pool.total_deposits = ctx.pool.total_deposits + amount;
    Ok(
        CollateralDeposited {
            position: ctx.position_key,
            owner: ctx.position.owner,
            amount,
            timestamp: now,
        },
    )
}

/// Moves `amount` from escrow to the owner, stores the new debt ciphertext
/// and adds `amount` to the pool's borrows.
///
/// Fails with `Unauthorized` if the caller does not own the position, with
/// `InvalidAmount` if `amount` is zero, with `InvalidIncoProof` if the
/// attestation does not hold for the position as stored and for `amount`,
/// with `InsufficientLiquidity` if the escrow holds less than `amount`.
pub fn borrow(
    ctx: &mut Borrow,
    amount: u64,
    encrypted_new_debt: [u8; 32],
    inco_proof: Vec<u8>,
    now: i64,
) -> (result: Result<Borrowed, ShadowLendError>)
    requires
        old(ctx).pool.total_borrows + amount <= u64::MAX,
        old(ctx).owner.lamports + amount <= u64::MAX,
    ensures
        match result {
            Ok(event) => {
                &&& old(ctx).rejection(amount, inco_proof@) is None
                &&& *final(ctx) == old(ctx).after(amount, encrypted_new_debt, now)
                &&& event == (Borrowed {
                    position: old(ctx).position_key,
                    owner: old(ctx).position.owner,
                    amount,
                    timestamp: now,
                })
            },
            Err(e) => old(ctx).rejection(amount, inco_proof@) == Some(e) && *final(ctx) == *old(
                ctx,
            ),
        },
{
    if !ctx.position.owner.same_as(&ctx.owner.key) {
        return Err(ShadowLendError::Unauthorized);
    }
    if amount == 0 {
        return Err(ShadowLendError::InvalidAmount);
    }
    if !verify_inco_borrow_proof(inco_proof.as_slice(), &ctx.position, amount) {
        return Err(ShadowLendError::InvalidIncoProof);
    }
    if ctx.vault.lamports < amount {
        return Err(ShadowLendError::InsufficientLiquidity);
    }
    ctx.vault.lamports = ctx.vault.lamports - amount;
    ctx.owner.lamports = ctx.owner.lamports + amount;
    ctx.position.encrypted_debt = encrypted_new_debt;
    ctx.position.last_update = now;
    ctx.pool.total_borrows = ctx.pool.total_borrows + amount;
    Ok(Borrowed { position: ctx.position_key, owner: ctx.position.owner, amount, timestamp: now })
}

/// Moves `amount` from the owner into escrow, stores the new debt
/// ciphertext and takes `amount` from the pool's borrows, floored at zero. No
/// attestation is needed: a repayment only lowers debt.
///
/// Fails with `Unauthorized` if the caller does not own the position, with
/// `InvalidAmount` if `amount` is zero, with `InsufficientFunds` if the owner
/// holds less than `amount`.
pub fn repay(ctx: &mut Repay, amount: u64, encrypted_new_debt: [u8; 32], now: i64) -> (result:
    Result<Repaid, ShadowLendError>)
    requires
        old(ctx).vault.lamports + amount <= u64::MAX,
    ensures
        match result {
            Ok(event) => {
                &&& old(ctx).rejection(amount) is None
                &&& *final(ctx) == old(ctx).after(amount, encrypted_new_debt, now)
                &&& event == (Repaid {
                    position: old(ctx).position_key,
                    owner: old(ctx).position.owner,
                    amount,
                    timestamp: now,
                })
            },
            Err(e) => old(ctx).rejection(amount) == Some(e) && *final(ctx) == *old(ctx),
        },
{
    if !ctx.position.owner.same_as(&ctx.owner.key) {
        return Err(ShadowLendError::Unauthorized);
    }
    if amount == 0 {
        return Err(ShadowLendError::InvalidAmount);
    }
    if ctx.owner.lamports < amount {
        return Err(ShadowLendError::InsufficientFunds);
    }
    ctx.owner.lamports = ctx.owner.lamports - amount;
    ctx.vault.lamports = ctx.vault.lamports + amount;
    ctx.position.encrypted_debt = encrypted_new_debt;
    ctx.position.last_update = now;
    ctx.pool.total_borrows = ctx.pool.total_borrows.saturating_sub(amount);
    Ok(Repaid { position: ctx.position_key, owner: ctx.position.owner, amount, timestamp: now })
}

/// Moves `amount` from escrow to the owner, stores the new collateral
/// ciphertext and takes `amount` from the pool's deposits, floored at zero.
///
/// Fails with `Unauthorized` if the caller does not own the position, with
/// `InvalidAmount` if `amount` is zero, with `InvalidIncoProof` if the
/// attestation does not hold for the position as stored and for `amount`,
/// with `InsufficientLiquidity` if the escrow holds less than `amount`.
pub fn withdraw_collateral(
    ctx: &mut WithdrawCollateral,
    amount: u64,
    encrypted_new_collateral: [u8; 32],
    inco_proof: Vec<u8>,
    now: i64,
) -> (result: Result<CollateralWithdrawn, ShadowLendError>)
    requires
        old(ctx).owner.lamports + amount <= u64::MAX,
    ensures
        match result {
            Ok(event) => {
                &&& old(ctx).rejection(amount, inco_proof@) is None
                &&& *final(ctx) == old(ctx).after(amount, encrypted_new_collateral, now)
                &&& event == (CollateralWithdrawn {
                    position: old(ctx).position_key,
                    owner: old(ctx).position.owner,
                    amount,
                    timestamp: now,
                })
            },
            Err(e) => old(ctx).rejection(amount, inco_proof@) == Some(e) && *final(ctx) == *old(
                ctx,
            ),
        },
{
    if !ctx.position.owner.same_as(&ctx.owner.key) {
        return Err(ShadowLendError::Unauthorized);
    }
    if amount == 0 {
        return Err(ShadowLendError::InvalidAmount);
    }
    if !verify_inco_withdrawal_proof(inco_proof.as_slice(), &ctx.position, amount) {
        return Err(ShadowLendError::InvalidIncoProof);
    }
    if ctx.vault.lamports < amount {
        return Err(ShadowLendError::InsufficientLiquidity);
    }
    ctx.vault.lamports = ctx.vault.lamports - amount;
    ctx.owner.lamports = ctx.owner.lamports + amount;
    ctx.position.encrypted_collateral = encrypted_new_collateral;
    ctx.position.last_update = now;
    ctx.pool.total_deposits = ctx.pool.total_deposits.saturating_sub(amount);
    Ok(
        CollateralWithdrawn {
            position: ctx.position_key,
            owner: ctx.position.owner,
            amount,
            timestamp: now,
        },
    )
}

/// Deactivates the position, moves what the escrow holds above
/// `retained_minimum` to the liquidator and takes one from the pool's active
/// positions, floored at zero. Any caller may liquidate.
///
/// Fails with `PositionInactive` if the position was liquidated before, with
/// `PositionHealthy` if the attestation does not hold for the position as
/// stored.
pub fn liquidate(
    ctx: &mut Liquidate,
    inco_proof: Vec<u8>,
    retained_minimum: u64,
    now: i64,
) -> (result: Result<PositionLiquidated, ShadowLendError>)
    requires
        old(ctx).liquidator.lamports + old(ctx).swept(retained_minimum) <= u64::MAX,
    ensures
        match result {
            Ok(event) => {
                &&& old(ctx).rejection(inco_proof@) is None
                &&& *final(ctx) == old(ctx).after(retained_minimum)
                &&& event == (PositionLiquidated {
                    position: old(ctx).position_key,
                    owner: old(ctx).position.owner,
                    liquidator: old(ctx).liquidator.key,
                    timestamp: now,
                })
            },
            Err(e) => old(ctx).rejection(inco_proof@) == Some(e) && *final(ctx) == *old(ctx),
        },
{
    if !ctx.position.is_active {
        return Err(ShadowLendError::PositionInactive);
    }
    if !verify_inco_liquidation_proof(inco_proof.as_slice(), &ctx.position) {
        return Err(ShadowLendError::PositionHealthy);
    }
    ctx.position.is_active = false;
    let transferable = ctx.vault.lamports.saturating_sub(retained_minimum);
    if transferable > 0 {
        ctx.vault.lamports = ctx.vault.lamports - transferable;
        ctx.liquidator.lamports = ctx.liquidator.lamports + transferable;
    }
    ctx.pool.active_positions = ctx.pool.active_positions.saturating_sub(1);
    Ok(
        PositionLiquidated {
            position: ctx.position_key,
            owner: ctx.position.owner,
            liquidator: ctx.liquidator.key,
            timestamp: now,
        },
    )
}

/// Deletes the position, returns its storage allowance to the owner and
/// takes one from the pool's active positions, floored at zero.
///
/// Fails with `PositionNotFound` if there is no record, with `Unauthorized`
/// if the caller does not own the position, with `PositionHasDebt` unless the
/// debt ciphertext is all zero.
pub fn close_position(ctx: &mut ClosePosition) -> (result: Result<PositionClosed, ShadowLendError>)
    requires
        old(ctx).owner.lamports + old(ctx).position_lamports <= u64::MAX,
    ensures
        match result {
            Ok(event) => {
                &&& old(ctx).rejection() is None
                &&& *final(ctx) == old(ctx).after()
                &&& event == (PositionClosed {
                    position: old(ctx).position_key,
                    owner: old(ctx).owner.key,
                })
            },
            Err(e) => old(ctx).rejection() == Some(e) && *final(ctx) == *old(ctx),
        },
{
    let position = match ctx.position {
        Some(position) => position,
        None => {
            return Err(ShadowLendError::PositionNotFound);
        },
    };
    if !position.owner.same_as(&ctx.owner.key) {
        return Err(ShadowLendError::Unauthorized);
    }
    if !position.has_zero_debt() {
        return Err(ShadowLendError::PositionHasDebt);
    }
    ctx.pool.active_positions = ctx.pool.active_positions.saturating_sub(1);
    ctx.position = None;
    ctx.owner.lamports = ctx.owner.lamports + ctx.position_lamports;
    ctx.position_lamports = 0;
    Ok(PositionClosed { position: ctx.position_key, owner: position.owner })
}

} // verus!
