//! What holds of the attestation checks and the operations taken together.

use vstd::prelude::*;
use crate::accounts::{
    new_position, Borrow, ClosePosition, DepositCollateral, Liquidate, OpenPosition, Repay,
    WithdrawCollateral,
};
use crate::attestation::{
    borrow_proof_valid, bound_to, embedded_amount, embedded_param, embedded_signature,
    liquidation_proof_valid, proof_binding, signature_accepted, withdrawal_proof_valid,
};
use crate::bytes::{all_zero, lemma_le_round_trip, u16_le_bytes, u64_le_bytes};
use crate::error::ShadowLendError;
use crate::state::{Pool, Position, Pubkey};

verus! {

/// The two positions differ in the first 16 bytes of the collateral
/// ciphertext or of the debt ciphertext.
pub open spec fn prefixes_differ(a: Position, b: Position) -> bool {
    ||| a.encrypted_collateral@.subrange(0, 16) != b.encrypted_collateral@.subrange(0, 16)
    ||| a.encrypted_debt@.subrange(0, 16) != b.encrypted_debt@.subrange(0, 16)
}

/// An attestation is bound to one pair of ciphertext prefixes only: bound to
/// one position, it is bound to no position whose prefixes differ, be that
/// another user's position or the same position in an earlier or later state.
pub proof fn lemma_binding_is_exclusive(proof: Seq<u8>, made_for: Position, other: Position)
    requires
        bound_to(proof, made_for),
        prefixes_differ(made_for, other),
    ensures
        !bound_to(proof, other),
        forall|amount: u64| !borrow_proof_valid(proof, other, amount),
        forall|amount: u64| !withdrawal_proof_valid(proof, other, amount),
        !liquidation_proof_valid(proof, other),
{
}

/// An attestation made for a position before a deposit holds no longer once
/// the deposit has changed the first 16 bytes of the collateral ciphertext: a
/// borrow, a withdrawal and a liquidation on the position as it then stands
/// all turn it down, whatever the amount.
pub proof fn lemma_stale_proof_rejected(
    deposit: DepositCollateral,
    amount: u64,
    encrypted_amount: [u8; 32],
    now: i64,
    proof: Seq<u8>,
)
    requires
        bound_to(proof, deposit.position),
        deposit.rejection(amount) is None,
        encrypted_amount@.subrange(0, 16) != deposit.position.encrypted_collateral@.subrange(0, 16),
    ensures
        ({
            let position = deposit.after(amount, encrypted_amount, now).position;
            &&& !bound_to(proof, position)
            &&& forall|later: Borrow, asked: u64|
                later.position == position ==> {
                    &&& #[trigger] later.rejection(asked, proof) is Some
                    &&& later.position.owner == later.owner.key && asked > 0 ==> later.rejection(
                        asked,
                        proof,
                    ) == Some(ShadowLendError::InvalidIncoProof)
                }
            &&& forall|later: WithdrawCollateral, asked: u64|
                later.position == position ==> {
                    &&& #[trigger] later.rejection(asked, proof) is Some
                    &&& later.position.owner == later.owner.key && asked > 0 ==> later.rejection(
                        asked,
                        proof,
                    ) == Some(ShadowLendError::InvalidIncoProof)
                }
            &&& forall|later: Liquidate|
                later.position == position ==> {
                    &&& #[trigger] later.rejection(proof) is Some
                    &&& later.position.is_active ==> later.rejection(proof) == Some(
                        ShadowLendError::PositionHealthy,
                    )
                }
        }),
{
}

/// An attestation that names one amount is turned down for every other
/// amount, even where it is bound to the position.
pub proof fn lemma_amount_substitution_rejected(proof: Seq<u8>, position: Position, requested: u64)
    requires
        embedded_amount(proof) != requested,
    ensures
        !borrow_proof_valid(proof, position, requested),
        !withdrawal_proof_valid(proof, position, requested),
        forall|ctx: Borrow|
            ctx.position == position ==> {
                &&& #[trigger] ctx.rejection(requested, proof) is Some
                &&& ctx.position.owner == ctx.owner.key && requested > 0 ==> ctx.rejection(
                    requested,
                    proof,
                ) == Some(ShadowLendError::InvalidIncoProof)
            },
        forall|ctx: WithdrawCollateral|
            ctx.position == position ==> {
                &&& #[trigger] ctx.rejection(requested, proof) is Some
                &&& ctx.position.owner == ctx.owner.key && requested > 0 ==> ctx.rejection(
                    requested,
                    proof,
                ) == Some(ShadowLendError::InvalidIncoProof)
            },
{
}

/// Once a liquidation is accepted, every further liquidation of the position
/// it left behind fails, whatever attestation comes with it and whoever
/// brings it.
pub proof fn lemma_liquidation_is_exclusive(
    first: Liquidate,
    proof: Seq<u8>,
    retained_minimum: u64,
)
    requires
        first.rejection(proof) is None,
    ensures
        !first.after(retained_minimum).position.is_active,
        forall|second: Liquidate, second_proof: Seq<u8>|
            second.position == first.after(retained_minimum).position
                ==> #[trigger] second.rejection(second_proof) == Some(
                ShadowLendError::PositionInactive,
            ),
{
}

/// The owner cannot close a position whose debt ciphertext has a byte that is
/// not zero, and can close one whose debt ciphertext is all zero. What the
/// ciphertext decrypts to plays no part.
pub proof fn lemma_close_requires_zero_debt(ctx: ClosePosition, position: Position)
    requires
        ctx.position == Some(position),
        position.owner == ctx.owner.key,
    ensures
        (exists|i: int| 0 <= i < 32 && position.encrypted_debt@[i] != 0) ==> ctx.rejection()
            == Some(ShadowLendError::PositionHasDebt),
        (forall|i: int| 0 <= i < 32 ==> position.encrypted_debt@[i] == 0) ==> ctx.rejection()
            is None,
{
}

/// A position as `open_position` leaves it holds the zero ciphertext twice:
/// its owner can close it at once.
pub proof fn lemma_fresh_position_is_closable(
    ctx: ClosePosition,
    owner: Pubkey,
    pool: Pubkey,
    now: i64,
    bump: u8,
)
    requires
        ctx.position == Some(new_position(owner, pool, now, bump)),
        ctx.owner.key == owner,
    ensures
        all_zero(new_position(owner, pool, now, bump).encrypted_collateral@),
        new_position(owner, pool, now, bump).debt_is_zero(),
        ctx.rejection() is None,
{
}

/// The risk parameters and the identities of a pool stay as they were when the
/// pool was created: no operation on a position touches them.
pub open spec fn same_terms(before: Pool, after: Pool) -> bool {
    &&& after.authority == before.authority
    &&& after.collateral_mint == before.collateral_mint
    &&& after.borrow_mint == before.borrow_mint
    &&& after.ltv_ratio == before.ltv_ratio
    &&& after.interest_rate == before.interest_rate
    &&& after.liquidation_threshold == before.liquidation_threshold
    &&& after.bump == before.bump
    &&& after.is_active == before.is_active
}

/// Every operation on a position leaves the pool's risk parameters and
/// identities alone, and leaves the position with its owner and its pool.
pub proof fn lemma_terms_are_fixed(
    open: OpenPosition,
    deposit: DepositCollateral,
    borrow: Borrow,
    repayment: Repay,
    withdrawal: WithdrawCollateral,
    liquidation: Liquidate,
    close: ClosePosition,
    amount: u64,
    ciphertext: [u8; 32],
    retained_minimum: u64,
    now: i64,
)
    ensures
        same_terms(open.pool, open.after(now).pool),
        same_terms(deposit.pool, deposit.after(amount, ciphertext, now).pool),
        same_terms(borrow.pool, borrow.after(amount, ciphertext, now).pool),
        same_terms(repayment.pool, repayment.after(amount, ciphertext, now).pool),
        same_terms(withdrawal.pool, withdrawal.after(amount, ciphertext, now).pool),
        same_terms(liquidation.pool, liquidation.after(retained_minimum).pool),
        same_terms(close.pool, close.after().pool),
        deposit.after(amount, ciphertext, now).position.owner == deposit.position.owner,
        deposit.after(amount, ciphertext, now).position.pool == deposit.position.pool,
        borrow.after(amount, ciphertext, now).position.owner == borrow.position.owner,
        borrow.after(amount, ciphertext, now).position.pool == borrow.position.pool,
        repayment.after(amount, ciphertext, now).position.owner == repayment.position.owner,
        repayment.after(amount, ciphertext, now).position.pool == repayment.position.pool,
        withdrawal.after(amount, ciphertext, now).position.owner == withdrawal.position.owner,
        withdrawal.after(amount, ciphertext, now).position.pool == withdrawal.position.pool,
        liquidation.after(retained_minimum).position.owner == liquidation.position.owner,
        liquidation.after(retained_minimum).position.pool == liquidation.position.pool,
{
}

/// No operation makes or destroys native value: where the sums fit, what the
/// accounts of an accepted operation hold together is what they held before.
/// A liquidation leaves the escrow with the minimum it retains, or with what
/// it held if that was less.
pub proof fn lemma_value_is_conserved(
    deposit: DepositCollateral,
    borrow: Borrow,
    repayment: Repay,
    withdrawal: WithdrawCollateral,
    liquidation: Liquidate,
    close: ClosePosition,
    amount: u64,
    proof: Seq<u8>,
    ciphertext: [u8; 32],
    retained_minimum: u64,
    now: i64,
)
    ensures
        deposit.rejection(amount) is None && deposit.vault.lamports + amount <= u64::MAX ==> ({
            let after = deposit.after(amount, ciphertext, now);
            after.vault.lamports + after.owner.lamports == deposit.vault.lamports
                + deposit.owner.lamports
        }),
        borrow.rejection(amount, proof) is None && borrow.owner.lamports + amount <= u64::MAX
            ==> ({
            let after = borrow.after(amount, ciphertext, now);
            after.vault.lamports + after.owner.lamports == borrow.vault.lamports
                + borrow.owner.lamports
        }),
        repayment.rejection(amount) is None && repayment.vault.lamports + amount <= u64::MAX
            ==> ({
            let after = repayment.after(amount, ciphertext, now);
            after.vault.lamports + after.owner.lamports == repayment.vault.lamports
                + repayment.owner.lamports
        }),
        withdrawal.rejection(amount, proof) is None && withdrawal.owner.lamports + amount
            <= u64::MAX ==> ({
            let after = withdrawal.after(amount, ciphertext, now);
            after.vault.lamports + after.owner.lamports == withdrawal.vault.lamports
                + withdrawal.owner.lamports
        }),
        liquidation.liquidator.lamports + liquidation.swept(retained_minimum) <= u64::MAX ==> ({
            let after = liquidation.after(retained_minimum);
            &&& after.vault.lamports + after.liquidator.lamports == liquidation.vault.lamports
                + liquidation.liquidator.lamports
            &&& liquidation.vault.lamports >= retained_minimum ==> after.vault.lamports
                == retained_minimum
            &&& liquidation.vault.lamports <= retained_minimum ==> after.vault.lamports
                == liquidation.vault.lamports
        }),
        close.owner.lamports + close.position_lamports <= u64::MAX ==> ({
            let after = close.after();
            after.position_lamports + after.owner.lamports == close.position_lamports
                + close.owner.lamports
        }),
{
}

/// The bytes of an attestation for `position`: the two prefixes, the amount,
/// the parameter, a signature of 16 bytes, and what follows.
pub open spec fn attestation_for(
    position: Position,
    amount: u64,
    param: u16,
    signature: Seq<u8>,
    rest: Seq<u8>,
) -> Seq<u8> {
    position.encrypted_collateral@.subrange(0, 16) + position.encrypted_debt@.subrange(0, 16)
        + u64_le_bytes(amount) + u16_le_bytes(param) + signature + rest
}

/// An attestation laid out for a position and an amount is read back as it
/// was written. It is accepted for a withdrawal of that amount and for a
/// liquidation, and for a borrow of that amount exactly when its signature
/// is all zero or is the binding value.
pub proof fn lemma_attestation_layout(
    position: Position,
    amount: u64,
    param: u16,
    signature: Seq<u8>,
    rest: Seq<u8>,
)
    requires
        signature.len() == 16,
        rest.len() >= 6,
    ensures
        ({
            let proof = attestation_for(position, amount, param, signature, rest);
            &&& bound_to(proof, position)
            &&& embedded_amount(proof) == amount
            &&& embedded_param(proof) == param
            &&& embedded_signature(proof) == signature
            &&& withdrawal_proof_valid(proof, position, amount)
            &&& liquidation_proof_valid(proof, position)
            &&& borrow_proof_valid(proof, position, amount) <==> signature_accepted(
                signature,
                proof_binding(
                    position.encrypted_collateral@,
                    position.encrypted_debt@,
                    amount,
                    param,
                ),
            )
        }),
{
    let proof = attestation_for(position, amount, param, signature, rest);
    lemma_le_round_trip(amount, param);
    assert(proof.subrange(0, 16) =~= position.encrypted_collateral@.subrange(0, 16));
    assert(proof.subrange(16, 32) =~= position.encrypted_debt@.subrange(0, 16));
    assert(proof.subrange(32, 40) =~= u64_le_bytes(amount));
    assert(proof.subrange(40, 42) =~= u16_le_bytes(param));
    assert(proof.subrange(42, 58) =~= signature);
}

} // verus!
