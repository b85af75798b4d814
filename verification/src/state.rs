//! The records of the ledger: identities, the pool, positions, and accounts
//! that hold native value.

use vstd::prelude::*;
use crate::bytes::{all_zero, is_all_zero, ranges_equal};

verus! {

/// Length in bytes of an identity and of a ciphertext.
pub const CIPHERTEXT_LEN: usize = 32;

/// The identity of an account: 32 opaque bytes.
#[derive(Clone, Copy, Debug, PartialEq, Eq)]
pub struct Pubkey {
    pub bytes: [u8; 32],
}

impl Pubkey {
    /// Whether two identities are the same.
    pub fn same_as(&self, other: &Pubkey) -> (same: bool)
        ensures
            same == (*self == *other),
    {
        let same = ranges_equal(&self.bytes, 0, &other.bytes, 0, CIPHERTEXT_LEN);
        proof {
            assert(self.bytes@.subrange(0, 32) =~= self.bytes@);
            assert(other.bytes@.subrange(0, 32) =~= other.bytes@);
            if same {
                assert(self.bytes =~= other.bytes);
            }
        }
        same
    }
}

/// An account that holds native value.
#[derive(Clone, Copy, Debug, PartialEq, Eq)]
pub struct Wallet {
    pub key: Pubkey,
    /// The balance, in the smallest unit of the native currency.
    pub lamports: u64,
}

/// The public record of one lending market.
///
/// The three risk parameters are in basis points and are fixed at creation.
/// The three aggregates are sums over all positions and name no user.
#[derive(Clone, Copy, Debug, PartialEq, Eq)]
pub struct Pool {
    pub authority: Pubkey,
    pub collateral_mint: Pubkey,
    pub borrow_mint: Pubkey,
    pub ltv_ratio: u16,
    pub interest_rate: u16,
    pub liquidation_threshold: u16,
    pub total_deposits: u64,
    pub total_borrows: u64,
    pub active_positions: u64,
    pub bump: u8,
    pub is_active: bool,
}

/// One user's confidential record in one pool.
///
/// Collateral and debt are ciphertexts. The ledger compares them and copies
/// them; it never computes on them.
#[derive(Clone, Copy, Debug, PartialEq, Eq)]
pub struct Position {
    pub owner: Pubkey,
    pub pool: Pubkey,
    pub encrypted_collateral: [u8; 32],
    pub encrypted_debt: [u8; 32],
    pub last_update: i64,
    pub is_active: bool,
    pub bump: u8,
}

impl Position {
    /// The debt is the canonical zero ciphertext: all 32 bytes are zero.
    ///
    /// This is equality of ciphertexts. A different encryption of the amount
    /// zero does not count.
    pub open spec fn debt_is_zero(self) -> bool {
        all_zero(self.encrypted_debt@)
    }

    /// Whether the debt is the canonical zero ciphertext.
    pub fn has_zero_debt(&self) -> (zero: bool)
        ensures
            zero == self.debt_is_zero(),
    {
        is_all_zero(&self.encrypted_debt)
    }
}

/// The canonical zero ciphertext: 32 zero bytes.
pub open spec fn zero_ciphertext() -> [u8; 32] {
    vstd::array::spec_array_fill_for_copy_type::<u8, 32>(0u8)
}

/// An aggregate after `amount` is added to it.
pub open spec fn credited(total: int, amount: int) -> int {
    total + amount
}

/// An aggregate after `amount` is taken from it, floored at zero.
pub open spec fn debited(total: int, amount: int) -> int {
    if amount >= total {
        0
    } else {
        total - amount
    }
}

} // verus!
