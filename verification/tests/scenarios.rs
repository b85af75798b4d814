use shadow_lend::{
    borrow, close_position, deposit_collateral, initialize_pool, liquidate, open_position, repay,
    verify_inco_borrow_proof, verify_inco_liquidation_proof, verify_inco_withdrawal_proof,
    withdraw_collateral, Borrow, ClosePosition, DepositCollateral, InitializePool, Liquidate,
    OpenPosition, Pool, Position, Pubkey, Repay, ShadowLendError, Wallet, WithdrawCollateral,
};

fn key(b: u8) -> Pubkey {
    Pubkey { bytes: [b; 32] }
}

fn attestation(position: &Position, amount: u64) -> Vec<u8> {
    let mut proof = Vec::new();
    proof.extend_from_slice(&position.encrypted_collateral[..16]);
    proof.extend_from_slice(&position.encrypted_debt[..16]);
    proof.extend_from_slice(&amount.to_le_bytes());
    proof.extend_from_slice(&7500u16.to_le_bytes());
    proof.extend_from_slice(&[0u8; 22]);
    proof
}

fn ciphertext(seed: u8) -> [u8; 32] {
    let mut bytes = [0u8; 32];
    for (i, byte) in bytes.iter_mut().enumerate() {
        *byte = seed ^ (i as u8).wrapping_mul(37).wrapping_add(1);
    }
    bytes
}

/// A pool with one fresh position, an empty escrow and an owner with funds.
struct Market {
    pool: Pool,
    position: Position,
    vault: Wallet,
    owner: Wallet,
}

fn market() -> Market {
    let mut init = InitializePool {
        pool: None,
        pool_key: key(4),
        pool_bump: 255,
        authority: Wallet { key: key(9), lamports: 0 },
    };
    initialize_pool(&mut init, key(10), key(11), 7500, 500, 8000).unwrap();
    let owner = Wallet { key: key(1), lamports: 10_000 };
    let mut open = OpenPosition {
        pool: init.pool.unwrap(),
        pool_key: key(4),
        position: None,
        position_key: key(5),
        position_bump: 254,
        owner,
    };
    open_position(&mut open, 1).unwrap();
    Market {
        pool: open.pool,
        position: open.position.unwrap(),
        vault: Wallet { key: key(3), lamports: 0 },
        owner,
    }
}

impl Market {
    fn deposit(&mut self, amount: u64, ciphertext: [u8; 32]) -> Result<(), ShadowLendError> {
        let mut ctx = DepositCollateral {
            pool: self.pool,
            position: self.position,
            position_key: key(5),
            vault: self.vault,
            owner: self.owner,
        };
        let done = deposit_collateral(&mut ctx, amount, ciphertext, 2).map(|_| ());
        (self.pool, self.position, self.vault, self.owner) =
            (ctx.pool, ctx.position, ctx.vault, ctx.owner);
        done
    }

    fn withdraw(&mut self, amount: u64, ciphertext: [u8; 32]) -> Result<(), ShadowLendError> {
        let mut ctx = WithdrawCollateral {
            pool: self.pool,
            position: self.position,
            position_key: key(5),
            vault: self.vault,
            owner: self.owner,
        };
        let proof = attestation(&ctx.position, amount);
        let done = withdraw_collateral(&mut ctx, amount, ciphertext, proof, 3).map(|_| ());
        (self.pool, self.position, self.vault, self.owner) =
            (ctx.pool, ctx.position, ctx.vault, ctx.owner);
        done
    }

    fn borrow(&mut self, amount: u64, ciphertext: [u8; 32]) -> Result<(), ShadowLendError> {
        let mut ctx = Borrow {
            pool: self.pool,
            position: self.position,
            position_key: key(5),
            vault: self.vault,
            owner: self.owner,
        };
        let proof = attestation(&ctx.position, amount);
        let done = borrow(&mut ctx, amount, ciphertext, proof, 4).map(|_| ());
        (self.pool, self.position, self.vault, self.owner) =
            (ctx.pool, ctx.position, ctx.vault, ctx.owner);
        done
    }

    fn repay(&mut self, amount: u64, ciphertext: [u8; 32]) -> Result<(), ShadowLendError> {
        let mut ctx = Repay {
            pool: self.pool,
            position: self.position,
            position_key: key(5),
            vault: self.vault,
            owner: self.owner,
        };
        let done = repay(&mut ctx, amount, ciphertext, 5).map(|_| ());
        (self.pool, self.position, self.vault, self.owner) =
            (ctx.pool, ctx.position, ctx.vault, ctx.owner);
        done
    }

    fn close(&mut self) -> Result<Option<Position>, ShadowLendError> {
        let mut ctx = ClosePosition {
            pool: self.pool,
            position: Some(self.position),
            position_key: key(5),
            position_lamports: 1500,
            owner: self.owner,
        };
        let done = close_position(&mut ctx).map(|_| ctx.position);
        (self.pool, self.owner) = (ctx.pool, ctx.owner);
        done
    }
}

#[test]
fn a_position_from_opening_to_closing() {
    let mut m = market();
    assert_eq!((m.pool.ltv_ratio, m.pool.liquidation_threshold), (7500, 8000));
    assert_eq!(m.pool.active_positions, 1);

    assert_eq!(m.deposit(1000, ciphertext(0xC0)), Ok(()));
    assert_eq!(m.pool.total_deposits, 1000);

    assert_eq!(m.borrow(500, ciphertext(0xD0)), Ok(()));
    assert_eq!(m.pool.total_borrows, 500);
    assert_eq!((m.vault.lamports, m.owner.lamports), (500, 9500));

    let before = (m.pool, m.owner);
    assert_eq!(m.close(), Err(ShadowLendError::PositionHasDebt));
    assert_eq!((m.pool, m.owner), before);

    assert_eq!(m.repay(500, [0; 32]), Ok(()));
    assert_eq!(m.pool.total_borrows, 0);
    assert_eq!((m.vault.lamports, m.owner.lamports), (1000, 9000));

    assert_eq!(m.close(), Ok(None));
    assert_eq!(m.pool.active_positions, 0);
    assert_eq!(m.owner.lamports, 10_500);
}

#[test]
fn an_attestation_made_before_a_deposit_fails_after_it() {
    let mut m = market();
    m.deposit(1000, ciphertext(0xC0)).unwrap();
    let stale = attestation(&m.position, 200);
    assert!(verify_inco_borrow_proof(&stale, &m.position, 200));
    assert!(verify_inco_withdrawal_proof(&stale, &m.position, 200));
    assert!(verify_inco_liquidation_proof(&stale, &m.position));

    m.deposit(50, ciphertext(0xC1)).unwrap();
    assert!(!verify_inco_borrow_proof(&stale, &m.position, 200));
    assert!(!verify_inco_withdrawal_proof(&stale, &m.position, 200));
    assert!(!verify_inco_liquidation_proof(&stale, &m.position));

    let mut ctx = Borrow {
        pool: m.pool,
        position: m.position,
        position_key: key(5),
        vault: m.vault,
        owner: m.owner,
    };
    let before = ctx;
    assert_eq!(
        borrow(&mut ctx, 200, ciphertext(0xD0), stale.clone(), 9),
        Err(ShadowLendError::InvalidIncoProof)
    );
    assert_eq!(ctx, before);

    let mut ctx = WithdrawCollateral {
        pool: m.pool,
        position: m.position,
        position_key: key(5),
        vault: m.vault,
        owner: m.owner,
    };
    assert_eq!(
        withdraw_collateral(&mut ctx, 200, ciphertext(0xC2), stale.clone(), 9),
        Err(ShadowLendError::InvalidIncoProof)
    );

    let mut ctx = Liquidate {
        pool: m.pool,
        position: m.position,
        position_key: key(5),
        vault: m.vault,
        liquidator: Wallet { key: key(2), lamports: 0 },
    };
    assert_eq!(liquidate(&mut ctx, stale, 0, 9), Err(ShadowLendError::PositionHealthy));
}

#[test]
fn an_attestation_made_before_a_borrow_fails_after_it() {
    let mut m = market();
    m.deposit(1000, ciphertext(0xC0)).unwrap();
    let stale = attestation(&m.position, 100);
    m.borrow(100, ciphertext(0xD0)).unwrap();
    // The same bytes, replayed for a second borrow of the same amount.
    let mut ctx = Borrow {
        pool: m.pool,
        position: m.position,
        position_key: key(5),
        vault: m.vault,
        owner: m.owner,
    };
    assert_eq!(
        borrow(&mut ctx, 100, ciphertext(0xD1), stale, 9),
        Err(ShadowLendError::InvalidIncoProof)
    );
}

#[test]
fn a_deposit_that_keeps_the_prefix_keeps_the_attestation() {
    let mut m = market();
    let first = ciphertext(0xC0);
    m.deposit(1000, first).unwrap();
    let made = attestation(&m.position, 200);
    let mut second = first;
    second[16] ^= 0xFF;
    second[31] ^= 0xFF;
    m.deposit(50, second).unwrap();
    assert!(verify_inco_withdrawal_proof(&made, &m.position, 200));
}

#[test]
fn deposits_follow_the_net_of_what_went_in_and_out() {
    let mut m = market();
    m.owner.lamports = 1_000_000;
    let mut expected: i64 = 0;
    for (i, step) in [1000i64, 500, -300, 250, -1450, 70, -70].into_iter().enumerate() {
        let ciphertext = ciphertext(i as u8);
        if step > 0 {
            m.deposit(step as u64, ciphertext).unwrap();
        } else {
            m.withdraw((-step) as u64, ciphertext).unwrap();
        }
        expected += step;
        assert_eq!(m.pool.total_deposits as i64, expected);
    }
    assert_eq!(m.pool.total_deposits, 0);
}

#[test]
fn deposits_stop_at_zero_and_go_on_from_there() {
    let mut m = market();
    m.deposit(100, ciphertext(1)).unwrap();
    // Another position's deposit is in escrow but not in this walk of the
    // aggregate: the pool's total is made smaller than the escrow.
    m.pool.total_deposits = 40;
    m.withdraw(100, ciphertext(2)).unwrap();
    assert_eq!(m.pool.total_deposits, 0);
    m.deposit(3, ciphertext(3)).unwrap();
    assert_eq!(m.pool.total_deposits, 3);
}

#[test]
fn borrows_follow_the_net_of_what_went_out_and_came_back() {
    let mut m = market();
    m.deposit(5000, ciphertext(1)).unwrap();
    m.borrow(1200, ciphertext(2)).unwrap();
    m.borrow(300, ciphertext(3)).unwrap();
    assert_eq!(m.pool.total_borrows, 1500);
    m.repay(500, ciphertext(4)).unwrap();
    assert_eq!(m.pool.total_borrows, 1000);
    m.repay(2000, ciphertext(5)).unwrap();
    assert_eq!(m.pool.total_borrows, 0);
    m.borrow(10, ciphertext(6)).unwrap();
    assert_eq!(m.pool.total_borrows, 10);
    assert_eq!(m.pool.total_deposits, 5000);
}

#[test]
fn a_liquidated_position_cannot_be_liquidated_again() {
    let mut m = market();
    m.deposit(1000, ciphertext(0xC0)).unwrap();
    let mut ctx = Liquidate {
        pool: m.pool,
        position: m.position,
        position_key: key(5),
        vault: m.vault,
        liquidator: Wallet { key: key(2), lamports: 0 },
    };
    let proof = attestation(&ctx.position, 0);
    assert!(liquidate(&mut ctx, proof.clone(), 890, 7).is_ok());
    assert_eq!((ctx.vault.lamports, ctx.liquidator.lamports), (890, 110));
    assert_eq!(ctx.pool.active_positions, 0);
    let before = ctx;
    assert_eq!(liquidate(&mut ctx, proof, 890, 8), Err(ShadowLendError::PositionInactive));
    assert_eq!(ctx, before);
}

#[test]
fn a_fresh_position_can_be_closed_at_once() {
    let mut m = market();
    assert_eq!(m.close(), Ok(None));
    assert_eq!(m.pool.active_positions, 0);
}
