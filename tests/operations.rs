use stablecoin_bridge::admin::{
    initialize_config, initialize_pool, pause_pool, resume_pool, update_fee_rate,
    InitializeConfig, InitializePool, PauseResumePool, UpdateFeeRate,
};
use stablecoin_bridge::bridge::{
    lock_for_bridge, release_locked_liquidity, LockForBridge, ReleaseLockedLiquidity,
};
use stablecoin_bridge::errors::BridgeError;
use stablecoin_bridge::liquidity::{
    deposit_liquidity, withdraw_liquidity, DepositLiquidity, WithdrawLiquidity,
};
use stablecoin_bridge::state::{BridgeLock, Config, Identity, Pool};

fn id(b: u8) -> Identity {
    Identity::new([b; 32])
}

fn config() -> Config {
    initialize_config(&InitializeConfig { admin: id(1), relayer: id(2), bump: 255 })
}

fn pool_init_ctx() -> InitializePool {
    InitializePool {
        pool_key: id(10),
        bump: 254,
        admin: id(1),
        config_key: id(11),
        config: config(),
        stablecoin_mint: id(12),
        vault: id(13),
        vault_owner: id(10),
        lp_token_mint: id(14),
        lp_mint_authority: Some(id(10)),
    }
}

fn new_pool(fee_rate_bps: u16, max_lock_per_tx: u64) -> Pool {
    initialize_pool(&pool_init_ctx(), fee_rate_bps, max_lock_per_tx, 60).unwrap()
}

fn consistent(p: &Pool) -> bool {
    p.is_well_formed() && p.total_liquidity == p.available_liquidity + p.locked_liquidity
}

fn deposit_ctx(pool: Pool, config: Config, lp_supply: u64) -> DepositLiquidity {
    DepositLiquidity { pool_key: id(10), pool, config, depositor: id(20), lp_supply, now: 100 }
}

fn withdraw_ctx(pool: Pool, config: Config, lp_supply: u64) -> WithdrawLiquidity {
    WithdrawLiquidity { pool_key: id(10), pool, config, withdrawer: id(20), lp_supply, now: 200 }
}

fn lock_ctx(pool: Pool, config: Config) -> LockForBridge {
    LockForBridge { pool_key: id(10), pool, config, sender: id(30), now: 300 }
}

fn release_ctx(pool: Pool, config: Config, lock: BridgeLock) -> ReleaseLockedLiquidity {
    ReleaseLockedLiquidity {
        pool_key: id(10),
        pool,
        config,
        relayer: id(2),
        bridge_lock_key: id(40),
        bridge_lock: lock,
        now: 400,
    }
}

fn funded_pool(available: u64) -> Pool {
    let mut p = new_pool(0, 1_000_000);
    p.total_liquidity = available;
    p.available_liquidity = available;
    p
}

#[test]
fn config_starts_unpaused() {
    let c = config();
    assert_eq!(c.admin, id(1));
    assert_eq!(c.relayer, id(2));
    assert!(!c.paused);
    assert_eq!(c.bump, 255);
}

#[test]
fn pool_starts_empty() {
    let p = new_pool(30, 5000);
    assert_eq!(p.fee_rate_bps, 30);
    assert_eq!(p.max_lock_per_tx, 5000);
    assert_eq!(p.lock_cooldown_seconds, 60);
    assert_eq!(p.next_lock_nonce, 0);
    assert_eq!((p.total_liquidity, p.available_liquidity, p.locked_liquidity), (0, 0, 0));
    assert_eq!(p.admin, id(1));
    assert_eq!(p.config, id(11));
    assert_eq!(p.stablecoin_mint, id(12));
    assert_eq!(p.vault, id(13));
    assert_eq!(p.lp_token_mint, id(14));
    assert!(!p.paused);
    assert!(consistent(&p));
}

#[test]
fn pool_init_checks() {
    let mut ctx = pool_init_ctx();
    assert_eq!(initialize_pool(&ctx, 10001, 1, 0), Err(BridgeError::InvalidFeeRate));
    ctx.admin = id(9);
    assert_eq!(initialize_pool(&ctx, 0, 1, 0), Err(BridgeError::UnauthorizedAdmin));
    let mut ctx = pool_init_ctx();
    ctx.vault_owner = id(9);
    assert_eq!(initialize_pool(&ctx, 0, 1, 0), Err(BridgeError::InvalidPoolState));
    let mut ctx = pool_init_ctx();
    ctx.lp_mint_authority = None;
    assert_eq!(initialize_pool(&ctx, 0, 1, 0), Err(BridgeError::InvalidPoolState));
    ctx.lp_mint_authority = Some(id(9));
    assert_eq!(initialize_pool(&ctx, 0, 1, 0), Err(BridgeError::InvalidPoolState));
}

#[test]
fn bootstrap_deposit() {
    let mut ctx = deposit_ctx(new_pool(0, 1000), config(), 0);
    let ev = deposit_liquidity(&mut ctx, 1000).unwrap();
    assert_eq!(ev.lp_tokens_minted, 1000);
    assert_eq!(ev.stablecoin_amount, 1000);
    assert_eq!(ev.pool, id(10));
    assert_eq!(ev.depositor, id(20));
    assert_eq!(ev.timestamp, 100);
    assert_eq!(ctx.pool.available_liquidity, 1000);
    assert_eq!(ctx.pool.total_liquidity, 1000);
}

#[test]
fn proportional_deposit() {
    let mut ctx = deposit_ctx(funded_pool(1000), config(), 1000);
    let ev = deposit_liquidity(&mut ctx, 500).unwrap();
    assert_eq!(ev.lp_tokens_minted, 500);
    assert_eq!(ctx.pool.available_liquidity, 1500);
    assert_eq!(ctx.pool.total_liquidity, 1500);
}

#[test]
fn deposit_fee_stays_in_pool() {
    let mut p = funded_pool(1000);
    p.fee_rate_bps = 100;
    let mut ctx = deposit_ctx(p, config(), 1000);
    let ev = deposit_liquidity(&mut ctx, 1000).unwrap();
    // fee 10, net 990
    assert_eq!(ev.lp_tokens_minted, 990);
    assert_eq!(ev.stablecoin_amount, 1000);
    assert_eq!(ctx.pool.available_liquidity, 2000);
}

#[test]
fn withdraw_payout() {
    let mut ctx = withdraw_ctx(funded_pool(1500), config(), 1500);
    let ev = withdraw_liquidity(&mut ctx, 300).unwrap();
    assert_eq!(ev.stablecoin_amount, 300);
    assert_eq!(ev.lp_tokens_burned, 300);
    assert_eq!(ev.withdrawer, id(20));
    assert_eq!(ev.timestamp, 200);
    assert_eq!(ctx.pool.available_liquidity, 1200);
    assert_eq!(ctx.pool.total_liquidity, 1200);
}

#[test]
fn withdraw_errors_keep_state() {
    let mut ctx = withdraw_ctx(funded_pool(1500), config(), 1500);
    let before = ctx.pool;
    assert_eq!(withdraw_liquidity(&mut ctx, 0), Err(BridgeError::ZeroLpAmount));
    ctx.lp_supply = 0;
    assert_eq!(withdraw_liquidity(&mut ctx, 10), Err(BridgeError::MathOverflow));
    ctx.lp_supply = 3000;
    assert_eq!(withdraw_liquidity(&mut ctx, 1), Err(BridgeError::ZeroStablecoinAmount));
    ctx.lp_supply = 10;
    assert_eq!(withdraw_liquidity(&mut ctx, 20), Err(BridgeError::InsufficientLiquidity));
    assert_eq!(ctx.pool, before);
}

#[test]
fn lock_over_limit_is_rejected() {
    let mut ctx = lock_ctx(new_pool(0, 500), config());
    let before = ctx.pool;
    assert_eq!(
        lock_for_bridge(&mut ctx, 501, 1, [7; 32]),
        Err(BridgeError::LockAmountExceedsLimit)
    );
    assert_eq!(ctx.pool, before);
    assert!(lock_for_bridge(&mut ctx, 500, 1, [7; 32]).is_ok());
}

#[test]
fn lock_zero_is_rejected() {
    let mut ctx = lock_ctx(new_pool(0, 500), config());
    assert_eq!(lock_for_bridge(&mut ctx, 0, 1, [7; 32]), Err(BridgeError::ZeroStablecoinAmount));
}

#[test]
fn lock_records_intent() {
    let mut ctx = lock_ctx(funded_pool(1000), config());
    let (lock, intent) = lock_for_bridge(&mut ctx, 250, 8453, [9; 32]).unwrap();
    assert_eq!(lock.pool, id(10));
    assert_eq!(lock.amount, 250);
    assert_eq!(lock.nonce, 0);
    assert_eq!(lock.destination_chain_id, 8453);
    assert_eq!(lock.recipient_address, [9; 32]);
    assert_eq!(lock.sender, id(30));
    assert!(!lock.released);
    assert_eq!(lock.locked_at, 300);
    assert_eq!(intent.amount, 250);
    assert_eq!(intent.nonce, 0);
    assert_eq!(intent.destination_chain_id, 8453);
    assert_eq!(intent.recipient_address, [9; 32]);
    assert_eq!(intent.timestamp, 300);
    // locking grows the total and the locked partition, not the available one
    assert_eq!(ctx.pool.total_liquidity, 1250);
    assert_eq!(ctx.pool.locked_liquidity, 250);
    assert_eq!(ctx.pool.available_liquidity, 1000);
    assert_eq!(ctx.pool.next_lock_nonce, 1);
}

#[test]
fn lock_overflow_is_rejected() {
    let mut p = new_pool(0, u64::MAX);
    p.total_liquidity = u64::MAX - 5;
    p.available_liquidity = u64::MAX - 5;
    let mut ctx = lock_ctx(p, config());
    assert_eq!(lock_for_bridge(&mut ctx, 6, 1, [0; 32]), Err(BridgeError::MathOverflow));
    assert_eq!(ctx.pool.next_lock_nonce, 0);
}

#[test]
fn lock_counter_saturates() {
    let mut p = new_pool(0, 10);
    p.next_lock_nonce = u64::MAX;
    let mut ctx = lock_ctx(p, config());
    let (lock, _) = lock_for_bridge(&mut ctx, 1, 1, [0; 32]).unwrap();
    assert_eq!(lock.nonce, u64::MAX);
    assert_eq!(ctx.pool.next_lock_nonce, u64::MAX);
}

#[test]
fn nonces_are_sequential_across_operations() {
    let cfg = config();
    let mut pool = funded_pool(10_000);
    let mut nonces = Vec::new();
    for i in 0..5u64 {
        let mut lk = lock_ctx(pool, cfg);
        let (lock, intent) = lock_for_bridge(&mut lk, 100 + i, 1, [0; 32]).unwrap();
        assert_eq!(lock.nonce, intent.nonce);
        nonces.push(lock.nonce);
        pool = lk.pool;
        let mut dep = deposit_ctx(pool, cfg, pool.available_liquidity);
        deposit_liquidity(&mut dep, 50).unwrap();
        pool = dep.pool;
        let mut rel = release_ctx(pool, cfg, lock);
        release_locked_liquidity(&mut rel).unwrap();
        pool = rel.pool;
    }
    assert_eq!(nonces, vec![0, 1, 2, 3, 4]);
    assert_eq!(pool.next_lock_nonce, 5);
}

#[test]
fn release_exactly_once() {
    let cfg = config();
    let mut lk = lock_ctx(funded_pool(1000), cfg);
    let (lock, _) = lock_for_bridge(&mut lk, 400, 1, [0; 32]).unwrap();
    let mut rel = release_ctx(lk.pool, cfg, lock);
    let ev = release_locked_liquidity(&mut rel).unwrap();
    assert_eq!(ev.amount, 400);
    assert_eq!(ev.nonce, 0);
    assert_eq!(ev.pool, id(10));
    assert_eq!(ev.bridge_lock, id(40));
    assert_eq!(ev.timestamp, 400);
    assert!(rel.bridge_lock.released);
    assert_eq!(rel.pool.locked_liquidity, 0);
    assert_eq!(rel.pool.available_liquidity, 1400);
    assert_eq!(rel.pool.total_liquidity, 1400);
    let after_first = (rel.pool, rel.bridge_lock);
    assert_eq!(release_locked_liquidity(&mut rel), Err(BridgeError::AlreadyReleased));
    assert_eq!((rel.pool, rel.bridge_lock), after_first);
}

#[test]
fn release_checks_relayer_and_pool() {
    let cfg = config();
    let mut lk = lock_ctx(funded_pool(1000), cfg);
    let (lock, _) = lock_for_bridge(&mut lk, 400, 1, [0; 32]).unwrap();
    let mut rel = release_ctx(lk.pool, cfg, lock);
    rel.relayer = id(1);
    assert_eq!(release_locked_liquidity(&mut rel), Err(BridgeError::UnauthorizedRelayer));
    rel.relayer = id(2);
    rel.pool_key = id(99);
    assert_eq!(release_locked_liquidity(&mut rel), Err(BridgeError::InvalidBridgeLock));
    assert!(!rel.bridge_lock.released);
}

#[test]
fn release_of_more_than_locked_overflows() {
    let cfg = config();
    let lock = BridgeLock {
        pool: id(10),
        amount: 10,
        nonce: 0,
        destination_chain_id: 1,
        recipient_address: [0; 32],
        sender: id(30),
        released: false,
        locked_at: 0,
    };
    let mut rel = release_ctx(funded_pool(100), cfg, lock);
    assert_eq!(release_locked_liquidity(&mut rel), Err(BridgeError::MathOverflow));
    assert!(!rel.bridge_lock.released);
}

#[test]
fn global_pause_gates_all_but_release() {
    let mut cfg = config();
    let mut lk = lock_ctx(funded_pool(1000), cfg);
    let (lock, _) = lock_for_bridge(&mut lk, 100, 1, [0; 32]).unwrap();
    cfg.paused = true;
    let pool = lk.pool;
    let mut dep = deposit_ctx(pool, cfg, 1000);
    assert_eq!(deposit_liquidity(&mut dep, 10), Err(BridgeError::PoolPaused));
    let mut wd = withdraw_ctx(pool, cfg, 1000);
    assert_eq!(withdraw_liquidity(&mut wd, 10), Err(BridgeError::PoolPaused));
    let mut lk2 = lock_ctx(pool, cfg);
    assert_eq!(lock_for_bridge(&mut lk2, 10, 1, [0; 32]), Err(BridgeError::PoolPaused));
    assert_eq!(lk2.pool, pool);
    let mut rel = release_ctx(pool, cfg, lock);
    assert!(release_locked_liquidity(&mut rel).is_ok());
}

#[test]
fn pool_pause_and_resume() {
    let mut adm = PauseResumePool { pool: funded_pool(1000), admin: id(1) };
    pause_pool(&mut adm).unwrap();
    assert!(adm.pool.paused);
    let mut dep = deposit_ctx(adm.pool, config(), 1000);
    assert_eq!(deposit_liquidity(&mut dep, 10), Err(BridgeError::PoolPaused));
    let mut wd = withdraw_ctx(adm.pool, config(), 1000);
    assert_eq!(withdraw_liquidity(&mut wd, 10), Err(BridgeError::PoolPaused));
    let mut lk = lock_ctx(adm.pool, config());
    assert_eq!(lock_for_bridge(&mut lk, 10, 1, [0; 32]), Err(BridgeError::PoolPaused));
    resume_pool(&mut adm).unwrap();
    assert!(!adm.pool.paused);
    let mut dep = deposit_ctx(adm.pool, config(), 1000);
    assert!(deposit_liquidity(&mut dep, 10).is_ok());
}

#[test]
fn pause_requires_pool_admin() {
    let mut adm = PauseResumePool { pool: funded_pool(1000), admin: id(5) };
    assert_eq!(pause_pool(&mut adm), Err(BridgeError::UnauthorizedAdmin));
    assert!(!adm.pool.paused);
    assert_eq!(resume_pool(&mut adm), Err(BridgeError::UnauthorizedAdmin));
}

#[test]
fn fee_update() {
    let mut ctx = UpdateFeeRate { pool: new_pool(0, 10), admin: id(1) };
    assert_eq!(update_fee_rate(&mut ctx, 10001), Err(BridgeError::InvalidFeeRate));
    assert_eq!(ctx.pool.fee_rate_bps, 0);
    update_fee_rate(&mut ctx, 10000).unwrap();
    assert_eq!(ctx.pool.fee_rate_bps, 10000);
    ctx.admin = id(3);
    assert_eq!(update_fee_rate(&mut ctx, 5), Err(BridgeError::UnauthorizedAdmin));
    assert_eq!(ctx.pool.fee_rate_bps, 10000);
}

#[test]
fn dust_deposit_is_rejected() {
    let mut ctx = deposit_ctx(funded_pool(1_000_000), config(), 10);
    let before = ctx.pool;
    assert_eq!(deposit_liquidity(&mut ctx, 1000), Err(BridgeError::ZeroLpAmount));
    assert_eq!(ctx.pool, before);
}

#[test]
fn deposit_zero_is_rejected() {
    let mut ctx = deposit_ctx(funded_pool(1000), config(), 1000);
    assert_eq!(deposit_liquidity(&mut ctx, 0), Err(BridgeError::ZeroStablecoinAmount));
}

#[test]
fn deposit_total_overflow() {
    let mut p = new_pool(0, 10);
    p.total_liquidity = u64::MAX;
    p.locked_liquidity = u64::MAX;
    let mut ctx = deposit_ctx(p, config(), 0);
    assert_eq!(deposit_liquidity(&mut ctx, 1), Err(BridgeError::MathOverflow));
    assert_eq!(ctx.pool, p);
}

#[test]
fn invariant_after_mixed_sequence() {
    let cfg = config();
    let mut pool = new_pool(25, 10_000);
    let mut dep = deposit_ctx(pool, cfg, 0);
    deposit_liquidity(&mut dep, 5000).unwrap();
    pool = dep.pool;
    assert!(consistent(&pool));
    let mut lk = lock_ctx(pool, cfg);
    let (lock, _) = lock_for_bridge(&mut lk, 2000, 1, [0; 32]).unwrap();
    pool = lk.pool;
    assert!(consistent(&pool));
    let mut wd = withdraw_ctx(pool, cfg, 4987);
    withdraw_liquidity(&mut wd, 1000).unwrap();
    pool = wd.pool;
    assert!(consistent(&pool));
    let mut rel = release_ctx(pool, cfg, lock);
    release_locked_liquidity(&mut rel).unwrap();
    pool = rel.pool;
    assert!(consistent(&pool));
    assert_eq!(pool.locked_liquidity, 0);
}

#[test]
fn inconsistent_pool_is_detected() {
    let mut p = funded_pool(100);
    assert!(p.is_well_formed());
    p.locked_liquidity = 1;
    assert!(!p.is_well_formed());
    let mut q = funded_pool(100);
    q.fee_rate_bps = 10001;
    assert!(!q.is_well_formed());
}

#[test]
fn identities_compare_by_bytes() {
    let mut b = [3u8; 32];
    assert_eq!(Identity::new(b), id(3));
    b[31] = 4;
    assert_ne!(Identity::new(b), id(3));
}

#[test]
fn error_messages() {
    assert_eq!(BridgeError::PoolPaused.message(), "Pool or protocol is paused");
    assert_eq!(BridgeError::LockCooldownActive.message(), "Lock cooldown not elapsed");
    assert_eq!(
        BridgeError::ZeroLpAmount.message(),
        "LP token amount must be greater than zero"
    );
}
