//! Bridge-lock lifecycle: a lock records a transfer intent and moves its
//! amount into the locked partition; a release, made once by the relayer,
//! moves it back to available liquidity.

use vstd::prelude::*;
use crate::errors::BridgeError;
use crate::events::{BridgeIntent, BridgeReverted};
use crate::state::{BridgeLock, Config, Identity, Pool};

verus! {

/// What a lock reads and changes.
#[derive(Clone, Copy, Debug)]
pub struct LockForBridge {
    /// Address of the pool record.
    pub pool_key: Identity,
    pub pool: Pool,
    pub config: Config,
    pub sender: Identity,
    /// Current time.
    pub now: i64,
}

/// What a release reads and changes.
#[derive(Clone, Copy, Debug)]
pub struct ReleaseLockedLiquidity {
    /// Address of the pool record.
    pub pool_key: Identity,
    pub pool: Pool,
    pub config: Config,
    /// Identity that calls the release.
    pub relayer: Identity,
    /// Address of the lock record.
    pub bridge_lock_key: Identity,
    pub bridge_lock: BridgeLock,
    /// Current time.
    pub now: i64,
}

/// The lock counter after assigning `nonce`: one more, saturating at the
/// largest value.
pub open spec fn next_nonce(nonce: u64) -> u64 {
    if nonce == u64::MAX {
        nonce
    } else {
        (nonce + 1) as u64
    }
}

/// The state after a lock, the new lock record and its intent, or the error.
pub open spec fn lock_outcome(
    ctx: LockForBridge,
    amount: u64,
    destination_chain_id: u64,
    recipient_address: [u8; 32],
) -> Result<(LockForBridge, BridgeLock, BridgeIntent), BridgeError> {
    let pool = ctx.pool;
    if ctx.config.paused || pool.paused {
        Err(BridgeError::PoolPaused)
    } else if amount == 0 {
        Err(BridgeError::ZeroStablecoinAmount)
    } else if amount > pool.max_lock_per_tx {
        Err(BridgeError::LockAmountExceedsLimit)
    } else if pool.total_liquidity + amount > u64::MAX || pool.locked_liquidity + amount
        > u64::MAX {
        Err(BridgeError::MathOverflow)
    } else {
        let nonce = pool.next_lock_nonce;
        let new_pool = Pool {
            next_lock_nonce: next_nonce(nonce),
            total_liquidity: (pool.total_liquidity + amount) as u64,
            locked_liquidity: (pool.locked_liquidity + amount) as u64,
            ..pool
        };
        let lock = BridgeLock {
            pool: ctx.pool_key,
            amount,
            nonce,
            destination_chain_id,
            recipient_address,
            sender: ctx.sender,
            released: false,
            locked_at: ctx.now,
        };
        let intent = BridgeIntent {
            pool: ctx.pool_key,
            sender: ctx.sender,
            amount,
            destination_chain_id,
            recipient_address,
            nonce,
            timestamp: ctx.now,
        };
        Ok((LockForBridge { pool: new_pool, ..ctx }, lock, intent))
    }
}

/// The state after a release and its record, or the error.
pub open spec fn release_outcome(ctx: ReleaseLockedLiquidity) -> Result<
    (ReleaseLockedLiquidity, BridgeReverted),
    BridgeError,
> {
    let pool = ctx.pool;
    let lock = ctx.bridge_lock;
    if ctx.relayer != ctx.config.relayer {
        Err(BridgeError::UnauthorizedRelayer)
    } else if lock.pool != ctx.pool_key {
        Err(BridgeError::InvalidBridgeLock)
    } else if lock.released {
        Err(BridgeError::AlreadyReleased)
    } else if lock.amount > pool.locked_liquidity || pool.available_liquidity + lock.amount
        > u64::MAX {
        Err(BridgeError::MathOverflow)
    } else {
        let new_pool = Pool {
            locked_liquidity: (pool.locked_liquidity - lock.amount) as u64,
            available_liquidity: (pool.available_liquidity + lock.amount) as u64,
            ..pool
        };
        let event = BridgeReverted {
            pool: ctx.pool_key,
            bridge_lock: ctx.bridge_lock_key,
            amount: lock.amount,
            nonce: lock.nonce,
            timestamp: ctx.now,
        };
        Ok(
            (
                ReleaseLockedLiquidity {
                    pool: new_pool,
                    bridge_lock: BridgeLock { released: true, ..lock },
                    ..ctx
                },
                event,
            ),
        )
    }
}

/// Locks `amount` stablecoins for delivery on another chain. On success the
/// caller transfers `amount` from the sender to the vault, stores the lock
/// record under the pool and the record's nonce, and publishes the intent;
/// on failure nothing changes.
pub fn lock_for_bridge(
    ctx: &mut LockForBridge,
    amount: u64,
    destination_chain_id: u64,
    recipient_address: [u8; 32],
) -> (r: Result<(BridgeLock, BridgeIntent), BridgeError>)
    ensures
        match r {
            Ok((lock, intent)) => lock_outcome(
                *old(ctx),
                amount,
                destination_chain_id,
                recipient_address,
            ) == Ok::<_, BridgeError>((*final(ctx), lock, intent)),
            Err(e) => lock_outcome(*old(ctx), amount, destination_chain_id, recipient_address)
                == Err::<(LockForBridge, BridgeLock, BridgeIntent), BridgeError>(e) && *final(ctx)
                == *old(ctx),
        },
        old(ctx).pool.wf() && r is Ok ==> final(ctx).pool.wf(),
{
    if ctx.config.paused || ctx.pool.paused {
        return Err(BridgeError::PoolPaused);
    }
    if amount == 0 {
        return Err(BridgeError::ZeroStablecoinAmount);
    }
    if amount > ctx.pool.max_lock_per_tx {
        return Err(BridgeError::LockAmountExceedsLimit);
    }
    let total = match ctx.pool.total_liquidity.checked_add(amount) {
        Some(t) => t,
        None => return Err(BridgeError::MathOverflow),
    };
    let locked = match ctx.pool.locked_liquidity.checked_add(amount) {
        Some(l) => l,
        None => return Err(BridgeError::MathOverflow),
    };
    let nonce = ctx.pool.next_lock_nonce;
    ctx.pool.next_lock_nonce = nonce.saturating_add(1);
    ctx.pool.total_liquidity = total;
    ctx.pool.locked_liquidity = locked;
    let lock = BridgeLock {
        pool: ctx.pool_key,
        amount,
        nonce,
        destination_chain_id,
        recipient_address,
        sender: ctx.sender,
        released: false,
        locked_at: ctx.now,
    };
    let intent = BridgeIntent {
        pool: ctx.pool_key,
        sender: ctx.sender,
        amount,
        destination_chain_id,
        recipient_address,
        nonce,
        timestamp: ctx.now,
    };
    Ok((lock, intent))
}

/// Releases a lock back into available liquidity. Only the configured
/// relayer may call it, and each lock is released at most once. Neither
/// pause flag gates it, so locked funds are never trapped. No tokens move.
pub fn release_locked_liquidity(ctx: &mut ReleaseLockedLiquidity) -> (r: Result<
    BridgeReverted,
    BridgeError,
>)
    ensures
        match r {
            Ok(event) => release_outcome(*old(ctx)) == Ok::<_, BridgeError>((*final(ctx), event)),
            Err(e) => release_outcome(*old(ctx)) == Err::<
                (ReleaseLockedLiquidity, BridgeReverted),
                BridgeError,
            >(e) && *final(ctx) == *old(ctx),
        },
        old(ctx).pool.wf() && r is Ok ==> final(ctx).pool.wf(),
{
    if !(ctx.relayer == ctx.config.relayer) {
        return Err(BridgeError::UnauthorizedRelayer);
    }
    if !(ctx.bridge_lock.pool == ctx.pool_key) {
        return Err(BridgeError::InvalidBridgeLock);
    }
    if ctx.bridge_lock.released {
        return Err(BridgeError::AlreadyReleased);
    }
    let amount = ctx.bridge_lock.amount;
    let locked = match ctx.pool.locked_liquidity.checked_sub(amount) {
        Some(l) => l,
        None => return Err(BridgeError::MathOverflow),
    };
    let available = match ctx.pool.available_liquidity.checked_add(amount) {
        Some(a) => a,
        None => return Err(BridgeError::MathOverflow),
    };
    ctx.bridge_lock.released = true;
    ctx.pool.locked_liquidity = locked;
    ctx.pool.available_liquidity = available;
    Ok(
        BridgeReverted {
            pool: ctx.pool_key,
            bridge_lock: ctx.bridge_lock_key,
            amount,
            nonce: ctx.bridge_lock.nonce,
            timestamp: ctx.now,
        },
    )
}

} // verus!
