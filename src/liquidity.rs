//! Liquidity providers' operations: deposit stablecoins for shares, and
//! burn shares for stablecoins.

use vstd::prelude::*;
use crate::accounting::{
    deposit_shares,
    deposit_shares_result,
    withdraw_payout,
    withdraw_payout_result,
};
use crate::errors::BridgeError;
use crate::events::{LiquidityDeposited, LiquidityWithdrawn};
use crate::state::{Config, Identity, Pool};

verus! {

/// What a deposit reads and changes.
#[derive(Clone, Copy, Debug)]
pub struct DepositLiquidity {
    /// Address of the pool record.
    pub pool_key: Identity,
    pub pool: Pool,
    pub config: Config,
    pub depositor: Identity,
    /// Current supply of the pool's share token on the token ledger.
    pub lp_supply: u64,
    /// Current time.
    pub now: i64,
}

/// What a withdrawal reads and changes.
#[derive(Clone, Copy, Debug)]
pub struct WithdrawLiquidity {
    /// Address of the pool record.
    pub pool_key: Identity,
    pub pool: Pool,
    pub config: Config,
    pub withdrawer: Identity,
    /// Current supply of the pool's share token on the token ledger.
    pub lp_supply: u64,
    /// Current time.
    pub now: i64,
}

/// The state after a deposit of `amount`, and its record, or the error.
pub open spec fn deposit_outcome(ctx: DepositLiquidity, amount: u64) -> Result<
    (DepositLiquidity, LiquidityDeposited),
    BridgeError,
> {
    let pool = ctx.pool;
    if ctx.config.paused || pool.paused {
        Err(BridgeError::PoolPaused)
    } else {
        match deposit_shares_result(
            amount,
            pool.fee_rate_bps,
            pool.available_liquidity,
            ctx.lp_supply,
        ) {
            Err(e) => Err(e),
            Ok(shares) => {
                if pool.total_liquidity + amount > u64::MAX || pool.available_liquidity + amount
                    > u64::MAX {
                    Err(BridgeError::MathOverflow)
                } else {
                    let new_pool = Pool {
                        total_liquidity: (pool.total_liquidity + amount) as u64,
                        available_liquidity: (pool.available_liquidity + amount) as u64,
                        ..pool
                    };
                    let event = LiquidityDeposited {
                        pool: ctx.pool_key,
                        depositor: ctx.depositor,
                        stablecoin_amount: amount,
                        lp_tokens_minted: shares,
                        timestamp: ctx.now,
                    };
                    Ok((DepositLiquidity { pool: new_pool, ..ctx }, event))
                }
            },
        }
    }
}

/// The state after burning `lp_amount` shares, and its record, or the error.
pub open spec fn withdraw_outcome(ctx: WithdrawLiquidity, lp_amount: u64) -> Result<
    (WithdrawLiquidity, LiquidityWithdrawn),
    BridgeError,
> {
    let pool = ctx.pool;
    if ctx.config.paused || pool.paused {
        Err(BridgeError::PoolPaused)
    } else {
        match withdraw_payout_result(lp_amount, pool.available_liquidity, ctx.lp_supply) {
            Err(e) => Err(e),
            Ok(payout) => {
                if payout > pool.total_liquidity {
                    Err(BridgeError::MathOverflow)
                } else {
                    let new_pool = Pool {
                        total_liquidity: (pool.total_liquidity - payout) as u64,
                        available_liquidity: (pool.available_liquidity - payout) as u64,
                        ..pool
                    };
                    let event = LiquidityWithdrawn {
                        pool: ctx.pool_key,
                        withdrawer: ctx.withdrawer,
                        stablecoin_amount: payout,
                        lp_tokens_burned: lp_amount,
                        timestamp: ctx.now,
                    };
                    Ok((WithdrawLiquidity { pool: new_pool, ..ctx }, event))
                }
            },
        }
    }
}

/// Deposits `amount` stablecoins and prices the shares to mint. On success
/// the caller transfers `stablecoin_amount` to the vault and mints
/// `lp_tokens_minted` shares; on failure nothing changes.
pub fn deposit_liquidity(ctx: &mut DepositLiquidity, amount: u64) -> (r: Result<
    LiquidityDeposited,
    BridgeError,
>)
    ensures
        match r {
            Ok(event) => deposit_outcome(*old(ctx), amount) == Ok::<_, BridgeError>(
                (*final(ctx), event),
            ),
            Err(e) => deposit_outcome(*old(ctx), amount) == Err::<
                (DepositLiquidity, LiquidityDeposited),
                BridgeError,
            >(e) && *final(ctx) == *old(ctx),
        },
        old(ctx).pool.wf() && r is Ok ==> final(ctx).pool.wf(),
{
    if ctx.config.paused || ctx.pool.paused {
        return Err(BridgeError::PoolPaused);
    }
    let shares = match deposit_shares(
        amount,
        ctx.pool.fee_rate_bps,
        ctx.pool.available_liquidity,
        ctx.lp_supply,
    ) {
        Ok(s) => s,
        Err(e) => return Err(e),
    };
    let total = match ctx.pool.total_liquidity.checked_add(amount) {
        Some(t) => t,
        None => return Err(BridgeError::MathOverflow),
    };
    let available = match ctx.pool.available_liquidity.checked_add(amount) {
        Some(a) => a,
        None => return Err(BridgeError::MathOverflow),
    };
    ctx.pool.total_liquidity = total;
    ctx.pool.available_liquidity = available;
    Ok(
        LiquidityDeposited {
            pool: ctx.pool_key,
            depositor: ctx.depositor,
            stablecoin_amount: amount,
            lp_tokens_minted: shares,
            timestamp: ctx.now,
        },
    )
}

/// Burns `lp_amount` shares for their proportional part of the available
/// liquidity. On success the caller burns `lp_tokens_burned` shares and
/// transfers `stablecoin_amount` from the vault; on failure nothing changes.
pub fn withdraw_liquidity(ctx: &mut WithdrawLiquidity, lp_amount: u64) -> (r: Result<
    LiquidityWithdrawn,
    BridgeError,
>)
    ensures
        match r {
            Ok(event) => withdraw_outcome(*old(ctx), lp_amount) == Ok::<_, BridgeError>(
                (*final(ctx), event),
            ),
            Err(e) => withdraw_outcome(*old(ctx), lp_amount) == Err::<
                (WithdrawLiquidity, LiquidityWithdrawn),
                BridgeError,
            >(e) && *final(ctx) == *old(ctx),
        },
        old(ctx).pool.wf() && r is Ok ==> final(ctx).pool.wf(),
{
    if ctx.config.paused || ctx.pool.paused {
        return Err(BridgeError::PoolPaused);
    }
    let payout = match withdraw_payout(lp_amount, ctx.pool.available_liquidity, ctx.lp_supply) {
        Ok(p) => p,
        Err(e) => return Err(e),
    };
    let total = match ctx.pool.total_liquidity.checked_sub(payout) {
        Some(t) => t,
        None => return Err(BridgeError::MathOverflow),
    };
    ctx.pool.total_liquidity = total;
    ctx.pool.available_liquidity = ctx.pool.available_liquidity - payout;
    Ok(
        LiquidityWithdrawn {
            pool: ctx.pool_key,
            withdrawer: ctx.withdrawer,
            stablecoin_amount: payout,
            lp_tokens_burned: lp_amount,
            timestamp: ctx.now,
        },
    )
}

} // verus!
