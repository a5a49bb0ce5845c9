//! Creation of the configuration and of pools, and the pool admin's
//! controls: fee rate, pause and resume.

use vstd::prelude::*;
use crate::errors::BridgeError;
use crate::state::{Config, Identity, MAX_FEE_BPS, Pool};

verus! {

/// What the configuration is created from.
#[derive(Clone, Copy, Debug)]
pub struct InitializeConfig {
    pub admin: Identity,
    pub relayer: Identity,
    /// Address-derivation bump of the configuration record.
    pub bump: u8,
}

/// What a pool is created from.
#[derive(Clone, Copy, Debug)]
pub struct InitializePool {
    /// Address of the new pool record.
    pub pool_key: Identity,
    /// Address-derivation bump of the new pool record.
    pub bump: u8,
    /// Identity that asks for the pool.
    pub admin: Identity,
    /// Address of the configuration record.
    pub config_key: Identity,
    pub config: Config,
    pub stablecoin_mint: Identity,
    pub vault: Identity,
    /// Owner of the vault token account.
    pub vault_owner: Identity,
    pub lp_token_mint: Identity,
    /// Mint authority of the share token, if it has one.
    pub lp_mint_authority: Option<Identity>,
}

/// What a fee change reads and changes.
#[derive(Clone, Copy, Debug)]
pub struct UpdateFeeRate {
    pub pool: Pool,
    /// Identity that asks for the change.
    pub admin: Identity,
}

/// What a pause or a resume reads and changes.
#[derive(Clone, Copy, Debug)]
pub struct PauseResumePool {
    pub pool: Pool,
    /// Identity that asks for the change.
    pub admin: Identity,
}

/// The new pool, or the error.
pub open spec fn initialize_pool_outcome(
    ctx: InitializePool,
    fee_rate_bps: u16,
    max_lock_per_tx: u64,
    lock_cooldown_seconds: u32,
) -> Result<Pool, BridgeError> {
    if ctx.admin != ctx.config.admin {
        Err(BridgeError::UnauthorizedAdmin)
    } else if ctx.vault_owner != ctx.pool_key || ctx.lp_mint_authority != Some(ctx.pool_key) {
        Err(BridgeError::InvalidPoolState)
    } else if fee_rate_bps > MAX_FEE_BPS {
        Err(BridgeError::InvalidFeeRate)
    } else {
        Ok(
            Pool {
                stablecoin_mint: ctx.stablecoin_mint,
                vault: ctx.vault,
                lp_token_mint: ctx.lp_token_mint,
                total_liquidity: 0,
                available_liquidity: 0,
                locked_liquidity: 0,
                fee_rate_bps,
                admin: ctx.admin,
                config: ctx.config_key,
                paused: false,
                bump: ctx.bump,
                max_lock_per_tx,
                lock_cooldown_seconds,
                next_lock_nonce: 0,
            },
        )
    }
}

/// Creates the protocol configuration, unpaused.
pub fn initialize_config(ctx: &InitializeConfig) -> (r: Config)
    ensures
        r == (Config { admin: ctx.admin, relayer: ctx.relayer, paused: false, bump: ctx.bump }),
{
    Config { admin: ctx.admin, relayer: ctx.relayer, paused: false, bump: ctx.bump }
}

/// Creates an empty, unpaused pool. Only the configuration's admin may, the
/// vault and the share token's mint authority must belong to the new pool,
/// and the fee rate must be at most one hundred percent.
pub fn initialize_pool(
    ctx: &InitializePool,
    fee_rate_bps: u16,
    max_lock_per_tx: u64,
    lock_cooldown_seconds: u32,
) -> (r: Result<Pool, BridgeError>)
    ensures
        r == initialize_pool_outcome(*ctx, fee_rate_bps, max_lock_per_tx, lock_cooldown_seconds),
        r matches Ok(pool) ==> pool.wf(),
{
    if !(ctx.admin == ctx.config.admin) {
        return Err(BridgeError::UnauthorizedAdmin);
    }
    if !(ctx.vault_owner == ctx.pool_key) {
        return Err(BridgeError::InvalidPoolState);
    }
    match ctx.lp_mint_authority {
        Some(authority) => {
            if !(authority == ctx.pool_key) {
                return Err(BridgeError::InvalidPoolState);
            }
        },
        None => return Err(BridgeError::InvalidPoolState),
    }
    if fee_rate_bps > MAX_FEE_BPS {
        return Err(BridgeError::InvalidFeeRate);
    }
    Ok(
        Pool {
            stablecoin_mint: ctx.stablecoin_mint,
            vault: ctx.vault,
            lp_token_mint: ctx.lp_token_mint,
            total_liquidity: 0,
            available_liquidity: 0,
            locked_liquidity: 0,
            fee_rate_bps,
            admin: ctx.admin,
            config: ctx.config_key,
            paused: false,
            bump: ctx.bump,
            max_lock_per_tx,
            lock_cooldown_seconds,
            next_lock_nonce: 0,
        },
    )
}

/// Sets the pool's fee rate. Only the pool admin may, and the rate must be
/// at most one hundred percent; on failure nothing changes.
pub fn update_fee_rate(ctx: &mut UpdateFeeRate, fee_rate_bps: u16) -> (r: Result<(), BridgeError>)
    ensures
        old(ctx).admin != old(ctx).pool.admin ==> r == Err::<(), BridgeError>(
            BridgeError::UnauthorizedAdmin,
        ),
        old(ctx).admin == old(ctx).pool.admin && fee_rate_bps > MAX_FEE_BPS ==> r == Err::<
            (),
            BridgeError,
        >(BridgeError::InvalidFeeRate),
        r is Ok <==> old(ctx).admin == old(ctx).pool.admin && fee_rate_bps <= MAX_FEE_BPS,
        r is Ok ==> *final(ctx) == (UpdateFeeRate {
            pool: Pool { fee_rate_bps, ..old(ctx).pool },
            ..*old(ctx)
        }),
        r is Err ==> *final(ctx) == *old(ctx),
        old(ctx).pool.wf() ==> final(ctx).pool.wf(),
{
    if !(ctx.admin == ctx.pool.admin) {
        return Err(BridgeError::UnauthorizedAdmin);
    }
    if fee_rate_bps > MAX_FEE_BPS {
        return Err(BridgeError::InvalidFeeRate);
    }
    ctx.pool.fee_rate_bps = fee_rate_bps;
    Ok(())
}

/// Pauses the pool: no deposit, withdrawal or lock until it resumes. Only
/// the pool admin may.
pub fn pause_pool(ctx: &mut PauseResumePool) -> (r: Result<(), BridgeError>)
    ensures
        r is Ok <==> old(ctx).admin == old(ctx).pool.admin,
        r is Err ==> r == Err::<(), BridgeError>(BridgeError::UnauthorizedAdmin) && *final(ctx)
            == *old(ctx),
        r is Ok ==> *final(ctx) == (PauseResumePool {
            pool: Pool { paused: true, ..old(ctx).pool },
            ..*old(ctx)
        }),
{
    if !(ctx.admin == ctx.pool.admin) {
        return Err(BridgeError::UnauthorizedAdmin);
    }
    ctx.pool.paused = true;
    Ok(())
}

/// Resumes a paused pool. Only the pool admin may.
pub fn resume_pool(ctx: &mut PauseResumePool) -> (r: Result<(), BridgeError>)
    ensures
        r is Ok <==> old(ctx).admin == old(ctx).pool.admin,
        r is Err ==> r == Err::<(), BridgeError>(BridgeError::UnauthorizedAdmin) && *final(ctx)
            == *old(ctx),
        r is Ok ==> *final(ctx) == (PauseResumePool {
            pool: Pool { paused: false, ..old(ctx).pool },
            ..*old(ctx)
        }),
{
    if !(ctx.admin == ctx.pool.admin) {
        return Err(BridgeError::UnauthorizedAdmin);
    }
    ctx.pool.paused = false;
    Ok(())
}

} // verus!
