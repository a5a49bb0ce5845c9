//! Error kinds of the bridge. Each failure is a distinct variant so that
//! callers can branch on the cause.

use vstd::prelude::*;

verus! {

#[derive(Clone, Copy, Debug, PartialEq, Eq, Structural)]
pub enum BridgeError {
    /// Pool or protocol is paused.
    PoolPaused,
    /// Insufficient available liquidity in pool.
    InsufficientLiquidity,
    /// Lock amount exceeds `max_lock_per_tx`.
    LockAmountExceedsLimit,
    /// Lock cooldown not elapsed (declared; no operation raises it).
    LockCooldownActive,
    /// Bridge lock already released.
    AlreadyReleased,
    /// Bridge lock does not belong to this pool.
    InvalidBridgeLock,
    /// Caller is not the admin.
    UnauthorizedAdmin,
    /// Caller is not the relayer.
    UnauthorizedRelayer,
    /// Fee rate must be between 0 and 10000 bps.
    InvalidFeeRate,
    /// Arithmetic overflow or invalid share calculation.
    MathOverflow,
    /// Invalid pool state.
    InvalidPoolState,
    /// LP token amount must be greater than zero.
    ZeroLpAmount,
    /// Stablecoin amount must be greater than zero.
    ZeroStablecoinAmount,
}

impl BridgeError {
    /// Human-readable message of the error.
    pub fn message(&self) -> (r: &'static str) {
        match self {
            BridgeError::PoolPaused => "Pool or protocol is paused",
            BridgeError::InsufficientLiquidity => "Insufficient available liquidity in pool",
            BridgeError::LockAmountExceedsLimit => "Lock amount exceeds max_lock_per_tx",
            BridgeError::LockCooldownActive => "Lock cooldown not elapsed",
            BridgeError::AlreadyReleased => "Bridge lock already released",
            BridgeError::InvalidBridgeLock => "Invalid bridge lock for this pool",
            BridgeError::UnauthorizedAdmin => "Unauthorized: admin required",
            BridgeError::UnauthorizedRelayer => "Unauthorized: relayer required",
            BridgeError::InvalidFeeRate => "Fee rate must be between 0 and 10000 bps",
            BridgeError::MathOverflow => "Arithmetic overflow or invalid share calculation",
            BridgeError::InvalidPoolState => "Invalid pool state: total_liquidity != available + locked",
            BridgeError::ZeroLpAmount => "LP token amount must be greater than zero",
            BridgeError::ZeroStablecoinAmount => "Stablecoin amount must be greater than zero",
        }
    }
}

} // verus!
