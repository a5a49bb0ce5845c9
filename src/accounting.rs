//! Share accounting: the fee on a deposit, the shares a deposit mints and
//! the stablecoins a burn of shares pays out.

use vstd::prelude::*;
use crate::errors::BridgeError;

verus! {

/// Basis points in one whole.
pub const BPS_DENOMINATOR: u64 = 10000;

/// Fee taken on a deposit of `amount` at `fee_rate_bps` basis points.
pub open spec fn fee_of(amount: int, fee_rate_bps: int) -> int {
    amount * fee_rate_bps / 10000
}

/// Shares for a net deposit: one for one into an empty pool, otherwise in
/// proportion to the share supply over the available liquidity.
pub open spec fn shares_for(net: int, available: int, supply: int) -> int {
    if available == 0 {
        net
    } else {
        supply * net / available
    }
}

/// Stablecoins paid for burning `shares` out of `supply`.
pub open spec fn payout_for(shares: int, available: int, supply: int) -> int {
    available * shares / supply
}

/// Outcome of pricing a deposit; arithmetic that leaves `u64` fails with
/// `MathOverflow`.
pub open spec fn deposit_shares_result(
    amount: u64,
    fee_rate_bps: u16,
    available: u64,
    supply: u64,
) -> Result<u64, BridgeError> {
    let fee = fee_of(amount as int, fee_rate_bps as int);
    let net = amount - fee;
    if amount == 0 {
        Err(BridgeError::ZeroStablecoinAmount)
    } else if amount * fee_rate_bps > u64::MAX || fee > amount {
        Err(BridgeError::MathOverflow)
    } else if available != 0 && supply * net > u64::MAX {
        Err(BridgeError::MathOverflow)
    } else if shares_for(net, available as int, supply as int) == 0 {
        Err(BridgeError::ZeroLpAmount)
    } else {
        Ok(shares_for(net, available as int, supply as int) as u64)
    }
}

/// Outcome of pricing a withdrawal of `lp_amount` shares.
pub open spec fn withdraw_payout_result(lp_amount: u64, available: u64, supply: u64) -> Result<
    u64,
    BridgeError,
> {
    if lp_amount == 0 {
        Err(BridgeError::ZeroLpAmount)
    } else if supply == 0 || available * lp_amount > u64::MAX {
        Err(BridgeError::MathOverflow)
    } else if payout_for(lp_amount as int, available as int, supply as int) == 0 {
        Err(BridgeError::ZeroStablecoinAmount)
    } else if payout_for(lp_amount as int, available as int, supply as int) > available {
        Err(BridgeError::InsufficientLiquidity)
    } else {
        Ok(payout_for(lp_amount as int, available as int, supply as int) as u64)
    }
}

/// Shares minted for a deposit of `amount` into a pool with `available`
/// liquidity and a share supply of `supply`.
pub fn deposit_shares(amount: u64, fee_rate_bps: u16, available: u64, supply: u64) -> (r: Result<
    u64,
    BridgeError,
>)
    ensures
        r == deposit_shares_result(amount, fee_rate_bps, available, supply),
{
    if amount == 0 {
        return Err(BridgeError::ZeroStablecoinAmount);
    }
    let product = match amount.checked_mul(fee_rate_bps as u64) {
        Some(p) => p,
        None => return Err(BridgeError::MathOverflow),
    };
    let fee = product / BPS_DENOMINATOR;
    let net = match amount.checked_sub(fee) {
        Some(n) => n,
        None => return Err(BridgeError::MathOverflow),
    };
    let shares = if available == 0 {
        net
    } else {
        match supply.checked_mul(net) {
            Some(p) => p / available,
            None => return Err(BridgeError::MathOverflow),
        }
    };
    if shares == 0 {
        return Err(BridgeError::ZeroLpAmount);
    }
    Ok(shares)
}

/// Stablecoins paid for burning `lp_amount` shares from a pool with
/// `available` liquidity and a share supply of `supply`.
pub fn withdraw_payout(lp_amount: u64, available: u64, supply: u64) -> (r: Result<u64, BridgeError>)
    ensures
        r == withdraw_payout_result(lp_amount, available, supply),
{
    if lp_amount == 0 {
        return Err(BridgeError::ZeroLpAmount);
    }
    if supply == 0 {
        return Err(BridgeError::MathOverflow);
    }
    let payout = match available.checked_mul(lp_amount) {
        Some(p) => p / supply,
        None => return Err(BridgeError::MathOverflow),
    };
    if payout == 0 {
        return Err(BridgeError::ZeroStablecoinAmount);
    }
    if payout > available {
        return Err(BridgeError::InsufficientLiquidity);
    }
    Ok(payout)
}

} // verus!
