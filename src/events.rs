//! Records that successful operations hand back for off-chain consumers.
//! Each names the amounts that the caller moves on the token ledger.

use vstd::prelude::*;
use crate::state::Identity;

verus! {

/// A deposit: `stablecoin_amount` goes from the depositor to the vault and
/// `lp_tokens_minted` shares are minted to the depositor.
#[derive(Clone, Copy, Debug, PartialEq, Eq)]
pub struct LiquidityDeposited {
    pub pool: Identity,
    pub depositor: Identity,
    pub stablecoin_amount: u64,
    pub lp_tokens_minted: u64,
    pub timestamp: i64,
}

/// A withdrawal: `lp_tokens_burned` shares are burned from the withdrawer and
/// `stablecoin_amount` goes from the vault to the withdrawer.
#[derive(Clone, Copy, Debug, PartialEq, Eq)]
pub struct LiquidityWithdrawn {
    pub pool: Identity,
    pub withdrawer: Identity,
    pub stablecoin_amount: u64,
    pub lp_tokens_burned: u64,
    pub timestamp: i64,
}

/// A transfer intent: `amount` goes from the sender to the vault, and a
/// relayer delivers it on the destination chain.
#[derive(Clone, Copy, Debug, PartialEq, Eq)]
pub struct BridgeIntent {
    pub pool: Identity,
    pub sender: Identity,
    pub amount: u64,
    pub destination_chain_id: u64,
    /// Recipient on the destination chain (opaque; 32 bytes).
    pub recipient_address: [u8; 32],
    pub nonce: u64,
    pub timestamp: i64,
}

/// A released lock: its amount moved back to available liquidity.
#[derive(Clone, Copy, Debug, PartialEq, Eq)]
pub struct BridgeReverted {
    pub pool: Identity,
    pub bridge_lock: Identity,
    pub amount: u64,
    pub nonce: u64,
    pub timestamp: i64,
}

} // verus!
