//! Persistent records: the protocol configuration, one pool ledger per
//! stablecoin, and one lock record per bridge lock.

use vstd::prelude::*;

verus! {

/// Largest fee rate in basis points (one hundred percent).
pub const MAX_FEE_BPS: u16 = 10000;

/// A 32-byte account identity (public key or record address).
#[derive(Clone, Copy, Debug)]
pub struct Identity {
    pub bytes: [u8; 32],
}

impl PartialEq for Identity {
    fn eq(&self, o: &Identity) -> (r: bool) {
        let mut i: usize = 0;
        while i < 32
            invariant
                i <= 32,
                forall|j: int| 0 <= j < i ==> self.bytes[j] == o.bytes[j],
            decreases 32 - i,
        {
            if self.bytes[i] != o.bytes[i] {
                return false;
            }
            i = i + 1;
        }
        assert(self.bytes =~= o.bytes);
        true
    }
}

impl vstd::std_specs::cmp::PartialEqSpecImpl for Identity {
    open spec fn obeys_eq_spec() -> bool {
        true
    }

    open spec fn eq_spec(&self, o: &Identity) -> bool {
        self.bytes == o.bytes
    }
}

impl Eq for Identity {

}

impl Identity {
    pub fn new(bytes: [u8; 32]) -> (r: Identity)
        ensures
            r.bytes == bytes,
    {
        Identity { bytes }
    }
}

/// Global protocol configuration; a single instance per deployment.
#[derive(Clone, Copy, Debug, PartialEq, Eq)]
pub struct Config {
    /// Identity allowed to create pools.
    pub admin: Identity,
    /// Identity allowed to release bridge locks.
    pub relayer: Identity,
    /// Protocol-level pause: when true, no deposit, withdrawal or lock.
    pub paused: bool,
    /// Address-derivation bump of the configuration record.
    pub bump: u8,
}

/// Liquidity ledger of one stablecoin.
#[derive(Clone, Copy, Debug, PartialEq, Eq)]
pub struct Pool {
    /// Stablecoin held by the pool.
    pub stablecoin_mint: Identity,
    /// Token account that holds the pool's stablecoins.
    pub vault: Identity,
    /// Share token, minted on deposit and burned on withdrawal.
    pub lp_token_mint: Identity,
    /// Available plus locked liquidity.
    pub total_liquidity: u64,
    /// Liquidity that share holders can withdraw.
    pub available_liquidity: u64,
    /// Liquidity held by bridge locks that are not released yet.
    pub locked_liquidity: u64,
    /// Deposit fee in basis points, at most `MAX_FEE_BPS`.
    pub fee_rate_bps: u16,
    /// Identity allowed to change the fee and pause the pool.
    pub admin: Identity,
    /// Address of the configuration this pool belongs to.
    pub config: Identity,
    /// Pool-level pause: when true, no deposit, withdrawal or lock.
    pub paused: bool,
    /// Address-derivation bump of the pool record.
    pub bump: u8,
    /// Largest amount a single lock may move.
    pub max_lock_per_tx: u64,
    /// Cooldown between locks of one sender; stored, not enforced.
    pub lock_cooldown_seconds: u32,
    /// Nonce that the next bridge lock receives.
    pub next_lock_nonce: u64,
}

impl Pool {
    /// The pool's invariant: the total reconciles with its two partitions
    /// and the fee rate is a valid basis-point value.
    pub open spec fn wf(&self) -> bool {
        &&& self.total_liquidity == self.available_liquidity + self.locked_liquidity
        &&& self.fee_rate_bps <= MAX_FEE_BPS
    }

    /// Whether the pool satisfies its invariant.
    pub fn is_well_formed(&self) -> (r: bool)
        ensures
            r == self.wf(),
    {
        self.fee_rate_bps <= MAX_FEE_BPS && self.available_liquidity <= self.total_liquidity
            && self.total_liquidity - self.available_liquidity == self.locked_liquidity
    }
}

/// Record of one bridge lock, addressed by its pool and nonce.
#[derive(Clone, Copy, Debug, PartialEq, Eq)]
pub struct BridgeLock {
    /// Address of the pool the lock belongs to.
    pub pool: Identity,
    /// Stablecoin amount locked.
    pub amount: u64,
    /// Nonce of the lock, unique within its pool.
    pub nonce: u64,
    /// Destination chain id.
    pub destination_chain_id: u64,
    /// Recipient on the destination chain; opaque here.
    pub recipient_address: [u8; 32],
    /// Identity that made the lock.
    pub sender: Identity,
    /// Set once, when the lock is released.
    pub released: bool,
    /// Time at which the lock was made.
    pub locked_at: i64,
}

} // verus!
