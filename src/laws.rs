//! Properties that hold across operations, proved over the outcome
//! functions that the operations' contracts are stated with.

use vstd::prelude::*;
use crate::accounting::{fee_of, shares_for};
use crate::bridge::{lock_outcome, release_outcome, LockForBridge, ReleaseLockedLiquidity};
use crate::errors::BridgeError;
use crate::liquidity::{deposit_outcome, withdraw_outcome, DepositLiquidity, WithdrawLiquidity};
use crate::state::BridgeLock;

verus! {

/// Every successful deposit, withdrawal, lock and release leaves a
/// well-formed pool well-formed, so that total liquidity equals available
/// plus locked liquidity after any sequence of them.
pub proof fn lemma_liquidity_reconciles(
    dep: DepositLiquidity,
    amount: u64,
    wd: WithdrawLiquidity,
    lp_amount: u64,
    lk: LockForBridge,
    lock_amount: u64,
    destination_chain_id: u64,
    recipient_address: [u8; 32],
    rel: ReleaseLockedLiquidity,
)
    requires
        dep.pool.wf(),
        wd.pool.wf(),
        lk.pool.wf(),
        rel.pool.wf(),
    ensures
        deposit_outcome(dep, amount) matches Ok((next, _)) ==> next.pool.wf(),
        withdraw_outcome(wd, lp_amount) matches Ok((next, _)) ==> next.pool.wf(),
        lock_outcome(lk, lock_amount, destination_chain_id, recipient_address) matches Ok(
            (next, _, _),
        ) ==> next.pool.wf(),
        release_outcome(rel) matches Ok((next, _)) ==> next.pool.wf(),
{
}

/// A lock's `released` flag only goes from false to true, by a successful
/// release; once it is set, every release of that record fails.
pub proof fn lemma_release_one_way(ctx: ReleaseLockedLiquidity)
    ensures
        ctx.bridge_lock.released ==> release_outcome(ctx) is Err,
        release_outcome(ctx) matches Ok((next, _)) ==> !ctx.bridge_lock.released
            && next.bridge_lock == (BridgeLock { released: true, ..ctx.bridge_lock }),
{
}

/// Releasing the same record a second time, after a successful release,
/// fails with `AlreadyReleased`.
pub proof fn lemma_second_release_fails(ctx: ReleaseLockedLiquidity, now: i64)
    requires
        release_outcome(ctx) is Ok,
    ensures
        release_outcome(ReleaseLockedLiquidity { now, ..release_outcome(ctx)->Ok_0.0 })
            == Err::<(ReleaseLockedLiquidity, crate::events::BridgeReverted), BridgeError>(
            BridgeError::AlreadyReleased,
        ),
{
}

/// The pool counter before the `k`-th of a run of successful locks.
proof fn lemma_counter_before_lock(
    ctxs: Seq<LockForBridge>,
    amounts: Seq<u64>,
    destination_chain_ids: Seq<u64>,
    recipient_addresses: Seq<[u8; 32]>,
    k: int,
)
    requires
        ctxs.len() == amounts.len(),
        ctxs.len() == destination_chain_ids.len(),
        ctxs.len() == recipient_addresses.len(),
        ctxs.len() <= u64::MAX + 1,
        0 <= k < ctxs.len(),
        ctxs[0].pool.next_lock_nonce == 0,
        forall|i: int|
            0 <= i < ctxs.len() ==> (#[trigger] lock_outcome(
                ctxs[i],
                amounts[i],
                destination_chain_ids[i],
                recipient_addresses[i],
            )) is Ok,
        forall|i: int|
            0 <= i < ctxs.len() - 1 ==> (#[trigger] ctxs[i + 1]).pool.next_lock_nonce == lock_outcome(
                ctxs[i],
                amounts[i],
                destination_chain_ids[i],
                recipient_addresses[i],
            )->Ok_0.0.pool.next_lock_nonce,
    ensures
        ctxs[k].pool.next_lock_nonce == k,
    decreases k,
{
    if k > 0 {
        lemma_counter_before_lock(ctxs, amounts, destination_chain_ids, recipient_addresses, k - 1);
        assert(ctxs[(k - 1) + 1] == ctxs[k]);
        let _ = lock_outcome(
            ctxs[k - 1],
            amounts[k - 1],
            destination_chain_ids[k - 1],
            recipient_addresses[k - 1],
        );
    }
}

/// Successive successful locks on one pool, from a new pool, receive the
/// nonces 0, 1, 2, ... in order, with no gap and no repeat. Other operations
/// between them leave the counter alone, which the counter's carrying over
/// from one lock to the next states.
pub proof fn lemma_lock_nonces_sequential(
    ctxs: Seq<LockForBridge>,
    amounts: Seq<u64>,
    destination_chain_ids: Seq<u64>,
    recipient_addresses: Seq<[u8; 32]>,
)
    requires
        ctxs.len() == amounts.len(),
        ctxs.len() == destination_chain_ids.len(),
        ctxs.len() == recipient_addresses.len(),
        ctxs.len() <= u64::MAX + 1,
        ctxs.len() > 0 ==> ctxs[0].pool.next_lock_nonce == 0,
        forall|i: int|
            0 <= i < ctxs.len() ==> (#[trigger] lock_outcome(
                ctxs[i],
                amounts[i],
                destination_chain_ids[i],
                recipient_addresses[i],
            )) is Ok,
        forall|i: int|
            0 <= i < ctxs.len() - 1 ==> (#[trigger] ctxs[i + 1]).pool.next_lock_nonce == lock_outcome(
                ctxs[i],
                amounts[i],
                destination_chain_ids[i],
                recipient_addresses[i],
            )->Ok_0.0.pool.next_lock_nonce,
    ensures
        forall|i: int|
            0 <= i < ctxs.len() ==> (#[trigger] lock_outcome(
                ctxs[i],
                amounts[i],
                destination_chain_ids[i],
                recipient_addresses[i],
            ))->Ok_0.1.nonce == i,
{
    assert forall|i: int| 0 <= i < ctxs.len() implies (#[trigger] lock_outcome(
        ctxs[i],
        amounts[i],
        destination_chain_ids[i],
        recipient_addresses[i],
    ))->Ok_0.1.nonce == i by {
        lemma_counter_before_lock(ctxs, amounts, destination_chain_ids, recipient_addresses, i);
    }
}

/// A lock of more than the pool's per-call limit fails with
/// `LockAmountExceedsLimit` whenever neither pause flag is set.
pub proof fn lemma_lock_rate_limit(
    ctx: LockForBridge,
    amount: u64,
    destination_chain_id: u64,
    recipient_address: [u8; 32],
)
    requires
        !ctx.config.paused,
        !ctx.pool.paused,
        amount > ctx.pool.max_lock_per_tx,
    ensures
        lock_outcome(ctx, amount, destination_chain_id, recipient_address) == Err::<
            (LockForBridge, BridgeLock, crate::events::BridgeIntent),
            BridgeError,
        >(BridgeError::LockAmountExceedsLimit),
{
}

/// Under the global pause, deposits, withdrawals and locks fail with
/// `PoolPaused`, while a release that is otherwise valid still succeeds.
pub proof fn lemma_global_pause(
    dep: DepositLiquidity,
    amount: u64,
    wd: WithdrawLiquidity,
    lp_amount: u64,
    lk: LockForBridge,
    lock_amount: u64,
    destination_chain_id: u64,
    recipient_address: [u8; 32],
    rel: ReleaseLockedLiquidity,
)
    requires
        dep.config.paused,
        wd.config.paused,
        lk.config.paused,
        rel.config.paused,
        rel.pool.wf(),
        rel.relayer == rel.config.relayer,
        rel.bridge_lock.pool == rel.pool_key,
        !rel.bridge_lock.released,
        rel.bridge_lock.amount <= rel.pool.locked_liquidity,
    ensures
        deposit_outcome(dep, amount) == Err::<
            (DepositLiquidity, crate::events::LiquidityDeposited),
            BridgeError,
        >(BridgeError::PoolPaused),
        withdraw_outcome(wd, lp_amount) == Err::<
            (WithdrawLiquidity, crate::events::LiquidityWithdrawn),
            BridgeError,
        >(BridgeError::PoolPaused),
        lock_outcome(lk, lock_amount, destination_chain_id, recipient_address) == Err::<
            (LockForBridge, BridgeLock, crate::events::BridgeIntent),
            BridgeError,
        >(BridgeError::PoolPaused),
        release_outcome(rel) is Ok,
{
}

/// A deposit into a well-formed, unpaused pool whose share amount rounds
/// down to zero fails with `ZeroLpAmount`, so nothing is transferred.
pub proof fn lemma_dust_deposit_rejected(ctx: DepositLiquidity, amount: u64)
    requires
        ctx.pool.wf(),
        !ctx.config.paused,
        !ctx.pool.paused,
        amount > 0,
        amount * ctx.pool.fee_rate_bps <= u64::MAX,
        ctx.pool.available_liquidity != 0 ==> ctx.lp_supply * (amount - fee_of(
            amount as int,
            ctx.pool.fee_rate_bps as int,
        )) <= u64::MAX,
        shares_for(
            amount - fee_of(amount as int, ctx.pool.fee_rate_bps as int),
            ctx.pool.available_liquidity as int,
            ctx.lp_supply as int,
        ) == 0,
    ensures
        deposit_outcome(ctx, amount) == Err::<
            (DepositLiquidity, crate::events::LiquidityDeposited),
            BridgeError,
        >(BridgeError::ZeroLpAmount),
{
    let bps = ctx.pool.fee_rate_bps as int;
    assert(fee_of(amount as int, bps) <= amount) by (nonlinear_arith)
        requires
            0 <= bps <= 10000,
            amount >= 0,
    {
    }
}

} // verus!
