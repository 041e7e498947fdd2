//! Properties of settlement and deposit, stated over the models that the
//! operations' contracts use, and proved.

use vstd::prelude::*;
use crate::accounting::{
    applicable_time, earned_fits, earned_value, settle_fits, settled_pool, settled_user,
};
use crate::ledger::{stake_fits, staked, Stake};
use crate::state::{Pool, User, PRECISION};

verus! {

/// The pool after settling at each `(total_staked, current_time)` of
/// `steps` in turn.
pub open spec fn settle_all(pool: Pool, steps: Seq<(u64, u64)>) -> Pool
    decreases steps.len(),
{
    if steps.len() == 0 {
        pool
    } else {
        settle_all(settled_pool(pool, steps[0].0, steps[0].1), steps.drop_first())
    }
}

/// Each settlement of `steps`, made in turn from `pool`, succeeds.
pub open spec fn all_settle(pool: Pool, steps: Seq<(u64, u64)>) -> bool
    decreases steps.len(),
{
    if steps.len() == 0 {
        true
    } else {
        settle_fits(pool, None, steps[0].0, steps[0].1)
            && all_settle(settled_pool(pool, steps[0].0, steps[0].1), steps.drop_first())
    }
}

/// A successful settlement never lowers the accumulator.
pub proof fn lemma_settle_monotonic(pool: Pool, total_staked: u64, current_time: u64)
    requires
        settle_fits(pool, None, total_staked, current_time),
    ensures
        settled_pool(pool, total_staked, current_time).reward_per_token_stored
            >= pool.reward_per_token_stored,
{
    let t = applicable_time(current_time, pool.reward_duration_end);
    if total_staked != 0 {
        let e = (t - pool.last_update_time) * pool.reward_rate * PRECISION;
        assert(e >= 0) by (nonlinear_arith)
            requires t - pool.last_update_time >= 0, pool.reward_rate >= 0, e == (t - pool.last_update_time) * pool.reward_rate * PRECISION;
        assert(e / (total_staked as int) >= 0) by (nonlinear_arith)
            requires e >= 0, total_staked > 0;
    }
}

/// Over any sequence of successful settlements the accumulator never
/// decreases.
pub proof fn lemma_settle_all_monotonic(pool: Pool, steps: Seq<(u64, u64)>)
    requires
        all_settle(pool, steps),
    ensures
        settle_all(pool, steps).reward_per_token_stored >= pool.reward_per_token_stored,
    decreases steps.len(),
{
    if steps.len() > 0 {
        let next = settled_pool(pool, steps[0].0, steps[0].1);
        lemma_settle_monotonic(pool, steps[0].0, steps[0].1);
        lemma_settle_all_monotonic(next, steps.drop_first());
    }
}

/// A successful deposit never lowers the accumulator.
pub proof fn lemma_stake_monotonic(ctx: Stake, amount: u64)
    requires
        stake_fits(ctx, amount),
    ensures
        staked(ctx, amount).pool.reward_per_token_stored >= ctx.pool.reward_per_token_stored,
{
    lemma_settle_monotonic(ctx.pool, ctx.staking_vault_amount, ctx.current_time);
}

/// With nothing staked a settlement always succeeds for the pool, leaves the
/// accumulator as it is and still moves the update time to the applicable
/// time.
pub proof fn lemma_empty_pool_freezes(pool: Pool, current_time: u64)
    ensures
        settle_fits(pool, None, 0, current_time),
        settled_pool(pool, 0, current_time).reward_per_token_stored == pool.reward_per_token_stored,
        settled_pool(pool, 0, current_time).last_update_time
            == applicable_time(current_time, pool.reward_duration_end),
{
}

/// Settling at any time past the end of the window is the same as settling
/// at its end: the same outcome, the same pool and the same participant.
pub proof fn lemma_settle_clamps_time(pool: Pool, user: Option<User>, total_staked: u64, current_time: u64)
    requires
        current_time > pool.reward_duration_end,
    ensures
        settle_fits(pool, user, total_staked, current_time)
            == settle_fits(pool, user, total_staked, pool.reward_duration_end),
        settled_pool(pool, total_staked, current_time)
            == settled_pool(pool, total_staked, pool.reward_duration_end),
{
}

/// With a fixed rate and a fixed, nonzero stake, a settlement `dt` after the
/// last update and within the window raises the accumulator by exactly
/// `dt * reward_rate * PRECISION / total_staked`, truncated.
pub proof fn lemma_conservation(pool: Pool, total_staked: u64, dt: u64)
    requires
        total_staked > 0,
        pool.last_update_time + dt <= pool.reward_duration_end,
        settle_fits(pool, None, total_staked, (pool.last_update_time + dt) as u64),
    ensures
        settled_pool(pool, total_staked, (pool.last_update_time + dt) as u64).reward_per_token_stored
            == pool.reward_per_token_stored + dt * pool.reward_rate * PRECISION / (total_staked as int),
        settled_pool(pool, total_staked, (pool.last_update_time + dt) as u64).last_update_time
            == pool.last_update_time + dt,
{
}

/// A participant with balance `A`, checkpoint `C` and pending `P`, settled
/// against accumulator `S`, is left with pending `A * (S - C) / PRECISION + P`
/// and checkpoint `S`.
pub proof fn lemma_earned_amount(user: User, stored: u128)
    requires
        earned_fits(stored, user),
    ensures
        settled_user(user, stored).reward_per_token_pending
            == user.balance_staked * (stored - user.reward_per_token_complete) / (PRECISION as int)
                + user.reward_per_token_pending,
        settled_user(user, stored).reward_per_token_complete == stored,
        settled_user(user, stored).balance_staked == user.balance_staked,
{
}

/// A deposit settles before it credits: the participant's pending reward is
/// what the balance before the deposit earned up to the new accumulator, and
/// the checkpoint moves to that accumulator, so the deposited amount earns
/// nothing of what accrued before it.
pub proof fn lemma_deposit_settles_first(ctx: Stake, amount: u64)
    requires
        amount > 0,
        stake_fits(ctx, amount),
    ensures
        staked(ctx, amount).user.reward_per_token_pending
            == earned_value(staked(ctx, amount).pool.reward_per_token_stored, ctx.user),
        staked(ctx, amount).user.reward_per_token_complete
            == staked(ctx, amount).pool.reward_per_token_stored,
        staked(ctx, amount).user.balance_staked == ctx.user.balance_staked + amount,
        staked(ctx, amount).pool
            == settled_pool(ctx.pool, ctx.staking_vault_amount, ctx.current_time),
{
}

} // verus!
