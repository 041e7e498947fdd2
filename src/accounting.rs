//! Settlement: advancing the pool's reward-per-token accumulator to the
//! current (clamped) time, and bringing a participant's earnings up to it.

use vstd::prelude::*;
use crate::state::{ErrorCode, Pool, User, PRECISION};

verus! {

/// The time through which rewards accrue: the current time, clamped to the
/// end of the distribution window.
pub open spec fn applicable_time(current_time: u64, reward_duration_end: u64) -> u64 {
    if current_time < reward_duration_end {
        current_time
    } else {
        reward_duration_end
    }
}

/// Increase of the accumulator from `pool.last_update_time` to `t` with
/// `total_staked` units in the pool.
pub open spec fn accrued_per_token(pool: Pool, total_staked: u64, t: u64) -> int {
    (t - pool.last_update_time) * pool.reward_rate * PRECISION / (total_staked as int)
}

/// The accumulator after integrating up to `t`: unchanged when nothing is
/// staked.
pub open spec fn reward_per_token_value(pool: Pool, total_staked: u64, t: u64) -> int {
    if total_staked == 0 {
        pool.reward_per_token_stored as int
    } else {
        pool.reward_per_token_stored + accrued_per_token(pool, total_staked, t)
    }
}

/// Integrating up to `t` goes back in time on no clock and leaves no value of
/// 128 bits out of range.
pub open spec fn reward_per_token_fits(pool: Pool, total_staked: u64, t: u64) -> bool {
    total_staked == 0 || (
        pool.last_update_time <= t
        && (t - pool.last_update_time) * pool.reward_rate * PRECISION <= u128::MAX
        && reward_per_token_value(pool, total_staked, t) <= u128::MAX
    )
}

/// What a participant has earned once the accumulator stands at `stored`.
pub open spec fn earned_value(stored: u128, user: User) -> int {
    user.balance_staked * (stored - user.reward_per_token_complete) / (PRECISION as int)
        + user.reward_per_token_pending
}

/// The earnings at `stored` are computed within range: the checkpoint is not
/// ahead of the accumulator, the product fits 128 bits, the result 64 bits.
pub open spec fn earned_fits(stored: u128, user: User) -> bool {
    user.reward_per_token_complete <= stored
    && user.balance_staked * (stored - user.reward_per_token_complete) <= u128::MAX
    && earned_value(stored, user) <= u64::MAX
}

/// The pool after a settlement at `current_time` with `total_staked` units.
pub open spec fn settled_pool(pool: Pool, total_staked: u64, current_time: u64) -> Pool {
    let t = applicable_time(current_time, pool.reward_duration_end);
    Pool {
        reward_per_token_stored: reward_per_token_value(pool, total_staked, t) as u128,
        last_update_time: t,
        ..pool
    }
}

/// The participant after a settlement that left the accumulator at `stored`.
pub open spec fn settled_user(user: User, stored: u128) -> User {
    User {
        reward_per_token_pending: earned_value(stored, user) as u64,
        reward_per_token_complete: stored,
        ..user
    }
}

/// A settlement at `current_time` succeeds.
pub open spec fn settle_fits(pool: Pool, user: Option<User>, total_staked: u64, current_time: u64) -> bool {
    &&& reward_per_token_fits(pool, total_staked, applicable_time(current_time, pool.reward_duration_end))
    &&& match user {
        Some(u) => earned_fits(settled_pool(pool, total_staked, current_time).reward_per_token_stored, u),
        None => true,
    }
}

/// The current time clamped to the end of the distribution window.
pub fn last_time_reward_applicable(current_time: u64, reward_duration_end: u64) -> (r: u64)
    ensures
        r == applicable_time(current_time, reward_duration_end),
{
    if current_time < reward_duration_end {
        current_time
    } else {
        reward_duration_end
    }
}

/// The accumulator integrated up to `t`, or `MathOverflow` where a step of
/// the computation leaves its range.
pub fn calc_reward_per_token(pool: &Pool, total_staked: u64, t: u64) -> (r: Result<u128, ErrorCode>)
    ensures
        r is Ok <==> reward_per_token_fits(*pool, total_staked, t),
        r is Ok ==> r->Ok_0 == reward_per_token_value(*pool, total_staked, t),
        r is Err ==> r == Err::<u128, ErrorCode>(ErrorCode::MathOverflow),
{
    if total_staked == 0 {
        return Ok(pool.reward_per_token_stored);
    }
    if t < pool.last_update_time {
        return Err(ErrorCode::MathOverflow);
    }
    let elapsed: u128 = (t - pool.last_update_time) as u128;
    let rate: u128 = pool.reward_rate as u128;
    assert(elapsed * rate <= u128::MAX) by (nonlinear_arith)
        requires elapsed <= u64::MAX, rate <= u64::MAX;
    let emitted: u128 = elapsed * rate;
    let scaled: u128 = match emitted.checked_mul(PRECISION) {
        Some(v) => v,
        None => return Err(ErrorCode::MathOverflow),
    };
    let per_token: u128 = scaled / (total_staked as u128);
    match pool.reward_per_token_stored.checked_add(per_token) {
        Some(v) => Ok(v),
        None => Err(ErrorCode::MathOverflow),
    }
}

/// The participant's earnings with the accumulator of `pool`, or
/// `MathOverflow` where a step of the computation leaves its range.
pub fn calc_user_earned_amount(pool: &Pool, user: &User) -> (r: Result<u64, ErrorCode>)
    ensures
        r is Ok <==> earned_fits(pool.reward_per_token_stored, *user),
        r is Ok ==> r->Ok_0 == earned_value(pool.reward_per_token_stored, *user),
        r is Err ==> r == Err::<u64, ErrorCode>(ErrorCode::MathOverflow),
{
    if pool.reward_per_token_stored < user.reward_per_token_complete {
        return Err(ErrorCode::MathOverflow);
    }
    let growth: u128 = pool.reward_per_token_stored - user.reward_per_token_complete;
    let product: u128 = match (user.balance_staked as u128).checked_mul(growth) {
        Some(v) => v,
        None => return Err(ErrorCode::MathOverflow),
    };
    let share: u128 = product / PRECISION;
    assert(share <= u64::MAX);
    let total: u128 = share + user.reward_per_token_pending as u128;
    if total > u64::MAX as u128 {
        return Err(ErrorCode::MathOverflow);
    }
    Ok(total as u64)
}

/// Settles the pool, and the participant if one is given, at `current_time`
/// with `total_staked` units in the pool. On `MathOverflow` nothing changes.
pub fn update_rewards(
    pool: &mut Pool,
    user: Option<&mut User>,
    total_staked: u64,
    current_time: u64,
) -> (r: Result<(), ErrorCode>)
    ensures
        r is Ok <==> settle_fits(
            *old(pool),
            match user { Some(u) => Some(*u), None => None },
            total_staked,
            current_time,
        ),
        r is Ok ==> *final(pool) == settled_pool(*old(pool), total_staked, current_time),
        r is Ok ==> final(pool).wf(),
        r is Err ==> r == Err::<(), ErrorCode>(ErrorCode::MathOverflow) && *final(pool) == *old(pool),
        user matches Some(u) ==> (r is Ok ==> *final(u) == settled_user(*u, final(pool).reward_per_token_stored)),
        user matches Some(u) ==> (r is Err ==> *final(u) == *u),
{
    let t = last_time_reward_applicable(current_time, pool.reward_duration_end);
    let stored = match calc_reward_per_token(pool, total_staked, t) {
        Ok(v) => v,
        Err(e) => return Err(e),
    };
    let mut settled: Pool = *pool;
    settled.reward_per_token_stored = stored;
    settled.last_update_time = t;
    match user {
        Some(u) => {
            let earned = match calc_user_earned_amount(&settled, u) {
                Ok(v) => v,
                Err(e) => return Err(e),
            };
            *pool = settled;
            u.reward_per_token_pending = earned;
            u.reward_per_token_complete = stored;
        },
        None => {
            *pool = settled;
        },
    }
    Ok(())
}

} // verus!
