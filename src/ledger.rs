//! Lifecycle operations of the pool: creating it, registering participants,
//! and deposits, each settling rewards before any balance changes.

use vstd::prelude::*;
use crate::accounting::{settle_fits, settled_pool, settled_user, update_rewards};
use crate::state::{ErrorCode, Key, Pool, User};

verus! {

/// Identifiers recorded by a new pool.
#[derive(Clone, Copy, Debug)]
pub struct InitializePool {
    pub authority: Key,
    pub staking_mint: Key,
    pub staking_vault: Key,
    pub reward_mint: Key,
    pub reward_vault: Key,
}

/// The pool a participant joins, the pool's identifier and the new
/// participant's identity.
#[derive(Clone, Copy, Debug)]
pub struct CreateUser {
    pub pool: Pool,
    pub pool_key: Key,
    pub owner: Key,
}

/// The records a deposit reads and changes, with the balance of the pool's
/// staking vault and the current time as read before the deposit.
#[derive(Clone, Copy, Debug)]
pub struct Stake {
    pub pool: Pool,
    pub user: User,
    pub staking_vault_amount: u64,
    pub current_time: u64,
}

/// The participant and the pool after registration.
pub open spec fn registered_user(ctx: CreateUser, nonce: u8) -> User {
    User {
        pool: ctx.pool_key,
        owner: ctx.owner,
        reward_per_token_complete: 0,
        reward_per_token_pending: 0,
        balance_staked: 0,
        nonce: nonce,
    }
}

/// A deposit of `amount` passes its arithmetic: settlement succeeds and the
/// new balance fits 64 bits.
pub open spec fn stake_fits(ctx: Stake, amount: u64) -> bool {
    &&& settle_fits(ctx.pool, Some(ctx.user), ctx.staking_vault_amount, ctx.current_time)
    &&& ctx.user.balance_staked + amount <= u64::MAX
}

/// The records after a deposit of `amount`: settled first, then credited.
pub open spec fn staked(ctx: Stake, amount: u64) -> Stake {
    let pool = settled_pool(ctx.pool, ctx.staking_vault_amount, ctx.current_time);
    let user = settled_user(ctx.user, pool.reward_per_token_stored);
    Stake {
        pool: pool,
        user: User { balance_staked: (ctx.user.balance_staked + amount) as u64, ..user },
        ..ctx
    }
}

/// Creates a pool that records the given identifiers, with nothing accrued
/// and no window funded.
pub fn initialize_pool(ctx: &InitializePool, pool_nonce: u8, reward_duration: u64) -> (pool: Pool)
    ensures
        pool.authority == ctx.authority,
        pool.nonce == pool_nonce,
        pool.staking_mint == ctx.staking_mint,
        pool.staking_vault == ctx.staking_vault,
        pool.reward_mint == ctx.reward_mint,
        pool.reward_vault == ctx.reward_vault,
        pool.reward_duration == reward_duration,
        pool.reward_duration_end == 0,
        pool.last_update_time == 0,
        pool.reward_rate == 0,
        pool.reward_per_token_stored == 0,
        pool.user_stake_count == 0,
        pool.wf(),
{
    Pool {
        authority: ctx.authority,
        nonce: pool_nonce,
        staking_mint: ctx.staking_mint,
        staking_vault: ctx.staking_vault,
        reward_mint: ctx.reward_mint,
        reward_vault: ctx.reward_vault,
        reward_duration: reward_duration,
        reward_duration_end: 0,
        last_update_time: 0,
        reward_rate: 0,
        reward_per_token_stored: 0,
        user_stake_count: 0,
    }
}

/// Registers a participant of `ctx.pool` with nothing staked or earned, and
/// counts it in the pool. Fails with `MathOverflow`, changing nothing, when
/// the count is full.
pub fn create_user(ctx: &mut CreateUser, nonce: u8) -> (r: Result<User, ErrorCode>)
    ensures
        r is Ok <==> old(ctx).pool.user_stake_count < u32::MAX,
        r is Ok ==> r->Ok_0 == registered_user(*old(ctx), nonce),
        r is Ok ==> *final(ctx) == (CreateUser {
            pool: Pool { user_stake_count: (old(ctx).pool.user_stake_count + 1) as u32, ..old(ctx).pool },
            ..*old(ctx)
        }),
        r is Err ==> r == Err::<User, ErrorCode>(ErrorCode::MathOverflow) && *final(ctx) == *old(ctx),
        old(ctx).pool.wf() ==> final(ctx).pool.wf(),
{
    let count = match ctx.pool.user_stake_count.checked_add(1) {
        Some(c) => c,
        None => return Err(ErrorCode::MathOverflow),
    };
    let user = User {
        pool: ctx.pool_key,
        owner: ctx.owner,
        reward_per_token_complete: 0,
        reward_per_token_pending: 0,
        balance_staked: 0,
        nonce: nonce,
    };
    ctx.pool.user_stake_count = count;
    Ok(user)
}

/// Deposits `amount` for `ctx.user`: settles the pool and the participant
/// at `ctx.current_time` with the vault's balance before the deposit, then
/// adds `amount` to the participant's balance. A zero amount is refused;
/// on any error nothing changes. Moving the asset into the vault is left to
/// the caller, who commits the new records only if that transfer succeeds.
pub fn stake(ctx: &mut Stake, amount: u64) -> (r: Result<(), ErrorCode>)
    ensures
        amount == 0 ==> r == Err::<(), ErrorCode>(ErrorCode::AmountMustBeGreaterThanZero),
        amount != 0 && !stake_fits(*old(ctx), amount) ==> r == Err::<(), ErrorCode>(ErrorCode::MathOverflow),
        amount != 0 && stake_fits(*old(ctx), amount) ==> r == Ok::<(), ErrorCode>(()),
        r is Ok ==> *final(ctx) == staked(*old(ctx), amount),
        r is Ok ==> final(ctx).pool.wf(),
        r is Err ==> *final(ctx) == *old(ctx),
{
    if amount == 0 {
        return Err(ErrorCode::AmountMustBeGreaterThanZero);
    }
    let mut pool: Pool = ctx.pool;
    let mut user: User = ctx.user;
    match update_rewards(&mut pool, Some(&mut user), ctx.staking_vault_amount, ctx.current_time) {
        Ok(()) => {},
        Err(e) => return Err(e),
    }
    let balance = match user.balance_staked.checked_add(amount) {
        Some(b) => b,
        None => return Err(ErrorCode::MathOverflow),
    };
    user.balance_staked = balance;
    ctx.pool = pool;
    ctx.user = user;
    Ok(())
}

} // verus!
