//! Records of the reward pool: the pool itself, its participants, and the
//! errors that its operations report.

use vstd::prelude::*;

verus! {

/// Fixed-point scale of the reward-per-token accumulator (2^64).
pub const PRECISION: u128 = 0x1_0000_0000_0000_0000;

/// An opaque 32-byte identifier of an account, an asset or a signer.
#[derive(Clone, Copy, Debug)]
pub struct Key {
    pub bytes: [u8; 32],
}

/// Global reward-distribution state of one staking campaign.
#[derive(Clone, Copy, Debug)]
pub struct Pool {
    /// Identity allowed to fund and configure the pool.
    pub authority: Key,
    /// Nonce of the signer that owns the vaults.
    pub nonce: u8,
    /// Asset that can be staked.
    pub staking_mint: Key,
    /// Custody account holding the staked asset.
    pub staking_vault: Key,
    /// Asset paid out as reward.
    pub reward_mint: Key,
    /// Custody account holding the reward asset.
    pub reward_vault: Key,
    /// Length of one distribution window.
    pub reward_duration: u64,
    /// Time at which accrual of the current window stops.
    pub reward_duration_end: u64,
    /// Time through which `reward_per_token_stored` has been integrated.
    pub last_update_time: u64,
    /// Reward emitted per unit of time.
    pub reward_rate: u64,
    /// Accumulated reward per staked unit, scaled by `PRECISION`.
    pub reward_per_token_stored: u128,
    /// Number of registered participants.
    pub user_stake_count: u32,
}

impl Pool {
    /// The accumulator has been integrated no further than the end of the
    /// distribution window.
    pub open spec fn wf(&self) -> bool {
        self.last_update_time <= self.reward_duration_end
    }
}

/// Checkpoint record of one participant of a pool.
#[derive(Clone, Copy, Debug)]
pub struct User {
    /// The pool this participant belongs to.
    pub pool: Key,
    /// Identity controlling this record.
    pub owner: Key,
    /// Accumulator value at the participant's last settlement.
    pub reward_per_token_complete: u128,
    /// Reward earned and not yet claimed.
    pub reward_per_token_pending: u64,
    /// Amount of the staked asset attributed to the participant.
    pub balance_staked: u64,
    /// Nonce of the record's address.
    pub nonce: u8,
}

/// Errors of the pool's operations. Each aborts the operation with no state
/// change.
#[derive(Clone, Copy, Debug, PartialEq, Eq, Structural)]
pub enum ErrorCode {
    /// A deposit of zero was asked for.
    AmountMustBeGreaterThanZero,
    /// An intermediate or final value would leave its integer range, or a
    /// difference would go negative.
    MathOverflow,
}

} // verus!
