use vstd::prelude::*;

use crate::accounts::{Claim, Deposit, Stake, Unstake};
use crate::config::{config_identity_unchanged, Config};
use crate::custody::{Authorizer, BurnInstruction, MintInstruction, TransferInstruction};
use crate::errors::StakingError;
use crate::interest::{compute_reward, reward_fits, reward_of};

verus! {

/// Principal currently locked by one participant, and the time from which
/// unclaimed interest on it is measured.
#[derive(Clone, Copy, Debug, PartialEq, Eq, Structural)]
pub struct StakeInfo {
    /// Locked principal, denominated in the principal asset.
    pub amount: u64,
    /// The time interest last began accruing: the last deposit, stake or
    /// claim. Zero on an empty position.
    pub timestamp: u64,
}

/// One participant's stake record. Created with a zero balance on first
/// contact, never deleted: an emptied record is inert and reusable.
#[derive(Clone, Copy, Debug, PartialEq, Eq, Structural)]
pub struct User {
    pub stake_info: StakeInfo,
}

impl Default for User {
    /// A fresh record: nothing locked, no accrual clock running.
    fn default() -> (u: User)
        ensures
            u.stake_info.amount == 0,
            u.stake_info.timestamp == 0,
    {
        User { stake_info: StakeInfo { amount: 0, timestamp: 0 } }
    }
}

/// No accrual clock runs on an empty position: a record with nothing
/// locked has a zero accrual timestamp. Every operation preserves this.
pub open spec fn user_wf(u: User) -> bool {
    u.stake_info.amount == 0 ==> u.stake_info.timestamp == 0
}

/// A successful deposit or stake: `amount` more principal is locked for
/// the participant, the accrual clock restarts at `now`, the pool total
/// grows by the same `amount`, and the configuration's identity fields
/// stay put.
pub open spec fn principal_locked(c0: Config, u0: User, c1: Config, u1: User, amount: u64, now: u64) -> bool {
    &&& u1.stake_info.amount == u0.stake_info.amount + amount
    &&& u1.stake_info.timestamp == now
    &&& c1.total_pool_size == c0.total_pool_size + amount
    &&& config_identity_unchanged(c0, c1)
}

/// A successful unstake: `amount` principal is released, the accrual
/// clock stops if the position is now empty and is otherwise untouched,
/// the pool total shrinks by the same `amount`, and the configuration's
/// identity fields stay put.
pub open spec fn principal_released(c0: Config, u0: User, c1: Config, u1: User, amount: u64) -> bool {
    &&& u1.stake_info.amount == u0.stake_info.amount - amount
    &&& u1.stake_info.timestamp == (if u1.stake_info.amount == 0 {
        0int
    } else {
        u0.stake_info.timestamp as int
    })
    &&& c1.total_pool_size == c0.total_pool_size - amount
    &&& config_identity_unchanged(c0, c1)
}

/// Whether the additions a deposit or stake commits stay in range.
pub open spec fn lock_fits(c0: Config, u0: User, amount: u64) -> bool {
    &&& u0.stake_info.amount + amount <= u64::MAX
    &&& c0.total_pool_size + amount <= u64::MAX
}

/// Locks `amount` of the principal asset in pool custody without minting
/// any claim asset: a plain custody top-up. The returned instruction is
/// the participant-authorized transfer the custody system must execute;
/// the commit stands only if that transfer succeeds.
pub fn deposit(config: &mut Config, user: &mut User, accounts: &Deposit, amount: u64, now: u64) -> (r:
    Result<TransferInstruction, StakingError>)
    ensures
        match r {
            Ok(ins) => {
                &&& principal_locked(*old(config), *old(user), *final(config), *final(user), amount, now)
                &&& ins.from == accounts.user_real_token_account
                &&& ins.to == accounts.contract_real_token_account
                &&& ins.authorizer == Authorizer::Participant(accounts.user_account)
                &&& ins.amount == amount
            },
            Err(e) => {
                &&& *final(config) == *old(config)
                &&& *final(user) == *old(user)
                &&& (e == StakingError::InvalidStakeAmount <==> amount == 0)
                &&& (e == StakingError::ArithmeticOverflow <==> amount > 0 && !lock_fits(
                    *old(config),
                    *old(user),
                    amount,
                ))
            },
        },
        r is Ok <==> amount > 0 && lock_fits(*old(config), *old(user), amount),
        user_wf(*old(user)) ==> user_wf(*final(user)),
{
    if amount == 0 {
        return Err(StakingError::InvalidStakeAmount);
    }
    let new_amount = match user.stake_info.amount.checked_add(amount) {
        Some(v) => v,
        None => {
            return Err(StakingError::ArithmeticOverflow);
        },
    };
    let new_total = match config.total_pool_size.checked_add(amount) {
        Some(v) => v,
        None => {
            return Err(StakingError::ArithmeticOverflow);
        },
    };
    user.stake_info.amount = new_amount;
    user.stake_info.timestamp = now;
    config.total_pool_size = new_total;
    Ok(accounts.transfer_ctx(amount))
}

/// Locks `amount` of the principal asset in pool custody and mints the
/// claim asset 1:1 to the participant. The returned instructions are the
/// participant-authorized transfer and the pool-authorized mint the
/// custody system must execute; the commit stands only if both succeed.
pub fn stake(config: &mut Config, user: &mut User, accounts: &Stake, amount: u64, now: u64) -> (r:
    Result<(TransferInstruction, MintInstruction), StakingError>)
    ensures
        match r {
            Ok((transfer, mint)) => {
                &&& principal_locked(*old(config), *old(user), *final(config), *final(user), amount, now)
                &&& transfer.from == accounts.user_real_token_account
                &&& transfer.to == accounts.contract_real_token_account
                &&& transfer.authorizer == Authorizer::Participant(accounts.user_account)
                &&& transfer.amount == amount
                &&& mint.mint == accounts.stake_token_mint
                &&& mint.to == accounts.user_stake_token_account
                &&& mint.authorizer == Authorizer::PoolAuthority(old(config).bump)
                &&& mint.amount == amount
            },
            Err(e) => {
                &&& *final(config) == *old(config)
                &&& *final(user) == *old(user)
                &&& (e == StakingError::InvalidStakeAmount <==> amount == 0)
                &&& (e == StakingError::ArithmeticOverflow <==> amount > 0 && !lock_fits(
                    *old(config),
                    *old(user),
                    amount,
                ))
            },
        },
        r is Ok <==> amount > 0 && lock_fits(*old(config), *old(user), amount),
        user_wf(*old(user)) ==> user_wf(*final(user)),
{
    if amount == 0 {
        return Err(StakingError::InvalidStakeAmount);
    }
    let new_amount = match user.stake_info.amount.checked_add(amount) {
        Some(v) => v,
        None => {
            return Err(StakingError::ArithmeticOverflow);
        },
    };
    let new_total = match config.total_pool_size.checked_add(amount) {
        Some(v) => v,
        None => {
            return Err(StakingError::ArithmeticOverflow);
        },
    };
    let bump = config.bump;
    user.stake_info.amount = new_amount;
    user.stake_info.timestamp = now;
    config.total_pool_size = new_total;
    Ok((accounts.transfer_ctx(amount), accounts.mint_ctx(bump, amount)))
}

/// Burns `amount` of the participant's claim asset and releases the same
/// `amount` of principal from pool custody. Fails with
/// `InsufficientStake`, touching nothing, if the participant has less
/// than `amount` locked. Pending interest is not settled here: whoever
/// unstakes without claiming first forfeits the interest accrued on the
/// released portion. The returned instructions are the
/// participant-authorized burn and the pool-authorized release the
/// custody system must execute; the commit stands only if both succeed.
pub fn unstake(config: &mut Config, user: &mut User, accounts: &Unstake, amount: u64) -> (r:
    Result<(BurnInstruction, TransferInstruction), StakingError>)
    requires
        old(config).total_pool_size >= old(user).stake_info.amount,
    ensures
        match r {
            Ok((burn, transfer)) => {
                &&& principal_released(*old(config), *old(user), *final(config), *final(user), amount)
                &&& burn.mint == accounts.stake_token_mint
                &&& burn.from == accounts.user_stake_token_account
                &&& burn.authorizer == Authorizer::Participant(accounts.user_account)
                &&& burn.amount == amount
                &&& transfer.from == accounts.contract_real_token_account
                &&& transfer.to == accounts.user_real_token_account
                &&& transfer.authorizer == Authorizer::PoolAuthority(old(config).bump)
                &&& transfer.amount == amount
            },
            Err(e) => {
                &&& *final(config) == *old(config)
                &&& *final(user) == *old(user)
                &&& e == StakingError::InsufficientStake
            },
        },
        r is Ok <==> amount <= old(user).stake_info.amount,
        r is Ok ==> user_wf(*final(user)),
        user_wf(*old(user)) ==> user_wf(*final(user)),
{
    if user.stake_info.amount < amount {
        return Err(StakingError::InsufficientStake);
    }
    let bump = config.bump;
    user.stake_info.amount = user.stake_info.amount - amount;
    if user.stake_info.amount == 0 {
        user.stake_info.timestamp = 0;
    }
    config.total_pool_size = config.total_pool_size - amount;
    Ok((accounts.burn_ctx(amount), accounts.transfer_ctx(bump, amount)))
}

/// Settles accrued interest: computes the simple-interest reward over the
/// time elapsed since the accrual timestamp and restarts the clock at
/// `now`, leaving the locked principal untouched. On an empty position
/// nothing is owed and no accrual clock is started. A `now` earlier than
/// the accrual timestamp means the clock or the state is corrupt and
/// fails the operation as an `InvariantViolation`. The returned
/// instruction is the pool-authorized mint of the reward; the commit
/// stands only if it succeeds.
pub fn claim(config: &Config, user: &mut User, accounts: &Claim, now: u64) -> (r: Result<
    MintInstruction,
    StakingError,
>)
    ensures
        match r {
            Ok(ins) => {
                &&& now >= old(user).stake_info.timestamp
                &&& ins.mint == accounts.stake_token_mint
                &&& ins.to == accounts.user_stake_token_account
                &&& ins.authorizer == Authorizer::PoolAuthority(config.bump)
                &&& ins.amount == reward_of(
                    old(user).stake_info.amount as int,
                    config.apy as int,
                    now - old(user).stake_info.timestamp,
                )
                &&& final(user).stake_info.amount == old(user).stake_info.amount
                &&& final(user).stake_info.timestamp == (if old(user).stake_info.amount > 0 {
                    now as int
                } else {
                    old(user).stake_info.timestamp as int
                })
            },
            Err(e) => {
                &&& *final(user) == *old(user)
                &&& (e == StakingError::InvariantViolation <==> now < old(user).stake_info.timestamp)
                &&& (e == StakingError::ArithmeticOverflow <==> now >= old(user).stake_info.timestamp
                    && !reward_fits(
                    old(user).stake_info.amount as int,
                    config.apy as int,
                    now - old(user).stake_info.timestamp,
                ))
            },
        },
        r is Ok <==> now >= old(user).stake_info.timestamp && reward_fits(
            old(user).stake_info.amount as int,
            config.apy as int,
            now - old(user).stake_info.timestamp,
        ),
        user_wf(*old(user)) ==> user_wf(*final(user)),
{
    if now < user.stake_info.timestamp {
        return Err(StakingError::InvariantViolation);
    }
    let duration = now - user.stake_info.timestamp;
    let reward = match compute_reward(user.stake_info.amount, config.apy, duration) {
        Ok(v) => v,
        Err(e) => {
            return Err(e);
        },
    };
    if user.stake_info.amount > 0 {
        user.stake_info.timestamp = now;
    }
    Ok(accounts.mint_ctx(config.bump, reward))
}

/// A stake followed at once by an unstake of the same amount is
/// conservative: the participant's locked principal and the pool total
/// come back to exactly their values before the pair. The stake minted
/// and the unstake burned the same `amount` of the claim asset, so the
/// pair's net effect on claim-asset supply is zero as well.
pub proof fn lemma_stake_unstake_conserves(
    c0: Config,
    u0: User,
    c1: Config,
    u1: User,
    c2: Config,
    u2: User,
    amount: u64,
    now: u64,
)
    requires
        principal_locked(c0, u0, c1, u1, amount, now),
        principal_released(c1, u1, c2, u2, amount),
    ensures
        u2.stake_info.amount == u0.stake_info.amount,
        c2.total_pool_size == c0.total_pool_size,
        config_identity_unchanged(c0, c2),
{
}

} // verus!
