use vstd::prelude::*;

use crate::accounts::{Claim, Deposit, Stake, Unstake};
use crate::config::{config_identity_unchanged, Config};
use crate::custody::{BurnInstruction, MintInstruction, TransferInstruction};
use crate::errors::StakingError;
use crate::ledger;
use crate::ledger::{principal_locked, principal_released, user_wf, StakeInfo, User};

verus! {

/// The principal locked across a set of stake records.
pub open spec fn sum_amounts(users: Seq<User>) -> int
    decreases users.len(),
{
    if users.len() == 0 {
        0
    } else {
        sum_amounts(users.drop_last()) + users.last().stake_info.amount
    }
}

proof fn lemma_sum_push(users: Seq<User>, u: User)
    ensures
        sum_amounts(users.push(u)) == sum_amounts(users) + u.stake_info.amount,
{
    assert(users.push(u).drop_last() =~= users);
}

proof fn lemma_sum_update(users: Seq<User>, i: int, u: User)
    requires
        0 <= i < users.len(),
    ensures
        sum_amounts(users.update(i, u)) == sum_amounts(users) - users[i].stake_info.amount
            + u.stake_info.amount,
    decreases users.len(),
{
    if i == users.len() - 1 {
        assert(users.update(i, u).drop_last() =~= users.drop_last());
    } else {
        assert(users.update(i, u).drop_last() =~= users.drop_last().update(i, u));
        lemma_sum_update(users.drop_last(), i, u);
    }
}

proof fn lemma_sum_at_least_element(users: Seq<User>, i: int)
    requires
        0 <= i < users.len(),
    ensures
        sum_amounts(users) >= users[i].stake_info.amount,
    decreases users.len(),
{
    if i == users.len() - 1 {
        lemma_sum_nonnegative(users.drop_last());
    } else {
        lemma_sum_at_least_element(users.drop_last(), i);
    }
}

proof fn lemma_sum_nonnegative(users: Seq<User>)
    ensures
        sum_amounts(users) >= 0,
    decreases users.len(),
{
    if users.len() > 0 {
        lemma_sum_nonnegative(users.drop_last());
    }
}

/// The whole deployment's ledger state: the singleton configuration and
/// every participant's stake record, keyed by the index assigned at
/// registration. Every operation serializes its update of
/// `total_pool_size` through this one value, which is what keeps the
/// solvency sum exact under any interleaving of participants.
#[derive(Clone)]
pub struct StakingPool {
    pub config: Config,
    pub users: Vec<User>,
}

impl StakingPool {
    /// Solvency: the configuration's running total is exactly the sum of
    /// every participant's locked principal, so it mirrors the principal
    /// the custody system holds for the pool.
    pub open spec fn solvent(self) -> bool {
        self.config.total_pool_size == sum_amounts(self.users@)
    }

    /// Every stake record keeps its accrual clock stopped while empty.
    pub open spec fn records_wf(self) -> bool {
        forall|i: int| 0 <= i < self.users@.len() ==> user_wf(#[trigger] self.users@[i])
    }

    /// The pool invariant: solvency and per-record well-formedness. Holds
    /// after construction and after every operation.
    pub open spec fn wf(self) -> bool {
        self.solvent() && self.records_wf()
    }

    /// A freshly initialized pool: the given configuration, which has no
    /// principal under management yet, and no participants.
    pub fn new(config: Config) -> (p: StakingPool)
        requires
            config.total_pool_size == 0,
        ensures
            p.config == config,
            p.users@.len() == 0,
            p.wf(),
    {
        StakingPool { config, users: Vec::new() }
    }

    /// Admits a participant with an empty stake record and hands back the
    /// index that names them from here on.
    pub fn register_participant(&mut self) -> (participant: usize)
        requires
            old(self).wf(),
        ensures
            final(self).wf(),
            participant == old(self).users@.len(),
            final(self).users@ == old(self).users@.push(
                User { stake_info: StakeInfo { amount: 0, timestamp: 0 } },
            ),
            final(self).config == old(self).config,
    {
        let participant = self.users.len();
        let ghost before = self.users@;
        let fresh = User::default();
        self.users.push(fresh);
        proof {
            lemma_sum_push(before, fresh);
        }
        participant
    }

    /// Locks `amount` of principal for one participant without minting
    /// claim tokens; see [`ledger::deposit`] for the exact transition and
    /// the custody instruction. Solvency and every other participant's
    /// record are untouched.
    pub fn deposit(
        &mut self,
        participant: usize,
        accounts: &Deposit,
        amount: u64,
        now: u64,
    ) -> (r: Result<TransferInstruction, StakingError>)
        requires
            old(self).wf(),
            participant < old(self).users@.len(),
        ensures
            final(self).wf(),
            final(self).users@.len() == old(self).users@.len(),
            forall|j: int|
                0 <= j < old(self).users@.len() && j != participant ==> final(self).users@[j] == old(
                    self,
                ).users@[j],
            r is Ok ==> principal_locked(
                old(self).config,
                old(self).users@[participant as int],
                final(self).config,
                final(self).users@[participant as int],
                amount,
                now,
            ),
            r is Err ==> final(self).config == old(self).config && final(self).users@ == old(
                self,
            ).users@,
            r is Ok <==> amount > 0 && ledger::lock_fits(
                old(self).config,
                old(self).users@[participant as int],
                amount,
            ),
            r matches Err(e) ==> ((e == StakingError::InvalidStakeAmount <==> amount == 0) && (e
                == StakingError::ArithmeticOverflow <==> amount > 0 && !ledger::lock_fits(
                old(self).config,
                old(self).users@[participant as int],
                amount,
            ))),
            r matches Ok(ins) ==> ins == (TransferInstruction {
                from: accounts.user_real_token_account,
                to: accounts.contract_real_token_account,
                authorizer: crate::custody::Authorizer::Participant(accounts.user_account),
                amount,
            }),
    {
        let ghost before = self.users@;
        let r = ledger::deposit(&mut self.config, &mut self.users[participant], accounts, amount, now);
        proof {
            lemma_sum_update(before, participant as int, self.users@[participant as int]);
            if r is Err {
                assert(self.users@ =~= before);
            }
        }
        r
    }

    /// Locks `amount` of principal for one participant and mints the claim
    /// asset 1:1 to them; see [`ledger::stake`] for the exact transition
    /// and the custody instructions. Solvency and every other
    /// participant's record are untouched.
    pub fn stake(
        &mut self,
        participant: usize,
        accounts: &Stake,
        amount: u64,
        now: u64,
    ) -> (r: Result<(TransferInstruction, MintInstruction), StakingError>)
        requires
            old(self).wf(),
            participant < old(self).users@.len(),
        ensures
            final(self).wf(),
            final(self).users@.len() == old(self).users@.len(),
            forall|j: int|
                0 <= j < old(self).users@.len() && j != participant ==> final(self).users@[j] == old(
                    self,
                ).users@[j],
            r is Ok ==> principal_locked(
                old(self).config,
                old(self).users@[participant as int],
                final(self).config,
                final(self).users@[participant as int],
                amount,
                now,
            ),
            r is Err ==> final(self).config == old(self).config && final(self).users@ == old(
                self,
            ).users@,
            r is Ok <==> amount > 0 && ledger::lock_fits(
                old(self).config,
                old(self).users@[participant as int],
                amount,
            ),
            r matches Ok((transfer, mint)) ==> transfer.amount == amount && mint.amount == amount
                && mint.mint == accounts.stake_token_mint && mint.to
                == accounts.user_stake_token_account,
            r matches Err(e) ==> ((e == StakingError::InvalidStakeAmount <==> amount == 0) && (e
                == StakingError::ArithmeticOverflow <==> amount > 0 && !ledger::lock_fits(
                old(self).config,
                old(self).users@[participant as int],
                amount,
            ))),
    {
        let ghost before = self.users@;
        let r = ledger::stake(&mut self.config, &mut self.users[participant], accounts, amount, now);
        proof {
            lemma_sum_update(before, participant as int, self.users@[participant as int]);
            if r is Err {
                assert(self.users@ =~= before);
            }
        }
        r
    }

    /// Releases `amount` of principal to one participant against a burn of
    /// the same amount of their claim tokens; see [`ledger::unstake`] for
    /// the exact transition and the custody instructions. Fails with
    /// `InsufficientStake`, touching nothing, if less than `amount` is
    /// locked. Solvency and every other participant's record are
    /// untouched.
    pub fn unstake(
        &mut self,
        participant: usize,
        accounts: &Unstake,
        amount: u64,
    ) -> (r: Result<(BurnInstruction, TransferInstruction), StakingError>)
        requires
            old(self).wf(),
            participant < old(self).users@.len(),
        ensures
            final(self).wf(),
            final(self).users@.len() == old(self).users@.len(),
            forall|j: int|
                0 <= j < old(self).users@.len() && j != participant ==> final(self).users@[j] == old(
                    self,
                ).users@[j],
            r is Ok ==> principal_released(
                old(self).config,
                old(self).users@[participant as int],
                final(self).config,
                final(self).users@[participant as int],
                amount,
            ),
            r is Err ==> final(self).config == old(self).config && final(self).users@ == old(
                self,
            ).users@,
            r is Ok <==> amount <= old(self).users@[participant as int].stake_info.amount,
            r matches Err(e) ==> e == StakingError::InsufficientStake,
            r matches Ok((burn, transfer)) ==> burn.amount == amount && transfer.amount == amount,
    {
        let ghost before = self.users@;
        proof {
            lemma_sum_at_least_element(before, participant as int);
        }
        let r = ledger::unstake(&mut self.config, &mut self.users[participant], accounts, amount);
        proof {
            lemma_sum_update(before, participant as int, self.users@[participant as int]);
            if r is Err {
                assert(self.users@ =~= before);
            }
        }
        r
    }

    /// Settles one participant's accrued interest; see [`ledger::claim`]
    /// for the exact transition and the custody instruction. Locked
    /// principal, the pool total, and every other participant's record
    /// are untouched.
    pub fn claim(&mut self, participant: usize, accounts: &Claim, now: u64) -> (r: Result<
        MintInstruction,
        StakingError,
    >)
        requires
            old(self).wf(),
            participant < old(self).users@.len(),
        ensures
            final(self).wf(),
            final(self).config == old(self).config,
            final(self).users@.len() == old(self).users@.len(),
            forall|j: int|
                0 <= j < old(self).users@.len() && j != participant ==> final(self).users@[j] == old(
                    self,
                ).users@[j],
            final(self).users@[participant as int].stake_info.amount == old(self).users@[participant as int].stake_info.amount,
            r matches Ok(ins) ==> now >= old(self).users@[participant as int].stake_info.timestamp
                && ins.amount == crate::interest::reward_of(
                old(self).users@[participant as int].stake_info.amount as int,
                old(self).config.apy as int,
                now - old(self).users@[participant as int].stake_info.timestamp,
            ),
            r is Err ==> final(self).users@ == old(self).users@,
            r is Ok <==> now >= old(self).users@[participant as int].stake_info.timestamp
                && crate::interest::reward_fits(
                old(self).users@[participant as int].stake_info.amount as int,
                old(self).config.apy as int,
                now - old(self).users@[participant as int].stake_info.timestamp,
            ),
            r is Ok ==> final(self).users@[participant as int].stake_info.timestamp == (if old(
                self,
            ).users@[participant as int].stake_info.amount > 0 {
                now as int
            } else {
                old(self).users@[participant as int].stake_info.timestamp as int
            }),
            r matches Err(e) ==> ((e == StakingError::InvariantViolation <==> now < old(
                self,
            ).users@[participant as int].stake_info.timestamp) && (e
                == StakingError::ArithmeticOverflow <==> now >= old(
                self,
            ).users@[participant as int].stake_info.timestamp && !crate::interest::reward_fits(
                old(self).users@[participant as int].stake_info.amount as int,
                old(self).config.apy as int,
                now - old(self).users@[participant as int].stake_info.timestamp,
            ))),
    {
        let ghost before = self.users@;
        let r = ledger::claim(&self.config, &mut self.users[participant], accounts, now);
        proof {
            lemma_sum_update(before, participant as int, self.users@[participant as int]);
            if r is Err {
                assert(self.users@ =~= before);
            }
        }
        r
    }
}

/// Two different participants' stakes compose: whichever of the two
/// orders the platform serializes them in, the pool total ends at its
/// starting value plus both amounts, and each participant's record grew
/// by exactly their own amount. The conclusion is symmetric in the two
/// amounts, so the interleaving order cannot be told apart from the final
/// state.
pub proof fn lemma_concurrent_stakes_accumulate(
    c0: Config,
    c1: Config,
    c2: Config,
    first0: User,
    first1: User,
    second0: User,
    second1: User,
    amount_a: u64,
    amount_b: u64,
    now_a: u64,
    now_b: u64,
)
    requires
        principal_locked(c0, first0, c1, first1, amount_a, now_a),
        principal_locked(c1, second0, c2, second1, amount_b, now_b),
    ensures
        c2.total_pool_size == c0.total_pool_size + amount_a + amount_b,
        c2.total_pool_size == c0.total_pool_size + amount_b + amount_a,
        first1.stake_info.amount == first0.stake_info.amount + amount_a,
        second1.stake_info.amount == second0.stake_info.amount + amount_b,
        config_identity_unchanged(c0, c2),
{
}

} // verus!
