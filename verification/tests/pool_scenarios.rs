use soon_staking::accounts::{Claim, Deposit, InitializeContract, Stake, Unstake};
use soon_staking::config::initialize_contract;
use soon_staking::errors::StakingError;
use soon_staking::pool::StakingPool;

fn fresh_pool(apy: u64) -> StakingPool {
    let acc = InitializeContract {
        real_token_mint: 11,
        stake_token_mint: 22,
        bump: 254,
    };
    StakingPool::new(initialize_contract(&acc, apy, None).unwrap())
}

fn stake_accounts(user: u64) -> Stake {
    Stake {
        user_account: user,
        user_real_token_account: 10 * user + 1,
        contract_real_token_account: 3,
        user_stake_token_account: 10 * user + 2,
        stake_token_mint: 22,
    }
}

fn unstake_accounts(user: u64) -> Unstake {
    Unstake {
        user_account: user,
        user_real_token_account: 10 * user + 1,
        contract_real_token_account: 3,
        user_stake_token_account: 10 * user + 2,
        stake_token_mint: 22,
    }
}

fn total_locked(pool: &StakingPool) -> u64 {
    pool.users.iter().map(|u| u.stake_info.amount).sum()
}

#[test]
fn two_concurrent_stakes_accumulate_in_either_order() {
    let amount_a = 1_234;
    let amount_b = 5_678_901;
    let mut order_one = fresh_pool(10);
    let alice = order_one.register_participant();
    let bob = order_one.register_participant();
    order_one.stake(alice, &stake_accounts(1), amount_a, 7).unwrap();
    order_one.stake(bob, &stake_accounts(2), amount_b, 7).unwrap();

    let mut order_two = fresh_pool(10);
    let alice2 = order_two.register_participant();
    let bob2 = order_two.register_participant();
    order_two.stake(bob2, &stake_accounts(2), amount_b, 7).unwrap();
    order_two.stake(alice2, &stake_accounts(1), amount_a, 7).unwrap();

    assert_eq!(order_one.config.total_pool_size, amount_a + amount_b);
    assert_eq!(order_two.config.total_pool_size, amount_a + amount_b);
    assert_eq!(order_one.users[alice].stake_info.amount, amount_a);
    assert_eq!(order_two.users[alice2].stake_info.amount, amount_a);
}

#[test]
fn pool_total_mirrors_the_sum_of_records_throughout() {
    let mut pool = fresh_pool(10);
    let a = pool.register_participant();
    let b = pool.register_participant();
    let c = pool.register_participant();
    assert_eq!(pool.config.total_pool_size, total_locked(&pool));

    pool.stake(a, &stake_accounts(1), 100, 5).unwrap();
    assert_eq!(pool.config.total_pool_size, total_locked(&pool));

    let deposit_accounts = Deposit {
        user_account: 2,
        user_real_token_account: 21,
        contract_real_token_account: 3,
    };
    pool.deposit(b, &deposit_accounts, 40, 6).unwrap();
    assert_eq!(pool.config.total_pool_size, total_locked(&pool));

    pool.stake(c, &stake_accounts(3), 1_000, 7).unwrap();
    pool.unstake(a, &unstake_accounts(1), 30).unwrap();
    assert_eq!(pool.config.total_pool_size, total_locked(&pool));

    let claim_accounts = Claim {
        user_stake_token_account: 32,
        stake_token_mint: 22,
    };
    pool.claim(c, &claim_accounts, 1_000_000).unwrap();
    assert_eq!(pool.config.total_pool_size, total_locked(&pool));
    assert_eq!(pool.config.total_pool_size, 100 + 40 + 1_000 - 30);
}

#[test]
fn emptied_record_stops_its_accrual_clock() {
    let mut pool = fresh_pool(10);
    let a = pool.register_participant();
    pool.stake(a, &stake_accounts(1), 500, 42).unwrap();
    assert_eq!(pool.users[a].stake_info.timestamp, 42);
    pool.unstake(a, &unstake_accounts(1), 500).unwrap();
    assert_eq!(pool.users[a].stake_info.amount, 0);
    assert_eq!(pool.users[a].stake_info.timestamp, 0);
    assert_eq!(pool.config.total_pool_size, 0);
}

#[test]
fn failed_unstake_leaves_the_pool_untouched() {
    let mut pool = fresh_pool(10);
    let a = pool.register_participant();
    pool.stake(a, &stake_accounts(1), 500, 42).unwrap();
    let r = pool.unstake(a, &unstake_accounts(1), 501);
    assert_eq!(r, Err(StakingError::InsufficientStake));
    assert_eq!(pool.users[a].stake_info.amount, 500);
    assert_eq!(pool.config.total_pool_size, 500);
}

#[test]
fn operations_touch_only_the_calling_participant() {
    let mut pool = fresh_pool(10);
    let a = pool.register_participant();
    let b = pool.register_participant();
    pool.stake(a, &stake_accounts(1), 500, 42).unwrap();
    pool.stake(b, &stake_accounts(2), 900, 42).unwrap();
    pool.unstake(a, &unstake_accounts(1), 500).unwrap();
    assert_eq!(pool.users[b].stake_info.amount, 900);
    assert_eq!(pool.users[b].stake_info.timestamp, 42);
}

#[test]
fn one_year_claim_scenario_through_the_pool() {
    let mut pool = fresh_pool(10);
    let a = pool.register_participant();
    pool.stake(a, &stake_accounts(1), 1_000_000, 0).unwrap();
    let claim_accounts = Claim {
        user_stake_token_account: 12,
        stake_token_mint: 22,
    };
    let ins = pool.claim(a, &claim_accounts, 31_536_000).unwrap();
    assert_eq!(ins.amount, 100_000);
    assert_eq!(pool.users[a].stake_info.timestamp, 31_536_000);
    assert_eq!(pool.users[a].stake_info.amount, 1_000_000);
}
