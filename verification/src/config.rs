use vstd::prelude::*;

use crate::accounts::InitializeContract;
use crate::errors::StakingError;

verus! {

/// The per-deployment singleton: the two asset identities, the interest
/// rate, the running total of locked principal, and the derivation bump of
/// the pool's custody authority. The asset identities, the rate and the
/// bump are immutable after creation; only `total_pool_size` moves.
#[derive(Clone, Copy, Debug, PartialEq, Eq, Structural)]
pub struct Config {
    /// Asset type participants lock (the principal asset).
    pub real_token_mint: u64,
    /// Asset type minted 1:1 against locked principal (the claim asset).
    pub stake_token_mint: u64,
    /// Annualized simple-interest rate, an integer percentage.
    pub apy: u64,
    /// Sum of all participants' currently locked principal.
    pub total_pool_size: u64,
    /// Derivation bump of the pool's custody authority credential.
    pub bump: u8,
}

/// The fields of a configuration that no operation after initialization
/// may touch.
pub open spec fn config_identity_unchanged(c0: Config, c1: Config) -> bool {
    &&& c1.real_token_mint == c0.real_token_mint
    &&& c1.stake_token_mint == c0.stake_token_mint
    &&& c1.apy == c0.apy
    &&& c1.bump == c0.bump
}

/// Creates the pool configuration: records the two asset identities and
/// the rate, starts with no principal under management, and fixes the
/// authority derivation bump. Exactly one configuration may exist per
/// deployment: if one does, nothing is created and the caller gets
/// `AlreadyInitialized`.
pub fn initialize_contract(accounts: &InitializeContract, apy: u64, existing: Option<&Config>) -> (r:
    Result<Config, StakingError>)
    ensures
        match r {
            Ok(c) => {
                &&& existing is None
                &&& c.real_token_mint == accounts.real_token_mint
                &&& c.stake_token_mint == accounts.stake_token_mint
                &&& c.apy == apy
                &&& c.total_pool_size == 0
                &&& c.bump == accounts.bump
            },
            Err(e) => {
                &&& existing is Some
                &&& e == StakingError::AlreadyInitialized
            },
        },
{
    match existing {
        Some(_) => Err(StakingError::AlreadyInitialized),
        None => Ok(
            Config {
                real_token_mint: accounts.real_token_mint,
                stake_token_mint: accounts.stake_token_mint,
                apy,
                total_pool_size: 0,
                bump: accounts.bump,
            },
        ),
    }
}

} // verus!
