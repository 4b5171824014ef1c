use vstd::prelude::*;

use crate::custody::{Authorizer, BurnInstruction, MintInstruction, TransferInstruction};

verus! {

/// The identities an initialization names: the two asset types and the
/// derivation bump of the pool's authority credential. Account ids and
/// asset ids are opaque identifiers to the engine; it only records and
/// routes them.
#[derive(Clone, Copy, Debug, PartialEq, Eq, Structural)]
pub struct InitializeContract {
    /// Asset type a participant locks into the pool.
    pub real_token_mint: u64,
    /// Asset type minted 1:1 against locked principal.
    pub stake_token_mint: u64,
    /// Derivation bump of the pool's custody authority.
    pub bump: u8,
}

/// The custody accounts a deposit touches.
#[derive(Clone, Copy, Debug, PartialEq, Eq, Structural)]
pub struct Deposit {
    /// The participant's own account, which authorizes the outgoing leg.
    pub user_account: u64,
    /// The participant's principal-asset account.
    pub user_real_token_account: u64,
    /// The pool-custody principal-asset account.
    pub contract_real_token_account: u64,
}

impl Deposit {
    /// The one custody instruction a deposit issues: principal moves from
    /// the participant to pool custody, authorized by the participant.
    pub fn transfer_ctx(&self, amount: u64) -> (ins: TransferInstruction)
        ensures
            ins.from == self.user_real_token_account,
            ins.to == self.contract_real_token_account,
            ins.authorizer == Authorizer::Participant(self.user_account),
            ins.amount == amount,
    {
        TransferInstruction {
            from: self.user_real_token_account,
            to: self.contract_real_token_account,
            authorizer: Authorizer::Participant(self.user_account),
            amount,
        }
    }
}

/// The custody accounts a stake touches.
#[derive(Clone, Copy, Debug, PartialEq, Eq, Structural)]
pub struct Stake {
    /// The participant's own account, which authorizes the outgoing leg.
    pub user_account: u64,
    /// The participant's principal-asset account.
    pub user_real_token_account: u64,
    /// The pool-custody principal-asset account.
    pub contract_real_token_account: u64,
    /// The participant's claim-asset account, receiver of the mint.
    pub user_stake_token_account: u64,
    /// The claim-asset type.
    pub stake_token_mint: u64,
}

impl Stake {
    /// First custody instruction of a stake: principal moves from the
    /// participant to pool custody, authorized by the participant.
    pub fn transfer_ctx(&self, amount: u64) -> (ins: TransferInstruction)
        ensures
            ins.from == self.user_real_token_account,
            ins.to == self.contract_real_token_account,
            ins.authorizer == Authorizer::Participant(self.user_account),
            ins.amount == amount,
    {
        TransferInstruction {
            from: self.user_real_token_account,
            to: self.contract_real_token_account,
            authorizer: Authorizer::Participant(self.user_account),
            amount,
        }
    }

    /// Second custody instruction of a stake: the claim asset is minted
    /// 1:1 to the participant, under the pool's authority.
    pub fn mint_ctx(&self, bump: u8, amount: u64) -> (ins: MintInstruction)
        ensures
            ins.mint == self.stake_token_mint,
            ins.to == self.user_stake_token_account,
            ins.authorizer == Authorizer::PoolAuthority(bump),
            ins.amount == amount,
    {
        MintInstruction {
            mint: self.stake_token_mint,
            to: self.user_stake_token_account,
            authorizer: Authorizer::PoolAuthority(bump),
            amount,
        }
    }
}

/// The custody accounts an unstake touches.
#[derive(Clone, Copy, Debug, PartialEq, Eq, Structural)]
pub struct Unstake {
    /// The participant's own account, which authorizes the burn.
    pub user_account: u64,
    /// The participant's principal-asset account, receiver of the release.
    pub user_real_token_account: u64,
    /// The pool-custody principal-asset account.
    pub contract_real_token_account: u64,
    /// The participant's claim-asset account, source of the burn.
    pub user_stake_token_account: u64,
    /// The claim-asset type.
    pub stake_token_mint: u64,
}

impl Unstake {
    /// First custody instruction of an unstake: the participant's claim
    /// tokens are burned, authorized by the participant.
    pub fn burn_ctx(&self, amount: u64) -> (ins: BurnInstruction)
        ensures
            ins.mint == self.stake_token_mint,
            ins.from == self.user_stake_token_account,
            ins.authorizer == Authorizer::Participant(self.user_account),
            ins.amount == amount,
    {
        BurnInstruction {
            mint: self.stake_token_mint,
            from: self.user_stake_token_account,
            authorizer: Authorizer::Participant(self.user_account),
            amount,
        }
    }

    /// Second custody instruction of an unstake: principal moves from pool
    /// custody back to the participant, under the pool's authority.
    pub fn transfer_ctx(&self, bump: u8, amount: u64) -> (ins: TransferInstruction)
        ensures
            ins.from == self.contract_real_token_account,
            ins.to == self.user_real_token_account,
            ins.authorizer == Authorizer::PoolAuthority(bump),
            ins.amount == amount,
    {
        TransferInstruction {
            from: self.contract_real_token_account,
            to: self.user_real_token_account,
            authorizer: Authorizer::PoolAuthority(bump),
            amount,
        }
    }
}

/// The custody accounts a claim touches.
#[derive(Clone, Copy, Debug, PartialEq, Eq, Structural)]
pub struct Claim {
    /// The participant's claim-asset account, receiver of the reward.
    pub user_stake_token_account: u64,
    /// The claim-asset type.
    pub stake_token_mint: u64,
}

impl Claim {
    /// The one custody instruction a claim issues: the interest reward is
    /// minted to the participant, under the pool's authority.
    pub fn mint_ctx(&self, bump: u8, amount: u64) -> (ins: MintInstruction)
        ensures
            ins.mint == self.stake_token_mint,
            ins.to == self.user_stake_token_account,
            ins.authorizer == Authorizer::PoolAuthority(bump),
            ins.amount == amount,
    {
        MintInstruction {
            mint: self.stake_token_mint,
            to: self.user_stake_token_account,
            authorizer: Authorizer::PoolAuthority(bump),
            amount,
        }
    }
}

} // verus!
