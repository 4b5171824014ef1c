use vstd::prelude::*;

verus! {

/// Who signs a custody instruction.
///
/// A participant authorizes movements out of their own accounts (locking
/// principal, burning their claim tokens). Every pool-custody-side movement
/// and every mint is authorized by the pool's derived authority instead; the
/// credential is identified by the derivation bump recorded at
/// initialization and is never rotated.
#[derive(Clone, Copy, Debug, PartialEq, Eq, Structural)]
pub enum Authorizer {
    /// Signed by the participant's own account.
    Participant(u64),
    /// Signed with the pool's derived authority credential.
    PoolAuthority(u8),
}

/// An instruction to the custody system: move `amount` of an asset from
/// one custody account to another. Either the whole movement happens or
/// none of it does; the engine never observes a partial transfer.
#[derive(Clone, Copy, Debug, PartialEq, Eq, Structural)]
pub struct TransferInstruction {
    pub from: u64,
    pub to: u64,
    pub authorizer: Authorizer,
    pub amount: u64,
}

/// An instruction to the custody system: create `amount` new units of the
/// asset `mint` in the account `to`.
#[derive(Clone, Copy, Debug, PartialEq, Eq, Structural)]
pub struct MintInstruction {
    pub mint: u64,
    pub to: u64,
    pub authorizer: Authorizer,
    pub amount: u64,
}

/// An instruction to the custody system: destroy `amount` units of the
/// asset `mint` held in the account `from`.
#[derive(Clone, Copy, Debug, PartialEq, Eq, Structural)]
pub struct BurnInstruction {
    pub mint: u64,
    pub from: u64,
    pub authorizer: Authorizer,
    pub amount: u64,
}

} // verus!
