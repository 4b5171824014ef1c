//! A custodial staking ledger engine.
//!
//! A participant locks a principal asset in pool custody, receives a claim
//! asset minted 1:1 against the locked balance, accrues simple linear
//! interest on it, and redeems the claim asset for the principal. The
//! engine here is the pure ledger core: it validates each operation,
//! computes the state transition on the pool configuration and the
//! participant's stake record, and describes the custody instructions
//! (transfer, mint, burn) that the surrounding runtime must execute
//! atomically with the commit. The custody system itself is an external
//! collaborator and is not part of this crate.

pub mod accounts;
pub mod config;
pub mod custody;
pub mod errors;
pub mod interest;
pub mod ledger;
pub mod pool;
