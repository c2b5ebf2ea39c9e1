//! A staking ledger: participants deposit a fungible token for a chosen lock
//! period and accrue a reward proportional to stake size and lock length; at
//! lock expiry they may withdraw principal and/or claim the reward.
//!
//! The crate verifies the bookkeeping core alone: record validation, lock-expiry
//! gating, reward accrual and settlement, and conservation of the pool total.
//! Moving actual token balances is delegated to an external ledger (mint and
//! transfer capabilities); the core decides when and how much to move, and a
//! host shell performs the calls and reports their outcome.

pub mod laws;
pub mod machine;
pub mod pool;
pub mod records;
