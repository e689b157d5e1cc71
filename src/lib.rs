//! Custody-based staking of a one-of-a-kind token in exchange for rewards
//! that accrue linearly with ledger slots.
//!
//! The ledger's records (mints, token-holding accounts, stake records) are
//! plain values here; every instruction checks its derived addresses and
//! authorities and then updates those records all at once or not at all.
pub mod address;
pub mod constants;
pub mod error;
pub mod issue;
pub mod laws;
pub mod reward;
pub mod stake;
pub mod token;
