//! Failures of the program's instructions.
use vstd::prelude::*;

verus! {

/// Why an instruction was refused; a refused instruction changes nothing.
#[derive(Clone, Copy, Debug, PartialEq, Eq, Structural)]
pub enum ErrorCode {
    /// A stake was asked for while the asset is already staked.
    AlreadyStaked,
    /// An unstake was asked for while the asset is not staked.
    NotStaked,
    /// The signing address is not the record's current authority.
    InsufficientAuthority,
    /// The reward vault holds less than the reward owed.
    InsufficientVaultBalance,
    /// An amount does not fit in 64 bits.
    ArithmeticOverflow,
    /// A token account taking part in a transfer or a mint is frozen.
    AccountFrozen,
    /// A freeze of a frozen account, or a thaw of one that is not frozen.
    InvalidAccountState,
    /// A token account belongs to another mint.
    MintMismatch,
    /// The mint's authority to create units has been revoked.
    MintAuthorityRevoked,
    /// The mint has no freeze authority.
    NoFreezeAuthority,
    /// An account is not the one that the instruction's derivations name.
    AddressMismatch,
    /// A record that an initialization creates already exists.
    AlreadyInitialized,
}

} // verus!
