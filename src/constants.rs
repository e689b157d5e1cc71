//! Namespace tags of the program's derived addresses.
use vstd::prelude::*;

verus! {

/// Tag of the reward vault, the token account that pays rewards.
pub const TOKEN_VAULT_SEED: &'static str = "token-vault";

/// Tag of the reward mint.
pub const TOKEN_MINT_SEED: &'static str = "token-mint";

/// Tag of the reward mint's mint authority.
pub const TOKEN_MINT_AUTHORITY_SEED: &'static str = "token-mint-authority";

/// Tag of a stake record, followed by the owner and the asset mint.
pub const NFT_STAKE_INFO_SEED: &'static str = "stake-details";

/// Tag of the asset mint.
pub const NFT_MINT_SEED: &'static str = "nft-mint";

/// Tag of the asset mint's own authority.
pub const NFT_MINT_AUTHORITY_SEED: &'static str = "nft-mint-authority";

/// Tag of a custody authority, followed by the stake record and the
/// holder's asset account.
pub const NFT_STAKE_SEED: &'static str = "nft-staked";

} // verus!
