//! Properties of the instructions that span more than one call.
use vstd::prelude::*;
use crate::address::Address;
use crate::error::ErrorCode;
use crate::issue::{AirdropNFT, airdrop_nft_result};
use crate::reward::scaled_result;
use crate::stake::{
    DestakeNFT, NftStakeInfo, StakeNFT, destake_accounts_valid, destake_nft_result, is_staked,
    reward_side_valid, stake_nft_result, stake_slot,
};
use crate::token::holds_authority;

verus! {

/// The reward side of an unstake can pay: the vault and the receiving account
/// are unfrozen, hold the same mint, and the vault is its own authority.
pub open spec fn reward_side_ready(d: DestakeNFT, program: Address) -> bool {
    &&& reward_side_valid(d, program)
    &&& !d.token_vault_account.is_frozen
    &&& !d.associated_user_token_account.is_frozen
    &&& d.associated_user_token_account.mint@ == d.token_vault_account.mint@
    &&& d.token_vault_account.owner@ == d.token_vault_account.address@
}

/// An unstake in the same slot as the stake succeeds, pays nothing, leaves
/// the holding unfrozen and gives the freeze authority back to the asset
/// mint's authority.
pub proof fn lemma_stake_then_destake_same_slot(s: StakeNFT, d: DestakeNFT, program: Address, slot: u64)
    requires
        stake_nft_result(s, program, slot) is Ok,
        d.payer == stake_nft_result(s, program, slot)->Ok_0.payer,
        d.nft_stake_info_account == stake_nft_result(s, program, slot)->Ok_0.nft_stake_info_account,
        d.nft_pda_account == stake_nft_result(s, program, slot)->Ok_0.nft_pda_account,
        d.associated_user_nft_account == stake_nft_result(s, program, slot)->Ok_0.associated_user_nft_account,
        d.nft_mint == stake_nft_result(s, program, slot)->Ok_0.nft_mint,
        d.nft_mint_authority == stake_nft_result(s, program, slot)->Ok_0.nft_mint_authority,
        reward_side_ready(d, program),
    ensures
        destake_nft_result(d, program, slot) is Ok,
        destake_nft_result(d, program, slot)->Ok_0.token_vault_account.amount == d.token_vault_account.amount,
        destake_nft_result(d, program, slot)->Ok_0.associated_user_token_account.amount
            == d.associated_user_token_account.amount,
        !destake_nft_result(d, program, slot)->Ok_0.associated_user_nft_account.is_frozen,
        holds_authority(destake_nft_result(d, program, slot)->Ok_0.nft_mint.freeze_authority, s.nft_mint_authority),
        !is_staked(destake_nft_result(d, program, slot)->Ok_0.nft_stake_info_account),
{
    assert(scaled_result(0, d.token_mint.decimals) == Ok::<u64, ErrorCode>(0));
}

/// A second stake without an unstake in between is refused with
/// `AlreadyStaked`, whatever the slot, so the recorded stake slot stays the
/// first one's.
pub proof fn lemma_stake_twice(s: StakeNFT, program: Address, first: u64, second: u64)
    requires
        stake_nft_result(s, program, first) is Ok,
    ensures
        stake_nft_result(s, program, first)->Ok_0.nft_stake_info_account.info
            == Some(NftStakeInfo { is_staked: true, stake_at_slot: first }),
        stake_nft_result(stake_nft_result(s, program, first)->Ok_0, program, second) == Err::<
            StakeNFT,
            ErrorCode,
        >(ErrorCode::AlreadyStaked),
{
}

/// An unstake of an asset that is not staked is refused with `NotStaked`.
pub proof fn lemma_destake_without_stake(d: DestakeNFT, program: Address, slot: u64)
    requires
        !is_staked(d.nft_stake_info_account),
    ensures
        destake_nft_result(d, program, slot) == Err::<DestakeNFT, ErrorCode>(ErrorCode::NotStaked),
{
}

/// An unstake whose reward exceeds the vault's balance is refused with
/// `InsufficientVaultBalance`; since a refused unstake changes nothing, the
/// holding stays frozen.
pub proof fn lemma_destake_short_vault(d: DestakeNFT, program: Address, slot: u64)
    requires
        is_staked(d.nft_stake_info_account),
        stake_slot(d.nft_stake_info_account) <= slot,
        destake_accounts_valid(d, program),
        scaled_result((slot - stake_slot(d.nft_stake_info_account)) as u64, d.token_mint.decimals) is Ok,
        d.token_vault_account.amount < scaled_result(
            (slot - stake_slot(d.nft_stake_info_account)) as u64,
            d.token_mint.decimals,
        )->Ok_0,
    ensures
        destake_nft_result(d, program, slot) == Err::<DestakeNFT, ErrorCode>(ErrorCode::InsufficientVaultBalance),
{
}

/// After one successful airdrop of the asset, every later airdrop from that
/// mint is refused; when its other accounts are in order, the refusal is
/// `MintAuthorityRevoked`.
pub proof fn lemma_airdrop_nft_once(first: AirdropNFT, later: AirdropNFT, program: Address)
    requires
        airdrop_nft_result(first, program) is Ok,
        later.nft_mint == airdrop_nft_result(first, program)->Ok_0.nft_mint,
    ensures
        airdrop_nft_result(first, program)->Ok_0.nft_mint.mint_authority is None,
        airdrop_nft_result(later, program) is Err,
        later.nft_mint_authority == first.nft_mint_authority && later.associated_token_account.mint@
            == later.nft_mint.address@ && !later.associated_token_account.is_frozen
            ==> airdrop_nft_result(later, program) == Err::<AirdropNFT, ErrorCode>(ErrorCode::MintAuthorityRevoked),
{
}

} // verus!
