//! Stake records and the staking state machine: stake and unstake.
use vstd::prelude::*;
use vstd::string::StringSliceAdditionalSpecFns;
use crate::address::{Address, check_derived, is_derived, same_address};
use crate::constants::{
    NFT_MINT_AUTHORITY_SEED, NFT_MINT_SEED, NFT_STAKE_INFO_SEED, NFT_STAKE_SEED,
    TOKEN_MINT_SEED, TOKEN_VAULT_SEED,
};
use crate::error::ErrorCode;
use crate::reward::{scale_amount, scaled_result};
use crate::token::{
    AuthorityType, FreezeAccount, Mint, SetAuthority, ThawAccount, TokenAccount, Transfer, set_authority, set_authority_result, set_frozen,
    set_frozen_result, transfer, transfer_result,
};

verus! {

/// The stored state of one (owner, asset) stake record.
#[derive(Clone, Copy, Debug, PartialEq, Eq, Structural)]
pub struct NftStakeInfo {
    pub is_staked: bool,
    pub stake_at_slot: u64,
}

/// A stake record at its derived address; `info` is `None` until the first
/// stake creates it. It is never deleted.
#[derive(Clone, Copy, Debug, PartialEq, Eq)]
pub struct StakeInfoAccount {
    pub address: Address,
    pub info: Option<NftStakeInfo>,
}

/// Whether the record shows the asset in custody.
pub open spec fn is_staked(acc: StakeInfoAccount) -> bool {
    match acc.info {
        Some(i) => i.is_staked,
        None => false,
    }
}

/// Tests whether the record shows the asset in custody.
pub fn staked(acc: &StakeInfoAccount) -> (r: bool)
    ensures
        r == is_staked(*acc),
{
    match acc.info {
        Some(i) => i.is_staked,
        None => false,
    }
}

/// The records that a stake request touches.
#[derive(Clone, Copy, Debug, PartialEq, Eq)]
pub struct StakeNFT {
    /// The owner asking for the stake.
    pub payer: Address,
    pub nft_stake_info_account: StakeInfoAccount,
    /// The custody authority of this stake.
    pub nft_pda_account: Address,
    /// The owner's holding of the asset.
    pub associated_user_nft_account: TokenAccount,
    pub nft_mint: Mint,
    /// The asset mint's own authority.
    pub nft_mint_authority: Address,
}

/// The records that an unstake request touches.
#[derive(Clone, Copy, Debug, PartialEq, Eq)]
pub struct DestakeNFT {
    pub payer: Address,
    pub nft_stake_info_account: StakeInfoAccount,
    pub nft_pda_account: Address,
    /// The reward vault, its own authority.
    pub token_vault_account: TokenAccount,
    pub nft_mint: Mint,
    pub nft_mint_authority: Address,
    /// The reward mint.
    pub token_mint: Mint,
    pub associated_user_nft_account: TokenAccount,
    /// The owner's holding of the reward token.
    pub associated_user_token_account: TokenAccount,
}

impl StakeNFT {
    /// The request that hands the asset mint's freeze authority over, signed
    /// by the asset mint's authority.
    pub fn set_freeze_authority_ctx(&self) -> (r: SetAuthority)
        ensures
            r == (SetAuthority { account_or_mint: self.nft_mint.address, current_authority: self.nft_mint_authority }),
    {
        SetAuthority { account_or_mint: self.nft_mint.address, current_authority: self.nft_mint_authority }
    }

    /// The request that freezes the owner's holding, signed by the custody
    /// authority.
    pub fn freeze_token_account_ctx(&self) -> (r: FreezeAccount)
        ensures
            r == (FreezeAccount {
                account: self.associated_user_nft_account.address,
                mint: self.nft_mint.address,
                authority: self.nft_pda_account,
            }),
    {
        FreezeAccount {
            account: self.associated_user_nft_account.address,
            mint: self.nft_mint.address,
            authority: self.nft_pda_account,
        }
    }
}

impl DestakeNFT {
    /// The request that pays the reward from the vault, signed by the vault.
    pub fn transfer_token_ctx(&self) -> (r: Transfer)
        ensures
            r == (Transfer {
                from: self.token_vault_account.address,
                to: self.associated_user_token_account.address,
                authority: self.token_vault_account.address,
            }),
    {
        Transfer {
            from: self.token_vault_account.address,
            to: self.associated_user_token_account.address,
            authority: self.token_vault_account.address,
        }
    }

    /// The request that thaws the owner's holding, signed by the custody
    /// authority.
    pub fn thaw_account_ctx(&self) -> (r: ThawAccount)
        ensures
            r == (ThawAccount {
                account: self.associated_user_nft_account.address,
                mint: self.nft_mint.address,
                authority: self.nft_pda_account,
            }),
    {
        ThawAccount {
            account: self.associated_user_nft_account.address,
            mint: self.nft_mint.address,
            authority: self.nft_pda_account,
        }
    }

    /// The request that hands the freeze authority back, signed by the
    /// custody authority.
    pub fn set_freeze_authority_ctx(&self) -> (r: SetAuthority)
        ensures
            r == (SetAuthority { account_or_mint: self.nft_mint.address, current_authority: self.nft_pda_account }),
    {
        SetAuthority { account_or_mint: self.nft_mint.address, current_authority: self.nft_pda_account }
    }
}

/// The asset-side records are the ones the derivations name: the stake
/// record of (owner, asset), the custody authority of (stake record, asset
/// holding), the asset mint and its authority; the holding is the owner's,
/// of that mint.
pub open spec fn asset_side_valid(
    payer: Address,
    info: StakeInfoAccount,
    pda: Address,
    holding: TokenAccount,
    nft_mint: Mint,
    nft_mint_authority: Address,
    program: Address,
) -> bool {
    &&& is_derived(info.address, NFT_STAKE_INFO_SEED.spec_bytes(), seq![payer, nft_mint.address], program)
    &&& is_derived(pda, NFT_STAKE_SEED.spec_bytes(), seq![info.address, holding.address], program)
    &&& is_derived(nft_mint.address, NFT_MINT_SEED.spec_bytes(), seq![], program)
    &&& is_derived(nft_mint_authority, NFT_MINT_AUTHORITY_SEED.spec_bytes(), seq![], program)
    &&& holding.owner@ == payer@
    &&& holding.mint@ == nft_mint.address@
}

/// The records of a stake request are the ones the derivations name.
pub open spec fn stake_accounts_valid(a: StakeNFT, program: Address) -> bool {
    asset_side_valid(
        a.payer,
        a.nft_stake_info_account,
        a.nft_pda_account,
        a.associated_user_nft_account,
        a.nft_mint,
        a.nft_mint_authority,
        program,
    )
}

/// The reward-side records of an unstake request are the reward vault and
/// the reward mint, and the vault holds that mint.
pub open spec fn reward_side_valid(a: DestakeNFT, program: Address) -> bool {
    &&& is_derived(a.token_vault_account.address, TOKEN_VAULT_SEED.spec_bytes(), seq![], program)
    &&& is_derived(a.token_mint.address, TOKEN_MINT_SEED.spec_bytes(), seq![], program)
    &&& a.token_vault_account.mint@ == a.token_mint.address@
}

/// The records of an unstake request are the ones the derivations name.
pub open spec fn destake_accounts_valid(a: DestakeNFT, program: Address) -> bool {
    &&& asset_side_valid(
        a.payer,
        a.nft_stake_info_account,
        a.nft_pda_account,
        a.associated_user_nft_account,
        a.nft_mint,
        a.nft_mint_authority,
        program,
    )
    &&& reward_side_valid(a, program)
}

/// The outcome of a stake at `slot`: refused while staked or when a record is
/// not the derived one; otherwise the custody authority takes the asset
/// mint's freeze authority and freezes the owner's holding, and the record
/// shows the stake from `slot` on.
pub open spec fn stake_nft_result(a: StakeNFT, program: Address, slot: u64) -> Result<StakeNFT, ErrorCode> {
    if is_staked(a.nft_stake_info_account) {
        Err(ErrorCode::AlreadyStaked)
    } else if !stake_accounts_valid(a, program) {
        Err(ErrorCode::AddressMismatch)
    } else {
        match set_authority_result(a.nft_mint, AuthorityType::FreezeAccount, a.nft_mint_authority, Some(a.nft_pda_account)) {
            Err(e) => Err(e),
            Ok(m) => match set_frozen_result(a.associated_user_nft_account, m, a.nft_pda_account, true) {
                Err(e) => Err(e),
                Ok(h) => Ok(StakeNFT {
                    nft_stake_info_account: StakeInfoAccount {
                        info: Some(NftStakeInfo { is_staked: true, stake_at_slot: slot }),
                        ..a.nft_stake_info_account
                    },
                    associated_user_nft_account: h,
                    nft_mint: m,
                    ..a
                }),
            },
        }
    }
}

/// The slot at which the record's stake began.
pub open spec fn stake_slot(acc: StakeInfoAccount) -> u64 {
    match acc.info {
        Some(i) => i.stake_at_slot,
        None => 0,
    }
}

/// The ledger's slot counter never runs backwards past a recorded stake.
pub open spec fn slot_not_before_stake(acc: StakeInfoAccount, slot: u64) -> bool {
    is_staked(acc) ==> stake_slot(acc) <= slot
}

/// The outcome of an unstake at `slot`: refused unless staked, or when a
/// record is not the derived one, or when the reward overflows; otherwise the
/// vault pays `elapsed × 10^decimals` to the owner, the custody authority
/// thaws the holding and hands the freeze authority back to the asset mint's
/// authority, and the record shows no stake. Any failure changes nothing.
pub open spec fn destake_nft_result(a: DestakeNFT, program: Address, slot: u64) -> Result<DestakeNFT, ErrorCode> {
    if !is_staked(a.nft_stake_info_account) {
        Err(ErrorCode::NotStaked)
    } else if !destake_accounts_valid(a, program) {
        Err(ErrorCode::AddressMismatch)
    } else {
        let start = stake_slot(a.nft_stake_info_account);
        match scaled_result((slot - start) as u64, a.token_mint.decimals) {
            Err(e) => Err(e),
            Ok(reward) => match transfer_result(
                a.token_vault_account,
                a.associated_user_token_account,
                a.token_vault_account.address,
                reward,
            ) {
                Err(e) => Err(e),
                Ok((vault, user)) => match set_frozen_result(a.associated_user_nft_account, a.nft_mint, a.nft_pda_account, false) {
                    Err(e) => Err(e),
                    Ok(h) => match set_authority_result(
                        a.nft_mint,
                        AuthorityType::FreezeAccount,
                        a.nft_pda_account,
                        Some(a.nft_mint_authority),
                    ) {
                        Err(e) => Err(e),
                        Ok(m) => Ok(DestakeNFT {
                            nft_stake_info_account: StakeInfoAccount {
                                info: Some(NftStakeInfo { is_staked: false, stake_at_slot: start }),
                                ..a.nft_stake_info_account
                            },
                            token_vault_account: vault,
                            nft_mint: m,
                            associated_user_nft_account: h,
                            associated_user_token_account: user,
                            ..a
                        }),
                    },
                },
            },
        }
    }
}

fn check_asset_side(
    payer: &Address,
    info: &StakeInfoAccount,
    pda: &Address,
    holding: &TokenAccount,
    nft_mint: &Mint,
    nft_mint_authority: &Address,
    program_id: &Address,
) -> (r: bool)
    ensures
        r == asset_side_valid(*payer, *info, *pda, *holding, *nft_mint, *nft_mint_authority, *program_id),
{
    let none: Vec<Address> = Vec::new();
    assert(none@ =~= seq![]);
    let owner_and_mint = vec![*payer, nft_mint.address];
    let record_and_holding = vec![info.address, holding.address];
    check_derived(&info.address, NFT_STAKE_INFO_SEED, &owner_and_mint, program_id)
        && check_derived(pda, NFT_STAKE_SEED, &record_and_holding, program_id)
        && check_derived(&nft_mint.address, NFT_MINT_SEED, &none, program_id)
        && check_derived(nft_mint_authority, NFT_MINT_AUTHORITY_SEED, &none, program_id)
        && same_address(&holding.owner, payer)
        && same_address(&holding.mint, &nft_mint.address)
}

fn check_reward_side(a: &DestakeNFT, program_id: &Address) -> (r: bool)
    ensures
        r == reward_side_valid(*a, *program_id),
{
    let none: Vec<Address> = Vec::new();
    assert(none@ =~= seq![]);
    check_derived(&a.token_vault_account.address, TOKEN_VAULT_SEED, &none, program_id)
        && check_derived(&a.token_mint.address, TOKEN_MINT_SEED, &none, program_id)
        && same_address(&a.token_vault_account.mint, &a.token_mint.address)
}

/// Stakes the asset at ledger slot `slot`; a refused stake changes nothing.
pub fn stake_nft(ctx: &mut StakeNFT, program_id: &Address, slot: u64) -> (r: Result<(), ErrorCode>)
    ensures
        match stake_nft_result(*old(ctx), *program_id, slot) {
            Ok(next) => r is Ok && *final(ctx) == next,
            Err(e) => r == Err::<(), ErrorCode>(e) && *final(ctx) == *old(ctx),
        },
{
    if staked(&ctx.nft_stake_info_account) {
        return Err(ErrorCode::AlreadyStaked);
    }
    if !check_asset_side(
        &ctx.payer,
        &ctx.nft_stake_info_account,
        &ctx.nft_pda_account,
        &ctx.associated_user_nft_account,
        &ctx.nft_mint,
        &ctx.nft_mint_authority,
        program_id,
    ) {
        return Err(ErrorCode::AddressMismatch);
    }
    let hand_over = ctx.set_freeze_authority_ctx();
    let mint = match set_authority(ctx.nft_mint, AuthorityType::FreezeAccount, &hand_over.current_authority, Some(ctx.nft_pda_account)) {
        Ok(m) => m,
        Err(e) => return Err(e),
    };
    let freeze = ctx.freeze_token_account_ctx();
    let holding = match set_frozen(ctx.associated_user_nft_account, &mint, &freeze.authority, true) {
        Ok(h) => h,
        Err(e) => return Err(e),
    };
    ctx.nft_stake_info_account.info = Some(NftStakeInfo { is_staked: true, stake_at_slot: slot });
    ctx.nft_mint = mint;
    ctx.associated_user_nft_account = holding;
    Ok(())
}

/// Ends the stake at ledger slot `slot` and pays the reward; a refused
/// unstake changes nothing.
pub fn destake_nft(ctx: &mut DestakeNFT, program_id: &Address, slot: u64) -> (r: Result<(), ErrorCode>)
    requires
        slot_not_before_stake(old(ctx).nft_stake_info_account, slot),
    ensures
        match destake_nft_result(*old(ctx), *program_id, slot) {
            Ok(next) => r is Ok && *final(ctx) == next,
            Err(e) => r == Err::<(), ErrorCode>(e) && *final(ctx) == *old(ctx),
        },
{
    if !staked(&ctx.nft_stake_info_account) {
        return Err(ErrorCode::NotStaked);
    }
    let start = match ctx.nft_stake_info_account.info {
        Some(i) => i.stake_at_slot,
        None => 0,
    };
    if !check_asset_side(
        &ctx.payer,
        &ctx.nft_stake_info_account,
        &ctx.nft_pda_account,
        &ctx.associated_user_nft_account,
        &ctx.nft_mint,
        &ctx.nft_mint_authority,
        program_id,
    ) || !check_reward_side(ctx, program_id) {
        return Err(ErrorCode::AddressMismatch);
    }
    let reward = match scale_amount(slot - start, ctx.token_mint.decimals) {
        Ok(v) => v,
        Err(e) => return Err(e),
    };
    let payout = ctx.transfer_token_ctx();
    let (vault, user) = match transfer(ctx.token_vault_account, ctx.associated_user_token_account, &payout.authority, reward) {
        Ok(p) => p,
        Err(e) => return Err(e),
    };
    let thaw = ctx.thaw_account_ctx();
    let holding = match set_frozen(ctx.associated_user_nft_account, &ctx.nft_mint, &thaw.authority, false) {
        Ok(h) => h,
        Err(e) => return Err(e),
    };
    let hand_back = ctx.set_freeze_authority_ctx();
    let mint = match set_authority(ctx.nft_mint, AuthorityType::FreezeAccount, &hand_back.current_authority, Some(ctx.nft_mint_authority)) {
        Ok(m) => m,
        Err(e) => return Err(e),
    };
    ctx.nft_stake_info_account.info = Some(NftStakeInfo { is_staked: false, stake_at_slot: start });
    ctx.token_vault_account = vault;
    ctx.associated_user_token_account = user;
    ctx.associated_user_nft_account = holding;
    ctx.nft_mint = mint;
    Ok(())
}

} // verus!
