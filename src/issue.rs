//! Creation of the mints and the reward vault, and the airdrops that put
//! tokens into holders' accounts.
use vstd::prelude::*;
use vstd::string::{StrSliceExecFns, StringSliceAdditionalSpecFns};
use crate::address::{Address, check_derived, derived_address, find_program_address, is_derived};
use crate::constants::{
    NFT_MINT_AUTHORITY_SEED, NFT_MINT_SEED, TOKEN_MINT_AUTHORITY_SEED, TOKEN_MINT_SEED,
    TOKEN_VAULT_SEED,
};
use crate::error::ErrorCode;
use crate::reward::{scale_amount, scaled_result};
use crate::token::{
    AuthorityType, Mint, MintTo, SetAuthority, TokenAccount, mint_to, mint_to_result, set_authority, set_authority_result,
};

verus! {

/// The records that the reward mint's creation touches.
#[derive(Clone, Copy, Debug, PartialEq, Eq)]
pub struct InitializeTokenMint {
    pub payer: Address,
    /// `None` until created.
    pub token_mint: Option<Mint>,
}

/// The records that the asset mint's creation touches.
#[derive(Clone, Copy, Debug, PartialEq, Eq)]
pub struct InitializeNFTMint {
    pub payer: Address,
    /// `None` until created.
    pub nft_mint: Option<Mint>,
}

/// The records that the reward vault's creation touches.
#[derive(Clone, Copy, Debug, PartialEq, Eq)]
pub struct InitializeVault {
    pub payer: Address,
    /// `None` until created.
    pub token_vault_account: Option<TokenAccount>,
    /// The mint that the vault holds.
    pub mint: Mint,
}

/// The records that an airdrop of reward tokens touches.
#[derive(Clone, Copy, Debug, PartialEq, Eq)]
pub struct AirdropToken {
    pub payer: Address,
    pub token_mint: Mint,
    pub mint_authority: Address,
    pub associated_token_account: TokenAccount,
}

/// The records that the airdrop of the asset touches.
#[derive(Clone, Copy, Debug, PartialEq, Eq)]
pub struct AirdropNFT {
    pub payer: Address,
    pub nft_mint: Mint,
    pub nft_mint_authority: Address,
    pub associated_token_account: TokenAccount,
}

impl AirdropToken {
    /// The mint request of the airdrop: reward mint into the destination,
    /// signed by the reward mint's authority.
    pub fn mint_to_ctx(&self) -> (r: MintTo)
        ensures
            r == (MintTo {
                mint: self.token_mint.address,
                to: self.associated_token_account.address,
                authority: self.mint_authority,
            }),
    {
        MintTo {
            mint: self.token_mint.address,
            to: self.associated_token_account.address,
            authority: self.mint_authority,
        }
    }
}

impl AirdropNFT {
    /// The mint request of the airdrop: asset mint into the destination,
    /// signed by the asset mint's authority.
    pub fn nft_mint_to_ctx(&self) -> (r: MintTo)
        ensures
            r == (MintTo {
                mint: self.nft_mint.address,
                to: self.associated_token_account.address,
                authority: self.nft_mint_authority,
            }),
    {
        MintTo {
            mint: self.nft_mint.address,
            to: self.associated_token_account.address,
            authority: self.nft_mint_authority,
        }
    }

    /// The request that revokes the asset mint's mint authority, signed by
    /// that authority.
    pub fn set_authority_ctx(&self) -> (r: SetAuthority)
        ensures
            r == (SetAuthority { account_or_mint: self.nft_mint.address, current_authority: self.nft_mint_authority }),
    {
        SetAuthority { account_or_mint: self.nft_mint.address, current_authority: self.nft_mint_authority }
    }
}

/// Whether an address can be derived from the tag under the program.
pub open spec fn derivable(tag: Seq<u8>, program: Address) -> bool {
    derived_address(tag, seq![], program) is Some
}

/// `m` is a fresh mint at the address derived from `mint_tag`, with no
/// supply, `decimals` places, and the address derived from `authority_tag`
/// as its mint authority and, where `freezable`, its freeze authority.
pub open spec fn is_fresh_mint(
    m: Mint,
    mint_tag: Seq<u8>,
    authority_tag: Seq<u8>,
    decimals: u8,
    freezable: bool,
    program: Address,
) -> bool {
    &&& is_derived(m.address, mint_tag, seq![], program)
    &&& m.decimals == decimals
    &&& m.supply == 0
    &&& match m.mint_authority {
        Some(a) => is_derived(a, authority_tag, seq![], program),
        None => false,
    }
    &&& if freezable {
        m.freeze_authority == m.mint_authority
    } else {
        m.freeze_authority is None
    }
}

/// `v` is an empty, unfrozen vault of `mint` at the address derived from the
/// vault tag, and its own authority.
pub open spec fn is_vault(v: TokenAccount, mint: Mint, program: Address) -> bool {
    &&& is_derived(v.address, TOKEN_VAULT_SEED.spec_bytes(), seq![], program)
    &&& v.mint@ == mint.address@
    &&& v.owner@ == v.address@
}

fn derive_tag(tag: &str, program_id: &Address) -> (r: Option<Address>)
    ensures
        match r {
            Some(a) => is_derived(a, tag.spec_bytes(), seq![], *program_id),
            None => !derivable(tag.spec_bytes(), *program_id),
        },
{
    let none: Vec<Address> = Vec::new();
    assert(none@ =~= seq![]);
    match find_program_address(tag, &none, program_id) {
        Some((a, _)) => Some(a),
        None => None,
    }
}

fn fresh_mint(mint_tag: &str, authority_tag: &str, decimals: u8, freezable: bool, program_id: &Address) -> (r: Option<Mint>)
    ensures
        match r {
            Some(m) => is_fresh_mint(m, mint_tag.spec_bytes(), authority_tag.spec_bytes(), decimals, freezable, *program_id),
            None => !derivable(mint_tag.spec_bytes(), *program_id) || !derivable(authority_tag.spec_bytes(), *program_id),
        },
{
    let address = match derive_tag(mint_tag, program_id) {
        Some(a) => a,
        None => return None,
    };
    let authority = match derive_tag(authority_tag, program_id) {
        Some(a) => a,
        None => return None,
    };
    let freeze_authority = if freezable {
        Some(authority)
    } else {
        None
    };
    Some(Mint { address, decimals, supply: 0, mint_authority: Some(authority), freeze_authority })
}

/// Creates the reward mint with `decimals` decimal places, its mint authority
/// the derived reward-mint authority.
pub fn initialize_token_mint(ctx: &mut InitializeTokenMint, program_id: &Address, decimals: u8) -> (r: Result<(), ErrorCode>)
    ensures
        old(ctx).token_mint is Some ==> r == Err::<(), ErrorCode>(ErrorCode::AlreadyInitialized),
        old(ctx).token_mint is None && (!derivable(TOKEN_MINT_SEED.spec_bytes(), *program_id)
            || !derivable(TOKEN_MINT_AUTHORITY_SEED.spec_bytes(), *program_id))
            ==> r == Err::<(), ErrorCode>(ErrorCode::AddressMismatch),
        old(ctx).token_mint is None && derivable(TOKEN_MINT_SEED.spec_bytes(), *program_id)
            && derivable(TOKEN_MINT_AUTHORITY_SEED.spec_bytes(), *program_id) ==> r is Ok,
        r is Err ==> *final(ctx) == *old(ctx),
        r is Ok ==> final(ctx).payer == old(ctx).payer && match final(ctx).token_mint {
            Some(m) => is_fresh_mint(m, TOKEN_MINT_SEED.spec_bytes(), TOKEN_MINT_AUTHORITY_SEED.spec_bytes(), decimals, false, *program_id),
            None => false,
        },
{
    if ctx.token_mint.is_some() {
        return Err(ErrorCode::AlreadyInitialized);
    }
    match fresh_mint(TOKEN_MINT_SEED, TOKEN_MINT_AUTHORITY_SEED, decimals, false, program_id) {
        Some(m) => {
            ctx.token_mint = Some(m);
            Ok(())
        },
        None => Err(ErrorCode::AddressMismatch),
    }
}

/// Creates the asset mint with no decimal places, its mint and freeze
/// authority the derived asset-mint authority.
pub fn initialize_nft_mint(ctx: &mut InitializeNFTMint, program_id: &Address) -> (r: Result<(), ErrorCode>)
    ensures
        old(ctx).nft_mint is Some ==> r == Err::<(), ErrorCode>(ErrorCode::AlreadyInitialized),
        old(ctx).nft_mint is None && (!derivable(NFT_MINT_SEED.spec_bytes(), *program_id)
            || !derivable(NFT_MINT_AUTHORITY_SEED.spec_bytes(), *program_id))
            ==> r == Err::<(), ErrorCode>(ErrorCode::AddressMismatch),
        old(ctx).nft_mint is None && derivable(NFT_MINT_SEED.spec_bytes(), *program_id)
            && derivable(NFT_MINT_AUTHORITY_SEED.spec_bytes(), *program_id) ==> r is Ok,
        r is Err ==> *final(ctx) == *old(ctx),
        r is Ok ==> final(ctx).payer == old(ctx).payer && match final(ctx).nft_mint {
            Some(m) => is_fresh_mint(m, NFT_MINT_SEED.spec_bytes(), NFT_MINT_AUTHORITY_SEED.spec_bytes(), 0, true, *program_id),
            None => false,
        },
{
    if ctx.nft_mint.is_some() {
        return Err(ErrorCode::AlreadyInitialized);
    }
    match fresh_mint(NFT_MINT_SEED, NFT_MINT_AUTHORITY_SEED, 0, true, program_id) {
        Some(m) => {
            ctx.nft_mint = Some(m);
            Ok(())
        },
        None => Err(ErrorCode::AddressMismatch),
    }
}

/// Creates the reward vault of `ctx.mint` if it does not exist yet; an
/// existing one is kept when it is that vault.
pub fn initialize_vault(ctx: &mut InitializeVault, program_id: &Address) -> (r: Result<(), ErrorCode>)
    ensures
        match old(ctx).token_vault_account {
            Some(v) => r == if is_vault(v, old(ctx).mint, *program_id) {
                Ok::<(), ErrorCode>(())
            } else {
                Err(ErrorCode::AddressMismatch)
            },
            None => r is Ok <==> derivable(TOKEN_VAULT_SEED.spec_bytes(), *program_id),
        },
        r is Err ==> r == Err::<(), ErrorCode>(ErrorCode::AddressMismatch),
        r is Err || old(ctx).token_vault_account is Some ==> *final(ctx) == *old(ctx),
        r is Ok ==> final(ctx).payer == old(ctx).payer && final(ctx).mint == old(ctx).mint
            && match final(ctx).token_vault_account {
            Some(v) => is_vault(v, old(ctx).mint, *program_id) && (old(ctx).token_vault_account is None
                ==> v.amount == 0 && !v.is_frozen),
            None => false,
        },
{
    let none: Vec<Address> = Vec::new();
    assert(none@ =~= seq![]);
    match ctx.token_vault_account {
        Some(v) => {
            if check_derived(&v.address, TOKEN_VAULT_SEED, &none, program_id)
                && crate::address::same_address(&v.mint, &ctx.mint.address)
                && crate::address::same_address(&v.owner, &v.address) {
                Ok(())
            } else {
                Err(ErrorCode::AddressMismatch)
            }
        },
        None => match derive_tag(TOKEN_VAULT_SEED, program_id) {
            Some(address) => {
                ctx.token_vault_account = Some(
                    TokenAccount { address, mint: ctx.mint.address, owner: address, amount: 0, is_frozen: false },
                );
                Ok(())
            },
            None => Err(ErrorCode::AddressMismatch),
        },
    }
}

/// The outcome of an airdrop of `amount` whole reward tokens: the reward
/// mint and its authority must be the derived ones; `amount × 10^decimals`
/// units are minted into the destination.
pub open spec fn airdrop_token_result(a: AirdropToken, program: Address, amount: u64) -> Result<AirdropToken, ErrorCode> {
    if !is_derived(a.token_mint.address, TOKEN_MINT_SEED.spec_bytes(), seq![], program)
        || !is_derived(a.mint_authority, TOKEN_MINT_AUTHORITY_SEED.spec_bytes(), seq![], program) {
        Err(ErrorCode::AddressMismatch)
    } else {
        match scaled_result(amount, a.token_mint.decimals) {
            Err(e) => Err(e),
            Ok(units) => match mint_to_result(a.token_mint, a.associated_token_account, a.mint_authority, units) {
                Err(e) => Err(e),
                Ok((m, t)) => Ok(AirdropToken { token_mint: m, associated_token_account: t, ..a }),
            },
        }
    }
}

/// The outcome of the airdrop of the asset: the asset mint and its authority
/// must be the derived ones; one unit is minted into the destination and the
/// mint authority is then revoked for good.
pub open spec fn airdrop_nft_result(a: AirdropNFT, program: Address) -> Result<AirdropNFT, ErrorCode> {
    if !is_derived(a.nft_mint.address, NFT_MINT_SEED.spec_bytes(), seq![], program)
        || !is_derived(a.nft_mint_authority, NFT_MINT_AUTHORITY_SEED.spec_bytes(), seq![], program) {
        Err(ErrorCode::AddressMismatch)
    } else {
        match mint_to_result(a.nft_mint, a.associated_token_account, a.nft_mint_authority, 1) {
            Err(e) => Err(e),
            Ok((m, t)) => match set_authority_result(m, AuthorityType::MintTokens, a.nft_mint_authority, None) {
                Err(e) => Err(e),
                Ok(m2) => Ok(AirdropNFT { nft_mint: m2, associated_token_account: t, ..a }),
            },
        }
    }
}

/// Mints `amount` whole reward tokens into the destination account; a
/// refused airdrop changes nothing.
pub fn airdrop_token(ctx: &mut AirdropToken, program_id: &Address, amount: u64) -> (r: Result<(), ErrorCode>)
    ensures
        match airdrop_token_result(*old(ctx), *program_id, amount) {
            Ok(next) => r is Ok && *final(ctx) == next,
            Err(e) => r == Err::<(), ErrorCode>(e) && *final(ctx) == *old(ctx),
        },
{
    let none: Vec<Address> = Vec::new();
    assert(none@ =~= seq![]);
    if !check_derived(&ctx.token_mint.address, TOKEN_MINT_SEED, &none, program_id)
        || !check_derived(&ctx.mint_authority, TOKEN_MINT_AUTHORITY_SEED, &none, program_id) {
        return Err(ErrorCode::AddressMismatch);
    }
    let units = match scale_amount(amount, ctx.token_mint.decimals) {
        Ok(v) => v,
        Err(e) => return Err(e),
    };
    let request = ctx.mint_to_ctx();
    match mint_to(ctx.token_mint, ctx.associated_token_account, &request.authority, units) {
        Ok((m, t)) => {
            ctx.token_mint = m;
            ctx.associated_token_account = t;
            Ok(())
        },
        Err(e) => Err(e),
    }
}

/// Mints the single unit of the asset into the destination account and
/// revokes the mint authority; a refused airdrop changes nothing.
pub fn airdrop_nft(ctx: &mut AirdropNFT, program_id: &Address) -> (r: Result<(), ErrorCode>)
    ensures
        match airdrop_nft_result(*old(ctx), *program_id) {
            Ok(next) => r is Ok && *final(ctx) == next,
            Err(e) => r == Err::<(), ErrorCode>(e) && *final(ctx) == *old(ctx),
        },
{
    let none: Vec<Address> = Vec::new();
    assert(none@ =~= seq![]);
    if !check_derived(&ctx.nft_mint.address, NFT_MINT_SEED, &none, program_id)
        || !check_derived(&ctx.nft_mint_authority, NFT_MINT_AUTHORITY_SEED, &none, program_id) {
        return Err(ErrorCode::AddressMismatch);
    }
    let request = ctx.nft_mint_to_ctx();
    let (minted, holding) = match mint_to(ctx.nft_mint, ctx.associated_token_account, &request.authority, 1) {
        Ok(p) => p,
        Err(e) => return Err(e),
    };
    let revoke = ctx.set_authority_ctx();
    match set_authority(minted, AuthorityType::MintTokens, &revoke.current_authority, None) {
        Ok(m) => {
            ctx.nft_mint = m;
            ctx.associated_token_account = holding;
            Ok(())
        },
        Err(e) => Err(e),
    }
}

} // verus!
