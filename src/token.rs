//! Mint and token-account records and the token operations on them: mint,
//! transfer, freeze, thaw and authority reassignment.
use vstd::prelude::*;
use crate::address::{Address, same_address};
use crate::error::ErrorCode;

verus! {

/// A token class: its supply, decimal exponent and authorities.
#[derive(Clone, Copy, Debug, PartialEq, Eq)]
pub struct Mint {
    pub address: Address,
    pub decimals: u8,
    pub supply: u64,
    pub mint_authority: Option<Address>,
    pub freeze_authority: Option<Address>,
}

/// A holding of one mint's tokens by one owner.
#[derive(Clone, Copy, Debug, PartialEq, Eq)]
pub struct TokenAccount {
    pub address: Address,
    pub mint: Address,
    pub owner: Address,
    pub amount: u64,
    pub is_frozen: bool,
}

/// Which authority of a mint is reassigned.
#[derive(Clone, Copy, Debug, PartialEq, Eq, Structural)]
pub enum AuthorityType {
    MintTokens,
    FreezeAccount,
}

/// A request to mint units of `mint` into `to`, signed by `authority`.
#[derive(Clone, Copy, Debug, PartialEq, Eq)]
pub struct MintTo {
    pub mint: Address,
    pub to: Address,
    pub authority: Address,
}

/// A request to move units from `from` to `to`, signed by `authority`.
#[derive(Clone, Copy, Debug, PartialEq, Eq)]
pub struct Transfer {
    pub from: Address,
    pub to: Address,
    pub authority: Address,
}

/// A request to freeze `account` of `mint`, signed by `authority`.
#[derive(Clone, Copy, Debug, PartialEq, Eq)]
pub struct FreezeAccount {
    pub account: Address,
    pub mint: Address,
    pub authority: Address,
}

/// A request to thaw `account` of `mint`, signed by `authority`.
#[derive(Clone, Copy, Debug, PartialEq, Eq)]
pub struct ThawAccount {
    pub account: Address,
    pub mint: Address,
    pub authority: Address,
}

/// A request to reassign an authority of `account_or_mint`, signed by its
/// current holder.
#[derive(Clone, Copy, Debug, PartialEq, Eq)]
pub struct SetAuthority {
    pub account_or_mint: Address,
    pub current_authority: Address,
}

/// Whether `signer` is the authority `current`; a revoked one matches nobody.
pub open spec fn holds_authority(current: Option<Address>, signer: Address) -> bool {
    match current {
        Some(a) => a@ == signer@,
        None => false,
    }
}

/// Tests whether `signer` is the authority `current`.
pub fn authority_matches(current: &Option<Address>, signer: &Address) -> (r: bool)
    ensures
        r == holds_authority(*current, *signer),
{
    match current {
        Some(a) => same_address(a, signer),
        None => false,
    }
}

/// Minting `amount` new units into `to`, signed by `signer`.
pub open spec fn mint_to_result(mint: Mint, to: TokenAccount, signer: Address, amount: u64) -> Result<(Mint, TokenAccount), ErrorCode> {
    if to.mint@ != mint.address@ {
        Err(ErrorCode::MintMismatch)
    } else if to.is_frozen {
        Err(ErrorCode::AccountFrozen)
    } else if mint.mint_authority is None {
        Err(ErrorCode::MintAuthorityRevoked)
    } else if !holds_authority(mint.mint_authority, signer) {
        Err(ErrorCode::InsufficientAuthority)
    } else if mint.supply + amount > u64::MAX || to.amount + amount > u64::MAX {
        Err(ErrorCode::ArithmeticOverflow)
    } else {
        Ok((Mint { supply: (mint.supply + amount) as u64, ..mint }, TokenAccount { amount: (to.amount + amount) as u64, ..to }))
    }
}

/// Moving `amount` units from `from` to `to`, signed by `signer`.
pub open spec fn transfer_result(from: TokenAccount, to: TokenAccount, signer: Address, amount: u64) -> Result<(TokenAccount, TokenAccount), ErrorCode> {
    if from.amount < amount {
        Err(ErrorCode::InsufficientVaultBalance)
    } else if from.is_frozen || to.is_frozen {
        Err(ErrorCode::AccountFrozen)
    } else if from.mint@ != to.mint@ {
        Err(ErrorCode::MintMismatch)
    } else if from.owner@ != signer@ {
        Err(ErrorCode::InsufficientAuthority)
    } else if to.amount + amount > u64::MAX {
        Err(ErrorCode::ArithmeticOverflow)
    } else {
        Ok((TokenAccount { amount: (from.amount - amount) as u64, ..from }, TokenAccount { amount: (to.amount + amount) as u64, ..to }))
    }
}

/// Setting an account's frozen flag to `frozen`, signed by `signer`: a
/// freeze when `frozen` holds, a thaw otherwise.
pub open spec fn set_frozen_result(account: TokenAccount, mint: Mint, signer: Address, frozen: bool) -> Result<TokenAccount, ErrorCode> {
    if account.mint@ != mint.address@ {
        Err(ErrorCode::MintMismatch)
    } else if mint.freeze_authority is None {
        Err(ErrorCode::NoFreezeAuthority)
    } else if !holds_authority(mint.freeze_authority, signer) {
        Err(ErrorCode::InsufficientAuthority)
    } else if account.is_frozen == frozen {
        Err(ErrorCode::InvalidAccountState)
    } else {
        Ok(TokenAccount { is_frozen: frozen, ..account })
    }
}

/// Reassigning one authority of `mint` to `new_authority`, signed by `signer`.
pub open spec fn set_authority_result(mint: Mint, kind: AuthorityType, signer: Address, new_authority: Option<Address>) -> Result<Mint, ErrorCode> {
    let current = match kind {
        AuthorityType::MintTokens => mint.mint_authority,
        AuthorityType::FreezeAccount => mint.freeze_authority,
    };
    if current is None {
        match kind {
            AuthorityType::MintTokens => Err(ErrorCode::MintAuthorityRevoked),
            AuthorityType::FreezeAccount => Err(ErrorCode::NoFreezeAuthority),
        }
    } else if !holds_authority(current, signer) {
        Err(ErrorCode::InsufficientAuthority)
    } else {
        match kind {
            AuthorityType::MintTokens => Ok(Mint { mint_authority: new_authority, ..mint }),
            AuthorityType::FreezeAccount => Ok(Mint { freeze_authority: new_authority, ..mint }),
        }
    }
}

/// Mints `amount` new units of `mint` into `to`.
pub fn mint_to(mint: Mint, to: TokenAccount, signer: &Address, amount: u64) -> (r: Result<(Mint, TokenAccount), ErrorCode>)
    ensures
        r == mint_to_result(mint, to, *signer, amount),
{
    if !same_address(&to.mint, &mint.address) {
        Err(ErrorCode::MintMismatch)
    } else if to.is_frozen {
        Err(ErrorCode::AccountFrozen)
    } else if mint.mint_authority.is_none() {
        Err(ErrorCode::MintAuthorityRevoked)
    } else if !authority_matches(&mint.mint_authority, signer) {
        Err(ErrorCode::InsufficientAuthority)
    } else if mint.supply > u64::MAX - amount || to.amount > u64::MAX - amount {
        Err(ErrorCode::ArithmeticOverflow)
    } else {
        Ok((Mint { supply: mint.supply + amount, ..mint }, TokenAccount { amount: to.amount + amount, ..to }))
    }
}

/// Transfers `amount` units from `from` to `to`.
pub fn transfer(from: TokenAccount, to: TokenAccount, signer: &Address, amount: u64) -> (r: Result<(TokenAccount, TokenAccount), ErrorCode>)
    ensures
        r == transfer_result(from, to, *signer, amount),
{
    if from.amount < amount {
        Err(ErrorCode::InsufficientVaultBalance)
    } else if from.is_frozen || to.is_frozen {
        Err(ErrorCode::AccountFrozen)
    } else if !same_address(&from.mint, &to.mint) {
        Err(ErrorCode::MintMismatch)
    } else if !same_address(&from.owner, signer) {
        Err(ErrorCode::InsufficientAuthority)
    } else if to.amount > u64::MAX - amount {
        Err(ErrorCode::ArithmeticOverflow)
    } else {
        Ok((TokenAccount { amount: from.amount - amount, ..from }, TokenAccount { amount: to.amount + amount, ..to }))
    }
}

/// Freezes (`frozen`) or thaws (`!frozen`) `account`.
pub fn set_frozen(account: TokenAccount, mint: &Mint, signer: &Address, frozen: bool) -> (r: Result<TokenAccount, ErrorCode>)
    ensures
        r == set_frozen_result(account, *mint, *signer, frozen),
{
    if !same_address(&account.mint, &mint.address) {
        Err(ErrorCode::MintMismatch)
    } else if mint.freeze_authority.is_none() {
        Err(ErrorCode::NoFreezeAuthority)
    } else if !authority_matches(&mint.freeze_authority, signer) {
        Err(ErrorCode::InsufficientAuthority)
    } else if account.is_frozen == frozen {
        Err(ErrorCode::InvalidAccountState)
    } else {
        Ok(TokenAccount { is_frozen: frozen, ..account })
    }
}

/// Reassigns one authority of `mint`.
pub fn set_authority(mint: Mint, kind: AuthorityType, signer: &Address, new_authority: Option<Address>) -> (r: Result<Mint, ErrorCode>)
    ensures
        r == set_authority_result(mint, kind, *signer, new_authority),
{
    let current = match kind {
        AuthorityType::MintTokens => mint.mint_authority,
        AuthorityType::FreezeAccount => mint.freeze_authority,
    };
    if current.is_none() {
        match kind {
            AuthorityType::MintTokens => Err(ErrorCode::MintAuthorityRevoked),
            AuthorityType::FreezeAccount => Err(ErrorCode::NoFreezeAuthority),
        }
    } else if !authority_matches(&current, signer) {
        Err(ErrorCode::InsufficientAuthority)
    } else {
        match kind {
            AuthorityType::MintTokens => Ok(Mint { mint_authority: new_authority, ..mint }),
            AuthorityType::FreezeAccount => Ok(Mint { freeze_authority: new_authority, ..mint }),
        }
    }
}

} // verus!
