use nft_staking::address::{find_program_address, Address};
use nft_staking::constants::{
    NFT_MINT_AUTHORITY_SEED, NFT_MINT_SEED, NFT_STAKE_INFO_SEED, NFT_STAKE_SEED,
    TOKEN_MINT_AUTHORITY_SEED, TOKEN_MINT_SEED, TOKEN_VAULT_SEED,
};
use nft_staking::error::ErrorCode;
use nft_staking::issue::{
    airdrop_nft, airdrop_token, initialize_nft_mint, initialize_token_mint, initialize_vault,
    AirdropNFT, AirdropToken, InitializeNFTMint, InitializeTokenMint, InitializeVault,
};
use nft_staking::reward::scale_amount;
use nft_staking::stake::{destake_nft, stake_nft, DestakeNFT, NftStakeInfo, StakeInfoAccount, StakeNFT};
use nft_staking::token::{Mint, TokenAccount};

fn program() -> Address {
    Address { bytes: [7u8; 32] }
}

fn owner() -> Address {
    Address { bytes: [42u8; 32] }
}

fn derive(tag: &str, inputs: Vec<Address>) -> Address {
    find_program_address(tag, &inputs, &program()).unwrap().0
}

struct World {
    nft_mint: Mint,
    nft_mint_authority: Address,
    token_mint: Mint,
    vault: TokenAccount,
    holding: TokenAccount,
    reward_account: TokenAccount,
    record: StakeInfoAccount,
    custody: Address,
}

fn world(decimals: u8, vault_units: u64) -> World {
    let mut init_token = InitializeTokenMint { payer: owner(), token_mint: None };
    initialize_token_mint(&mut init_token, &program(), decimals).unwrap();
    let mut init_nft = InitializeNFTMint { payer: owner(), nft_mint: None };
    initialize_nft_mint(&mut init_nft, &program()).unwrap();
    let token_mint = init_token.token_mint.unwrap();
    let nft_mint = init_nft.nft_mint.unwrap();
    let mut init_vault = InitializeVault { payer: owner(), token_vault_account: None, mint: token_mint };
    initialize_vault(&mut init_vault, &program()).unwrap();

    let mut fund = AirdropToken {
        payer: owner(),
        token_mint,
        mint_authority: derive(TOKEN_MINT_AUTHORITY_SEED, vec![]),
        associated_token_account: init_vault.token_vault_account.unwrap(),
    };
    airdrop_token(&mut fund, &program(), vault_units).unwrap();

    let holding = TokenAccount {
        address: Address { bytes: [43u8; 32] },
        mint: nft_mint.address,
        owner: owner(),
        amount: 0,
        is_frozen: false,
    };
    let mut drop = AirdropNFT {
        payer: owner(),
        nft_mint,
        nft_mint_authority: derive(NFT_MINT_AUTHORITY_SEED, vec![]),
        associated_token_account: holding,
    };
    airdrop_nft(&mut drop, &program()).unwrap();

    let record_address = derive(NFT_STAKE_INFO_SEED, vec![owner(), nft_mint.address]);
    let custody = derive(NFT_STAKE_SEED, vec![record_address, holding.address]);
    World {
        nft_mint: drop.nft_mint,
        nft_mint_authority: drop.nft_mint_authority,
        token_mint: fund.token_mint,
        vault: fund.associated_token_account,
        holding: drop.associated_token_account,
        reward_account: TokenAccount {
            address: Address { bytes: [44u8; 32] },
            mint: fund.token_mint.address,
            owner: owner(),
            amount: 0,
            is_frozen: false,
        },
        record: StakeInfoAccount { address: record_address, info: None },
        custody,
    }
}

fn stake_ctx(w: &World) -> StakeNFT {
    StakeNFT {
        payer: owner(),
        nft_stake_info_account: w.record,
        nft_pda_account: w.custody,
        associated_user_nft_account: w.holding,
        nft_mint: w.nft_mint,
        nft_mint_authority: w.nft_mint_authority,
    }
}

fn destake_ctx(w: &World, s: &StakeNFT) -> DestakeNFT {
    DestakeNFT {
        payer: owner(),
        nft_stake_info_account: s.nft_stake_info_account,
        nft_pda_account: s.nft_pda_account,
        token_vault_account: w.vault,
        nft_mint: s.nft_mint,
        nft_mint_authority: s.nft_mint_authority,
        token_mint: w.token_mint,
        associated_user_nft_account: s.associated_user_nft_account,
        associated_user_token_account: w.reward_account,
    }
}

#[test]
fn derivation_is_repeatable() {
    let a = find_program_address(TOKEN_VAULT_SEED, &vec![], &program());
    let b = find_program_address(TOKEN_VAULT_SEED, &vec![], &program());
    assert!(a.is_some());
    assert_eq!(a, b);
    let c = find_program_address(TOKEN_MINT_SEED, &vec![], &program());
    assert_ne!(a.unwrap().0, c.unwrap().0);
    assert_ne!(a.unwrap().0, program());
}

#[test]
fn derivation_depends_on_input_order() {
    let x = Address { bytes: [1u8; 32] };
    let y = Address { bytes: [2u8; 32] };
    let xy = derive(NFT_STAKE_SEED, vec![x, y]);
    let yx = derive(NFT_STAKE_SEED, vec![y, x]);
    assert_ne!(xy, yx);
}

#[test]
fn initialization_creates_records() {
    let w = world(6, 0);
    assert_eq!(w.token_mint.decimals, 6);
    assert_eq!(w.token_mint.mint_authority, Some(derive(TOKEN_MINT_AUTHORITY_SEED, vec![])));
    assert_eq!(w.token_mint.freeze_authority, None);
    assert_eq!(w.token_mint.address, derive(TOKEN_MINT_SEED, vec![]));
    assert_eq!(w.nft_mint.address, derive(NFT_MINT_SEED, vec![]));
    assert_eq!(w.nft_mint.decimals, 0);
    assert_eq!(w.nft_mint.freeze_authority, Some(w.nft_mint_authority));
    assert_eq!(w.vault.address, derive(TOKEN_VAULT_SEED, vec![]));
    assert_eq!(w.vault.owner, w.vault.address);
    assert_eq!(w.vault.amount, 0);
}

#[test]
fn initialization_twice_is_refused() {
    let mut init = InitializeTokenMint { payer: owner(), token_mint: None };
    initialize_token_mint(&mut init, &program(), 9).unwrap();
    let before = init;
    assert_eq!(initialize_token_mint(&mut init, &program(), 9), Err(ErrorCode::AlreadyInitialized));
    assert_eq!(init, before);
    let mut nft = InitializeNFTMint { payer: owner(), nft_mint: None };
    initialize_nft_mint(&mut nft, &program()).unwrap();
    assert_eq!(initialize_nft_mint(&mut nft, &program()), Err(ErrorCode::AlreadyInitialized));
}

#[test]
fn existing_vault_is_kept() {
    let w = world(2, 5);
    let mut init = InitializeVault { payer: owner(), token_vault_account: Some(w.vault), mint: w.token_mint };
    assert_eq!(initialize_vault(&mut init, &program()), Ok(()));
    assert_eq!(init.token_vault_account, Some(w.vault));
    let mut wrong = InitializeVault { payer: owner(), token_vault_account: Some(w.reward_account), mint: w.token_mint };
    assert_eq!(initialize_vault(&mut wrong, &program()), Err(ErrorCode::AddressMismatch));
}

#[test]
fn airdrop_token_scales_by_decimals() {
    let w = world(6, 3);
    assert_eq!(w.vault.amount, 3_000_000);
    assert_eq!(w.token_mint.supply, 3_000_000);
}

#[test]
fn airdrop_token_overflow_is_refused() {
    let w = world(6, 0);
    let mut drop = AirdropToken {
        payer: owner(),
        token_mint: w.token_mint,
        mint_authority: derive(TOKEN_MINT_AUTHORITY_SEED, vec![]),
        associated_token_account: w.reward_account,
    };
    let before = drop;
    assert_eq!(airdrop_token(&mut drop, &program(), u64::MAX), Err(ErrorCode::ArithmeticOverflow));
    assert_eq!(drop, before);
}

#[test]
fn airdrop_token_with_wrong_authority_is_refused() {
    let w = world(0, 0);
    let mut drop = AirdropToken {
        payer: owner(),
        token_mint: w.token_mint,
        mint_authority: owner(),
        associated_token_account: w.reward_account,
    };
    assert_eq!(airdrop_token(&mut drop, &program(), 1), Err(ErrorCode::AddressMismatch));
}

#[test]
fn airdrop_nft_only_once() {
    let w = world(0, 0);
    assert_eq!(w.holding.amount, 1);
    assert_eq!(w.nft_mint.supply, 1);
    assert_eq!(w.nft_mint.mint_authority, None);
    let mut again = AirdropNFT {
        payer: owner(),
        nft_mint: w.nft_mint,
        nft_mint_authority: w.nft_mint_authority,
        associated_token_account: w.holding,
    };
    assert_eq!(airdrop_nft(&mut again, &program()), Err(ErrorCode::MintAuthorityRevoked));
    assert_eq!(again.associated_token_account.amount, 1);
}

#[test]
fn stake_freezes_holding() {
    let w = world(6, 0);
    let mut s = stake_ctx(&w);
    assert_eq!(stake_nft(&mut s, &program(), 10), Ok(()));
    assert!(s.associated_user_nft_account.is_frozen);
    assert_eq!(s.nft_mint.freeze_authority, Some(w.custody));
    assert_eq!(s.nft_stake_info_account.info, Some(NftStakeInfo { is_staked: true, stake_at_slot: 10 }));
}

#[test]
fn second_stake_is_refused() {
    let w = world(6, 0);
    let mut s = stake_ctx(&w);
    stake_nft(&mut s, &program(), 10).unwrap();
    let before = s;
    assert_eq!(stake_nft(&mut s, &program(), 20), Err(ErrorCode::AlreadyStaked));
    assert_eq!(s, before);
    assert_eq!(s.nft_stake_info_account.info.unwrap().stake_at_slot, 10);
}

#[test]
fn stake_with_wrong_custody_is_refused() {
    let w = world(6, 0);
    let mut s = stake_ctx(&w);
    s.nft_pda_account = owner();
    let before = s;
    assert_eq!(stake_nft(&mut s, &program(), 10), Err(ErrorCode::AddressMismatch));
    assert_eq!(s, before);
}

#[test]
fn destake_without_stake_is_refused() {
    let w = world(6, 1000);
    let s = stake_ctx(&w);
    let mut d = destake_ctx(&w, &s);
    assert_eq!(destake_nft(&mut d, &program(), 50), Err(ErrorCode::NotStaked));
}

#[test]
fn stake_then_destake_same_slot_pays_nothing() {
    let w = world(6, 1000);
    let mut s = stake_ctx(&w);
    stake_nft(&mut s, &program(), 77).unwrap();
    let mut d = destake_ctx(&w, &s);
    assert_eq!(destake_nft(&mut d, &program(), 77), Ok(()));
    assert_eq!(d.associated_user_token_account.amount, 0);
    assert_eq!(d.token_vault_account.amount, 1_000_000_000);
    assert!(!d.associated_user_nft_account.is_frozen);
    assert_eq!(d.nft_mint.freeze_authority, Some(w.nft_mint_authority));
    assert_eq!(d.nft_stake_info_account.info, Some(NftStakeInfo { is_staked: false, stake_at_slot: 77 }));
}

#[test]
fn destake_pays_elapsed_reward() {
    let w = world(6, 1000);
    let mut s = stake_ctx(&w);
    stake_nft(&mut s, &program(), 10).unwrap();
    let mut d = destake_ctx(&w, &s);
    assert_eq!(destake_nft(&mut d, &program(), 110), Ok(()));
    assert_eq!(d.associated_user_token_account.amount, 100_000_000);
    assert_eq!(d.token_vault_account.amount, 900_000_000);
}

#[test]
fn destake_short_vault_keeps_custody() {
    let w = world(6, 50);
    let mut s = stake_ctx(&w);
    stake_nft(&mut s, &program(), 10).unwrap();
    let mut d = destake_ctx(&w, &s);
    let before = d;
    assert_eq!(destake_nft(&mut d, &program(), 110), Err(ErrorCode::InsufficientVaultBalance));
    assert_eq!(d, before);
    assert!(d.associated_user_nft_account.is_frozen);
    assert_eq!(d.nft_mint.freeze_authority, Some(w.custody));
}

#[test]
fn restake_after_destake_records_new_slot() {
    let w = world(0, 1000);
    let mut s = stake_ctx(&w);
    stake_nft(&mut s, &program(), 10).unwrap();
    let mut d = destake_ctx(&w, &s);
    destake_nft(&mut d, &program(), 15).unwrap();
    assert_eq!(d.associated_user_token_account.amount, 5);
    let mut again = StakeNFT {
        nft_stake_info_account: d.nft_stake_info_account,
        associated_user_nft_account: d.associated_user_nft_account,
        nft_mint: d.nft_mint,
        ..s
    };
    assert_eq!(stake_nft(&mut again, &program(), 40), Ok(()));
    assert_eq!(again.nft_stake_info_account.info, Some(NftStakeInfo { is_staked: true, stake_at_slot: 40 }));
}

#[test]
fn reward_is_elapsed_times_ten_to_decimals() {
    assert_eq!(scale_amount(100, 6), Ok(100_000_000));
    assert_eq!(scale_amount(0, 255), Ok(0));
    assert_eq!(scale_amount(7, 0), Ok(7));
    assert_eq!(scale_amount(1, 19), Ok(10_000_000_000_000_000_000));
    assert_eq!(scale_amount(1, 20), Err(ErrorCode::ArithmeticOverflow));
    assert_eq!(scale_amount(u64::MAX, 1), Err(ErrorCode::ArithmeticOverflow));
}

#[test]
fn reward_grows_with_elapsed_slots() {
    let mut last = 0u64;
    for elapsed in 0..50u64 {
        let r = scale_amount(elapsed, 9).unwrap();
        assert!(r >= last);
        last = r;
    }
}
