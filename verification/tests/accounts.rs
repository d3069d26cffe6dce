use anchor_lang::solana_program::program_option::COption;
use anchor_lang::solana_program::program_pack::Pack;
use anchor_spl::token::spl_token;

use landlord::assertions::{
    assert_initialized, assert_is_ata, assert_keys_equal, assert_keys_not_equal, assert_owned_by,
    cmp_pubkeys,
};
use landlord::errors::LandLordErrors;
use landlord::pubkey::{id, Pubkey};
use landlord::token::{unpack_mint, unpack_token_account, AccountInfo, AccountState};

fn key(b: u8) -> Pubkey {
    Pubkey { bytes: [b; 32] }
}

fn sol(k: &Pubkey) -> anchor_lang::prelude::Pubkey {
    anchor_lang::prelude::Pubkey::new_from_array(k.bytes)
}

fn token_program() -> Pubkey {
    Pubkey { bytes: spl_token::id().to_bytes() }
}

fn ata_address(wallet: &Pubkey, mint: &Pubkey) -> Pubkey {
    Pubkey { bytes: anchor_spl::associated_token::get_associated_token_address(&sol(wallet), &sol(mint)).to_bytes() }
}

fn packed_token_account(mint: &Pubkey, owner: &Pubkey, amount: u64, state: spl_token::state::AccountState) -> Vec<u8> {
    let acc = spl_token::state::Account {
        mint: sol(mint),
        owner: sol(owner),
        amount,
        delegate: COption::None,
        state,
        is_native: COption::None,
        delegated_amount: 0,
        close_authority: COption::None,
    };
    let mut data = vec![0u8; spl_token::state::Account::LEN];
    acc.pack_into_slice(&mut data);
    data
}

fn ata_info(wallet: &Pubkey, mint: &Pubkey, amount: u64) -> AccountInfo {
    AccountInfo {
        key: ata_address(wallet, mint),
        owner: token_program(),
        lamports: 0,
        data: packed_token_account(mint, wallet, amount, spl_token::state::AccountState::Initialized),
    }
}

#[test]
fn cmp_pubkeys_compares_all_bytes() {
    let a = key(7);
    let mut b = key(7);
    assert!(cmp_pubkeys(&a, &b));
    b.bytes[31] = 8;
    assert!(!cmp_pubkeys(&a, &b));
    b.bytes[31] = 7;
    b.bytes[0] = 0;
    assert!(!cmp_pubkeys(&a, &b));
}

#[test]
fn assert_keys_equal_and_not_equal() {
    assert_eq!(assert_keys_equal(&key(1), &key(1)), Ok(()));
    assert_eq!(assert_keys_equal(&key(1), &key(2)), Err(LandLordErrors::PublicKeyMismatch));
    assert_eq!(assert_keys_not_equal(&key(1), &key(2)), Ok(()));
    assert_eq!(assert_keys_not_equal(&key(1), &key(1)), Err(LandLordErrors::PublicKeyDidMatch));
}

#[test]
fn assert_owned_by_checks_owner() {
    let info = AccountInfo { key: key(1), owner: key(2), lamports: 5, data: vec![] };
    assert_eq!(assert_owned_by(&info, &key(2)), Ok(()));
    assert_eq!(assert_owned_by(&info, &key(3)), Err(LandLordErrors::IncorrectOwner));
}

#[test]
fn program_id_is_declared_address() {
    let expected: anchor_lang::prelude::Pubkey = "2bUX9z3VgNm8yYzqxBMS1Fto3L5r7dkWTUp85ukciBcg".parse().unwrap();
    assert_eq!(id().bytes, expected.to_bytes());
}

#[test]
fn unpack_token_account_reads_fields() {
    let data = packed_token_account(&key(9), &key(8), 1234, spl_token::state::AccountState::Frozen);
    let acc = unpack_token_account(&data).unwrap();
    assert_eq!(acc.mint, key(9));
    assert_eq!(acc.owner, key(8));
    assert_eq!(acc.amount, 1234);
    assert_eq!(acc.state, AccountState::Frozen);
}

#[test]
fn unpack_token_account_refuses_bad_layouts() {
    let mut data = packed_token_account(&key(9), &key(8), 1, spl_token::state::AccountState::Initialized);
    assert!(unpack_token_account(&data[..164]).is_none());
    data[108] = 3;
    assert!(unpack_token_account(&data).is_none());
    data[108] = 1;
    data[72] = 2;
    assert!(unpack_token_account(&data).is_none());
}

#[test]
fn unpack_mint_reads_fields() {
    let m = spl_token::state::Mint {
        mint_authority: COption::Some(sol(&key(1))),
        supply: 77,
        decimals: 6,
        is_initialized: true,
        freeze_authority: COption::None,
    };
    let mut data = vec![0u8; spl_token::state::Mint::LEN];
    m.pack_into_slice(&mut data);
    let mint = unpack_mint(&data).unwrap();
    assert_eq!(mint.supply, 77);
    assert_eq!(mint.decimals, 6);
    assert!(mint.is_initialized);
    data[45] = 2;
    assert!(unpack_mint(&data).is_none());
}

#[test]
fn assert_initialized_errors() {
    let data = packed_token_account(&key(9), &key(8), 1, spl_token::state::AccountState::Uninitialized);
    assert_eq!(assert_initialized(unpack_token_account(&data)).unwrap_err(), LandLordErrors::AccountNotInitialized);
    assert_eq!(assert_initialized(unpack_token_account(&data[..10])).unwrap_err(), LandLordErrors::NotAbleToUnpackAccount);
    let data = packed_token_account(&key(9), &key(8), 1, spl_token::state::AccountState::Initialized);
    assert_eq!(assert_initialized(unpack_token_account(&data)).unwrap().amount, 1);
}

#[test]
fn assert_is_ata_accepts_the_associated_account() {
    let info = ata_info(&key(3), &key(4), 50);
    let acc = assert_is_ata(&info, &key(3), &key(4)).unwrap();
    assert_eq!(acc.amount, 50);
}

#[test]
fn assert_is_ata_errors_in_order() {
    let mut info = ata_info(&key(3), &key(4), 50);
    info.owner = key(5);
    assert_eq!(assert_is_ata(&info, &key(3), &key(4)).unwrap_err(), LandLordErrors::IncorrectOwner);

    let mut info = ata_info(&key(3), &key(4), 50);
    info.data.truncate(100);
    assert_eq!(assert_is_ata(&info, &key(3), &key(4)).unwrap_err(), LandLordErrors::NotAbleToUnpackAccount);

    let mut info = ata_info(&key(3), &key(4), 50);
    info.data[108] = 0;
    assert_eq!(assert_is_ata(&info, &key(3), &key(4)).unwrap_err(), LandLordErrors::AccountNotInitialized);

    let info = ata_info(&key(3), &key(4), 50);
    assert_eq!(assert_is_ata(&info, &key(6), &key(4)).unwrap_err(), LandLordErrors::PublicKeyMismatch);
    assert_eq!(assert_is_ata(&info, &key(3), &key(6)).unwrap_err(), LandLordErrors::PublicKeyMismatch);

    let mut info = ata_info(&key(3), &key(4), 50);
    info.key = key(7);
    assert_eq!(assert_is_ata(&info, &key(3), &key(4)).unwrap_err(), LandLordErrors::PublicKeyMismatch);
}

