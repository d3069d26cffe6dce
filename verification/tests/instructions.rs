use anchor_lang::solana_program::program_option::COption;
use anchor_lang::solana_program::program_pack::Pack;
use anchor_spl::token::spl_token;

use landlord::errors::LandLordErrors;
use landlord::instructions::actions::{FeePayment, TransferSigner};
use landlord::instructions::claim_dividend::{compute_claimable_amount, find_treasury_authority, process_claim_dividend};
use landlord::instructions::create_distribute_dividend::process_create_dividend_distribution_checkpoint;
use landlord::instructions::exit::process_exit;
use landlord::instructions::fractionalize_nft::{
    get_mint_freeze_authority, process_fractionalize_asset, require_freeze_authority, unpack_coption_key,
};
use landlord::instructions::issue_nft::process_issue_asset;
use landlord::instructions::lock::{lock_deposit, process_escrow_lock};
use landlord::instructions::new_escrow::process_new_escrow;
use landlord::instructions::new_platform::setup_platform_governor;
use landlord::instructions::vote_on_price::process_vote_on_price;
use landlord::pubkey::{id, Pubkey};
use landlord::state::asset_basket::{AssetBasket, AssetTokenization};
use landlord::state::auction::AuctionState;
use landlord::state::dividend_claimed::DividendClaimedDetails;
use landlord::state::dividend_distributor::DividendDistributor;
use landlord::state::fractional_token_escrow::FractionalTokenEscrow;
use landlord::state::fractionalized_token_locker::FractionalizedTokenLocker;
use landlord::state::platform_governor::PlatformGovernor;
use landlord::state::setting::LafomuoSetting;
use landlord::token::{AccountInfo, AccountState, Mint, TokenAccount};

fn key(b: u8) -> Pubkey {
    Pubkey { bytes: [b; 32] }
}

fn sol(k: &Pubkey) -> anchor_lang::prelude::Pubkey {
    anchor_lang::prelude::Pubkey::new_from_array(k.bytes)
}

fn token_program() -> Pubkey {
    Pubkey { bytes: spl_token::id().to_bytes() }
}

fn ata_address(wallet: &Pubkey, mint: &Pubkey) -> Pubkey {
    Pubkey { bytes: anchor_spl::associated_token::get_associated_token_address(&sol(wallet), &sol(mint)).to_bytes() }
}

fn packed_token_account(mint: &Pubkey, owner: &Pubkey, amount: u64) -> Vec<u8> {
    let acc = spl_token::state::Account {
        mint: sol(mint),
        owner: sol(owner),
        amount,
        delegate: COption::None,
        state: spl_token::state::AccountState::Initialized,
        is_native: COption::None,
        delegated_amount: 0,
        close_authority: COption::None,
    };
    let mut data = vec![0u8; spl_token::state::Account::LEN];
    acc.pack_into_slice(&mut data);
    data
}

fn packed_mint(supply: u64, decimals: u8, freeze: Option<Pubkey>) -> Vec<u8> {
    let m = spl_token::state::Mint {
        mint_authority: COption::Some(sol(&key(1))),
        supply,
        decimals,
        is_initialized: true,
        freeze_authority: match freeze {
            Some(k) => COption::Some(sol(&k)),
            None => COption::None,
        },
    };
    let mut data = vec![0u8; spl_token::state::Mint::LEN];
    m.pack_into_slice(&mut data);
    data
}

fn ata_info(wallet: &Pubkey, mint: &Pubkey, amount: u64) -> AccountInfo {
    AccountInfo {
        key: ata_address(wallet, mint),
        owner: token_program(),
        lamports: 0,
        data: packed_token_account(mint, wallet, amount),
    }
}

fn token_account(mint: Pubkey, owner: Pubkey, amount: u64) -> TokenAccount {
    TokenAccount { mint, owner, amount, state: AccountState::Initialized }
}

fn treasury_authority() -> Pubkey {
    find_treasury_authority().unwrap().0
}

fn governor() -> PlatformGovernor {
    PlatformGovernor {
        symbol: "LAND\0\0\0\0\0\0".to_string(),
        is_mutable: true,
        total_dividend_checkpoint: 0,
        total_assets_minted: 4,
        total_assets_burned: 0,
        minting_protocol_price: 100,
        minting_protocol_token: None,
        big_guardian: key(20),
        treasury: key(21),
        setting: key(22),
    }
}

fn basket() -> AssetBasket {
    AssetBasket {
        asset_tokenize: AssetTokenization { token_mint: key(30), tokenized: true, total_supply: 1000, tokenized_at: 1 },
        basket_id: 5,
        asset_id: key(31),
        asset_metadata: key(32),
        owner: key(33),
        governor: key(34),
        auction_state: AuctionState::INACTIVE,
        average_price: 0,
        total_distribution_checkpoint: 2,
        iat: 0,
        is_freezed: false,
        bump: 250,
    }
}

fn locker(supply: u64, end: i64) -> FractionalizedTokenLocker {
    FractionalizedTokenLocker {
        basket_id: 5,
        dividend_distributor: key(40),
        governor: key(34),
        token_mint: key(30),
        locked_supply: supply,
        lock_end_time: end,
        bump: 1,
    }
}

fn escrow(locked: u64) -> FractionalTokenEscrow {
    FractionalTokenEscrow { locker: key(41), owner: key(42), hodl: key(43), locked_amount: locked, suggested_price: 0, bump: 9 }
}

fn distributor(total: u64, claimed: u64) -> DividendDistributor {
    DividendDistributor {
        id: 2,
        root: [0; 32],
        owner: key(33),
        token_mint: key(50),
        total_distribute_amount: total,
        total_claimed: claimed,
        freezed: false,
    }
}

fn empty_claim() -> DividendClaimedDetails {
    DividendClaimedDetails { checkpoint_id: 0, claimer: key(0), token_mint: key(0), total_claimed: 0, last_claim_epoch: 0 }
}

#[test]
fn find_treasury_authority_matches_solana() {
    let (k, bump) = find_treasury_authority().unwrap();
    let (expected, expected_bump) =
        anchor_lang::prelude::Pubkey::try_find_program_address(&[b"spl_token_treasury"], &sol(&id())).unwrap();
    assert_eq!(k.bytes, expected.to_bytes());
    assert_eq!(bump, expected_bump);
}

#[test]
fn claimable_amount_is_proportional() {
    assert_eq!(compute_claimable_amount(1000, 250, 1000), 250);
    assert_eq!(compute_claimable_amount(1000, 1, 3), 333);
    assert_eq!(compute_claimable_amount(u64::MAX, u64::MAX, u64::MAX), u64::MAX);
    assert_eq!(compute_claimable_amount(10, 0, 7), 0);
}

#[test]
fn claim_dividend_pays_share_once() {
    let treasury = ata_info(&treasury_authority(), &key(50), 1000);
    let treasury_ta = token_account(key(50), key(60), 1000);
    let claimer_ta = token_account(key(50), key(42), 0);
    let mut d = distributor(1000, 100);
    let mut c = empty_claim();
    let (transfer, event) = process_claim_dividend(
        key(40), &mut d, &locker(400, 0), &escrow(100), key(42), key(61), &claimer_ta, &treasury, &treasury_ta, key(60), &mut c, 999,
    )
    .unwrap();
    assert_eq!(transfer.amount, 250);
    assert_eq!(transfer.source, treasury.key);
    assert_eq!(transfer.destination, key(61));
    assert_eq!(transfer.authority, key(60));
    assert_eq!(transfer.signer, TransferSigner::TreasuryAuthority { bump: find_treasury_authority().unwrap().1 });
    assert_eq!(d.total_claimed, 350);
    assert_eq!(c.total_claimed, 250);
    assert_eq!(c.checkpoint_id, 2);
    assert_eq!(c.claimer, key(42));
    assert_eq!(c.token_mint, key(50));
    assert_eq!(c.last_claim_epoch, 999);
    assert_eq!(event.total_claimed, 250);
    assert_eq!(event.distributor, key(40));
    assert_eq!(event.checkpoint_id, 2);

    let again = process_claim_dividend(
        key(40), &mut d, &locker(400, 0), &escrow(100), key(42), key(61), &claimer_ta, &treasury, &treasury_ta, key(60), &mut c, 1000,
    );
    assert_eq!(again.unwrap_err(), LandLordErrors::DividendAlreadyClaimed);
    assert_eq!(d.total_claimed, 350);
}

#[test]
fn claim_dividend_errors() {
    let treasury = ata_info(&treasury_authority(), &key(50), 1000);
    let treasury_ta = token_account(key(50), key(60), 1000);
    let claimer_ta = token_account(key(50), key(42), 0);
    let run = |d: &mut DividendDistributor, cta: &TokenAccount, tinfo: &AccountInfo, tta: &TokenAccount| {
        let mut c = empty_claim();
        process_claim_dividend(key(40), d, &locker(400, 0), &escrow(100), key(42), key(61), cta, tinfo, tta, key(60), &mut c, 5)
            .unwrap_err()
    };
    let mut d = distributor(1000, 800);
    assert_eq!(run(&mut d, &claimer_ta, &treasury, &treasury_ta), LandLordErrors::ExceedsTotalDistributionAmount);
    assert_eq!(d.total_claimed, 800);
    let mut d = distributor(1000, 0);
    assert_eq!(run(&mut d, &token_account(key(51), key(42), 0), &treasury, &treasury_ta), LandLordErrors::TokenAccountMintMismatched);
    assert_eq!(run(&mut d, &token_account(key(50), key(43), 0), &treasury, &treasury_ta), LandLordErrors::TokenAccountOwnerMismatched);
    assert_eq!(run(&mut d, &claimer_ta, &treasury, &token_account(key(51), key(60), 0)), LandLordErrors::TokenAccountMintMismatched);
    assert_eq!(run(&mut d, &claimer_ta, &treasury, &token_account(key(50), key(61), 0)), LandLordErrors::TokenAccountOwnerMismatched);
    let wrong_treasury = ata_info(&key(70), &key(50), 1000);
    assert_eq!(run(&mut d, &claimer_ta, &wrong_treasury, &treasury_ta), LandLordErrors::PublicKeyMismatch);
    let mut already = empty_claim();
    already.total_claimed = 1;
    let err = process_claim_dividend(
        key(40), &mut d, &locker(400, 0), &escrow(100), key(42), key(61), &claimer_ta, &treasury, &treasury_ta, key(60), &mut already, 5,
    );
    assert_eq!(err.unwrap_err(), LandLordErrors::DividendAlreadyClaimed);
    assert_eq!(d.total_claimed, 0);
}

#[test]
fn create_checkpoint_sets_up_distributor_and_locker() {
    let treasury = ata_info(&treasury_authority(), &key(50), 0);
    let mut d = distributor(0, 0);
    let mut l = locker(77, 0);
    let mut b = basket();
    let mut g = governor();
    let setting = LafomuoSetting {
        governor: key(34),
        escrow_lock_duration: 10,
        pre_lock_before_distribution: 3600,
        min_reserve_factor: 1,
        max_reserve_factor: 2,
    };
    let (transfer, event) = process_create_dividend_distribution_checkpoint(
        key(40), &mut d, key(41), &mut l, 253, &mut b, key(34), &mut g, &setting, key(33), key(50), key(80),
        &token_account(key(50), key(33), 5000), &treasury, &token_account(key(50), key(60), 0), [9; 32], 5000, 1_000_000,
    )
    .unwrap();
    assert_eq!(transfer.amount, 5000);
    assert_eq!(transfer.source, key(80));
    assert_eq!(transfer.destination, treasury.key);
    assert_eq!(transfer.authority, key(33));
    assert_eq!(transfer.signer, TransferSigner::Caller);
    assert_eq!(d.id, 2);
    assert_eq!(d.root, [9; 32]);
    assert_eq!(d.total_distribute_amount, 5000);
    assert_eq!(d.total_claimed, 0);
    assert_eq!(d.token_mint, key(50));
    assert_eq!(l.locked_supply, 0);
    assert_eq!(l.lock_end_time, 1_003_600);
    assert_eq!(l.bump, 253);
    assert_eq!(l.dividend_distributor, key(40));
    assert_eq!(l.basket_id, 5);
    assert_eq!(l.token_mint, key(30));
    assert_eq!(b.total_distribution_checkpoint, 3);
    assert_eq!(g.total_dividend_checkpoint, 1);
    assert_eq!(event.checkpoint_id, 2);
    assert_eq!(event.start_distribution_at, 1_003_600);
    assert_eq!(event.locker, key(41));
}

#[test]
fn create_checkpoint_errors_leave_state() {
    let treasury = ata_info(&treasury_authority(), &key(50), 0);
    let setting = LafomuoSetting {
        governor: key(34),
        escrow_lock_duration: 0,
        pre_lock_before_distribution: 0,
        min_reserve_factor: 1,
        max_reserve_factor: 2,
    };
    let mut d = distributor(0, 0);
    let mut l = locker(77, 0);
    let mut b = basket();
    let mut g = governor();
    let err = process_create_dividend_distribution_checkpoint(
        key(40), &mut d, key(41), &mut l, 253, &mut b, key(34), &mut g, &setting, key(33), key(50), key(80),
        &token_account(key(50), key(34), 5000), &treasury, &token_account(key(50), key(60), 0), [9; 32], 5000, 0,
    );
    assert_eq!(err.unwrap_err(), LandLordErrors::TokenAccountOwnerMismatched);
    let err = process_create_dividend_distribution_checkpoint(
        key(40), &mut d, key(41), &mut l, 253, &mut b, key(34), &mut g, &setting, key(33), key(50), key(80),
        &token_account(key(50), key(33), 5000), &ata_info(&key(1), &key(50), 0), &token_account(key(50), key(60), 0), [9; 32], 5000, 0,
    );
    assert_eq!(err.unwrap_err(), LandLordErrors::PublicKeyMismatch);
    assert_eq!(l.locked_supply, 77);
    assert_eq!(b.total_distribution_checkpoint, 2);
    assert_eq!(g.total_dividend_checkpoint, 0);
}

#[test]
fn lock_adds_to_escrow_and_locker() {
    assert!(lock_deposit(key(1), key(2), key(3), 0).is_none());
    let t = lock_deposit(key(1), key(2), key(3), 9).unwrap();
    assert_eq!((t.source, t.destination, t.authority, t.amount), (key(1), key(2), key(3), 9));
    let mut l = locker(100, 50);
    let mut e = escrow(10);
    let event = process_escrow_lock(key(41), &mut l, &mut e, key(43), 25, 50).unwrap();
    assert_eq!(l.locked_supply, 125);
    assert_eq!(e.locked_amount, 35);
    assert_eq!(event.locker_supply, 125);
    assert_eq!(event.amount, 25);
    assert_eq!(event.escrow_owner, key(42));
    assert_eq!(event.token_mint, key(30));
}

#[test]
fn lock_refused_after_end_or_wrong_hodl() {
    let mut l = locker(100, 50);
    let mut e = escrow(10);
    assert_eq!(process_escrow_lock(key(41), &mut l, &mut e, key(43), 25, 51).unwrap_err(), LandLordErrors::DistributionEndTimePassed);
    assert_eq!(process_escrow_lock(key(41), &mut l, &mut e, key(44), 25, 0).unwrap_err(), LandLordErrors::DistributionEndTimePassed);
    assert_eq!(l.locked_supply, 100);
    assert_eq!(e.locked_amount, 10);
}

#[test]
fn exit_releases_locked_tokens() {
    let mut l = locker(100, 50);
    let e = escrow(30);
    let (transfer, event) = process_exit(key(41), &mut l, key(45), &e, key(42), key(43), key(46), 50).unwrap();
    let t = transfer.unwrap();
    assert_eq!(t.amount, 30);
    assert_eq!(t.source, key(43));
    assert_eq!(t.destination, key(46));
    assert_eq!(t.authority, key(45));
    assert_eq!(t.signer, TransferSigner::Escrow { locker: key(41), owner: key(42), bump: 9 });
    assert_eq!(l.locked_supply, 70);
    assert_eq!(event.released_amount, 30);
    assert_eq!(event.locker_supply, 70);
    assert_eq!(event.timestamp, 50);

    let mut l = locker(100, 50);
    let (transfer, _) = process_exit(key(41), &mut l, key(45), &escrow(0), key(42), key(43), key(46), 0).unwrap();
    assert!(transfer.is_none());
    assert_eq!(l.locked_supply, 100);
}

#[test]
fn exit_errors() {
    let mut l = locker(100, 50);
    let e = escrow(30);
    assert_eq!(process_exit(key(41), &mut l, key(45), &e, key(1), key(43), key(46), 0).unwrap_err(), LandLordErrors::PublicKeyMismatch);
    assert_eq!(process_exit(key(41), &mut l, key(45), &e, key(42), key(43), key(43), 0).unwrap_err(), LandLordErrors::PublicKeyDidMatch);
    assert_eq!(process_exit(key(41), &mut l, key(45), &e, key(42), key(43), key(46), 51).unwrap_err(), LandLordErrors::DistributionEndTimePassed);
    assert_eq!(l.locked_supply, 100);
}

#[test]
fn new_escrow_uses_associated_account() {
    let (e, event) = process_new_escrow(key(45), 200, key(41), &locker(0, 0), key(42), 123);
    assert_eq!(e.locker, key(41));
    assert_eq!(e.owner, key(42));
    assert_eq!(e.bump, 200);
    assert_eq!(e.locked_amount, 0);
    assert_eq!(e.suggested_price, 0);
    let expected = anchor_spl::associated_token::get_associated_token_address(&sol(&key(45)), &sol(&key(30)));
    assert_eq!(e.hodl.bytes, expected.to_bytes());
    assert_eq!(event.escrow, key(45));
    assert_eq!(event.timestamp, 123);
}

#[test]
fn setup_platform_without_payment_token() {
    let mut g = governor();
    g.is_mutable = false;
    let mut s = LafomuoSetting { governor: key(0), escrow_lock_duration: 0, pre_lock_before_distribution: 0, min_reserve_factor: 0, max_reserve_factor: 0 };
    let treasury = AccountInfo { key: key(21), owner: key(0), lamports: 0, data: vec![] };
    setup_platform_governor(key(90), &mut g, key(91), &mut s, key(92), &treasury, &vec![], "ABC".to_string(), 60, 120, 1000, 100, 200).unwrap();
    assert_eq!(g.symbol, "ABC\0\0\0\0\0\0\0");
    assert_eq!(g.minting_protocol_token, None);
    assert!(g.is_mutable);
    assert_eq!(g.treasury, key(21));
    assert_eq!(g.big_guardian, key(92));
    assert_eq!(g.setting, key(91));
    assert_eq!(g.minting_protocol_price, 1000);
    assert_eq!(s.governor, key(90));
    assert_eq!(s.escrow_lock_duration, 60);
    assert_eq!(s.pre_lock_before_distribution, 120);
    assert_eq!((s.min_reserve_factor, s.max_reserve_factor), (100, 200));
}

#[test]
fn setup_platform_with_payment_token() {
    let mint_info = AccountInfo { key: key(55), owner: token_program(), lamports: 0, data: packed_mint(0, 6, None) };
    let treasury = AccountInfo { key: key(21), owner: token_program(), lamports: 0, data: packed_token_account(&key(55), &key(92), 0) };
    let mut g = governor();
    let mut s = LafomuoSetting { governor: key(0), escrow_lock_duration: 0, pre_lock_before_distribution: 0, min_reserve_factor: 0, max_reserve_factor: 0 };
    setup_platform_governor(key(90), &mut g, key(91), &mut s, key(92), &treasury, &vec![mint_info.clone()], "ABC".to_string(), 1, 2, 3, 100, 200).unwrap();
    assert_eq!(g.minting_protocol_token, Some(key(55)));

    let other_treasury = AccountInfo { key: key(21), owner: token_program(), lamports: 0, data: packed_token_account(&key(56), &key(92), 0) };
    let err = setup_platform_governor(key(90), &mut g, key(91), &mut s, key(92), &other_treasury, &vec![mint_info.clone()], "ABC".to_string(), 1, 2, 3, 100, 200);
    assert_eq!(err.unwrap_err(), LandLordErrors::TokenAccountMintMismatched);

    let mut foreign_mint = mint_info.clone();
    foreign_mint.owner = key(3);
    let err = setup_platform_governor(key(90), &mut g, key(91), &mut s, key(92), &treasury, &vec![foreign_mint], "ABC".to_string(), 1, 2, 3, 100, 200);
    assert_eq!(err.unwrap_err(), LandLordErrors::IncorrectOwner);

    let bad_mint = AccountInfo { key: key(55), owner: token_program(), lamports: 0, data: vec![1, 2, 3] };
    let err = setup_platform_governor(key(90), &mut g, key(91), &mut s, key(92), &treasury, &vec![bad_mint], "ABC".to_string(), 1, 2, 3, 100, 200);
    assert_eq!(err.unwrap_err(), LandLordErrors::NotAbleToUnpackAccount);
}

#[test]
fn setup_platform_refuses_reserve_factors() {
    let mut g = governor();
    let mut s = LafomuoSetting { governor: key(0), escrow_lock_duration: 0, pre_lock_before_distribution: 0, min_reserve_factor: 0, max_reserve_factor: 0 };
    let treasury = AccountInfo { key: key(21), owner: key(0), lamports: 0, data: vec![] };
    let err = setup_platform_governor(key(90), &mut g, key(91), &mut s, key(92), &treasury, &vec![], "ABC".to_string(), 1, 2, 3, 300, 200);
    assert_eq!(err.unwrap_err(), LandLordErrors::MinReserveFactorGreaterThanMax);
    assert_eq!(g.symbol, "LAND\0\0\0\0\0\0");
    assert_eq!(s.governor, key(0));
}

#[test]
fn issue_asset_with_sol_fee() {
    let mut g = governor();
    let mut b = basket();
    let owner = AccountInfo { key: key(33), owner: key(0), lamports: 500, data: vec![] };
    let plan = process_issue_asset(key(34), &mut g, key(35), &mut b, 7, &owner, key(31), key(36), key(32), key(37), key(38), key(21), &vec![], 4242).unwrap();
    assert_eq!(g.total_assets_minted, 5);
    assert_eq!(b.basket_id, 5);
    assert_eq!(b.bump, 7);
    assert_eq!(b.iat, 4242);
    assert_eq!(b.owner, key(33));
    assert_eq!(b.asset_id, key(31));
    match plan.fee {
        FeePayment::Lamports { from, to, amount } => assert_eq!((from, to, amount), (key(33), key(21), 100)),
        _ => panic!("expected a lamport fee"),
    }
    assert_eq!(plan.mint_to.amount, 1);
    assert_eq!(plan.mint_to.authority, key(36));
    assert_eq!(plan.mint_to.to, key(38));
    assert_eq!(plan.creators.len(), 2);
    assert_eq!((plan.creators[0].address, plan.creators[0].share), (key(33), 90));
    assert_eq!((plan.creators[1].address, plan.creators[1].share), (key(20), 10));
    assert_eq!(plan.symbol, "LAND\0\0\0\0\0\0");
    assert_eq!(plan.seller_fee_basis_points, 1);
    assert!(!plan.is_mutable);
    assert_eq!(plan.max_supply, Some(0));
    assert_eq!(plan.event.owner_pda, key(35));
    assert_eq!(plan.event.iat, 4242);
}

#[test]
fn issue_asset_errors() {
    let owner = AccountInfo { key: key(33), owner: key(0), lamports: 99, data: vec![] };
    let mut g = governor();
    let mut b = basket();
    let err = process_issue_asset(key(34), &mut g, key(35), &mut b, 7, &owner, key(31), key(36), key(32), key(37), key(38), key(21), &vec![], 1);
    assert_eq!(err.unwrap_err(), LandLordErrors::NotEnoughSOL);
    assert_eq!(g.total_assets_minted, 4);
    assert_eq!(b.basket_id, 5);

    g.is_mutable = false;
    let err = process_issue_asset(key(34), &mut g, key(35), &mut b, 7, &owner, key(31), key(36), key(32), key(37), key(38), key(21), &vec![], 1);
    assert_eq!(err.unwrap_err(), LandLordErrors::ImmutableGovernor);
}

#[test]
fn issue_asset_with_token_fee() {
    let owner = AccountInfo { key: key(33), owner: key(0), lamports: 0, data: vec![] };
    let mut g = governor();
    g.minting_protocol_token = Some(key(55));
    let mut b = basket();
    let plan = process_issue_asset(key(34), &mut g, key(35), &mut b, 7, &owner, key(31), key(36), key(32), key(37), key(38), key(21), &vec![], 1).unwrap();
    assert!(matches!(plan.fee, FeePayment::Nothing));

    let poor = ata_info(&key(33), &key(31), 99);
    let err = process_issue_asset(key(34), &mut g, key(35), &mut b, 7, &owner, key(31), key(36), key(32), key(37), key(38), key(21), &vec![poor], 1);
    assert_eq!(err.unwrap_err(), LandLordErrors::NotEnoughTokens);

    let rich = ata_info(&key(33), &key(31), 100);
    let plan = process_issue_asset(key(34), &mut g, key(35), &mut b, 7, &owner, key(31), key(36), key(32), key(37), key(38), key(21), &vec![rich.clone()], 1).unwrap();
    match plan.fee {
        FeePayment::Tokens { transfer } => {
            assert_eq!(transfer.source, rich.key);
            assert_eq!(transfer.destination, key(21));
            assert_eq!(transfer.amount, 100);
        },
        _ => panic!("expected a token fee"),
    }
}

#[test]
fn fractionalize_asset_plan_and_errors() {
    let mut b = basket();
    b.asset_tokenize.tokenized = false;
    let mint = Mint { supply: 0, decimals: 6, is_initialized: true };
    let ta = token_account(key(50), key(33), 0);
    let plan = process_fractionalize_asset(&b, key(34), key(33), key(20), key(50), &mint, key(51), &ta, 1_000, 9).unwrap();
    assert_eq!(plan.mint_to.amount, 1_000);
    assert_eq!(plan.mint_to.mint, key(50));
    assert_eq!(plan.mint_to.to, key(51));
    assert_eq!(plan.mint_to.authority, key(33));
    assert_eq!(plan.new_mint_authority, key(20));
    assert!(!b.asset_tokenize.tokenized);

    let err = process_fractionalize_asset(&b, key(1), key(33), key(20), key(50), &mint, key(51), &ta, 1_000, 9);
    assert_eq!(err.unwrap_err(), LandLordErrors::GovernorMismatch);
    let err = process_fractionalize_asset(&b, key(34), key(1), key(20), key(50), &mint, key(51), &ta, 1_000, 9);
    assert_eq!(err.unwrap_err(), LandLordErrors::NFTOwnerMismatch);
    let err = process_fractionalize_asset(&b, key(34), key(33), key(20), key(52), &mint, key(51), &ta, 1_000, 9);
    assert_eq!(err.unwrap_err(), LandLordErrors::TokenAccountMintMismatched);
    let err = process_fractionalize_asset(&b, key(34), key(33), key(20), key(50), &mint, key(51), &token_account(key(50), key(1), 0), 1_000, 9);
    assert_eq!(err.unwrap_err(), LandLordErrors::TokenAccountOwnerMismatched);
    let err = process_fractionalize_asset(&basket(), key(34), key(33), key(20), key(50), &mint, key(51), &ta, 1_000, 9);
    assert_eq!(err.unwrap_err(), LandLordErrors::NFTIsAlreadyFractionalized);
}

#[test]
fn coption_key_unpacking() {
    let mut src = [0u8; 36];
    assert_eq!(unpack_coption_key(&src), Ok(None));
    src[0] = 1;
    src[4..].copy_from_slice(&[7u8; 32]);
    assert_eq!(unpack_coption_key(&src), Ok(Some(key(7))));
    src[0] = 2;
    assert_eq!(unpack_coption_key(&src), Err(LandLordErrors::InvalidAccountData));
    src[0] = 1;
    src[3] = 1;
    assert_eq!(unpack_coption_key(&src), Err(LandLordErrors::InvalidAccountData));
}

#[test]
fn freeze_authority_from_mint_data() {
    let data = packed_mint(0, 6, Some(key(12)));
    assert_eq!(get_mint_freeze_authority(&data), Ok(Some(key(12))));
    assert_eq!(require_freeze_authority(&data), Ok(key(12)));
    let data = packed_mint(0, 6, None);
    assert_eq!(get_mint_freeze_authority(&data), Ok(None));
    assert_eq!(require_freeze_authority(&data), Err(LandLordErrors::NoFreezeAuthoritySet));
    let mut data = packed_mint(0, 6, None);
    data[46] = 5;
    assert_eq!(require_freeze_authority(&data), Err(LandLordErrors::InvalidAccountData));
}

#[test]
fn vote_on_price_checks_setting() {
    assert_eq!(process_vote_on_price(&governor(), key(22), 10), Ok(()));
    assert_eq!(process_vote_on_price(&governor(), key(23), 10), Err(LandLordErrors::SettingAccountMismatched));
}
