use landlord::instructions::exit::process_exit;
use landlord::instructions::lock::process_escrow_lock;
use landlord::state::fractional_token_escrow::FractionalTokenEscrow;
use landlord::state::fractionalized_token_locker::FractionalizedTokenLocker;
use landlord::instructions::claim_dividend::compute_claimable_amount;
use landlord::state::platform_governor::PlatformGovernor;
use landlord::state::setting::LafomuoSetting;
use landlord::pubkey::Pubkey;

fn key(b: u8) -> Pubkey {
    Pubkey { bytes: [b; 32] }
}

#[test]
fn shares_of_a_full_locker_stay_within_distribution() {
    let locked = [1u64, 1, 1];
    let total: u64 = locked.iter().map(|l| compute_claimable_amount(100, *l, 3)).sum();
    assert_eq!(total, 99);
    let locked = [5u64, 7, 11, 13, 64];
    let supply: u64 = locked.iter().sum();
    let total: u128 = locked.iter().map(|l| compute_claimable_amount(u64::MAX, *l, supply) as u128).sum();
    assert!(total <= u64::MAX as u128);
    let shares: u128 = locked.iter().map(|l| compute_claimable_amount(1_000_003, *l, supply) as u128).sum();
    assert!(shares <= 1_000_003);
}

#[test]
fn reserve_factors_accepted_exactly_when_ordered_and_bounded() {
    for (min, max, ok) in [(1u16, 1u16, true), (1, 10000, true), (10000, 10000, true), (0, 1, false), (2, 1, false), (1, 10001, false)] {
        let mut s = LafomuoSetting { governor: key(0), escrow_lock_duration: 0, pre_lock_before_distribution: 0, min_reserve_factor: 0, max_reserve_factor: 0 };
        assert_eq!(s.init(key(1), 0, 0, min, max).is_ok(), ok);
    }
}

#[test]
fn padded_symbol_is_ten_bytes() {
    for symbol in ["", "A", "ÉTÉ", "ten bytes!"] {
        let mut g = PlatformGovernor {
            symbol: String::new(),
            is_mutable: false,
            total_dividend_checkpoint: 0,
            total_assets_minted: 0,
            total_assets_burned: 0,
            minting_protocol_price: 0,
            minting_protocol_token: None,
            big_guardian: key(0),
            treasury: key(0),
            setting: key(0),
        };
        g.init(0, None, symbol.to_string(), key(1), key(2), key(3)).unwrap();
        assert_eq!(g.symbol.len(), 10);
        assert!(g.symbol.starts_with(symbol));
    }
}

#[test]
fn locker_supply_tracks_escrows_through_locks_and_exits() {
    let mut locker = FractionalizedTokenLocker {
        basket_id: 1,
        dividend_distributor: key(1),
        governor: key(2),
        token_mint: key(3),
        locked_supply: 0,
        lock_end_time: 100,
        bump: 0,
    };
    let mut escrows: Vec<FractionalTokenEscrow> = (0..3u8)
        .map(|i| FractionalTokenEscrow { locker: key(4), owner: key(10 + i), hodl: key(20 + i), locked_amount: 0, suggested_price: 0, bump: i })
        .collect();
    for (i, amount) in [(0usize, 5u64), (1, 7), (2, 11), (0, 3)] {
        let hodl = escrows[i].hodl;
        process_escrow_lock(key(4), &mut locker, &mut escrows[i], hodl, amount, 50).unwrap();
        let sum: u64 = escrows.iter().map(|e| e.locked_amount).sum();
        assert_eq!(locker.locked_supply, sum);
    }
    let e = escrows.remove(1);
    process_exit(key(4), &mut locker, key(30), &e, e.owner, e.hodl, key(99), 60).unwrap();
    let sum: u64 = escrows.iter().map(|e| e.locked_amount).sum();
    assert_eq!(locker.locked_supply, sum);
    assert_eq!(locker.locked_supply, 19);
}
