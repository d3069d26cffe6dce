use vstd::prelude::*;
use vstd::utf8::encode_utf8;

use crate::assertions::{assert_initialized, assert_owned_by};
use crate::errors::LandLordErrors;
use crate::pubkey::{token_program_id, token_program_id_bytes, Pubkey};
use crate::state::platform_governor::{padded_symbol, PlatformGovernor};
use crate::state::setting::{reserve_factor_error, LafomuoSetting};
use crate::token::{mint_layout_valid, token_account_layout_valid, unpack_mint, unpack_token_account, AccountInfo};

verus! {

/// The error with which a payment token is refused, if one is given as the first
/// remaining account: it must unpack as an initialized mint, the treasury as an
/// initialized token account, both must be owned by the token program, and the
/// treasury must hold that mint.
pub open spec fn payment_token_error(remaining_accounts: Seq<AccountInfo>, treasury: AccountInfo) -> Option<LandLordErrors> {
    if remaining_accounts.len() == 0 {
        None
    } else {
        let mint_info = remaining_accounts[0];
        if !mint_layout_valid(mint_info.data@) {
            Some(LandLordErrors::NotAbleToUnpackAccount)
        } else if mint_info.data@[45] != 1 {
            Some(LandLordErrors::AccountNotInitialized)
        } else if !token_account_layout_valid(treasury.data@) {
            Some(LandLordErrors::NotAbleToUnpackAccount)
        } else if treasury.data@[108] == 0 {
            Some(LandLordErrors::AccountNotInitialized)
        } else if mint_info.owner@ != token_program_id_bytes() {
            Some(LandLordErrors::IncorrectOwner)
        } else if treasury.owner@ != token_program_id_bytes() {
            Some(LandLordErrors::IncorrectOwner)
        } else if treasury.data@.subrange(0, 32) != mint_info.key@ {
            Some(LandLordErrors::TokenAccountMintMismatched)
        } else {
            None
        }
    }
}

/// The error with which setting the platform up is refused, if any: a refused payment
/// token, or refused reserve factors.
pub open spec fn setup_error(
    remaining_accounts: Seq<AccountInfo>,
    treasury: AccountInfo,
    min_reserve_factor: u16,
    max_reserve_factor: u16,
) -> Option<LandLordErrors> {
    match payment_token_error(remaining_accounts, treasury) {
        Some(e) => Some(e),
        None => reserve_factor_error(min_reserve_factor, max_reserve_factor),
    }
}

/// Checks the payment token given as the first remaining account, if any, and returns it.
fn payment_token(remaining_accounts: &Vec<AccountInfo>, treasury: &AccountInfo) -> (r: Result<Option<Pubkey>, LandLordErrors>)
    ensures
        match payment_token_error(remaining_accounts@, *treasury) {
            Some(e) => r == Err::<Option<Pubkey>, LandLordErrors>(e),
            None => r == Ok::<Option<Pubkey>, LandLordErrors>(
                if remaining_accounts@.len() == 0 { None } else { Some(remaining_accounts@[0].key) },
            ),
        },
{
    if remaining_accounts.len() == 0 {
        return Ok(None);
    }
    let token_mint_info = &remaining_accounts[0];
    let _token_mint = assert_initialized(unpack_mint(token_mint_info.data.as_slice()))?;
    let token_account = assert_initialized(unpack_token_account(treasury.data.as_slice()))?;
    let token_program = token_program_id();
    assert_owned_by(token_mint_info, &token_program)?;
    assert_owned_by(treasury, &token_program)?;
    if !token_account.mint.equals(&token_mint_info.key) {
        return Err(LandLordErrors::TokenAccountMintMismatched);
    }
    Ok(Some(token_mint_info.key))
}

/// Sets the platform up: the settings with the given lock durations and reserve
/// factors, and the governor with the given symbol, price, treasury and guardian,
/// and the payment token given as the first remaining account, if any. On refusal
/// nothing changes.
pub fn setup_platform_governor(
    governor_key: Pubkey,
    governor: &mut PlatformGovernor,
    setting_key: Pubkey,
    setting: &mut LafomuoSetting,
    big_guardian: Pubkey,
    treasury: &AccountInfo,
    remaining_accounts: &Vec<AccountInfo>,
    symbol: String,
    escrow_lock_duration: i64,
    pre_lock_before_distribution: i64,
    minting_protocol_price: u64,
    min_reserve_factor: u16,
    max_reserve_factor: u16,
) -> (r: Result<(), LandLordErrors>)
    requires
        setup_error(remaining_accounts@, *treasury, min_reserve_factor, max_reserve_factor) is None
            ==> encode_utf8(symbol@).len() <= 10,
    ensures
        match setup_error(remaining_accounts@, *treasury, min_reserve_factor, max_reserve_factor) {
            Some(e) => r == Err::<(), LandLordErrors>(e) && *final(governor) == *old(governor)
                && *final(setting) == *old(setting),
            None => {
                &&& r is Ok
                &&& *final(setting) == (LafomuoSetting {
                    governor: governor_key,
                    escrow_lock_duration,
                    pre_lock_before_distribution,
                    min_reserve_factor,
                    max_reserve_factor,
                })
                &&& final(governor).symbol@ == padded_symbol(symbol@, 10)
                &&& final(governor).is_mutable
                &&& final(governor).minting_protocol_token == (if remaining_accounts@.len() == 0 {
                    None
                } else {
                    Some(remaining_accounts@[0].key)
                })
                &&& final(governor).minting_protocol_price == minting_protocol_price
                &&& final(governor).treasury == treasury.key
                &&& final(governor).big_guardian == big_guardian
                &&& final(governor).setting == setting_key
                &&& final(governor).total_assets_minted == 0
                &&& final(governor).total_assets_burned == 0
                &&& final(governor).total_dividend_checkpoint == 0
            },
        },
{
    let token_mint = payment_token(remaining_accounts, treasury)?;
    setting.init(governor_key, escrow_lock_duration, pre_lock_before_distribution, min_reserve_factor, max_reserve_factor)?;
    governor.init(minting_protocol_price, token_mint, symbol, treasury.key, big_guardian, setting_key)?;
    Ok(())
}

} // verus!
