use vstd::prelude::*;

use crate::errors::LandLordErrors;
use crate::pubkey::{
    associated_token_address, get_associated_token_address, token_program_id,
    token_program_id_bytes, Pubkey, PUBKEY_BYTES,
};
use crate::token::{
    account_state_byte, token_account_decodes, token_account_layout_valid, unpack_token_account,
    AccountInfo, IsInitialized, TokenAccount,
};

verus! {

/// Calls `solana_program::program_memory::sol_memcmp` on the whole of two key byte
/// arrays; it returns 0 exactly when all `PUBKEY_BYTES` bytes are equal.
#[verifier::external_body]
fn key_bytes_compare(a: &[u8; 32], b: &[u8; 32]) -> (r: i32)
    ensures
        (r == 0) <==> (a@ == b@),
{
    anchor_lang::solana_program::program_memory::sol_memcmp(a, b, PUBKEY_BYTES)
}

/// Whether two keys are the same.
pub fn cmp_pubkeys(a: &Pubkey, b: &Pubkey) -> (r: bool)
    ensures
        r <==> a.bytes@ == b.bytes@,
{
    key_bytes_compare(&a.bytes, &b.bytes) == 0
}

/// Takes the result of unpacking an account and accepts it only if it unpacked and
/// is initialized.
pub fn assert_initialized<L: IsInitialized>(unpacked: Option<L>) -> (r: Result<L, LandLordErrors>)
    ensures
        match unpacked {
            None => r == Err::<L, LandLordErrors>(LandLordErrors::NotAbleToUnpackAccount),
            Some(v) => if v.initialized() {
                r == Ok::<L, LandLordErrors>(v)
            } else {
                r == Err::<L, LandLordErrors>(LandLordErrors::AccountNotInitialized)
            },
        },
{
    match unpacked {
        None => Err(LandLordErrors::NotAbleToUnpackAccount),
        Some(v) => {
            if !v.is_initialized() {
                Err(LandLordErrors::AccountNotInitialized)
            } else {
                Ok(v)
            }
        },
    }
}

/// Fails with `IncorrectOwner` unless the account is owned by `owner`.
pub fn assert_owned_by(account: &AccountInfo, owner: &Pubkey) -> (r: Result<(), LandLordErrors>)
    ensures
        r == (if account.owner.bytes@ == owner.bytes@ {
            Ok::<(), LandLordErrors>(())
        } else {
            Err(LandLordErrors::IncorrectOwner)
        }),
{
    if !cmp_pubkeys(&account.owner, owner) {
        Err(LandLordErrors::IncorrectOwner)
    } else {
        Ok(())
    }
}

/// Fails with `PublicKeyMismatch` unless the keys are equal.
pub fn assert_keys_equal(key1: &Pubkey, key2: &Pubkey) -> (r: Result<(), LandLordErrors>)
    ensures
        r == (if key1.bytes@ == key2.bytes@ {
            Ok::<(), LandLordErrors>(())
        } else {
            Err(LandLordErrors::PublicKeyMismatch)
        }),
{
    if !cmp_pubkeys(key1, key2) {
        Err(LandLordErrors::PublicKeyMismatch)
    } else {
        Ok(())
    }
}

/// Fails with `PublicKeyDidMatch` if the keys are equal.
pub fn assert_keys_not_equal(key1: &Pubkey, key2: &Pubkey) -> (r: Result<(), LandLordErrors>)
    ensures
        r == (if key1.bytes@ != key2.bytes@ {
            Ok::<(), LandLordErrors>(())
        } else {
            Err(LandLordErrors::PublicKeyDidMatch)
        }),
{
    if cmp_pubkeys(key1, key2) {
        Err(LandLordErrors::PublicKeyDidMatch)
    } else {
        Ok(())
    }
}

/// The first check that `assert_is_ata` fails on, if any: the account must be owned by
/// the token program, unpack as an initialized token account of `wallet` for `mint`,
/// and sit at the associated token address of `wallet` and `mint`.
pub open spec fn ata_check_error(ata: AccountInfo, wallet: Pubkey, mint: Pubkey) -> Option<LandLordErrors> {
    let d = ata.data@;
    if ata.owner.bytes@ != token_program_id_bytes() {
        Some(LandLordErrors::IncorrectOwner)
    } else if !token_account_layout_valid(d) {
        Some(LandLordErrors::NotAbleToUnpackAccount)
    } else if d[108] == 0 {
        Some(LandLordErrors::AccountNotInitialized)
    } else if d.subrange(32, 64) != wallet.bytes@ {
        Some(LandLordErrors::PublicKeyMismatch)
    } else if d.subrange(0, 32) != mint.bytes@ {
        Some(LandLordErrors::PublicKeyMismatch)
    } else if associated_token_address(wallet@, mint@)@ != ata.key@ {
        Some(LandLordErrors::PublicKeyMismatch)
    } else {
        None
    }
}

/// Checks that `ata` is the initialized associated token account of `wallet` for
/// `mint`, and hands back its contents.
pub fn assert_is_ata(ata: &AccountInfo, wallet: &Pubkey, mint: &Pubkey) -> (r: Result<TokenAccount, LandLordErrors>)
    ensures
        match ata_check_error(*ata, *wallet, *mint) {
            Some(e) => r == Err::<TokenAccount, LandLordErrors>(e),
            None => r matches Ok(a) && token_account_decodes(ata.data@, a),
        },
        r is Ok ==> {
            &&& ata.owner@ == token_program_id_bytes()
            &&& ata.key@ == associated_token_address(wallet@, mint@)@
            &&& r->Ok_0.owner@ == wallet@
            &&& r->Ok_0.mint@ == mint@
            &&& r->Ok_0.state != crate::token::AccountState::Uninitialized
        },
{
    let token_program = token_program_id();
    assert_owned_by(ata, &token_program)?;
    let ata_account: TokenAccount = assert_initialized(unpack_token_account(ata.data.as_slice()))?;
    assert_keys_equal(&ata_account.owner, wallet)?;
    assert_keys_equal(&ata_account.mint, mint)?;
    assert_keys_equal(&get_associated_token_address(wallet, mint), &ata.key)?;
    Ok(ata_account)
}

} // verus!
