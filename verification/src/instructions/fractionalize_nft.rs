use vstd::prelude::*;

use crate::assertions::cmp_pubkeys;
use crate::errors::LandLordErrors;
use crate::instructions::actions::MintTo;
use crate::pubkey::Pubkey;
use crate::state::asset_basket::{fractionalize_error, AssetBasket};
use crate::token::{coption_tag_valid, Mint, TokenAccount};

verus! {

/// `v` is the key option packed in `src`: tag `[0, 0, 0, 0]` for none, or tag
/// `[1, 0, 0, 0]` followed by the key's 32 bytes.
pub open spec fn coption_key_decodes(src: Seq<u8>, v: Option<Pubkey>) -> bool {
    match v {
        None => src.take(4) == seq![0u8, 0, 0, 0],
        Some(k) => src.take(4) == seq![1u8, 0, 0, 0] && k.bytes@ == src.subrange(4, 36),
    }
}

/// Unpacks an optional key in the token program's packed layout; any tag other than
/// the two it uses is refused as invalid account data.
pub fn unpack_coption_key(src: &[u8; 36]) -> (r: Result<Option<Pubkey>, LandLordErrors>)
    ensures
        r is Err <==> !coption_tag_valid(src@.take(4)),
        r is Err ==> r == Err::<Option<Pubkey>, LandLordErrors>(LandLordErrors::InvalidAccountData),
        r matches Ok(v) ==> coption_key_decodes(src@, v),
{
    proof {
        assert(src@.take(4) =~= seq![src@[0], src@[1], src@[2], src@[3]]);
    }
    if src[1] != 0 || src[2] != 0 || src[3] != 0 {
        return Err(LandLordErrors::InvalidAccountData);
    }
    if src[0] == 0 {
        Ok(None)
    } else if src[0] == 1 {
        let mut body = [0u8; 32];
        let mut i: usize = 0;
        while i < 32
            invariant
                i <= 32,
                forall|j: int| 0 <= j < i ==> body@[j] == src@[4 + j],
            decreases 32 - i,
        {
            body[i] = src[4 + i];
            i = i + 1;
        }
        assert(body@ =~= src@.subrange(4, 36));
        Ok(Some(Pubkey { bytes: body }))
    } else {
        Err(LandLordErrors::InvalidAccountData)
    }
}

/// Reads the freeze authority of a mint from its packed data (the 36 bytes at offset
/// 46).
pub fn get_mint_freeze_authority(data: &[u8]) -> (r: Result<Option<Pubkey>, LandLordErrors>)
    requires
        data@.len() >= 82,
    ensures
        r is Err <==> !coption_tag_valid(data@.subrange(46, 50)),
        r is Err ==> r == Err::<Option<Pubkey>, LandLordErrors>(LandLordErrors::InvalidAccountData),
        r matches Ok(v) ==> coption_key_decodes(data@.subrange(46, 82), v),
{
    let mut authority_bytes = [0u8; 36];
    let mut i: usize = 0;
    while i < 36
        invariant
            i <= 36,
            data@.len() >= 82,
            forall|j: int| 0 <= j < i ==> authority_bytes@[j] == data@[46 + j],
        decreases 36 - i,
    {
        authority_bytes[i] = data[46 + i];
        i = i + 1;
    }
    assert(authority_bytes@ =~= data@.subrange(46, 82));
    assert(authority_bytes@.take(4) =~= data@.subrange(46, 50));
    unpack_coption_key(&authority_bytes)
}

/// The freeze authority that handing a mint to the governor requires: the mint must
/// have one, or handing over fails with `NoFreezeAuthoritySet`.
pub fn require_freeze_authority(mint_data: &[u8]) -> (r: Result<Pubkey, LandLordErrors>)
    requires
        mint_data@.len() >= 82,
    ensures
        !coption_tag_valid(mint_data@.subrange(46, 50)) ==> r == Err::<Pubkey, LandLordErrors>(
            LandLordErrors::InvalidAccountData,
        ),
        coption_key_decodes(mint_data@.subrange(46, 82), None) ==> r == Err::<Pubkey, LandLordErrors>(
            LandLordErrors::NoFreezeAuthoritySet,
        ),
        r matches Ok(k) ==> coption_key_decodes(mint_data@.subrange(46, 82), Some(k)),
        coption_tag_valid(mint_data@.subrange(46, 50)) && mint_data@[46] == 1 ==> r is Ok,
{
    proof {
        assert(mint_data@.subrange(46, 82).take(4) =~= mint_data@.subrange(46, 50));
        assert(seq![0u8, 0, 0, 0][0] != seq![1u8, 0, 0, 0][0]);
    }
    let freeze_authority = get_mint_freeze_authority(mint_data)?;
    match freeze_authority {
        Some(k) => Ok(k),
        None => Err(LandLordErrors::NoFreezeAuthoritySet),
    }
}

/// What fractionalizing an asset asks of the token program: mint the whole supply to
/// the owner's token account, then hand the mint (and its freeze authority) to the
/// big guardian.
#[derive(Clone, Copy, Debug)]
pub struct FractionalizePlan {
    pub mint_to: MintTo,
    pub new_mint_authority: Pubkey,
}

/// The error with which fractionalizing is refused, if any: the basket must belong to
/// the governor and the owner, the owner's token account must hold the mint and
/// belong to the owner, and the basket must accept the mint.
pub open spec fn fractionalize_asset_error(
    basket: AssetBasket,
    governor: Pubkey,
    owner: Pubkey,
    mint_key: Pubkey,
    mint: Mint,
    token_account: TokenAccount,
) -> Option<LandLordErrors> {
    if basket.governor.bytes@ != governor.bytes@ {
        Some(LandLordErrors::GovernorMismatch)
    } else if basket.owner.bytes@ != owner.bytes@ {
        Some(LandLordErrors::NFTOwnerMismatch)
    } else if token_account.mint.bytes@ != mint_key.bytes@ {
        Some(LandLordErrors::TokenAccountMintMismatched)
    } else if token_account.owner.bytes@ != owner.bytes@ {
        Some(LandLordErrors::TokenAccountOwnerMismatched)
    } else {
        fractionalize_error(basket, mint)
    }
}

/// Fractionalizes an asset into `total_supply` tokens of `mint`. The basket account is
/// read, not written: the checks of `AssetBasket::fractionalize` apply, but the basket
/// that is stored does not change.
pub fn process_fractionalize_asset(
    basket: &AssetBasket,
    governor: Pubkey,
    owner: Pubkey,
    big_guardian: Pubkey,
    mint_key: Pubkey,
    mint: &Mint,
    token_account_key: Pubkey,
    token_account: &TokenAccount,
    total_supply: u64,
    now: i64,
) -> (r: Result<FractionalizePlan, LandLordErrors>)
    ensures
        match fractionalize_asset_error(*basket, governor, owner, mint_key, *mint, *token_account) {
            Some(e) => r == Err::<FractionalizePlan, LandLordErrors>(e),
            None => r == Ok::<FractionalizePlan, LandLordErrors>(
                FractionalizePlan {
                    mint_to: MintTo { mint: mint_key, to: token_account_key, authority: owner, amount: total_supply },
                    new_mint_authority: big_guardian,
                },
            ),
        },
{
    if !cmp_pubkeys(&basket.governor, &governor) {
        return Err(LandLordErrors::GovernorMismatch);
    }
    if !cmp_pubkeys(&basket.owner, &owner) {
        return Err(LandLordErrors::NFTOwnerMismatch);
    }
    if !cmp_pubkeys(&token_account.mint, &mint_key) {
        return Err(LandLordErrors::TokenAccountMintMismatched);
    }
    if !cmp_pubkeys(&token_account.owner, &owner) {
        return Err(LandLordErrors::TokenAccountOwnerMismatched);
    }
    let mut working = *basket;
    working.fractionalize(total_supply, mint_key, mint, now)?;
    Ok(FractionalizePlan {
        mint_to: MintTo { mint: mint_key, to: token_account_key, authority: owner, amount: total_supply },
        new_mint_authority: big_guardian,
    })
}

} // verus!
