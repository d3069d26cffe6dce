use vstd::prelude::*;
use vstd::bytes::spec_u64_from_le_bytes;

use crate::assertions::{assert_is_ata, ata_check_error};
use crate::errors::LandLordErrors;
use crate::events::AssetIssuance;
use crate::instructions::actions::{Creator, FeePayment, MintTo, TokenTransfer, TransferSigner};
use crate::pubkey::Pubkey;
use crate::state::asset_basket::AssetBasket;
use crate::state::auction::AuctionState;
use crate::state::platform_governor::PlatformGovernor;
use crate::token::AccountInfo;

verus! {

/// What issuing an asset asks of other programs, besides the fee: mint the one NFT to
/// the owner's token account, then create its metadata (with these creators, the
/// governor's symbol, a one-basis-point seller fee, a signing update authority,
/// immutable) and its master
/// edition (with no further supply).
#[derive(Clone, Debug)]
pub struct IssuePlan {
    pub fee: FeePayment,
    pub mint_to: MintTo,
    pub creators: Vec<Creator>,
    pub symbol: String,
    pub seller_fee_basis_points: u16,
    pub update_authority_is_signer: bool,
    pub is_mutable: bool,
    pub max_supply: Option<u64>,
    pub event: AssetIssuance,
}

/// The error with which issuing is refused, if any: the governor must be mutable; when
/// it names a payment token and a token account is given, that account must be the
/// owner's associated token account for the asset's mint and hold at least the price;
/// when it names none, the owner must hold at least the price in lamports.
pub open spec fn issue_error(
    governor: PlatformGovernor,
    owner: AccountInfo,
    mint: Pubkey,
    remaining_accounts: Seq<AccountInfo>,
) -> Option<LandLordErrors> {
    if !governor.is_mutable {
        Some(LandLordErrors::ImmutableGovernor)
    } else if governor.minting_protocol_token is Some {
        if remaining_accounts.len() == 0 {
            None
        } else {
            match ata_check_error(remaining_accounts[0], owner.key, mint) {
                Some(e) => Some(e),
                None => if spec_u64_from_le_bytes(remaining_accounts[0].data@.subrange(64, 72))
                    < governor.minting_protocol_price {
                    Some(LandLordErrors::NotEnoughTokens)
                } else {
                    None
                },
            }
        }
    } else if owner.lamports < governor.minting_protocol_price {
        Some(LandLordErrors::NotEnoughSOL)
    } else {
        None
    }
}

/// The fee an issuer pays when nothing is refused.
pub open spec fn issue_fee(
    governor: PlatformGovernor,
    owner: AccountInfo,
    treasury: Pubkey,
    remaining_accounts: Seq<AccountInfo>,
) -> FeePayment {
    if governor.minting_protocol_token is Some {
        if remaining_accounts.len() == 0 {
            FeePayment::Nothing
        } else {
            FeePayment::Tokens {
                transfer: TokenTransfer {
                    source: remaining_accounts[0].key,
                    destination: treasury,
                    authority: owner.key,
                    signer: TransferSigner::Caller,
                    amount: governor.minting_protocol_price,
                },
            }
        }
    } else {
        FeePayment::Lamports { from: owner.key, to: treasury, amount: governor.minting_protocol_price }
    }
}

/// Decides the fee, checking the issuer's means to pay it.
fn take_fee(
    governor: &PlatformGovernor,
    owner: &AccountInfo,
    mint: Pubkey,
    treasury: Pubkey,
    remaining_accounts: &Vec<AccountInfo>,
) -> (r: Result<FeePayment, LandLordErrors>)
    requires
        governor.is_mutable,
    ensures
        match issue_error(*governor, *owner, mint, remaining_accounts@) {
            Some(e) => r == Err::<FeePayment, LandLordErrors>(e),
            None => r == Ok::<FeePayment, LandLordErrors>(issue_fee(*governor, *owner, treasury, remaining_accounts@)),
        },
{
    if governor.minting_protocol_token.is_some() {
        if remaining_accounts.len() > 0 {
            let token_account_info = &remaining_accounts[0];
            let token_account = assert_is_ata(token_account_info, &owner.key, &mint)?;
            if token_account.amount < governor.minting_protocol_price {
                return Err(LandLordErrors::NotEnoughTokens);
            }
            Ok(FeePayment::Tokens {
                transfer: TokenTransfer {
                    source: token_account_info.key,
                    destination: treasury,
                    authority: owner.key,
                    signer: TransferSigner::Caller,
                    amount: governor.minting_protocol_price,
                },
            })
        } else {
            Ok(FeePayment::Nothing)
        }
    } else {
        if owner.lamports < governor.minting_protocol_price {
            return Err(LandLordErrors::NotEnoughSOL);
        }
        Ok(FeePayment::Lamports { from: owner.key, to: treasury, amount: governor.minting_protocol_price })
    }
}

/// Issues an asset: the governor counts one more minted asset, the basket records it
/// under that count at time `now`, the owner pays the protocol fee, and the NFT is
/// minted with its metadata and master edition. On refusal nothing changes.
pub fn process_issue_asset(
    governor_key: Pubkey,
    governor: &mut PlatformGovernor,
    basket_key: Pubkey,
    basket: &mut AssetBasket,
    basket_bump: u8,
    owner: &AccountInfo,
    mint: Pubkey,
    mint_authority: Pubkey,
    metadata: Pubkey,
    master_edition: Pubkey,
    token_account: Pubkey,
    treasury: Pubkey,
    remaining_accounts: &Vec<AccountInfo>,
    now: i64,
) -> (r: Result<IssuePlan, LandLordErrors>)
    requires
        old(governor).is_mutable ==> old(governor).total_assets_minted < u64::MAX,
    ensures
        match issue_error(*old(governor), *owner, mint, remaining_accounts@) {
            Some(e) => r == Err::<IssuePlan, LandLordErrors>(e) && *final(governor) == *old(governor)
                && *final(basket) == *old(basket),
            None => {
                let minted = (old(governor).total_assets_minted + 1) as u64;
                &&& *final(governor) == (PlatformGovernor { total_assets_minted: minted, ..*old(governor) })
                &&& *final(basket) == (AssetBasket {
                    bump: basket_bump,
                    basket_id: minted,
                    asset_metadata: metadata,
                    governor: governor_key,
                    iat: now,
                    asset_id: mint,
                    owner: owner.key,
                    is_freezed: false,
                    auction_state: AuctionState::INACTIVE,
                    ..*old(basket)
                })
                &&& r matches Ok(plan) && {
                    &&& plan.fee == issue_fee(*old(governor), *owner, treasury, remaining_accounts@)
                    &&& plan.mint_to == (MintTo { mint, to: token_account, authority: mint_authority, amount: 1 })
                    &&& plan.creators@ == seq![
                        Creator { address: owner.key, verified: false, share: 90 },
                        Creator { address: old(governor).big_guardian, verified: false, share: 10 },
                    ]
                    &&& plan.symbol@ == old(governor).symbol@
                    &&& plan.seller_fee_basis_points == 1
                    &&& plan.update_authority_is_signer
                    &&& !plan.is_mutable
                    &&& plan.max_supply == Some(0u64)
                    &&& plan.event == (AssetIssuance {
                        asset_id: mint,
                        owner: owner.key,
                        owner_pda: basket_key,
                        iat: now,
                        master_edition,
                        metadata,
                        asset_token_account: token_account,
                    })
                }
            },
        },
{
    if !governor.is_mutable {
        return Err(LandLordErrors::ImmutableGovernor);
    }
    let fee = take_fee(governor, owner, mint, treasury, remaining_accounts)?;

    governor.increase_total_minted(1)?;
    basket.init(governor.total_assets_minted, basket_bump, metadata, governor_key, owner.key, mint, now)?;

    let event = AssetIssuance {
        asset_id: mint,
        owner: owner.key,
        owner_pda: basket_key,
        iat: basket.iat,
        master_edition,
        metadata,
        asset_token_account: token_account,
    };
    let mut creators: Vec<Creator> = Vec::new();
    creators.push(Creator { address: owner.key, verified: false, share: 90 });
    creators.push(Creator { address: governor.big_guardian, verified: false, share: 10 });
    Ok(IssuePlan {
        fee,
        mint_to: MintTo { mint, to: token_account, authority: mint_authority, amount: 1 },
        creators,
        symbol: governor.symbol.clone(),
        seller_fee_basis_points: 1,
        update_authority_is_signer: true,
        is_mutable: false,
        max_supply: Some(0),
        event,
    })
}

} // verus!
