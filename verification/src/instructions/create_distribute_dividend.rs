use vstd::prelude::*;

use crate::assertions::{assert_is_ata, ata_check_error};
use crate::errors::LandLordErrors;
use crate::events::DistributionCreated;
use crate::instructions::actions::{TokenTransfer, TransferSigner};
use crate::instructions::claim_dividend::{find_treasury_authority, treasury_authority_address};
use crate::pubkey::Pubkey;
use crate::state::asset_basket::AssetBasket;
use crate::state::dividend_distributor::DividendDistributor;
use crate::state::fractionalized_token_locker::FractionalizedTokenLocker;
use crate::state::platform_governor::PlatformGovernor;
use crate::state::setting::LafomuoSetting;
use crate::token::{AccountInfo, TokenAccount};

verus! {

/// The error with which creating a dividend checkpoint is refused, if any, checked in
/// this order: the owner's token account must hold the mint and belong to the owner,
/// the treasury token account must hold the mint, the treasury authority address must
/// exist and the treasury account must be its associated token account for the mint.
pub open spec fn create_checkpoint_error(
    owner: Pubkey,
    mint: Pubkey,
    owner_token_account: TokenAccount,
    treasury_info: AccountInfo,
    treasury_token_account: TokenAccount,
) -> Option<LandLordErrors> {
    if owner_token_account.mint@ != mint@ {
        Some(LandLordErrors::TokenAccountMintMismatched)
    } else if owner_token_account.owner@ != owner@ {
        Some(LandLordErrors::TokenAccountOwnerMismatched)
    } else if treasury_token_account.mint@ != mint@ {
        Some(LandLordErrors::TokenAccountMintMismatched)
    } else {
        match treasury_authority_address() {
            None => Some(LandLordErrors::TokenTreasuryPDANotFound),
            Some((key, _)) => ata_check_error(treasury_info, key, mint),
        }
    }
}

/// Creates the next dividend checkpoint of an asset: a distributor for
/// `total_distribution_amount` tokens of `mint`, numbered by the basket's checkpoint
/// count, and an empty locker for it that closes `pre_lock_before_distribution`
/// seconds after `now`. The owner pays the amount into the treasury; the governor and
/// the basket each count one more checkpoint. On refusal nothing changes.
pub fn process_create_dividend_distribution_checkpoint(
    distributor_key: Pubkey,
    distributor: &mut DividendDistributor,
    locker_key: Pubkey,
    locker: &mut FractionalizedTokenLocker,
    locker_bump: u8,
    basket: &mut AssetBasket,
    governor_key: Pubkey,
    governor: &mut PlatformGovernor,
    setting: &LafomuoSetting,
    owner: Pubkey,
    mint: Pubkey,
    owner_token_account_key: Pubkey,
    owner_token_account: &TokenAccount,
    treasury_info: &AccountInfo,
    treasury_token_account: &TokenAccount,
    root: [u8; 32],
    total_distribution_amount: u64,
    now: i64,
) -> (r: Result<(TokenTransfer, DistributionCreated), LandLordErrors>)
    requires
        i64::MIN <= now + setting.pre_lock_before_distribution <= i64::MAX,
        create_checkpoint_error(owner, mint, *owner_token_account, *treasury_info, *treasury_token_account) is None ==> {
            &&& old(governor).total_dividend_checkpoint < u64::MAX
            &&& old(basket).total_distribution_checkpoint < u64::MAX
        },
    ensures
        match create_checkpoint_error(owner, mint, *owner_token_account, *treasury_info, *treasury_token_account) {
            Some(e) => {
                &&& r == Err::<(TokenTransfer, DistributionCreated), LandLordErrors>(e)
                &&& *final(distributor) == *old(distributor)
                &&& *final(locker) == *old(locker)
                &&& *final(basket) == *old(basket)
                &&& *final(governor) == *old(governor)
            },
            None => {
                let id = old(basket).total_distribution_checkpoint;
                let start = (now + setting.pre_lock_before_distribution) as i64;
                &&& r == Ok::<(TokenTransfer, DistributionCreated), LandLordErrors>((
                    TokenTransfer {
                        source: owner_token_account_key,
                        destination: treasury_info.key,
                        authority: owner,
                        signer: TransferSigner::Caller,
                        amount: total_distribution_amount,
                    },
                    DistributionCreated {
                        checkpoint_id: id,
                        distributor: distributor_key,
                        owner,
                        total_distribution_amount,
                        start_distribution_at: start,
                        locker: locker_key,
                    },
                ))
                &&& *final(distributor) == (DividendDistributor {
                    id,
                    root,
                    owner,
                    token_mint: mint,
                    total_distribute_amount: total_distribution_amount,
                    total_claimed: 0,
                    freezed: false,
                })
                &&& *final(locker) == (FractionalizedTokenLocker {
                    basket_id: old(basket).basket_id,
                    dividend_distributor: distributor_key,
                    governor: governor_key,
                    token_mint: old(basket).asset_tokenize.token_mint,
                    locked_supply: 0,
                    lock_end_time: start,
                    bump: locker_bump,
                })
                &&& *final(basket) == (AssetBasket {
                    total_distribution_checkpoint: (id + 1) as u64,
                    ..*old(basket)
                })
                &&& *final(governor) == (PlatformGovernor {
                    total_dividend_checkpoint: (old(governor).total_dividend_checkpoint + 1) as u64,
                    ..*old(governor)
                })
            },
        },
{
    if !owner_token_account.mint.equals(&mint) {
        return Err(LandLordErrors::TokenAccountMintMismatched);
    }
    if !owner_token_account.owner.equals(&owner) {
        return Err(LandLordErrors::TokenAccountOwnerMismatched);
    }
    if !treasury_token_account.mint.equals(&mint) {
        return Err(LandLordErrors::TokenAccountMintMismatched);
    }
    let start_distribution_at = now + setting.pre_lock_before_distribution;

    match find_treasury_authority() {
        Some((key, _)) => {
            assert_is_ata(treasury_info, &key, &mint)?;
        },
        None => {
            return Err(LandLordErrors::TokenTreasuryPDANotFound);
        },
    }

    let checkpoint_id = basket.total_distribution_checkpoint;
    distributor.init(checkpoint_id, root, owner, mint, total_distribution_amount)?;

    locker.bump = locker_bump;
    locker.dividend_distributor = distributor_key;
    locker.governor = governor_key;
    locker.locked_supply = 0;
    locker.basket_id = basket.basket_id;
    locker.lock_end_time = start_distribution_at;
    locker.token_mint = basket.asset_tokenize.token_mint;

    let transfer = TokenTransfer {
        source: owner_token_account_key,
        destination: treasury_info.key,
        authority: owner,
        signer: TransferSigner::Caller,
        amount: total_distribution_amount,
    };
    governor.update_dividend_checkpoints(1)?;

    let event = DistributionCreated {
        checkpoint_id,
        distributor: distributor_key,
        owner,
        total_distribution_amount,
        start_distribution_at,
        locker: locker_key,
    };
    basket.total_distribution_checkpoint = basket.total_distribution_checkpoint + 1;
    Ok((transfer, event))
}

} // verus!
