use vstd::prelude::*;

use crate::constants::{BOOL_LENGTH, DISCRIMINATOR_LENGTH, PUBLIC_KEY_LENGTH, U128_LENGTH};
use crate::errors::LandLordErrors;
use crate::pubkey::Pubkey;
use crate::state::auction::AuctionState;
use crate::token::Mint;

verus! {

/// An issued real-estate asset and the state of its fractional tokens.
#[derive(Clone, Copy, Debug)]
pub struct AssetBasket {
    pub asset_tokenize: AssetTokenization,
    pub basket_id: u64,
    pub asset_id: Pubkey,
    pub asset_metadata: Pubkey,
    pub owner: Pubkey,
    pub governor: Pubkey,
    pub auction_state: AuctionState,
    pub average_price: u64,
    pub total_distribution_checkpoint: u64,
    pub iat: i64,
    pub is_freezed: bool,
    pub bump: u8,
}

/// The fractional token of an asset, once it has been fractionalized.
#[derive(Clone, Copy, Debug)]
pub struct AssetTokenization {
    pub token_mint: Pubkey,
    pub tokenized: bool,
    pub total_supply: u64,
    pub tokenized_at: i64,
}

/// The error with which fractionalizing a basket with this mint is refused, if any:
/// the basket must not be tokenized yet, and the mint must have decimals and no
/// supply.
pub open spec fn fractionalize_error(basket: AssetBasket, mint: Mint) -> Option<LandLordErrors> {
    if basket.asset_tokenize.tokenized {
        Some(LandLordErrors::NFTIsAlreadyFractionalized)
    } else if mint.decimals == 0 {
        Some(LandLordErrors::FractionalTokenZeroDecimals)
    } else if mint.supply > 0 {
        Some(LandLordErrors::FractionalTokenSupplyNotPure)
    } else {
        None
    }
}

impl AssetBasket {
    pub const LEN: usize = DISCRIMINATOR_LENGTH + PUBLIC_KEY_LENGTH + BOOL_LENGTH + U128_LENGTH
        + U128_LENGTH / 2 + PUBLIC_KEY_LENGTH * 4 + U128_LENGTH + U128_LENGTH + BOOL_LENGTH
        + U128_LENGTH / U128_LENGTH;

    /// Records a newly issued asset, issued at time `now`, unfrozen and with no auction.
    pub fn init(
        &mut self,
        basket_id: u64,
        bump: u8,
        asset_metadata: Pubkey,
        governor: Pubkey,
        owner: Pubkey,
        mint: Pubkey,
        now: i64,
    ) -> (r: Result<(), LandLordErrors>)
        ensures
            r is Ok,
            *final(self) == (AssetBasket {
                bump,
                basket_id,
                asset_metadata,
                governor,
                iat: now,
                asset_id: mint,
                owner,
                is_freezed: false,
                auction_state: AuctionState::INACTIVE,
                ..*old(self)
            }),
    {
        self.bump = bump;
        self.basket_id = basket_id;
        self.asset_metadata = asset_metadata;
        self.governor = governor;
        self.iat = now;
        self.asset_id = mint;
        self.owner = owner;
        self.is_freezed = false;
        self.auction_state = AuctionState::INACTIVE;
        Ok(())
    }

    /// Fractionalizes the asset into `total_supply` tokens of `mint` at time `now`;
    /// on refusal nothing changes.
    pub fn fractionalize(&mut self, total_supply: u64, mint_key: Pubkey, mint: &Mint, now: i64) -> (r: Result<(), LandLordErrors>)
        ensures
            match fractionalize_error(*old(self), *mint) {
                Some(e) => r == Err::<(), LandLordErrors>(e) && *final(self) == *old(self),
                None => r is Ok && *final(self) == (AssetBasket {
                    asset_tokenize: AssetTokenization {
                        token_mint: mint_key,
                        tokenized: true,
                        tokenized_at: now,
                        total_supply,
                    },
                    ..*old(self)
                }),
            },
    {
        if self.asset_tokenize.tokenized {
            return Err(LandLordErrors::NFTIsAlreadyFractionalized);
        }
        if mint.decimals == 0 {
            return Err(LandLordErrors::FractionalTokenZeroDecimals);
        }
        if mint.supply > 0 {
            return Err(LandLordErrors::FractionalTokenSupplyNotPure);
        }
        self.asset_tokenize = AssetTokenization {
            token_mint: mint_key,
            tokenized: true,
            tokenized_at: now,
            total_supply,
        };
        Ok(())
    }
}

} // verus!
