pub mod asset_basket;
pub mod auction;
pub mod dividend_claimed;
pub mod dividend_distributor;
pub mod fractional_token_escrow;
pub mod fractionalized_token_locker;
pub mod platform_governor;
pub mod setting;
