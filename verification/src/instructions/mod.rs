pub mod actions;
pub mod fractionalize_nft;
pub mod claim_dividend;
pub mod create_distribute_dividend;
pub mod exit;
pub mod lock;
pub mod new_escrow;
pub mod new_platform;
pub mod issue_nft;
pub mod vote_on_price;
