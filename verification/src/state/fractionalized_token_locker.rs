use vstd::prelude::*;

use crate::constants::{BOOL_LENGTH, DISCRIMINATOR_LENGTH, PUBLIC_KEY_LENGTH, U128_LENGTH};
use crate::pubkey::Pubkey;

verus! {

/// A group of escrows that lock one asset's fractional tokens for one dividend checkpoint.
#[derive(Clone, Copy, Debug)]
pub struct FractionalizedTokenLocker {
    pub basket_id: u64,
    /// The dividend checkpoint this locker serves.
    pub dividend_distributor: Pubkey,
    /// Governor associated with the locker.
    pub governor: Pubkey,
    /// Mint of the token that must be locked in the locker.
    pub token_mint: Pubkey,
    /// Total number of tokens locked in escrows.
    pub locked_supply: u64,
    /// The time after which nothing can be locked or withdrawn.
    pub lock_end_time: i64,
    /// Bump seed.
    pub bump: u8,
}

impl FractionalizedTokenLocker {
    pub const LEN: usize = DISCRIMINATOR_LENGTH + U128_LENGTH / 2 + PUBLIC_KEY_LENGTH
        + PUBLIC_KEY_LENGTH + PUBLIC_KEY_LENGTH + U128_LENGTH + BOOL_LENGTH;
}

} // verus!
