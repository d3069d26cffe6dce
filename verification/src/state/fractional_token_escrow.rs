use vstd::prelude::*;

use crate::constants::{BOOL_LENGTH, DISCRIMINATOR_LENGTH, PUBLIC_KEY_LENGTH, U128_LENGTH};
use crate::pubkey::Pubkey;

verus! {

/// One owner's locked fractional tokens in a locker.
#[derive(Clone, Copy, Debug)]
pub struct FractionalTokenEscrow {
    /// The locker that this escrow is part of.
    pub locker: Pubkey,
    pub owner: Pubkey,
    /// The token account holding the escrow tokens.
    pub hodl: Pubkey,
    pub locked_amount: u64,
    pub suggested_price: u64,
    pub bump: u8,
}

impl FractionalTokenEscrow {
    pub const LEN: usize = DISCRIMINATOR_LENGTH + PUBLIC_KEY_LENGTH + PUBLIC_KEY_LENGTH
        + PUBLIC_KEY_LENGTH + U128_LENGTH + BOOL_LENGTH;
}

} // verus!
