use vstd::prelude::*;

use crate::constants::{DISCRIMINATOR_LENGTH, PUBLIC_KEY_LENGTH, U128_LENGTH};
use crate::pubkey::Pubkey;

verus! {

/// What one claimer has claimed from one dividend checkpoint.
#[derive(Clone, Copy, Debug)]
pub struct DividendClaimedDetails {
    pub checkpoint_id: u64,
    pub claimer: Pubkey,
    pub token_mint: Pubkey,
    pub total_claimed: u64,
    pub last_claim_epoch: i64,
}

impl DividendClaimedDetails {
    pub const LEN: usize = DISCRIMINATOR_LENGTH + U128_LENGTH / 2 + PUBLIC_KEY_LENGTH
        + PUBLIC_KEY_LENGTH + U128_LENGTH;
}

} // verus!
