use vstd::prelude::*;

use crate::constants::{BOOL_LENGTH, DISCRIMINATOR_LENGTH, PUBLIC_KEY_LENGTH, U128_LENGTH};
use crate::errors::LandLordErrors;
use crate::pubkey::Pubkey;

verus! {

/// A dividend checkpoint: an amount of tokens to share among lockers.
#[derive(Clone, Copy, Debug)]
pub struct DividendDistributor {
    pub id: u64,
    pub root: [u8; 32],
    pub owner: Pubkey,
    pub token_mint: Pubkey,
    pub total_distribute_amount: u64,
    pub total_claimed: u64,
    pub freezed: bool,
}

impl DividendDistributor {
    pub const LEN: usize = DISCRIMINATOR_LENGTH + U128_LENGTH / 2 + U128_LENGTH * 2
        + PUBLIC_KEY_LENGTH + PUBLIC_KEY_LENGTH + U128_LENGTH + BOOL_LENGTH;

    /// What claims keep: no more has been claimed than there is to distribute.
    pub open spec fn wf(&self) -> bool {
        self.total_claimed <= self.total_distribute_amount
    }

    /// Sets up a checkpoint with nothing claimed yet.
    pub fn init(
        &mut self,
        id: u64,
        root: [u8; 32],
        owner: Pubkey,
        mint: Pubkey,
        total_distribute_amount: u64,
    ) -> (r: Result<(), LandLordErrors>)
        ensures
            r is Ok,
            *final(self) == (DividendDistributor {
                id,
                root,
                owner,
                token_mint: mint,
                total_claimed: 0,
                total_distribute_amount,
                freezed: false,
            }),
            final(self).wf(),
    {
        self.id = id;
        self.root = root;
        self.owner = owner;
        self.token_mint = mint;
        self.total_claimed = 0;
        self.total_distribute_amount = total_distribute_amount;
        self.freezed = false;
        Ok(())
    }
}

} // verus!
