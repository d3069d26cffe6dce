use vstd::prelude::*;

use crate::events::NewEscrowEvent;
use crate::pubkey::{associated_token_address, get_associated_token_address, Pubkey};
use crate::state::fractional_token_escrow::FractionalTokenEscrow;
use crate::state::fractionalized_token_locker::FractionalizedTokenLocker;

verus! {

/// Opens an empty escrow for `escrow_owner` in a locker; its tokens are held in the
/// escrow's associated token account for the locker's mint.
pub fn process_new_escrow(
    escrow_key: Pubkey,
    escrow_bump: u8,
    locker_key: Pubkey,
    locker: &FractionalizedTokenLocker,
    escrow_owner: Pubkey,
    now: i64,
) -> (r: (FractionalTokenEscrow, NewEscrowEvent))
    ensures
        r.0 == (FractionalTokenEscrow {
            locker: locker_key,
            owner: escrow_owner,
            bump: escrow_bump,
            hodl: associated_token_address(escrow_key@, locker.token_mint@),
            locked_amount: 0,
            suggested_price: 0,
        }),
        r.1 == (NewEscrowEvent { escrow: escrow_key, escrow_owner, locker: locker_key, timestamp: now }),
{
    let hodl = get_associated_token_address(&escrow_key, &locker.token_mint);
    let escrow = FractionalTokenEscrow {
        locker: locker_key,
        owner: escrow_owner,
        bump: escrow_bump,
        hodl,
        locked_amount: 0,
        suggested_price: 0,
    };
    let event = NewEscrowEvent {
        escrow: escrow_key,
        escrow_owner: escrow.owner,
        locker: escrow.locker,
        timestamp: now,
    };
    (escrow, event)
}

} // verus!
