use vstd::prelude::*;

use crate::errors::LandLordErrors;
use crate::events::LockEvent;
use crate::instructions::actions::{TokenTransfer, TransferSigner};
use crate::pubkey::Pubkey;
use crate::state::fractional_token_escrow::FractionalTokenEscrow;
use crate::state::fractionalized_token_locker::FractionalizedTokenLocker;

verus! {

/// The deposit that locking `amount` tokens makes before anything is checked: the
/// tokens move from the source account into the escrow's token account, unless the
/// amount is zero (locking zero refreshes an existing lockup).
pub fn lock_deposit(source_tokens: Pubkey, escrow_token_hodl: Pubkey, escrow_owner: Pubkey, amount: u64) -> (r: Option<TokenTransfer>)
    ensures
        amount == 0 ==> r is None,
        amount > 0 ==> r == Some(
            TokenTransfer {
                source: source_tokens,
                destination: escrow_token_hodl,
                authority: escrow_owner,
                signer: TransferSigner::Caller,
                amount,
            },
        ),
{
    if amount > 0 {
        Some(TokenTransfer {
            source: source_tokens,
            destination: escrow_token_hodl,
            authority: escrow_owner,
            signer: TransferSigner::Caller,
            amount,
        })
    } else {
        None
    }
}

/// The error with which locking is refused, if any: the escrow's token account must
/// be the one given, and the locker must still be open at `now`.
pub open spec fn lock_error(
    locker: FractionalizedTokenLocker,
    escrow: FractionalTokenEscrow,
    escrow_token_hodl: Pubkey,
    now: i64,
) -> Option<LandLordErrors> {
    if escrow.hodl@ != escrow_token_hodl@ {
        Some(LandLordErrors::DistributionEndTimePassed)
    } else if locker.lock_end_time < now {
        Some(LandLordErrors::DistributionEndTimePassed)
    } else {
        None
    }
}

/// Counts `amount` newly deposited tokens in the escrow and in its locker. On refusal
/// nothing changes.
pub fn process_escrow_lock(
    locker_key: Pubkey,
    locker: &mut FractionalizedTokenLocker,
    escrow: &mut FractionalTokenEscrow,
    escrow_token_hodl: Pubkey,
    amount: u64,
    now: i64,
) -> (r: Result<LockEvent, LandLordErrors>)
    requires
        lock_error(*old(locker), *old(escrow), escrow_token_hodl, now) is None ==> {
            &&& old(escrow).locked_amount + amount <= u64::MAX
            &&& old(locker).locked_supply + amount <= u64::MAX
        },
    ensures
        match lock_error(*old(locker), *old(escrow), escrow_token_hodl, now) {
            Some(e) => r == Err::<LockEvent, LandLordErrors>(e) && *final(locker) == *old(locker)
                && *final(escrow) == *old(escrow),
            None => {
                &&& *final(escrow) == (FractionalTokenEscrow {
                    locked_amount: (old(escrow).locked_amount + amount) as u64,
                    ..*old(escrow)
                })
                &&& *final(locker) == (FractionalizedTokenLocker {
                    locked_supply: (old(locker).locked_supply + amount) as u64,
                    ..*old(locker)
                })
                &&& r == Ok::<LockEvent, LandLordErrors>(
                    LockEvent {
                        locker: locker_key,
                        locker_supply: final(locker).locked_supply,
                        escrow_owner: old(escrow).owner,
                        token_mint: old(locker).token_mint,
                        amount,
                    },
                )
            },
        },
{
    if !escrow.hodl.equals(&escrow_token_hodl) {
        return Err(LandLordErrors::DistributionEndTimePassed);
    }
    if locker.lock_end_time < now {
        return Err(LandLordErrors::DistributionEndTimePassed);
    }
    escrow.locked_amount = escrow.locked_amount + amount;
    locker.locked_supply = locker.locked_supply + amount;
    Ok(LockEvent {
        locker: locker_key,
        locker_supply: locker.locked_supply,
        escrow_owner: escrow.owner,
        token_mint: locker.token_mint,
        amount,
    })
}

} // verus!
