use vstd::prelude::*;

use crate::assertions::{assert_keys_equal, assert_keys_not_equal};
use crate::errors::LandLordErrors;
use crate::events::ExitEscrowEvent;
use crate::instructions::actions::{TokenTransfer, TransferSigner};
use crate::pubkey::Pubkey;
use crate::state::fractional_token_escrow::FractionalTokenEscrow;
use crate::state::fractionalized_token_locker::FractionalizedTokenLocker;

verus! {

/// The error with which leaving an escrow is refused, if any: the signer must own the
/// escrow, the destination must not be the escrow's token account, and the locker
/// must still be open at `now`.
pub open spec fn exit_error(
    locker: FractionalizedTokenLocker,
    escrow: FractionalTokenEscrow,
    escrow_owner: Pubkey,
    escrow_hodl: Pubkey,
    destination_tokens: Pubkey,
    now: i64,
) -> Option<LandLordErrors> {
    if escrow.owner@ != escrow_owner@ {
        Some(LandLordErrors::PublicKeyMismatch)
    } else if destination_tokens@ == escrow_hodl@ {
        Some(LandLordErrors::PublicKeyDidMatch)
    } else if locker.lock_end_time < now {
        Some(LandLordErrors::DistributionEndTimePassed)
    } else {
        None
    }
}

/// Leaves an escrow: its locked tokens go back to `destination_tokens` (signed by the
/// escrow's program address) and leave the locker's supply. The escrow account itself
/// is closed by the caller. On refusal nothing changes.
pub fn process_exit(
    locker_key: Pubkey,
    locker: &mut FractionalizedTokenLocker,
    escrow_key: Pubkey,
    escrow: &FractionalTokenEscrow,
    escrow_owner: Pubkey,
    escrow_hodl: Pubkey,
    destination_tokens: Pubkey,
    now: i64,
) -> (r: Result<(Option<TokenTransfer>, ExitEscrowEvent), LandLordErrors>)
    requires
        exit_error(*old(locker), *escrow, escrow_owner, escrow_hodl, destination_tokens, now) is None
            ==> escrow.locked_amount <= old(locker).locked_supply,
    ensures
        match exit_error(*old(locker), *escrow, escrow_owner, escrow_hodl, destination_tokens, now) {
            Some(e) => r == Err::<(Option<TokenTransfer>, ExitEscrowEvent), LandLordErrors>(e)
                && *final(locker) == *old(locker),
            None => {
                let transfer = if escrow.locked_amount > 0 {
                    Some(
                        TokenTransfer {
                            source: escrow_hodl,
                            destination: destination_tokens,
                            authority: escrow_key,
                            signer: TransferSigner::Escrow {
                                locker: escrow.locker,
                                owner: escrow.owner,
                                bump: escrow.bump,
                            },
                            amount: escrow.locked_amount,
                        },
                    )
                } else {
                    None
                };
                &&& *final(locker) == (FractionalizedTokenLocker {
                    locked_supply: (old(locker).locked_supply - escrow.locked_amount) as u64,
                    ..*old(locker)
                })
                &&& r == Ok::<(Option<TokenTransfer>, ExitEscrowEvent), LandLordErrors>((
                    transfer,
                    ExitEscrowEvent {
                        escrow_owner: escrow.owner,
                        locker: locker_key,
                        locker_supply: final(locker).locked_supply,
                        timestamp: now,
                        released_amount: escrow.locked_amount,
                    },
                ))
            },
        },
{
    assert_keys_equal(&escrow.owner, &escrow_owner)?;
    assert_keys_not_equal(&destination_tokens, &escrow_hodl)?;
    if locker.lock_end_time < now {
        return Err(LandLordErrors::DistributionEndTimePassed);
    }
    let transfer = if escrow.locked_amount > 0 {
        Some(TokenTransfer {
            source: escrow_hodl,
            destination: destination_tokens,
            authority: escrow_key,
            signer: TransferSigner::Escrow { locker: escrow.locker, owner: escrow.owner, bump: escrow.bump },
            amount: escrow.locked_amount,
        })
    } else {
        None
    };
    locker.locked_supply = locker.locked_supply - escrow.locked_amount;
    let event = ExitEscrowEvent {
        escrow_owner: escrow.owner,
        locker: locker_key,
        locker_supply: locker.locked_supply,
        timestamp: now,
        released_amount: escrow.locked_amount,
    };
    Ok((transfer, event))
}

} // verus!
