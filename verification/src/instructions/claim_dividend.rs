use vstd::prelude::*;

use crate::assertions::{assert_is_ata, ata_check_error};
use crate::constants::{token_treasury_authority_pda_seed, token_treasury_authority_seed};
use crate::errors::LandLordErrors;
use crate::events::DividendClaimed;
use crate::instructions::actions::{TokenTransfer, TransferSigner};
use crate::pubkey::{id, program_address, program_id_bytes, try_find_program_address, Pubkey};
use crate::state::dividend_claimed::DividendClaimedDetails;
use crate::state::dividend_distributor::DividendDistributor;
use crate::state::fractional_token_escrow::FractionalTokenEscrow;
use crate::state::fractionalized_token_locker::FractionalizedTokenLocker;
use crate::token::{AccountInfo, TokenAccount};

verus! {

/// The program address of the treasury's authority and its bump, if one exists.
pub open spec fn treasury_authority_address() -> Option<(Pubkey, u8)> {
    program_address(seq![token_treasury_authority_pda_seed()], program_id_bytes())
}

/// Derives the program address of the treasury's authority.
pub fn find_treasury_authority() -> (r: Option<(Pubkey, u8)>)
    ensures
        r == treasury_authority_address(),
{
    let seed = token_treasury_authority_seed();
    let program_id = id();
    try_find_program_address(seed.as_slice(), &program_id)
}

/// An escrow's share of a dividend: the distributed amount in proportion to the
/// escrow's part of the locked supply, rounded down (and cut to 64 bits).
pub open spec fn claimable_amount(total_distribute_amount: u64, locked_amount: u64, locked_supply: u64) -> u64 {
    ((total_distribute_amount as int * locked_amount as int) / locked_supply as int) as u64
}

/// Computes an escrow's share of a dividend in 128-bit arithmetic.
pub fn compute_claimable_amount(total_distribute_amount: u64, locked_amount: u64, locked_supply: u64) -> (r: u64)
    requires
        locked_supply > 0,
    ensures
        r == claimable_amount(total_distribute_amount, locked_amount, locked_supply),
{
    let total = total_distribute_amount as u128;
    let locked = locked_amount as u128;
    assert(total * locked <= 0xffff_ffff_ffff_ffffu128 * 0xffff_ffff_ffff_ffffu128) by (nonlinear_arith)
        requires
            total <= 0xffff_ffff_ffff_ffffu128,
            locked <= 0xffff_ffff_ffff_ffffu128,
    ;
    ((total * locked) / (locked_supply as u128)) as u64
}

/// The error with which a claim is refused, if any, checked in this order: the token
/// accounts must hold the dividend's mint and belong to the claimer and the treasury
/// authority; the claim must fit in what is left to distribute; nothing may have been
/// claimed on this record yet; the treasury authority address must exist and the
/// treasury account must be its associated token account for the mint.
pub open spec fn claim_error(
    distributor: DividendDistributor,
    claimable: u64,
    claimer: Pubkey,
    claimer_token_account: TokenAccount,
    treasury_info: AccountInfo,
    treasury_token_account: TokenAccount,
    treasury_authority: Pubkey,
    claimed: DividendClaimedDetails,
) -> Option<LandLordErrors> {
    if claimer_token_account.mint@ != distributor.token_mint@ {
        Some(LandLordErrors::TokenAccountMintMismatched)
    } else if claimer_token_account.owner@ != claimer@ {
        Some(LandLordErrors::TokenAccountOwnerMismatched)
    } else if treasury_token_account.mint@ != distributor.token_mint@ {
        Some(LandLordErrors::TokenAccountMintMismatched)
    } else if treasury_token_account.owner@ != treasury_authority@ {
        Some(LandLordErrors::TokenAccountOwnerMismatched)
    } else if distributor.total_claimed + claimable > distributor.total_distribute_amount {
        Some(LandLordErrors::ExceedsTotalDistributionAmount)
    } else if claimed.total_claimed != 0 {
        Some(LandLordErrors::DividendAlreadyClaimed)
    } else {
        match treasury_authority_address() {
            None => Some(LandLordErrors::TokenTreasuryPDANotFound),
            Some((key, _)) => ata_check_error(treasury_info, key, distributor.token_mint),
        }
    }
}

/// The account constraints of a claim: each token account holds the dividend's mint
/// and belongs to its claimed owner.
pub open spec fn claim_accounts_valid(
    distributor: DividendDistributor,
    claimer: Pubkey,
    claimer_token_account: TokenAccount,
    treasury_token_account: TokenAccount,
    treasury_authority: Pubkey,
) -> bool {
    &&& claimer_token_account.mint@ == distributor.token_mint@
    &&& claimer_token_account.owner@ == claimer@
    &&& treasury_token_account.mint@ == distributor.token_mint@
    &&& treasury_token_account.owner@ == treasury_authority@
}

/// Claims an escrow's share of a dividend checkpoint for the escrow's owner: the
/// share moves from the treasury to the claimer, the distributor counts it, and the
/// claim record remembers it. On refusal nothing changes.
pub fn process_claim_dividend(
    distributor_key: Pubkey,
    distributor: &mut DividendDistributor,
    locker: &FractionalizedTokenLocker,
    escrow: &FractionalTokenEscrow,
    claimer: Pubkey,
    claimer_token_account_key: Pubkey,
    claimer_token_account: &TokenAccount,
    treasury_info: &AccountInfo,
    treasury_token_account: &TokenAccount,
    treasury_authority: Pubkey,
    claimed: &mut DividendClaimedDetails,
    now: i64,
) -> (r: Result<(TokenTransfer, DividendClaimed), LandLordErrors>)
    requires
        claim_accounts_valid(*old(distributor), claimer, *claimer_token_account, *treasury_token_account, treasury_authority)
            ==> locker.locked_supply > 0 && old(distributor).total_claimed + claimable_amount(
            old(distributor).total_distribute_amount,
            escrow.locked_amount,
            locker.locked_supply,
        ) <= u64::MAX,
    ensures
        ({
            let d = *old(distributor);
            let amount = claimable_amount(d.total_distribute_amount, escrow.locked_amount, locker.locked_supply);
            match claim_error(d, amount, claimer, *claimer_token_account, *treasury_info, *treasury_token_account, treasury_authority, *old(claimed)) {
                Some(e) => r == Err::<(TokenTransfer, DividendClaimed), LandLordErrors>(e)
                    && *final(distributor) == *old(distributor) && *final(claimed) == *old(claimed),
                None => {
                    let bump = treasury_authority_address()->Some_0.1;
                    &&& r == Ok::<(TokenTransfer, DividendClaimed), LandLordErrors>((
                        TokenTransfer {
                            source: treasury_info.key,
                            destination: claimer_token_account_key,
                            authority: treasury_authority,
                            signer: TransferSigner::TreasuryAuthority { bump },
                            amount,
                        },
                        DividendClaimed {
                            checkpoint_id: d.id,
                            distributor: distributor_key,
                            owner: claimer,
                            total_claimed: amount,
                            last_claimed_at: now,
                        },
                    ))
                    &&& *final(distributor) == (DividendDistributor { total_claimed: (d.total_claimed + amount) as u64, ..d })
                    &&& *final(claimed) == (DividendClaimedDetails {
                        checkpoint_id: d.id,
                        claimer,
                        token_mint: d.token_mint,
                        total_claimed: amount,
                        last_claim_epoch: now,
                    })
                },
            }
        }),
        old(distributor).wf() ==> final(distributor).wf(),
{
    if !claimer_token_account.mint.equals(&distributor.token_mint) {
        return Err(LandLordErrors::TokenAccountMintMismatched);
    }
    if !claimer_token_account.owner.equals(&claimer) {
        return Err(LandLordErrors::TokenAccountOwnerMismatched);
    }
    if !treasury_token_account.mint.equals(&distributor.token_mint) {
        return Err(LandLordErrors::TokenAccountMintMismatched);
    }
    if !treasury_token_account.owner.equals(&treasury_authority) {
        return Err(LandLordErrors::TokenAccountOwnerMismatched);
    }

    let available_claim_amount = compute_claimable_amount(
        distributor.total_distribute_amount,
        escrow.locked_amount,
        locker.locked_supply,
    );

    if distributor.total_claimed + available_claim_amount > distributor.total_distribute_amount {
        return Err(LandLordErrors::ExceedsTotalDistributionAmount);
    }
    if claimed.total_claimed != 0 {
        return Err(LandLordErrors::DividendAlreadyClaimed);
    }

    match find_treasury_authority() {
        Some((key, bump)) => {
            assert_is_ata(treasury_info, &key, &distributor.token_mint)?;
            let transfer = TokenTransfer {
                source: treasury_info.key,
                destination: claimer_token_account_key,
                authority: treasury_authority,
                signer: TransferSigner::TreasuryAuthority { bump },
                amount: available_claim_amount,
            };
            distributor.total_claimed = distributor.total_claimed + available_claim_amount;
            claimed.checkpoint_id = distributor.id;
            claimed.claimer = claimer;
            claimed.token_mint = distributor.token_mint;
            claimed.total_claimed = available_claim_amount;
            claimed.last_claim_epoch = now;
            let event = DividendClaimed {
                checkpoint_id: claimed.checkpoint_id,
                distributor: distributor_key,
                owner: claimer,
                total_claimed: available_claim_amount,
                last_claimed_at: claimed.last_claim_epoch,
            };
            Ok((transfer, event))
        },
        None => Err(LandLordErrors::TokenTreasuryPDANotFound),
    }
}

} // verus!
