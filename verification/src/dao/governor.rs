use vstd::prelude::*;

use crate::constants::{DISCRIMINATOR_LENGTH, PUBLIC_KEY_LENGTH};
use crate::dao::proposal::LafomuoInstruction;
use crate::errors::LafomuoErrors;
use crate::pubkey::Pubkey;

verus! {

/// A DAO governor.
#[derive(Clone, Copy, Debug)]
pub struct Governor {
    /// Base.
    pub base: Pubkey,
    /// Bump seed
    pub bump: u8,
    /// The total number of proposals
    pub proposal_count: u64,
    /// The voting body associated with the governor, which activates proposals and
    /// sets the number of votes per voter.
    pub electorate: Pubkey,
    /// The smart wallet that executes proposals.
    pub proposer: Pubkey,
    /// Governance parameters.
    pub params: GovernanceParameters,
}

impl Governor {
    /// Number of bytes in a governor account.
    pub const LEN: usize = DISCRIMINATOR_LENGTH + PUBLIC_KEY_LENGTH + 1 + 8 + PUBLIC_KEY_LENGTH * 2
        + GovernanceParameters::LEN;
}

/// Governance parameters.
#[derive(Clone, Copy, Debug, Default, PartialEq, Eq, Structural)]
pub struct GovernanceParameters {
    /// The delay before voting on a proposal may take place, once proposed, in seconds
    pub voting_delay: u64,
    /// The duration of voting on a proposal, in seconds
    pub voting_period: u64,
    /// The number of votes in support of a proposal required for a quorum and for a
    /// vote to succeed
    pub quorum_votes: u64,
    /// The timelock delay of the DAO's created proposals.
    pub timelock_delay_seconds: i64,
}

impl GovernanceParameters {
    /// Number of bytes in governance parameters.
    pub const LEN: usize = 8 * 4;
}

/// A governor has been created.
#[derive(Clone, Copy, Debug)]
pub struct GovernorCreateEvent {
    /// The governor being created.
    pub governor: Pubkey,
    /// The electorate of the created governor.
    pub electorate: Pubkey,
    /// The smart wallet.
    pub proposer: Pubkey,
    /// Governance parameters.
    pub parameters: GovernanceParameters,
}

/// A proposal has been created.
#[derive(Clone, Debug)]
pub struct ProposalCreateEvent {
    /// The governor.
    pub governor: Pubkey,
    /// The proposal being created.
    pub proposal: Pubkey,
    /// The index of the proposal.
    pub index: u64,
    /// Instructions in the proposal.
    pub instructions: Vec<LafomuoInstruction>,
}

/// Creates the governor at address `governor` with base `base` and bump seed `bump`,
/// no proposals, and the given electorate, smart wallet and parameters; a negative
/// timelock delay is refused.
pub fn create_governor(
    governor: Pubkey,
    base: Pubkey,
    bump: u8,
    electorate: Pubkey,
    proposer: Pubkey,
    params: GovernanceParameters,
) -> (r: Result<(Governor, GovernorCreateEvent), LafomuoErrors>)
    ensures
        params.timelock_delay_seconds < 0 ==> r == Err::<(Governor, GovernorCreateEvent), LafomuoErrors>(
            LafomuoErrors::TimeDelayMustBeGreaterThanZero,
        ),
        params.timelock_delay_seconds >= 0 ==> r == Ok::<(Governor, GovernorCreateEvent), LafomuoErrors>(
            (
                Governor { base, bump, proposal_count: 0, electorate, proposer, params },
                GovernorCreateEvent { governor, electorate, proposer, parameters: params },
            ),
        ),
{
    if !(params.timelock_delay_seconds >= 0) {
        return Err(LafomuoErrors::TimeDelayMustBeGreaterThanZero);
    }
    let state = Governor { base, bump, proposal_count: 0, electorate, proposer, params };
    let event = GovernorCreateEvent { governor, electorate, proposer, parameters: params };
    Ok((state, event))
}

} // verus!
