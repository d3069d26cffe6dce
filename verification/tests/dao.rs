use landlord::dao::governor::{create_governor, GovernanceParameters, Governor};
use landlord::dao::proposal::{AccountMeta, LafomuoInstruction, Proposal};
use landlord::errors::LafomuoErrors;
use landlord::pubkey::Pubkey;

fn key(b: u8) -> Pubkey {
    Pubkey { bytes: [b; 32] }
}

fn params(delay: i64) -> GovernanceParameters {
    GovernanceParameters { voting_delay: 10, voting_period: 20, quorum_votes: 30, timelock_delay_seconds: delay }
}

#[test]
fn create_governor_starts_without_proposals() {
    let (g, event) = create_governor(key(1), key(2), 254, key(3), key(4), params(0)).unwrap();
    assert_eq!(g.base, key(2));
    assert_eq!(g.bump, 254);
    assert_eq!(g.proposal_count, 0);
    assert_eq!(g.electorate, key(3));
    assert_eq!(g.proposer, key(4));
    assert_eq!(g.params, params(0));
    assert_eq!(event.governor, key(1));
    assert_eq!(event.electorate, key(3));
    assert_eq!(event.proposer, key(4));
    assert_eq!(event.parameters, params(0));
}

#[test]
fn create_governor_refuses_negative_timelock() {
    assert_eq!(
        create_governor(key(1), key(2), 254, key(3), key(4), params(-1)).unwrap_err(),
        LafomuoErrors::TimeDelayMustBeGreaterThanZero
    );
}

#[test]
fn governor_len() {
    assert_eq!(Governor::LEN, 8 + 32 + 1 + 8 + 64 + 32);
    assert_eq!(GovernanceParameters::LEN, 32);
}

#[test]
fn instruction_space_counts_keys_and_data() {
    let meta = AccountMeta { pubkey: key(1), is_signer: true, is_writable: false };
    let ix = LafomuoInstruction { program_id: key(9), keys: vec![meta, meta, meta], data: vec![1, 2, 3, 4, 5] };
    let expected = std::mem::size_of::<Pubkey>() + 3 * std::mem::size_of::<AccountMeta>() + 5;
    assert_eq!(ix.space(), expected);
    assert_eq!(ix.space(), 32 + 3 * 34 + 5);
}

#[test]
fn proposal_space_sums_instructions() {
    let meta = AccountMeta { pubkey: key(1), is_signer: false, is_writable: true };
    let a = LafomuoInstruction { program_id: key(9), keys: vec![meta], data: vec![0; 10] };
    let b = LafomuoInstruction { program_id: key(8), keys: vec![], data: vec![] };
    let base = 8 + std::mem::size_of::<Proposal>();
    assert_eq!(Proposal::space(vec![]), base);
    assert_eq!(Proposal::space(vec![a.clone(), b.clone()]), base + a.space() + b.space());
}
