use vstd::prelude::*;
use vstd::layout::size_of;

use crate::pubkey::Pubkey;

verus! {

/// A pending transaction that may or may not be executed by the DAO.
#[derive(Clone, Debug)]
pub struct Proposal {
    /// The instructions associated with the proposal.
    pub instructions: Vec<LafomuoInstruction>,
    /// The public key of the governor.
    pub governor: Pubkey,
    /// The unique ID of the proposal, auto-incremented.
    pub index: u64,
    /// Bump seed
    pub bump: u8,
    /// The public key of the proposer.
    pub proposer: Pubkey,
    /// The number of votes in support required for a quorum and for a vote to succeed
    pub quorum_votes: u64,
    /// Current number of votes in favor of this proposal
    pub for_votes: u64,
    /// Current number of votes in opposition to this proposal
    pub against_votes: u64,
    /// Current number of votes for abstaining for this proposal
    pub abstain_votes: u64,
    /// The timestamp when the proposal was canceled.
    pub canceled_at: i64,
    /// The timestamp when the proposal was created.
    pub created_at: i64,
    /// The timestamp at which voting begins.
    pub activated_at: i64,
    /// The timestamp when voting ends.
    pub voting_ends_at: i64,
}

/// An instruction that a proposal would execute.
#[derive(Clone, Debug)]
pub struct LafomuoInstruction {
    /// The program that executes this instruction
    pub program_id: Pubkey,
    /// The accounts passed to the program
    pub keys: Vec<AccountMeta>,
    /// Opaque data passed to the program
    pub data: Vec<u8>,
}

/// An account passed to an instruction.
#[derive(Clone, Copy, Debug)]
pub struct AccountMeta {
    /// An account's public key
    pub pubkey: Pubkey,
    /// True if an instruction requires a transaction signature matching `pubkey`.
    pub is_signer: bool,
    /// True if the `pubkey` can be loaded as a read-write account.
    pub is_writable: bool,
}

/// The space one instruction takes up: a key, its accounts and its data.
pub open spec fn instruction_space(ix: LafomuoInstruction) -> int {
    (size_of::<Pubkey>() + ix.keys@.len() * size_of::<AccountMeta>() + ix.data@.len()) as int
}

/// The space a sequence of instructions takes up.
pub open spec fn instructions_space(ixs: Seq<LafomuoInstruction>) -> int
    decreases ixs.len(),
{
    if ixs.len() == 0 {
        0
    } else {
        instructions_space(ixs.drop_last()) + instruction_space(ixs.last())
    }
}

/// The space a proposal with these instructions takes up: two four-byte prefixes,
/// the proposal itself and its instructions.
pub open spec fn proposal_space(ixs: Seq<LafomuoInstruction>) -> int {
    4 + 4 + size_of::<Proposal>() + instructions_space(ixs)
}

proof fn lemma_instruction_space_nonneg(ix: LafomuoInstruction)
    ensures
        instruction_space(ix) >= 0,
        ix.keys@.len() * size_of::<AccountMeta>() >= 0,
{
    vstd::arithmetic::mul::lemma_mul_nonnegative(ix.keys@.len() as int, size_of::<AccountMeta>() as int);
}

proof fn lemma_instructions_space_prefix(ixs: Seq<LafomuoInstruction>, i: int)
    requires
        0 <= i <= ixs.len(),
    ensures
        0 <= instructions_space(ixs.take(i)) <= instructions_space(ixs),
    decreases ixs.len(),
{
    if ixs.len() > 0 {
        lemma_instruction_space_nonneg(ixs.last());
        if i == ixs.len() {
            assert(ixs.take(i) =~= ixs);
            lemma_instructions_space_prefix(ixs.drop_last(), i - 1);
            assert(ixs.drop_last().take(i - 1) =~= ixs.drop_last());
        } else {
            lemma_instructions_space_prefix(ixs.drop_last(), i);
            assert(ixs.drop_last().take(i) =~= ixs.take(i));
        }
    }
}

impl Proposal {
    /// Space that a proposal with these instructions takes up.
    pub fn space(instructions: Vec<LafomuoInstruction>) -> (r: usize)
        requires
            proposal_space(instructions@) <= usize::MAX,
        ensures
            r == proposal_space(instructions@),
    {
        proof {
            lemma_instructions_space_prefix(instructions@, 0);
        }
        let base = 4 + 4 + core::mem::size_of::<Proposal>();
        let mut total: usize = 0;
        let mut i: usize = 0;
        while i < instructions.len()
            invariant
                i <= instructions@.len(),
                proposal_space(instructions@) <= usize::MAX,
                base == 8 + size_of::<Proposal>(),
                total == instructions_space(instructions@.take(i as int)),
            decreases instructions@.len() - i,
        {
            proof {
                lemma_instructions_space_prefix(instructions@, i + 1);
                assert(instructions@.take(i + 1).drop_last() =~= instructions@.take(i as int));
                lemma_instructions_space_prefix(instructions@, i as int);
                lemma_instruction_space_nonneg(instructions@[i as int]);
            }
            total = total + instructions[i].space();
            i = i + 1;
        }
        proof {
            assert(instructions@.take(i as int) =~= instructions@);
        }
        base + total
    }
}

impl LafomuoInstruction {
    /// Space that an instruction takes up.
    pub fn space(&self) -> (r: usize)
        requires
            instruction_space(*self) <= usize::MAX,
        ensures
            r == instruction_space(*self),
    {
        proof {
            lemma_instruction_space_nonneg(*self);
        }
        core::mem::size_of::<Pubkey>() + self.keys.len() * core::mem::size_of::<AccountMeta>()
            + self.data.len()
    }
}

} // verus!
