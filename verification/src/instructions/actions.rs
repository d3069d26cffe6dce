use vstd::prelude::*;

use crate::pubkey::Pubkey;

verus! {

/// Who signs a token transfer.
#[derive(Clone, Copy, Debug, PartialEq, Eq)]
pub enum TransferSigner {
    /// The authority signed the transaction itself.
    Caller,
    /// The treasury authority program address, signed with its seed and this bump.
    TreasuryAuthority { bump: u8 },
    /// An escrow program address, signed with `b"escrow"`, its locker, its owner and its bump.
    Escrow { locker: Pubkey, owner: Pubkey, bump: u8 },
}

/// A transfer of SPL tokens that the token program is to perform.
#[derive(Clone, Copy, Debug)]
pub struct TokenTransfer {
    pub source: Pubkey,
    pub destination: Pubkey,
    pub authority: Pubkey,
    pub signer: TransferSigner,
    pub amount: u64,
}

/// A minting of SPL tokens that the token program is to perform.
#[derive(Clone, Copy, Debug)]
pub struct MintTo {
    pub mint: Pubkey,
    pub to: Pubkey,
    pub authority: Pubkey,
    pub amount: u64,
}

/// The protocol fee an issuer pays.
#[derive(Clone, Copy, Debug)]
pub enum FeePayment {
    /// No fee is taken.
    Nothing,
    /// SPL tokens move from the issuer's token account to the treasury.
    Tokens { transfer: TokenTransfer },
    /// Lamports move from the issuer to the treasury through the system program.
    Lamports { from: Pubkey, to: Pubkey, amount: u64 },
}

/// A creator listed in an asset's metadata.
#[derive(Clone, Copy, Debug)]
pub struct Creator {
    pub address: Pubkey,
    pub verified: bool,
    pub share: u8,
}

} // verus!
