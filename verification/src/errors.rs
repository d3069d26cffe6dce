use vstd::prelude::*;

verus! {

/// Errors of the DAO governor.
#[derive(Clone, Copy, Debug, PartialEq, Eq, Structural)]
pub enum LafomuoErrors {
    /// Time delay must be greater than zero.
    TimeDelayMustBeGreaterThanZero,
    InvalidProposalActivateTime,
}

/// Errors of the tokenization platform.
#[derive(Clone, Copy, Debug, PartialEq, Eq, Structural)]
pub enum LandLordErrors {
    /// Account has not initialized yet!
    AccountNotInitialized,
    /// Not able to unpack account!
    NotAbleToUnpackAccount,
    /// Invalid account owner!
    IncorrectOwner,
    NotOwnedBySPLProgram,
    TokenAccountMintMismatched,
    TokenAccountOwnerMismatched,
    TokenTransferFailed,
    PublicKeyMismatch,
    PublicKeyDidMatch,
    NotEnoughTokens,
    NotEnoughSOL,
    MintingAmountCantBeZero,
    /// Distribution end time is already passed!
    DistributionEndTimePassed,
    DividendCheckpointCantBeZero,
    ImmutableGovernor,
    GovernorMismatch,
    NFTOwnerMismatch,
    NoFreezeAuthoritySet,
    InvalidAccountData,
    FractionalTokenZeroDecimals,
    FractionalTokenSupplyNotPure,
    NFTIsAlreadyFractionalized,
    TokenTreasuryPDANotFound,
    /// Invalid Dividend Distribution Merkle proofs!!
    InvalidMerkleProof,
    /// Dividend from this checkpoint is already claimed!!
    DividendAlreadyClaimed,
    ExceedsTotalDistributionAmount,
    InvalidReserveFactorForSetting,
    MinReserveFactorGreaterThanMax,
    ReserveFactorMoreThanBasisPoint,
    SettingAccountMismatched,
}

} // verus!
