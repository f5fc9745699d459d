use vstd::prelude::*;

verus! {

/// Every operation either fully commits or rejects the whole call with one of
/// these typed errors; nothing is retried or recovered internally.
#[derive(Clone, Copy, Debug, PartialEq, Eq, Structural)]
pub enum ErrorCode {
    /// The proposed councillor list is empty or exceeds the maximum.
    TooManyManagers,
    /// The approval threshold is zero or exceeds the councillor count.
    InvalidApprovalThreshold,
    /// The verified-creator list exceeds the maximum.
    TooManyVerifiedCreatorAddresses,
    /// The stream is not active.
    StreamIsInactive,
    /// The requested claim amount exceeds what the connection may claim.
    ClaimAmountExceedsAvailable,
    /// A supplied derived-authority identity does not match the expected one.
    InvalidAuthPda,
    /// The token is not staked.
    NftNotStaked,
    /// A creator address is not acceptable.
    InvalidVerifiedCreatorAddress,
    /// The supplied metadata record identity does not match the derived one.
    InvalidMetaplexMetadataPda,
    /// None of the stream's verified creators appears, verified, in the
    /// token's creator list.
    VerifiedCreatorAddressMismatch,
    /// A metadata record is owned by the wrong program.
    InvalidAccountOwner,
    /// The caller is not a councillor of the Dao.
    InvalidCouncillor,
    /// The proposal kind tag is not one of the known kinds.
    InvalidProposalType,
    /// No proposal is currently active.
    ProposalNotActive,
    /// Fewer signers than the approval threshold have approved.
    NotEnoughSignersApproved,
    /// The active proposal is of a different kind than the handler executes.
    MismatchProposalType,
    /// The receiver's owner does not match the staged withdrawal payload.
    InvalidProposedReceiverOwner,
    /// The funding pool cannot cover the requested movement.
    InsufficientFunds,
    /// The targeted stream does not match the staged withdrawal payload.
    StreamMismatch,
    /// The token mint's decimals exceed the supported maximum.
    MaxSupportedDecimalsExceeded,
    /// The requested stream rate exceeds the supported maximum.
    MaxSupportedStreamRateExceeded,
    /// Opening one more connection would exceed the per-stream cap.
    MaxConnectionsPerStreamExceeded,
    /// The caller's balance cannot cover the operation fee.
    InsufficientFeeFunds,
    /// The designated fee receiver is not the expected one.
    InvalidFeeRxAddress,
    /// The caller is not the fee administrator.
    InvalidFeeModAddress,
    /// The operation name is not in the fee schedule.
    InvalidInstructionName,
}

} // verus!
