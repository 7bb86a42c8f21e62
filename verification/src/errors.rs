//! Typed errors returned by the escrow entrypoints.

use vstd::prelude::*;

verus! {

/// Every typed failure that an escrow entrypoint can report.
///
/// Each variant has a stable numeric code (see [`EscrowError::code`]) that
/// SDKs branch on.
#[derive(Clone, Copy, Debug, PartialEq, Eq, Structural)]
pub enum EscrowError {
    AlreadyInitialized,
    ContractPaused,
    LegalHoldActive,
    EscrowNotInFundedState,
    MaturityNotReached,
    SettlementAmountInvalid,
    WithdrawAmountInvalid,
    FeesLimitOutOfRange,
    ProtocolFeeBpsOutOfRange,
    /// The escrow record (or its admin) is absent: `init` has not run.
    NotInitialized,
    PrimaryAttestationAlreadyBound,
    AttestationAppendLogCapacityReached,
    AttestationIndexOutOfRange,
    AttestationAlreadyRevoked,
    AttestationBatchEmpty,
    AttestationBatchTooLarge,
    AttestationNotRevoked,
    NoCollateralToClear,
    FeeReadPageTooLarge,
}

/// The stable numeric code of each error.
pub open spec fn error_code(e: EscrowError) -> u32 {
    match e {
        EscrowError::AlreadyInitialized => 1,
        EscrowError::ContractPaused => 2,
        EscrowError::LegalHoldActive => 3,
        EscrowError::EscrowNotInFundedState => 4,
        EscrowError::MaturityNotReached => 5,
        EscrowError::SettlementAmountInvalid => 6,
        EscrowError::WithdrawAmountInvalid => 7,
        EscrowError::FeesLimitOutOfRange => 8,
        EscrowError::ProtocolFeeBpsOutOfRange => 215,
        EscrowError::NotInitialized => 20,
        EscrowError::PrimaryAttestationAlreadyBound => 50,
        EscrowError::AttestationAppendLogCapacityReached => 51,
        EscrowError::AttestationIndexOutOfRange => 52,
        EscrowError::AttestationAlreadyRevoked => 53,
        EscrowError::AttestationBatchEmpty => 54,
        EscrowError::AttestationBatchTooLarge => 55,
        EscrowError::AttestationNotRevoked => 56,
        EscrowError::NoCollateralToClear => 169,
        EscrowError::FeeReadPageTooLarge => 223,
    }
}

impl EscrowError {
    /// The numeric contract-error code of this error.
    pub fn code(&self) -> (c: u32)
        ensures
            c == error_code(*self),
    {
        match self {
            EscrowError::AlreadyInitialized => 1,
            EscrowError::ContractPaused => 2,
            EscrowError::LegalHoldActive => 3,
            EscrowError::EscrowNotInFundedState => 4,
            EscrowError::MaturityNotReached => 5,
            EscrowError::SettlementAmountInvalid => 6,
            EscrowError::WithdrawAmountInvalid => 7,
            EscrowError::FeesLimitOutOfRange => 8,
            EscrowError::ProtocolFeeBpsOutOfRange => 215,
            EscrowError::NotInitialized => 20,
            EscrowError::PrimaryAttestationAlreadyBound => 50,
            EscrowError::AttestationAppendLogCapacityReached => 51,
            EscrowError::AttestationIndexOutOfRange => 52,
            EscrowError::AttestationAlreadyRevoked => 53,
            EscrowError::AttestationBatchEmpty => 54,
            EscrowError::AttestationBatchTooLarge => 55,
            EscrowError::AttestationNotRevoked => 56,
            EscrowError::NoCollateralToClear => 169,
            EscrowError::FeeReadPageTooLarge => 223,
        }
    }
}

} // verus!
