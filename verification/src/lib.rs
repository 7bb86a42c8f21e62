//! A verified model of the LiquiFact invoice escrow contract.
//!
//! The contract's storage is held as plain values in [`EscrowStorage`]; each
//! entrypoint of [`LiquifactEscrow`] is a function on that storage whose
//! contract states the result and the new storage exactly. The host (the
//! Soroban contract shell) loads the storage, asks for the authorization an
//! entrypoint reports, and persists the new storage.

use vstd::prelude::*;

pub mod attestation;
pub mod contract;
pub mod errors;
pub mod laws;
pub mod storage;
pub mod types;

pub use attestation::{MAX_ATTESTATION_APPEND_ENTRIES, MAX_ATTESTATION_REVOKE_BATCH};
pub use contract::{
    Invocation, LiquifactEscrow, Role, INSTANCE_TTL_MIN_EXTENSION_LEDGERS, SCHEMA_VERSION,
};
pub use errors::EscrowError;
pub use storage::EscrowStorage;
pub use types::{
    AttestationDigestAppended, AttestationDigestRevoked, AttestationDigestUnrevoked,
    AttestationEntry, CollateralClearedEvt, EscrowCloseSnapshot, EscrowInitialized, EscrowStatus,
    FeesLimitUpdated, FundingCloseSnapshot, InvoiceEscrow, PrimaryAttestationBound,
    ProtocolFeeUpdated, SmeCollateralCommitment, YieldTier,
};

verus! {

/// Maximum number of fee records returned by one page read.
pub const MAX_FEE_READ_PAGE: u32 = 20;

} // verus!
