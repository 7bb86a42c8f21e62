//! Contract-specific types and events for the invoice escrow.
//!
//! Addresses are carried as an opaque type parameter `A`: the escrow logic
//! never looks inside an address, it only stores it and names it as the
//! party whose authorization an entrypoint needs.
//!
//! Event structs carry their payload; the host publishes each under its
//! name topic.

use vstd::prelude::*;

verus! {

/// Forward-only state machine for an invoice escrow.
///
/// Transitions: Open → Funded → Settled → Withdrawn (terminal)
/// or Open → Cancelled (terminal).
#[derive(Clone, Copy, Debug, PartialEq, Eq, Structural)]
pub enum EscrowStatus {
    Open,
    Funded,
    Settled,
    Withdrawn,
    Cancelled,
}

/// The lifecycle edges that the escrow may take (or stay put).
pub open spec fn status_step_allowed(from: EscrowStatus, to: EscrowStatus) -> bool {
    ||| from == to
    ||| from == EscrowStatus::Open && to == EscrowStatus::Funded
    ||| from == EscrowStatus::Funded && to == EscrowStatus::Settled
    ||| from == EscrowStatus::Settled && to == EscrowStatus::Withdrawn
    ||| from == EscrowStatus::Open && to == EscrowStatus::Cancelled
}

/// Core invoice escrow state.
#[derive(Clone, Debug, PartialEq, Eq)]
pub struct InvoiceEscrow<A> {
    pub invoice_id: u64,
    pub sme: A,
    pub funding_token: A,
    pub target_amount: i128,
    pub funded_amount: i128,
    pub settled_amount: i128,
    pub withdrawn_amount: i128,
    pub status: EscrowStatus,
    pub maturity: u64,
}

/// Snapshot captured atomically on first transition to funded.
#[derive(Clone, Copy, Debug, PartialEq, Eq, Structural)]
pub struct FundingCloseSnapshot {
    pub total_principal: i128,
    pub funding_target: i128,
    pub closed_at_ledger_timestamp: u64,
    pub closed_at_ledger_sequence: u32,
}

/// SME collateral metadata (record-only; no token custody).
#[derive(Clone, Debug, PartialEq, Eq)]
pub struct SmeCollateralCommitment {
    /// Asset code of the pledged collateral (a short symbol).
    pub asset: String,
    pub amount: i128,
    pub recorded_at: u64,
}

/// Yield tier for time-locked contributions.
#[derive(Clone, Copy, Debug, PartialEq, Eq, Structural)]
pub struct YieldTier {
    pub min_lock_secs: u64,
    pub yield_bps: i64,
}

/// Emitted once an escrow is initialised.
#[derive(Clone, Debug, PartialEq, Eq)]
pub struct EscrowInitialized<A> {
    pub escrow: InvoiceEscrow<A>,
    pub funding_token: A,
    pub treasury: A,
    pub registry: Option<A>,
    pub has_maturity_lock: bool,
}

/// Emitted when the admin changes the fees limit.
#[derive(Clone, Copy, Debug, PartialEq, Eq, Structural)]
pub struct FeesLimitUpdated {
    pub invoice_id: u64,
    pub old_limit: i64,
    pub new_limit: i64,
}

/// Emitted when the admin changes the protocol fee.
#[derive(Clone, Copy, Debug, PartialEq, Eq, Structural)]
pub struct ProtocolFeeUpdated {
    pub invoice_id: u64,
    pub old_fee_bps: i64,
    pub new_fee_bps: i64,
}

/// The funding-close snapshot, if one was captured.
#[derive(Clone, Copy, Debug, PartialEq, Eq, Structural)]
pub enum EscrowCloseSnapshot {
    /// No snapshot has been captured.
    Empty,
    /// The snapshot captured at funding close.
    Captured(FundingCloseSnapshot),
}

/// One entry of the attestation append log: the digest and whether it has
/// been revoked.
#[derive(Clone, Copy, Debug, PartialEq, Eq)]
pub struct AttestationEntry {
    pub digest: [u8; 32],
    pub revoked: bool,
}

/// Emitted when the primary attestation hash is bound.
#[derive(Clone, Copy, Debug, PartialEq, Eq)]
pub struct PrimaryAttestationBound {
    pub invoice_id: u64,
    pub digest: [u8; 32],
}

/// Emitted when a digest is appended to the attestation log.
#[derive(Clone, Copy, Debug, PartialEq, Eq)]
pub struct AttestationDigestAppended {
    pub invoice_id: u64,
    pub index: u32,
    pub digest: [u8; 32],
}

/// Emitted for each append-log entry that is revoked.
#[derive(Clone, Copy, Debug, PartialEq, Eq, Structural)]
pub struct AttestationDigestRevoked {
    pub invoice_id: u64,
    pub index: u32,
}

/// Emitted when the revocation of an append-log entry is cleared.
#[derive(Clone, Copy, Debug, PartialEq, Eq, Structural)]
pub struct AttestationDigestUnrevoked {
    pub invoice_id: u64,
    pub index: u32,
}

/// Emitted when the SME collateral pledge is cleared.
#[derive(Clone, Debug, PartialEq, Eq)]
pub struct CollateralClearedEvt {
    pub invoice_id: u64,
    pub asset: String,
    pub amount: i128,
    pub recorded_at: u64,
}

} // verus!
