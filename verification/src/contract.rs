//! The escrow contract's entrypoints.
//!
//! Each entrypoint works on the contract's [`EscrowStorage`]. Entrypoints that
//! need a party's authorization return an [`Invocation`]: the role whose
//! authorization the call requires (if it got that far) and the result. The
//! host must obtain that authorization before it persists the new storage; a
//! missing authorization aborts the whole call, whatever the result says.

use vstd::prelude::*;
use crate::errors::EscrowError;
use crate::storage::{
    get_admin, get_escrow, get_fees_limit, get_legal_hold, get_paused, get_protocol_fee_bps,
    get_sme_collateral, get_version, set_admin, set_escrow, set_fees_limit, set_protocol_fee_bps,
    set_version, is_valid_fees_limit, opt_ref_matches, EscrowStorage, MAX_FEES_LIMIT,
    MIN_FEES_LIMIT,
};
use crate::types::{
    CollateralClearedEvt, EscrowStatus, InvoiceEscrow, ProtocolFeeUpdated, SmeCollateralCommitment,
};

verus! {

/// Version of the storage schema written by `init`.
pub const SCHEMA_VERSION: u32 = 6;

/// Minimum number of ledgers by which the instance TTL is extended.
pub const INSTANCE_TTL_MIN_EXTENSION_LEDGERS: u32 = 5_000;

/// The invoice escrow contract.
pub struct LiquifactEscrow;

/// A party whose authorization an entrypoint requires.
#[derive(Clone, Copy, Debug, PartialEq, Eq, Structural)]
pub enum Role {
    /// The address stored under the admin key.
    Admin,
    /// The SME address of the stored escrow.
    Sme,
}

/// The outcome of an entrypoint that may require authorization.
#[derive(Debug, PartialEq, Eq)]
pub struct Invocation<T> {
    /// The role that must have authorized the call, `None` when the call
    /// failed before any authorization was asked for.
    pub auth: Option<Role>,
    pub result: Result<T, EscrowError>,
}

/// `x` is representable as an `i128`.
pub open spec fn fits_i128(x: int) -> bool {
    i128::MIN <= x <= i128::MAX
}

/// The escrow record written by `init`.
pub open spec fn initial_escrow<A>(
    sme: A,
    funding_token: A,
    invoice_id: u64,
    target_amount: i128,
    maturity: u64,
) -> InvoiceEscrow<A> {
    InvoiceEscrow {
        invoice_id,
        sme,
        funding_token,
        target_amount,
        funded_amount: 0,
        settled_amount: 0,
        withdrawn_amount: 0,
        status: EscrowStatus::Open,
        maturity,
    }
}

/// Storage after a successful `init`.
pub open spec fn initialized_storage<A>(
    env: EscrowStorage<A>,
    admin: A,
    sme: A,
    funding_token: A,
    invoice_id: u64,
    target_amount: i128,
    maturity: u64,
) -> EscrowStorage<A> {
    EscrowStorage {
        version: Some(SCHEMA_VERSION),
        admin: Some(admin),
        escrow: Some(initial_escrow(sme, funding_token, invoice_id, target_amount, maturity)),
        ..env
    }
}

/// The role asked for by the SME entrypoints: the SME, once the pause and
/// legal-hold gates pass and the escrow is loaded.
pub open spec fn sme_gate<A>(env: EscrowStorage<A>) -> Option<Role> {
    if env.paused_flag() || env.legal_hold_flag() || env.escrow is None {
        None
    } else {
        Some(Role::Sme)
    }
}

/// Why settling `amount` fails, if it does. `check_maturity` distinguishes
/// `settle` (which waits for maturity) from `partial_settle` (which does not).
pub open spec fn settlement_error<A>(
    env: EscrowStorage<A>,
    amount: i128,
    now: u64,
    check_maturity: bool,
) -> Option<EscrowError> {
    if env.paused_flag() {
        Some(EscrowError::ContractPaused)
    } else if env.legal_hold_flag() {
        Some(EscrowError::LegalHoldActive)
    } else {
        match env.escrow {
            None => Some(EscrowError::NotInitialized),
            Some(e) => if e.status != EscrowStatus::Funded {
                Some(EscrowError::EscrowNotInFundedState)
            } else if check_maturity && now < e.maturity {
                Some(EscrowError::MaturityNotReached)
            } else if !fits_i128(e.funded_amount - e.settled_amount) || amount <= 0 || amount
                > e.funded_amount - e.settled_amount {
                Some(EscrowError::SettlementAmountInvalid)
            } else {
                None
            },
        }
    }
}

/// The escrow after `amount` more has been settled: it becomes `Settled`
/// once everything funded has been settled.
pub open spec fn settled_escrow<A>(e: InvoiceEscrow<A>, amount: i128) -> InvoiceEscrow<A> {
    InvoiceEscrow {
        settled_amount: (e.settled_amount + amount) as i128,
        status: if e.settled_amount + amount == e.funded_amount {
            EscrowStatus::Settled
        } else {
            e.status
        },
        ..e
    }
}

/// Why withdrawing `amount` fails, if it does.
pub open spec fn withdrawal_error<A>(env: EscrowStorage<A>, amount: i128) -> Option<EscrowError> {
    if env.paused_flag() {
        Some(EscrowError::ContractPaused)
    } else if env.legal_hold_flag() {
        Some(EscrowError::LegalHoldActive)
    } else {
        match env.escrow {
            None => Some(EscrowError::NotInitialized),
            Some(e) => if e.status != EscrowStatus::Funded && e.status != EscrowStatus::Settled {
                Some(EscrowError::EscrowNotInFundedState)
            } else if !fits_i128(e.funded_amount - e.withdrawn_amount) || amount <= 0 || amount
                > e.funded_amount - e.withdrawn_amount {
                Some(EscrowError::WithdrawAmountInvalid)
            } else {
                None
            },
        }
    }
}

/// The escrow after `amount` more has been withdrawn.
pub open spec fn withdrawn_escrow<A>(e: InvoiceEscrow<A>, amount: i128) -> InvoiceEscrow<A> {
    InvoiceEscrow { withdrawn_amount: (e.withdrawn_amount + amount) as i128, ..e }
}

/// The event published when the protocol fee of storage `env` changes to
/// `new_fee_bps`: the escrow's invoice id, the fee in force before and the
/// new fee. `None` when no escrow is stored.
pub open spec fn fee_update_event<A>(env: EscrowStorage<A>, new_fee_bps: i64) -> Option<
    ProtocolFeeUpdated,
> {
    match env.escrow {
        Some(e) => Some(
            ProtocolFeeUpdated {
                invoice_id: e.invoice_id,
                old_fee_bps: env.protocol_fee_value(),
                new_fee_bps,
            },
        ),
        None => None,
    }
}

/// The role asked for by the admin entrypoints: the admin, once it is stored.
pub open spec fn admin_gate<A>(env: EscrowStorage<A>) -> Option<Role> {
    if env.admin is None {
        None
    } else {
        Some(Role::Admin)
    }
}

impl LiquifactEscrow {
    /// Initialise the escrow: write the schema version, the admin and an open
    /// escrow record with nothing funded, settled or withdrawn.
    pub fn init<A>(
        env: &mut EscrowStorage<A>,
        admin: A,
        sme: A,
        funding_token: A,
        invoice_id: u64,
        target_amount: i128,
        maturity: u64,
    ) -> (r: Result<(), EscrowError>)
        ensures
            old(env).version is Some ==> r == Err::<(), EscrowError>(EscrowError::AlreadyInitialized)
                && *final(env) == *old(env),
            old(env).version is None ==> r == Ok::<(), EscrowError>(()) && *final(env)
                == initialized_storage(*old(env), admin, sme, funding_token, invoice_id, target_amount, maturity),
    {
        if get_version(env).is_some() {
            return Err(EscrowError::AlreadyInitialized);
        }
        set_version(env, SCHEMA_VERSION);
        set_admin(env, admin);
        let escrow = InvoiceEscrow {
            invoice_id,
            sme,
            funding_token,
            target_amount,
            funded_amount: 0,
            settled_amount: 0,
            withdrawn_amount: 0,
            status: EscrowStatus::Open,
            maturity,
        };
        set_escrow(env, escrow);
        Ok(())
    }

    /// Settle `settle_amount` of the funded principal, once the ledger time
    /// `now` has reached maturity. Requires the SME's authorization.
    pub fn settle<A>(env: &mut EscrowStorage<A>, settle_amount: i128, now: u64) -> (r: Invocation<()>)
        ensures
            r.auth == sme_gate(*old(env)),
            match settlement_error(*old(env), settle_amount, now, true) {
                Some(err) => r.result == Err::<(), EscrowError>(err) && *final(env) == *old(env),
                None => r.result == Ok::<(), EscrowError>(()) && *final(env) == (EscrowStorage {
                    escrow: Some(settled_escrow(old(env).escrow->0, settle_amount)),
                    ..*old(env)
                }),
            },
    {
        Self::apply_settlement(env, settle_amount, now, true)
    }

    /// Settle `settle_amount` of the funded principal before maturity.
    /// Requires the SME's authorization.
    pub fn partial_settle<A>(env: &mut EscrowStorage<A>, settle_amount: i128, now: u64) -> (r:
        Invocation<()>)
        ensures
            r.auth == sme_gate(*old(env)),
            match settlement_error(*old(env), settle_amount, now, false) {
                Some(err) => r.result == Err::<(), EscrowError>(err) && *final(env) == *old(env),
                None => r.result == Ok::<(), EscrowError>(()) && *final(env) == (EscrowStorage {
                    escrow: Some(settled_escrow(old(env).escrow->0, settle_amount)),
                    ..*old(env)
                }),
            },
    {
        Self::apply_settlement(env, settle_amount, now, false)
    }

    fn apply_settlement<A>(
        env: &mut EscrowStorage<A>,
        settle_amount: i128,
        now: u64,
        check_maturity: bool,
    ) -> (r: Invocation<()>)
        ensures
            r.auth == sme_gate(*old(env)),
            match settlement_error(*old(env), settle_amount, now, check_maturity) {
                Some(err) => r.result == Err::<(), EscrowError>(err) && *final(env) == *old(env),
                None => r.result == Ok::<(), EscrowError>(()) && *final(env) == (EscrowStorage {
                    escrow: Some(settled_escrow(old(env).escrow->0, settle_amount)),
                    ..*old(env)
                }),
            },
    {
        if get_paused(env) {
            return Invocation { auth: None, result: Err(EscrowError::ContractPaused) };
        }
        if get_legal_hold(env) {
            return Invocation { auth: None, result: Err(EscrowError::LegalHoldActive) };
        }
        let (funded, settled, status, maturity) = match get_escrow(env) {
            None => {
                return Invocation { auth: None, result: Err(EscrowError::NotInitialized) };
            },
            Some(e) => (e.funded_amount, e.settled_amount, e.status, e.maturity),
        };
        let auth = Some(Role::Sme);
        if status != EscrowStatus::Funded {
            return Invocation { auth, result: Err(EscrowError::EscrowNotInFundedState) };
        }
        if check_maturity && now < maturity {
            return Invocation { auth, result: Err(EscrowError::MaturityNotReached) };
        }
        let remaining_to_settle = match funded.checked_sub(settled) {
            Some(x) => x,
            None => {
                return Invocation { auth, result: Err(EscrowError::SettlementAmountInvalid) };
            },
        };
        if settle_amount <= 0 || settle_amount > remaining_to_settle {
            return Invocation { auth, result: Err(EscrowError::SettlementAmountInvalid) };
        }
        let new_settled = match settled.checked_add(settle_amount) {
            Some(x) => x,
            None => {
                return Invocation { auth, result: Err(EscrowError::SettlementAmountInvalid) };
            },
        };
        let mut escrow = env.escrow.take().unwrap();
        escrow.settled_amount = new_settled;
        if new_settled == escrow.funded_amount {
            escrow.status = EscrowStatus::Settled;
        }
        set_escrow(env, escrow);
        Invocation { auth, result: Ok(()) }
    }

    /// Record a withdrawal of `amount` by the SME. Requires the SME's
    /// authorization.
    pub fn withdraw<A>(env: &mut EscrowStorage<A>, amount: i128) -> (r: Invocation<()>)
        ensures
            r.auth == sme_gate(*old(env)),
            match withdrawal_error(*old(env), amount) {
                Some(err) => r.result == Err::<(), EscrowError>(err) && *final(env) == *old(env),
                None => r.result == Ok::<(), EscrowError>(()) && *final(env) == (EscrowStorage {
                    escrow: Some(withdrawn_escrow(old(env).escrow->0, amount)),
                    ..*old(env)
                }),
            },
    {
        if get_paused(env) {
            return Invocation { auth: None, result: Err(EscrowError::ContractPaused) };
        }
        if get_legal_hold(env) {
            return Invocation { auth: None, result: Err(EscrowError::LegalHoldActive) };
        }
        let (funded, withdrawn, status) = match get_escrow(env) {
            None => {
                return Invocation { auth: None, result: Err(EscrowError::NotInitialized) };
            },
            Some(e) => (e.funded_amount, e.withdrawn_amount, e.status),
        };
        let auth = Some(Role::Sme);
        if status != EscrowStatus::Funded && status != EscrowStatus::Settled {
            return Invocation { auth, result: Err(EscrowError::EscrowNotInFundedState) };
        }
        let available_to_withdraw = match funded.checked_sub(withdrawn) {
            Some(x) => x,
            None => {
                return Invocation { auth, result: Err(EscrowError::WithdrawAmountInvalid) };
            },
        };
        if amount <= 0 || amount > available_to_withdraw {
            return Invocation { auth, result: Err(EscrowError::WithdrawAmountInvalid) };
        }
        let new_withdrawn = match withdrawn.checked_add(amount) {
            Some(x) => x,
            None => {
                return Invocation { auth, result: Err(EscrowError::WithdrawAmountInvalid) };
            },
        };
        let mut escrow = env.escrow.take().unwrap();
        escrow.withdrawn_amount = new_withdrawn;
        set_escrow(env, escrow);
        Invocation { auth, result: Ok(()) }
    }

    /// The stored escrow record, if `init` has run.
    pub fn get_escrow<A>(env: &EscrowStorage<A>) -> (r: Option<&InvoiceEscrow<A>>)
        ensures
            opt_ref_matches(r, env.escrow),
    {
        get_escrow(env)
    }

    /// The stored schema version, if `init` has run.
    pub fn get_version<A>(env: &EscrowStorage<A>) -> (r: Option<u32>)
        ensures
            r == env.version,
    {
        get_version(env)
    }

    /// The SME (beneficiary) address of the escrow, if it is initialised.
    /// Requires no authorization.
    pub fn get_beneficiary<A>(env: &EscrowStorage<A>) -> (r: Option<&A>)
        ensures
            match r {
                Some(a) => env.escrow is Some && env.escrow->0.sme == *a,
                None => env.escrow is None,
            },
    {
        match get_escrow(env) {
            Some(e) => Some(&e.sme),
            None => None,
        }
    }

    /// Set the fees limit (basis points, `0..=10_000`). Requires the admin's
    /// authorization; returns the new limit.
    pub fn set_fees_limit<A>(env: &mut EscrowStorage<A>, limit: i64) -> (r: Invocation<i64>)
        ensures
            r.auth == admin_gate(*old(env)),
            old(env).admin is None ==> r.result == Err::<i64, EscrowError>(EscrowError::NotInitialized)
                && *final(env) == *old(env),
            old(env).admin is Some && !(MIN_FEES_LIMIT <= limit <= MAX_FEES_LIMIT) ==> r.result
                == Err::<i64, EscrowError>(EscrowError::FeesLimitOutOfRange) && *final(env) == *old(env),
            old(env).admin is Some && MIN_FEES_LIMIT <= limit <= MAX_FEES_LIMIT ==> r.result == Ok::<
                i64,
                EscrowError,
            >(limit) && *final(env) == (EscrowStorage { fees_limit: Some(limit), ..*old(env) }),
    {
        if get_admin(env).is_none() {
            return Invocation { auth: None, result: Err(EscrowError::NotInitialized) };
        }
        let auth = Some(Role::Admin);
        if !is_valid_fees_limit(limit) {
            return Invocation { auth, result: Err(EscrowError::FeesLimitOutOfRange) };
        }
        set_fees_limit(env, limit);
        Invocation { auth, result: Ok(limit) }
    }

    /// The fees limit in force (`10_000` until one is set).
    pub fn get_fees_limit<A>(env: &EscrowStorage<A>) -> (r: i64)
        ensures
            r == env.fees_limit_value(),
    {
        get_fees_limit(env)
    }

    /// Set the protocol fee (basis points), which may not exceed the fees
    /// limit in force. Requires the admin's authorization; returns the fee.
    pub fn set_protocol_fee_bps<A>(env: &mut EscrowStorage<A>, fee_bps: i64) -> (r: Invocation<i64>)
        ensures
            r.auth == admin_gate(*old(env)),
            old(env).admin is None ==> r.result == Err::<i64, EscrowError>(EscrowError::NotInitialized)
                && *final(env) == *old(env),
            old(env).admin is Some && !(0 <= fee_bps <= old(env).fees_limit_value()) ==> r.result
                == Err::<i64, EscrowError>(EscrowError::ProtocolFeeBpsOutOfRange) && *final(env)
                == *old(env),
            old(env).admin is Some && 0 <= fee_bps <= old(env).fees_limit_value() ==> r.result == Ok::<
                i64,
                EscrowError,
            >(fee_bps) && *final(env) == (EscrowStorage { protocol_fee_bps: Some(fee_bps), ..*old(env) }),
    {
        if get_admin(env).is_none() {
            return Invocation { auth: None, result: Err(EscrowError::NotInitialized) };
        }
        let auth = Some(Role::Admin);
        let limit = get_fees_limit(env);
        if fee_bps < 0 || fee_bps > limit {
            return Invocation { auth, result: Err(EscrowError::ProtocolFeeBpsOutOfRange) };
        }
        set_protocol_fee_bps(env, fee_bps);
        Invocation { auth, result: Ok(fee_bps) }
    }

    /// Set the protocol fee as `set_protocol_fee_bps` does and, on success,
    /// also report the event the change publishes: the escrow's invoice id,
    /// the fee in force before the call and the new fee (`None` when no
    /// escrow is stored).
    pub fn set_protocol_fee_bps_with_event<A>(env: &mut EscrowStorage<A>, fee_bps: i64) -> (r:
        Invocation<(i64, Option<ProtocolFeeUpdated>)>)
        ensures
            r.auth == admin_gate(*old(env)),
            old(env).admin is None ==> r.result == Err::<(i64, Option<ProtocolFeeUpdated>), EscrowError>(
                EscrowError::NotInitialized,
            ) && *final(env) == *old(env),
            old(env).admin is Some && !(0 <= fee_bps <= old(env).fees_limit_value()) ==> r.result
                == Err::<(i64, Option<ProtocolFeeUpdated>), EscrowError>(
                EscrowError::ProtocolFeeBpsOutOfRange,
            ) && *final(env) == *old(env),
            old(env).admin is Some && 0 <= fee_bps <= old(env).fees_limit_value() ==> r.result == Ok::<
                (i64, Option<ProtocolFeeUpdated>),
                EscrowError,
            >((fee_bps, fee_update_event(*old(env), fee_bps))) && *final(env) == (EscrowStorage {
                protocol_fee_bps: Some(fee_bps),
                ..*old(env)
            }),
    {
        let event = match get_escrow(env) {
            Some(e) => Some(
                ProtocolFeeUpdated {
                    invoice_id: e.invoice_id,
                    old_fee_bps: get_protocol_fee_bps(env),
                    new_fee_bps: fee_bps,
                },
            ),
            None => None,
        };
        let inv = Self::set_protocol_fee_bps(env, fee_bps);
        let result = match inv.result {
            Ok(fee) => Ok((fee, event)),
            Err(e) => Err(e),
        };
        Invocation { auth: inv.auth, result }
    }

    /// The protocol fee in force (`0` until one is set).
    pub fn get_protocol_fee_bps<A>(env: &EscrowStorage<A>) -> (r: i64)
        ensures
            r == env.protocol_fee_value(),
    {
        get_protocol_fee_bps(env)
    }

    /// The recorded SME collateral pledge, if any. Requires no authorization.
    pub fn get_sme_collateral_commitment<A>(env: &EscrowStorage<A>) -> (r: Option<
        &SmeCollateralCommitment,
    >)
        ensures
            opt_ref_matches(r, env.sme_collateral),
    {
        get_sme_collateral(env)
    }

    /// Retire the recorded SME collateral pledge and report what it held.
    /// Fails with `NoCollateralToClear` (before any authorization) when no
    /// pledge exists; otherwise requires the SME's authorization.
    pub fn clear_sme_collateral_commitment<A>(env: &mut EscrowStorage<A>) -> (r: Invocation<
        CollateralClearedEvt,
    >)
        ensures
            old(env).sme_collateral is None ==> r.auth is None && r.result == Err::<
                CollateralClearedEvt,
                EscrowError,
            >(EscrowError::NoCollateralToClear) && *final(env) == *old(env),
            old(env).sme_collateral is Some && old(env).escrow is None ==> r.auth is None && r.result
                == Err::<CollateralClearedEvt, EscrowError>(EscrowError::NotInitialized) && *final(env)
                == *old(env),
            old(env).sme_collateral is Some && old(env).escrow is Some ==> r.auth == Some(Role::Sme)
                && r.result == Ok::<CollateralClearedEvt, EscrowError>(
                CollateralClearedEvt {
                    invoice_id: old(env).escrow->0.invoice_id,
                    asset: old(env).sme_collateral->0.asset,
                    amount: old(env).sme_collateral->0.amount,
                    recorded_at: old(env).sme_collateral->0.recorded_at,
                },
            ) && *final(env) == (EscrowStorage { sme_collateral: None, ..*old(env) }),
    {
        if get_sme_collateral(env).is_none() {
            return Invocation { auth: None, result: Err(EscrowError::NoCollateralToClear) };
        }
        let invoice_id = match get_escrow(env) {
            Some(e) => e.invoice_id,
            None => {
                return Invocation { auth: None, result: Err(EscrowError::NotInitialized) };
            },
        };
        let pledge = env.sme_collateral.take().unwrap();
        let event = CollateralClearedEvt {
            invoice_id,
            asset: pledge.asset,
            amount: pledge.amount,
            recorded_at: pledge.recorded_at,
        };
        Invocation { auth: Some(Role::Sme), result: Ok(event) }
    }
}

} // verus!
