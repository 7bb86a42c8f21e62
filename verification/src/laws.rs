//! Properties of the escrow that span calls or hold of every state.

use vstd::prelude::*;
use crate::attestation::{
    is_first_failure, lemma_take_next_names, log_digests, names_index, revoke_all,
    revoke_batch_entry_error, revoke_batch_error, same_except_log, with_revoked,
    MAX_ATTESTATION_APPEND_ENTRIES,
};
use crate::contract::{
    fee_update_event, initialized_storage, settled_escrow, settlement_error, withdrawal_error,
    withdrawn_escrow, SCHEMA_VERSION,
};
use crate::errors::EscrowError;
use crate::storage::{
    contribution, EscrowStorage, DEFAULT_FEES_LIMIT, MAX_FEES_LIMIT, MIN_FEES_LIMIT,
};
use crate::types::{
    status_step_allowed, AttestationEntry, EscrowStatus, InvoiceEscrow, ProtocolFeeUpdated,
};

verus! {

/// The escrow's amounts are consistent: what has been settled, and what has
/// been withdrawn, each lie between zero and what was funded.
pub open spec fn accounting_ok<A>(e: InvoiceEscrow<A>) -> bool {
    &&& 0 <= e.settled_amount <= e.funded_amount
    &&& 0 <= e.withdrawn_amount <= e.funded_amount
}

/// A successful settlement (`settle` or `partial_settle`) adds exactly the
/// settled amount, keeps the amounts consistent, moves the status only along
/// the forward lifecycle, and marks the escrow `Settled` exactly when
/// everything funded has been settled.
pub proof fn lemma_settlement_step<A>(env: EscrowStorage<A>, amount: i128, now: u64, check_maturity: bool)
    requires
        settlement_error(env, amount, now, check_maturity) is None,
    ensures
        ({
            let e = env.escrow->0;
            let e2 = settled_escrow(e, amount);
            &&& e2.settled_amount == e.settled_amount + amount
            &&& e2.funded_amount == e.funded_amount
            &&& e2.withdrawn_amount == e.withdrawn_amount
            &&& e2.settled_amount <= e2.funded_amount
            &&& (accounting_ok(e) ==> accounting_ok(e2))
            &&& status_step_allowed(e.status, e2.status)
            &&& (e2.status == EscrowStatus::Settled <==> e2.settled_amount == e2.funded_amount)
        }),
{
}

/// A successful withdrawal adds exactly the withdrawn amount, never takes
/// out more than was funded, keeps the amounts consistent and leaves the
/// status as it was.
pub proof fn lemma_withdrawal_step<A>(env: EscrowStorage<A>, amount: i128)
    requires
        withdrawal_error(env, amount) is None,
    ensures
        ({
            let e = env.escrow->0;
            let e2 = withdrawn_escrow(e, amount);
            &&& e2.withdrawn_amount == e.withdrawn_amount + amount
            &&& e2.withdrawn_amount <= e2.funded_amount
            &&& e2.settled_amount == e.settled_amount
            &&& e2.status == e.status
            &&& (accounting_ok(e) ==> accounting_ok(e2))
        }),
{
}

/// Once maturity is reached, `settle` and `partial_settle` behave alike.
pub proof fn lemma_settle_is_partial_settle_after_maturity<A>(env: EscrowStorage<A>, amount: i128, now: u64)
    requires
        env.escrow is Some ==> now >= env.escrow->0.maturity,
    ensures
        settlement_error(env, amount, now, true) == settlement_error(env, amount, now, false),
{
}

/// The pause gate fires before the legal-hold gate and before any check of
/// the escrow, for settlement and withdrawal alike.
pub proof fn lemma_pause_gate_first<A>(env: EscrowStorage<A>, amount: i128, now: u64, check_maturity: bool)
    requires
        env.paused_flag(),
    ensures
        settlement_error(env, amount, now, check_maturity) == Some(EscrowError::ContractPaused),
        withdrawal_error(env, amount) == Some(EscrowError::ContractPaused),
{
}

/// A settled escrow takes no further settlement.
pub proof fn lemma_no_settlement_once_settled<A>(env: EscrowStorage<A>, amount: i128, now: u64, check_maturity: bool)
    requires
        env.escrow is Some,
        env.escrow->0.status == EscrowStatus::Settled,
    ensures
        settlement_error(env, amount, now, check_maturity) is Some,
{
}

/// `init` succeeds once: the storage it writes holds the schema version, so
/// a second `init` is refused. The new escrow starts open and consistent,
/// and holds the funding token that the funding-token key reads.
pub proof fn lemma_init_is_one_shot<A>(
    env: EscrowStorage<A>,
    admin: A,
    sme: A,
    funding_token: A,
    invoice_id: u64,
    target_amount: i128,
    maturity: u64,
)
    ensures
        ({
            let s = initialized_storage(env, admin, sme, funding_token, invoice_id, target_amount, maturity);
            &&& s.version == Some(SCHEMA_VERSION)
            &&& s.escrow->0.funding_token == funding_token
            &&& s.escrow->0.status == EscrowStatus::Open
            &&& accounting_ok(s.escrow->0)
        }),
{
}

/// What `set_fees_limit` writes is what `get_fees_limit` reads back, and an
/// unset limit reads as the default.
pub proof fn lemma_fees_limit_read_after_write<A>(env: EscrowStorage<A>, limit: i64)
    requires
        MIN_FEES_LIMIT <= limit <= MAX_FEES_LIMIT,
    ensures
        (EscrowStorage { fees_limit: Some(limit), ..env }).fees_limit_value() == limit,
        env.fees_limit is None ==> env.fees_limit_value() == DEFAULT_FEES_LIMIT,
{
}

/// A protocol fee accepted by `set_protocol_fee_bps` reads back unchanged
/// and lies within the fees limit in force when it was set.
pub proof fn lemma_protocol_fee_read_after_write<A>(env: EscrowStorage<A>, fee_bps: i64)
    requires
        0 <= fee_bps <= env.fees_limit_value(),
    ensures
        ({
            let s = EscrowStorage { protocol_fee_bps: Some(fee_bps), ..env };
            &&& s.protocol_fee_value() == fee_bps
            &&& 0 <= s.protocol_fee_value() <= s.fees_limit_value()
        }),
{
}

/// The pause flag and the legal-hold flag are independent: writing one
/// leaves the other as it was.
pub proof fn lemma_pause_and_legal_hold_independent<A>(env: EscrowStorage<A>, value: bool)
    ensures
        (EscrowStorage { paused: Some(value), ..env }).paused_flag() == value,
        (EscrowStorage { paused: Some(value), ..env }).legal_hold_flag() == env.legal_hold_flag(),
        (EscrowStorage { legal_hold: Some(value), ..env }).legal_hold_flag() == value,
        (EscrowStorage { legal_hold: Some(value), ..env }).paused_flag() == env.paused_flag(),
{
}

/// Revoking or unrevoking an entry leaves every digest of the log in place.
pub proof fn lemma_revocation_keeps_digests(log: Seq<AttestationEntry>, i: int, revoked: bool)
    requires
        0 <= i < log.len(),
    ensures
        log_digests(with_revoked(log, i, revoked)) == log_digests(log),
{
    assert(log_digests(with_revoked(log, i, revoked)) =~= log_digests(log));
}

/// Appending adds one digest at the end and keeps every earlier one; an
/// append that succeeds leaves the log within its capacity.
pub proof fn lemma_append_only(log: Seq<AttestationEntry>, digest: [u8; 32])
    requires
        log.len() < MAX_ATTESTATION_APPEND_ENTRIES,
    ensures
        log_digests(log.push(AttestationEntry { digest, revoked: false })) == log_digests(log).push(
            digest,
        ),
        log.push(AttestationEntry { digest, revoked: false }).len() <= MAX_ATTESTATION_APPEND_ENTRIES,
{
    assert(log_digests(log.push(AttestationEntry { digest, revoked: false })) =~= log_digests(
        log,
    ).push(digest));
}

/// Unrevoking an entry that was just revoked restores the log exactly.
pub proof fn lemma_unrevoke_undoes_revoke(log: Seq<AttestationEntry>, i: int)
    requires
        0 <= i < log.len(),
        !log[i].revoked,
    ensures
        with_revoked(with_revoked(log, i, true), i, false) == log,
{
    assert(with_revoked(with_revoked(log, i, true), i, false) =~= log);
}

/// A batch revocation keeps every digest of the log in place.
pub proof fn lemma_batch_keeps_digests(log: Seq<AttestationEntry>, indices: Seq<u32>)
    ensures
        log_digests(revoke_all(log, indices)) == log_digests(log),
{
    assert(log_digests(revoke_all(log, indices)) =~= log_digests(log));
}

/// The log after revoking `indices` one `revoke_attestation_digest` call at
/// a time, in order.
pub open spec fn revoke_each(log: Seq<AttestationEntry>, indices: Seq<u32>) -> Seq<AttestationEntry>
    decreases indices.len(),
{
    if indices.len() == 0 {
        log
    } else {
        with_revoked(revoke_each(log, indices.drop_last()), indices.last() as int, true)
    }
}

/// The `k`-th single revocation succeeds after the first `k` have been done:
/// its index is in range and its entry not yet revoked.
pub open spec fn single_revoke_succeeds(log: Seq<AttestationEntry>, indices: Seq<u32>, k: int) -> bool {
    let prior = revoke_each(log, indices.take(k));
    indices[k] < prior.len() && !prior[indices[k] as int].revoked
}

/// A failing position implies a first failing position.
proof fn lemma_failure_has_first(log: Seq<AttestationEntry>, indices: Seq<u32>, k: int)
    requires
        0 <= k < indices.len(),
        revoke_batch_entry_error(log, indices, k) is Some,
    ensures
        exists|f: int| is_first_failure(log, indices, f),
    decreases k,
{
    if exists|j: int| 0 <= j < k && revoke_batch_entry_error(log, indices, j) is Some {
        let j = choose|j: int| 0 <= j < k && revoke_batch_entry_error(log, indices, j) is Some;
        lemma_failure_has_first(log, indices, j);
    } else {
        assert(is_first_failure(log, indices, k));
    }
}

/// A batch without error has no failing position.
pub proof fn lemma_batch_without_error_passes_everywhere(log: Seq<AttestationEntry>, indices: Seq<u32>)
    requires
        revoke_batch_error(log, indices) is None,
    ensures
        forall|k: int| 0 <= k < indices.len() ==> revoke_batch_entry_error(log, indices, k) is None,
{
    assert forall|k: int| 0 <= k < indices.len() implies revoke_batch_entry_error(log, indices, k) is None by {
        if revoke_batch_entry_error(log, indices, k) is Some {
            lemma_failure_has_first(log, indices, k);
            let f = choose|f: int| is_first_failure(log, indices, f);
            assert(is_first_failure(log, indices, f));
        }
    }
}

proof fn lemma_prefix_revocations(log: Seq<AttestationEntry>, indices: Seq<u32>, m: int)
    requires
        0 <= m <= indices.len(),
        forall|k: int| 0 <= k < indices.len() ==> revoke_batch_entry_error(log, indices, k) is None,
    ensures
        revoke_each(log, indices.take(m)) == revoke_all(log, indices.take(m)),
    decreases m,
{
    let t = indices.take(m);
    if m == 0 {
        assert(revoke_all(log, t) =~= log) by {
            assert forall|x: int| 0 <= x < log.len() implies !names_index(t, x) by {}
        }
    } else {
        lemma_prefix_revocations(log, indices, m - 1);
        let t0 = indices.take(m - 1);
        assert(t.drop_last() == t0);
        let i = indices[m - 1];
        assert(revoke_batch_entry_error(log, indices, m - 1) is None);
        assert forall|x: int| 0 <= x < log.len() implies #[trigger] revoke_all(log, t)[x] == with_revoked(
            revoke_all(log, t0),
            i as int,
            true,
        )[x] by {
            lemma_take_next_names(indices, m - 1, x);
        }
        assert(revoke_all(log, t) =~= with_revoked(revoke_all(log, t0), i as int, true));
    }
}

/// A batch revocation that succeeds does what revoking the same indices
/// one call at a time would do, and each of those calls would succeed: its
/// index is in range and its entry not yet revoked.
pub proof fn lemma_batch_is_sequential_revokes(log: Seq<AttestationEntry>, indices: Seq<u32>)
    requires
        revoke_batch_error(log, indices) is None,
    ensures
        revoke_all(log, indices) == revoke_each(log, indices),
        forall|k: int| 0 <= k < indices.len() ==> #[trigger] single_revoke_succeeds(log, indices, k),
{
    lemma_batch_without_error_passes_everywhere(log, indices);
    lemma_prefix_revocations(log, indices, indices.len() as int);
    assert(indices.take(indices.len() as int) == indices);
    assert forall|k: int| 0 <= k < indices.len() implies #[trigger] single_revoke_succeeds(log, indices, k) by {
        assert(revoke_batch_entry_error(log, indices, k) is None);
        lemma_prefix_revocations(log, indices, k);
    }
}

/// Appending, revoking and unrevoking touch the attestation log only: a
/// bound primary hash, the escrow and every other key stay as they were.
pub proof fn lemma_log_writes_keep_everything_else<A>(before: EscrowStorage<A>, after: EscrowStorage<A>)
    requires
        same_except_log(before, after),
    ensures
        after.primary_attestation_hash == before.primary_attestation_hash,
        after.escrow == before.escrow,
        after.admin == before.admin,
        after.version == before.version,
{
}

/// Investor contributions: an investor never recorded reads as `0`; what
/// `set_investor_contribution` records for an investor is what
/// `get_investor_contribution` reads back; and recording one investor leaves
/// every other investor's amount as it was.
pub proof fn lemma_contribution_read_after_write<K>(
    m: Map<K, i128>,
    investor: K,
    amount: i128,
    other: K,
)
    ensures
        contribution(Map::<K, i128>::empty(), other) == 0,
        contribution(m.insert(investor, amount), investor) == amount,
        other != investor ==> contribution(m.insert(investor, amount), other) == contribution(
            m,
            other,
        ),
{
}

/// The gates that settlement and withdrawal share, in order: a paused
/// contract refuses first, then a legal hold, then a missing escrow.
pub proof fn lemma_settlement_and_withdrawal_gates<A>(
    env: EscrowStorage<A>,
    amount: i128,
    now: u64,
    check_maturity: bool,
)
    ensures
        env.paused == Some(true) ==> settlement_error(env, amount, now, check_maturity) == Some(
            EscrowError::ContractPaused,
        ) && withdrawal_error(env, amount) == Some(EscrowError::ContractPaused),
        env.paused != Some(true) && env.legal_hold == Some(true) ==> settlement_error(
            env,
            amount,
            now,
            check_maturity,
        ) == Some(EscrowError::LegalHoldActive) && withdrawal_error(env, amount) == Some(
            EscrowError::LegalHoldActive,
        ),
        env.paused != Some(true) && env.legal_hold != Some(true) && env.escrow is None
            ==> settlement_error(env, amount, now, check_maturity) == Some(
            EscrowError::NotInitialized,
        ) && withdrawal_error(env, amount) == Some(EscrowError::NotInitialized),
{
}

/// An open gate: neither paused nor on legal hold, with an escrow stored.
pub open spec fn gates_open<A>(env: EscrowStorage<A>) -> bool {
    env.paused != Some(true) && env.legal_hold != Some(true) && env.escrow is Some
}

/// Only a `Funded` escrow can be settled, whatever the amount or the time.
pub proof fn lemma_settlement_needs_funded<A>(env: EscrowStorage<A>, amount: i128, now: u64, check_maturity: bool)
    requires
        gates_open(env),
        env.escrow->0.status != EscrowStatus::Funded,
    ensures
        settlement_error(env, amount, now, check_maturity) == Some(EscrowError::EscrowNotInFundedState),
{
}

/// `settle` refuses a funded escrow before its maturity, whatever has been
/// settled already and whatever the amount.
pub proof fn lemma_settle_waits_for_maturity<A>(env: EscrowStorage<A>, amount: i128, now: u64)
    requires
        gates_open(env),
        env.escrow->0.status == EscrowStatus::Funded,
        now < env.escrow->0.maturity,
    ensures
        settlement_error(env, amount, now, true) == Some(EscrowError::MaturityNotReached),
{
}

/// On a funded escrow (past maturity, for `settle`), a settlement succeeds
/// exactly when the amount is positive and at most the unsettled principal;
/// any other amount is refused as invalid.
pub proof fn lemma_settlement_accepts_exactly_the_unsettled_range<A>(
    env: EscrowStorage<A>,
    amount: i128,
    now: u64,
    check_maturity: bool,
)
    requires
        gates_open(env),
        env.escrow->0.status == EscrowStatus::Funded,
        check_maturity ==> now >= env.escrow->0.maturity,
        i128::MIN <= env.escrow->0.funded_amount - env.escrow->0.settled_amount <= i128::MAX,
    ensures
        0 < amount <= env.escrow->0.funded_amount - env.escrow->0.settled_amount ==> settlement_error(
            env,
            amount,
            now,
            check_maturity,
        ) is None,
        !(0 < amount <= env.escrow->0.funded_amount - env.escrow->0.settled_amount)
            ==> settlement_error(env, amount, now, check_maturity) == Some(
            EscrowError::SettlementAmountInvalid,
        ),
{
}

/// The ledger time matters to settlement only through maturity:
/// `partial_settle` ignores it, and `settle` decides alike at any two times
/// at or past maturity.
pub proof fn lemma_settlement_time_only_gates_maturity<A>(
    env: EscrowStorage<A>,
    amount: i128,
    now1: u64,
    now2: u64,
)
    ensures
        settlement_error(env, amount, now1, false) == settlement_error(env, amount, now2, false),
        env.escrow is Some && now1 >= env.escrow->0.maturity && now2 >= env.escrow->0.maturity
            ==> settlement_error(env, amount, now1, true) == settlement_error(env, amount, now2, true),
{
}

/// A successful settlement adds the amount to what was settled and marks the
/// escrow `Settled` exactly when everything funded is settled; otherwise the
/// escrow stays `Funded`. Nothing else in the escrow changes.
pub proof fn lemma_settlement_result<A>(env: EscrowStorage<A>, amount: i128, now: u64, check_maturity: bool)
    requires
        settlement_error(env, amount, now, check_maturity) is None,
    ensures
        ({
            let e = env.escrow->0;
            let e2 = settled_escrow(e, amount);
            &&& e2.settled_amount == e.settled_amount + amount
            &&& e.settled_amount + amount == e.funded_amount ==> e2.status == EscrowStatus::Settled
            &&& e.settled_amount + amount != e.funded_amount ==> e2.status == EscrowStatus::Funded
            &&& e2.invoice_id == e.invoice_id && e2.funded_amount == e.funded_amount
            &&& e2.withdrawn_amount == e.withdrawn_amount && e2.maturity == e.maturity
            &&& e2.target_amount == e.target_amount
        }),
{
}

/// A funded or settled escrow allows a withdrawal exactly when the amount is
/// positive and at most what has not been withdrawn yet, whatever has been
/// settled; any other amount is refused as invalid.
pub proof fn lemma_withdrawal_accepts_exactly_the_unwithdrawn_range<A>(env: EscrowStorage<A>, amount: i128)
    requires
        gates_open(env),
        env.escrow->0.status == EscrowStatus::Funded || env.escrow->0.status == EscrowStatus::Settled,
        i128::MIN <= env.escrow->0.funded_amount - env.escrow->0.withdrawn_amount <= i128::MAX,
    ensures
        (withdrawal_error(env, amount) is None) == (0 < amount <= env.escrow->0.funded_amount
            - env.escrow->0.withdrawn_amount),
        withdrawal_error(env, amount) is Some ==> withdrawal_error(env, amount) == Some(
            EscrowError::WithdrawAmountInvalid,
        ),
{
}

/// Only a funded or settled escrow allows withdrawal.
pub proof fn lemma_withdrawal_needs_funded_or_settled<A>(env: EscrowStorage<A>, amount: i128)
    requires
        gates_open(env),
        env.escrow->0.status != EscrowStatus::Funded,
        env.escrow->0.status != EscrowStatus::Settled,
    ensures
        withdrawal_error(env, amount) == Some(EscrowError::EscrowNotInFundedState),
{
}

/// A successful withdrawal adds the amount to what was withdrawn and changes
/// nothing else in the escrow.
pub proof fn lemma_withdrawal_result<A>(env: EscrowStorage<A>, amount: i128)
    requires
        withdrawal_error(env, amount) is None,
    ensures
        ({
            let e = env.escrow->0;
            let e2 = withdrawn_escrow(e, amount);
            &&& e2.withdrawn_amount == e.withdrawn_amount + amount
            &&& e2.status == e.status && e2.settled_amount == e.settled_amount
            &&& e2.funded_amount == e.funded_amount && e2.invoice_id == e.invoice_id
            &&& e2.maturity == e.maturity && e2.target_amount == e.target_amount
        }),
{
}

/// The protocol fee reads as the stored value when one is stored, whatever
/// the fees limit, and as `0` otherwise; changing the fees limit leaves it
/// unchanged.
pub proof fn lemma_protocol_fee_reads_stored_value<A>(env: EscrowStorage<A>, limit: i64)
    ensures
        env.protocol_fee_bps is Some ==> env.protocol_fee_value() == env.protocol_fee_bps->0,
        env.protocol_fee_bps is None ==> env.protocol_fee_value() == 0,
        (EscrowStorage { fees_limit: Some(limit), ..env }).protocol_fee_value()
            == env.protocol_fee_value(),
{
}

/// Every successful fee change on an initialised escrow reports its event,
/// the new fee equal to the old one included: the escrow's invoice id, the
/// fee stored before (`0` when none) and the new fee.
pub proof fn lemma_fee_change_event<A>(env: EscrowStorage<A>, new_fee_bps: i64)
    requires
        env.escrow is Some,
    ensures
        fee_update_event(env, new_fee_bps) == Some(
            ProtocolFeeUpdated {
                invoice_id: env.escrow->0.invoice_id,
                old_fee_bps: match env.protocol_fee_bps {
                    Some(f) => f,
                    None => 0i64,
                },
                new_fee_bps,
            },
        ),
{
}

} // verus!
