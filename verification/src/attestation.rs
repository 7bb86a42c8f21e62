//! Attestation anchors: a write-once primary digest and a bounded,
//! append-only log of digests whose entries can be revoked and unrevoked.
//!
//! Only 32-byte digests are recorded; no proof is stored or checked on chain.

use vstd::prelude::*;
use crate::contract::{LiquifactEscrow, Invocation, Role};
use crate::errors::EscrowError;
use crate::storage::{get_admin, get_escrow, EscrowStorage};
use crate::types::{
    AttestationDigestAppended, AttestationDigestRevoked, AttestationDigestUnrevoked,
    AttestationEntry, PrimaryAttestationBound,
};

verus! {

/// Maximum number of entries in the attestation append log.
pub const MAX_ATTESTATION_APPEND_ENTRIES: u32 = 32;

/// Maximum number of indices in one `revoke_attestation_digests` call.
pub const MAX_ATTESTATION_REVOKE_BATCH: u32 = 32;

/// The escrow record and its admin are both stored.
pub open spec fn attestation_ready<A>(env: EscrowStorage<A>) -> bool {
    env.escrow is Some && env.admin is Some
}

/// The role asked for by the attestation writers: the admin, once the escrow
/// is initialised.
pub open spec fn attestation_gate<A>(env: EscrowStorage<A>) -> Option<Role> {
    if attestation_ready(env) {
        Some(Role::Admin)
    } else {
        None
    }
}

/// `b` differs from `a` in the attestation log at most.
pub open spec fn same_except_log<A>(a: EscrowStorage<A>, b: EscrowStorage<A>) -> bool {
    b == (EscrowStorage { attestation_log: b.attestation_log, ..a })
}

/// The log entry at `i` with its revocation flag set to `revoked`.
pub open spec fn with_revoked(log: Seq<AttestationEntry>, i: int, revoked: bool) -> Seq<
    AttestationEntry,
> {
    log.update(i, AttestationEntry { revoked, ..log[i] })
}

/// Why position `k` of a revocation batch fails, if it does: its index is
/// out of range, or its entry is already revoked, whether before the call or
/// by an earlier position of the same batch.
pub open spec fn revoke_batch_entry_error(
    log: Seq<AttestationEntry>,
    indices: Seq<u32>,
    k: int,
) -> Option<EscrowError> {
    let i = indices[k];
    if i >= log.len() {
        Some(EscrowError::AttestationIndexOutOfRange)
    } else if log[i as int].revoked || names_index(indices.take(k), i as int) {
        Some(EscrowError::AttestationAlreadyRevoked)
    } else {
        None
    }
}

/// Position `k` is the first failing position of the batch.
pub open spec fn is_first_failure(log: Seq<AttestationEntry>, indices: Seq<u32>, k: int) -> bool {
    &&& 0 <= k < indices.len()
    &&& revoke_batch_entry_error(log, indices, k) is Some
    &&& forall|j: int| 0 <= j < k ==> revoke_batch_entry_error(log, indices, j) is None
}

/// The error of a revocation batch's first failing position, `None` when
/// every position passes.
pub open spec fn revoke_batch_error(log: Seq<AttestationEntry>, indices: Seq<u32>) -> Option<
    EscrowError,
> {
    if exists|k: int| is_first_failure(log, indices, k) {
        revoke_batch_entry_error(log, indices, choose|k: int| is_first_failure(log, indices, k))
    } else {
        None
    }
}

/// Some position of `indices` names log index `i`.
pub open spec fn names_index(indices: Seq<u32>, i: int) -> bool {
    exists|k: int| 0 <= k < indices.len() && indices[k] == i
}

/// The log after every index of the batch has been revoked.
pub open spec fn revoke_all(log: Seq<AttestationEntry>, indices: Seq<u32>) -> Seq<AttestationEntry> {
    Seq::new(
        log.len(),
        |i: int| AttestationEntry { revoked: log[i].revoked || names_index(indices, i), ..log[i] },
    )
}

/// The events of a successful batch: one per index, in order.
pub open spec fn revoked_events(invoice_id: u64, indices: Seq<u32>) -> Seq<AttestationDigestRevoked> {
    indices.map_values(|i: u32| AttestationDigestRevoked { invoice_id, index: i })
}

/// The digests of the log, in order.
pub open spec fn log_digests(log: Seq<AttestationEntry>) -> Seq<[u8; 32]> {
    log.map_values(|e: AttestationEntry| e.digest)
}

impl LiquifactEscrow {
    /// Bind the primary attestation digest. It can be bound once only.
    /// Requires the admin's authorization.
    pub fn bind_primary_attestation_hash<A>(env: &mut EscrowStorage<A>, digest: [u8; 32]) -> (r:
        Invocation<PrimaryAttestationBound>)
        ensures
            r.auth == attestation_gate(*old(env)),
            !attestation_ready(*old(env)) ==> r.result == Err::<PrimaryAttestationBound, EscrowError>(
                EscrowError::NotInitialized,
            ) && *final(env) == *old(env),
            attestation_ready(*old(env)) && old(env).primary_attestation_hash is Some ==> r.result
                == Err::<PrimaryAttestationBound, EscrowError>(
                EscrowError::PrimaryAttestationAlreadyBound,
            ) && *final(env) == *old(env),
            attestation_ready(*old(env)) && old(env).primary_attestation_hash is None ==> r.result
                == Ok::<PrimaryAttestationBound, EscrowError>(
                PrimaryAttestationBound { invoice_id: old(env).escrow->0.invoice_id, digest },
            ) && *final(env) == (EscrowStorage { primary_attestation_hash: Some(digest), ..*old(env) }),
    {
        let invoice_id = match get_escrow(env) {
            Some(e) => e.invoice_id,
            None => {
                return Invocation { auth: None, result: Err(EscrowError::NotInitialized) };
            },
        };
        if get_admin(env).is_none() {
            return Invocation { auth: None, result: Err(EscrowError::NotInitialized) };
        }
        let auth = Some(Role::Admin);
        if env.primary_attestation_hash.is_some() {
            return Invocation { auth, result: Err(EscrowError::PrimaryAttestationAlreadyBound) };
        }
        env.primary_attestation_hash = Some(digest);
        Invocation { auth, result: Ok(PrimaryAttestationBound { invoice_id, digest }) }
    }

    /// The primary attestation digest, `None` until it is bound.
    pub fn get_primary_attestation_hash<A>(env: &EscrowStorage<A>) -> (r: Option<[u8; 32]>)
        ensures
            r == env.primary_attestation_hash,
    {
        env.primary_attestation_hash
    }

    /// Append a digest to the attestation log, which holds at most
    /// [`MAX_ATTESTATION_APPEND_ENTRIES`] entries. Requires the admin's
    /// authorization; reports the new entry's index.
    pub fn append_attestation_digest<A>(env: &mut EscrowStorage<A>, digest: [u8; 32]) -> (r:
        Invocation<AttestationDigestAppended>)
        ensures
            r.auth == attestation_gate(*old(env)),
            !attestation_ready(*old(env)) ==> r.result == Err::<AttestationDigestAppended, EscrowError>(
                EscrowError::NotInitialized,
            ) && *final(env) == *old(env),
            attestation_ready(*old(env)) && old(env).attestation_log@.len()
                >= MAX_ATTESTATION_APPEND_ENTRIES ==> r.result == Err::<
                AttestationDigestAppended,
                EscrowError,
            >(EscrowError::AttestationAppendLogCapacityReached) && *final(env) == *old(env),
            attestation_ready(*old(env)) && old(env).attestation_log@.len()
                < MAX_ATTESTATION_APPEND_ENTRIES ==> r.result == Ok::<
                AttestationDigestAppended,
                EscrowError,
            >(
                AttestationDigestAppended {
                    invoice_id: old(env).escrow->0.invoice_id,
                    index: old(env).attestation_log@.len() as u32,
                    digest,
                },
            ) && same_except_log(*old(env), *final(env)) && final(env).attestation_log@ == old(
                env,
            ).attestation_log@.push(AttestationEntry { digest, revoked: false }),
    {
        let invoice_id = match get_escrow(env) {
            Some(e) => e.invoice_id,
            None => {
                return Invocation { auth: None, result: Err(EscrowError::NotInitialized) };
            },
        };
        if get_admin(env).is_none() {
            return Invocation { auth: None, result: Err(EscrowError::NotInitialized) };
        }
        let auth = Some(Role::Admin);
        let len = env.attestation_log.len();
        if len >= MAX_ATTESTATION_APPEND_ENTRIES as usize {
            return Invocation {
                auth,
                result: Err(EscrowError::AttestationAppendLogCapacityReached),
            };
        }
        env.attestation_log.push(AttestationEntry { digest, revoked: false });
        Invocation {
            auth,
            result: Ok(AttestationDigestAppended { invoice_id, index: len as u32, digest }),
        }
    }

    /// The digests of the attestation log, revoked ones included, in order.
    pub fn get_attestation_append_log<A>(env: &EscrowStorage<A>) -> (r: Vec<[u8; 32]>)
        ensures
            r@ == log_digests(env.attestation_log@),
    {
        let mut out: Vec<[u8; 32]> = Vec::new();
        let n = env.attestation_log.len();
        for i in 0..n
            invariant
                n == env.attestation_log@.len(),
                out@ == log_digests(env.attestation_log@.take(i as int)),
        {
            out.push(env.attestation_log[i].digest);
            assert(env.attestation_log@.take(i + 1) == env.attestation_log@.take(i as int).push(
                env.attestation_log@[i as int],
            ));
        }
        assert(env.attestation_log@.take(n as int) == env.attestation_log@);
        out
    }

    /// Whether the log entry at `index` is revoked; `false` for an index past
    /// the end of the log.
    pub fn is_attestation_revoked<A>(env: &EscrowStorage<A>, index: u32) -> (r: bool)
        ensures
            r == (index < env.attestation_log@.len() && env.attestation_log@[index as int].revoked),
    {
        if (index as usize) < env.attestation_log.len() {
            env.attestation_log[index as usize].revoked
        } else {
            false
        }
    }

    /// Revoke the log entry at `index`. The entry and its digest stay in the
    /// log. Requires the admin's authorization.
    pub fn revoke_attestation_digest<A>(env: &mut EscrowStorage<A>, index: u32) -> (r: Invocation<
        AttestationDigestRevoked,
    >)
        ensures
            r.auth == attestation_gate(*old(env)),
            !attestation_ready(*old(env)) ==> r.result == Err::<AttestationDigestRevoked, EscrowError>(
                EscrowError::NotInitialized,
            ) && *final(env) == *old(env),
            attestation_ready(*old(env)) && index >= old(env).attestation_log@.len() ==> r.result
                == Err::<AttestationDigestRevoked, EscrowError>(EscrowError::AttestationIndexOutOfRange)
                && *final(env) == *old(env),
            attestation_ready(*old(env)) && index < old(env).attestation_log@.len() && old(
                env,
            ).attestation_log@[index as int].revoked ==> r.result == Err::<
                AttestationDigestRevoked,
                EscrowError,
            >(EscrowError::AttestationAlreadyRevoked) && *final(env) == *old(env),
            attestation_ready(*old(env)) && index < old(env).attestation_log@.len() && !old(
                env,
            ).attestation_log@[index as int].revoked ==> r.result == Ok::<
                AttestationDigestRevoked,
                EscrowError,
            >(AttestationDigestRevoked { invoice_id: old(env).escrow->0.invoice_id, index })
                && same_except_log(*old(env), *final(env)) && final(env).attestation_log@
                == with_revoked(old(env).attestation_log@, index as int, true),
    {
        let invoice_id = match get_escrow(env) {
            Some(e) => e.invoice_id,
            None => {
                return Invocation { auth: None, result: Err(EscrowError::NotInitialized) };
            },
        };
        if get_admin(env).is_none() {
            return Invocation { auth: None, result: Err(EscrowError::NotInitialized) };
        }
        let auth = Some(Role::Admin);
        let i = index as usize;
        if i >= env.attestation_log.len() {
            return Invocation { auth, result: Err(EscrowError::AttestationIndexOutOfRange) };
        }
        if env.attestation_log[i].revoked {
            return Invocation { auth, result: Err(EscrowError::AttestationAlreadyRevoked) };
        }
        let digest = env.attestation_log[i].digest;
        env.attestation_log.set(i, AttestationEntry { digest, revoked: true });
        Invocation { auth, result: Ok(AttestationDigestRevoked { invoice_id, index }) }
    }

    /// Clear the revocation of the log entry at `index`. The index and the
    /// revocation are checked before the escrow is loaded and the admin's
    /// authorization is asked for.
    pub fn unrevoke_attestation_digest<A>(env: &mut EscrowStorage<A>, index: u32) -> (r: Invocation<
        AttestationDigestUnrevoked,
    >)
        ensures
            index >= old(env).attestation_log@.len() ==> r.auth is None && r.result == Err::<
                AttestationDigestUnrevoked,
                EscrowError,
            >(EscrowError::AttestationIndexOutOfRange) && *final(env) == *old(env),
            index < old(env).attestation_log@.len() && !old(env).attestation_log@[index as int].revoked
                ==> r.auth is None && r.result == Err::<AttestationDigestUnrevoked, EscrowError>(
                EscrowError::AttestationNotRevoked,
            ) && *final(env) == *old(env),
            index < old(env).attestation_log@.len() && old(env).attestation_log@[index as int].revoked
                && !attestation_ready(*old(env)) ==> r.auth is None && r.result == Err::<
                AttestationDigestUnrevoked,
                EscrowError,
            >(EscrowError::NotInitialized) && *final(env) == *old(env),
            index < old(env).attestation_log@.len() && old(env).attestation_log@[index as int].revoked
                && attestation_ready(*old(env)) ==> r.auth == Some(Role::Admin) && r.result == Ok::<
                AttestationDigestUnrevoked,
                EscrowError,
            >(AttestationDigestUnrevoked { invoice_id: old(env).escrow->0.invoice_id, index })
                && same_except_log(*old(env), *final(env)) && final(env).attestation_log@
                == with_revoked(old(env).attestation_log@, index as int, false),
    {
        let i = index as usize;
        if i >= env.attestation_log.len() {
            return Invocation { auth: None, result: Err(EscrowError::AttestationIndexOutOfRange) };
        }
        if !env.attestation_log[i].revoked {
            return Invocation { auth: None, result: Err(EscrowError::AttestationNotRevoked) };
        }
        let invoice_id = match get_escrow(env) {
            Some(e) => e.invoice_id,
            None => {
                return Invocation { auth: None, result: Err(EscrowError::NotInitialized) };
            },
        };
        if get_admin(env).is_none() {
            return Invocation { auth: None, result: Err(EscrowError::NotInitialized) };
        }
        let digest = env.attestation_log[i].digest;
        env.attestation_log.set(i, AttestationEntry { digest, revoked: false });
        Invocation {
            auth: Some(Role::Admin),
            result: Ok(AttestationDigestUnrevoked { invoice_id, index }),
        }
    }

    /// Revoke every log entry named by `indices`, atomically: the batch is
    /// checked in order and, if any position fails, nothing is revoked and
    /// the first failure is reported. A repeated index fails as already
    /// revoked. Requires the admin's authorization; reports one event per
    /// index, in order.
    pub fn revoke_attestation_digests<A>(env: &mut EscrowStorage<A>, indices: &Vec<u32>) -> (r:
        Invocation<Vec<AttestationDigestRevoked>>)
        ensures
            indices@.len() == 0 ==> r.auth is None && r.result == Err::<
                Vec<AttestationDigestRevoked>,
                EscrowError,
            >(EscrowError::AttestationBatchEmpty) && *final(env) == *old(env),
            indices@.len() > MAX_ATTESTATION_REVOKE_BATCH ==> r.auth is None && r.result == Err::<
                Vec<AttestationDigestRevoked>,
                EscrowError,
            >(EscrowError::AttestationBatchTooLarge) && *final(env) == *old(env),
            1 <= indices@.len() <= MAX_ATTESTATION_REVOKE_BATCH && !attestation_ready(*old(env))
                ==> r.auth is None && r.result == Err::<Vec<AttestationDigestRevoked>, EscrowError>(
                EscrowError::NotInitialized,
            ) && *final(env) == *old(env),
            1 <= indices@.len() <= MAX_ATTESTATION_REVOKE_BATCH && attestation_ready(*old(env))
                ==> r.auth == Some(Role::Admin) && match revoke_batch_error(
                old(env).attestation_log@,
                indices@,
            ) {
                Some(err) => r.result == Err::<Vec<AttestationDigestRevoked>, EscrowError>(err)
                    && *final(env) == *old(env),
                None => r.result matches Ok(events) && events@ == revoked_events(
                    old(env).escrow->0.invoice_id,
                    indices@,
                ) && same_except_log(*old(env), *final(env)) && final(env).attestation_log@
                    == revoke_all(old(env).attestation_log@, indices@),
            },
    {
        let n = indices.len();
        if n == 0 {
            return Invocation { auth: None, result: Err(EscrowError::AttestationBatchEmpty) };
        }
        if n > MAX_ATTESTATION_REVOKE_BATCH as usize {
            return Invocation { auth: None, result: Err(EscrowError::AttestationBatchTooLarge) };
        }
        let invoice_id = match get_escrow(env) {
            Some(e) => e.invoice_id,
            None => {
                return Invocation { auth: None, result: Err(EscrowError::NotInitialized) };
            },
        };
        if get_admin(env).is_none() {
            return Invocation { auth: None, result: Err(EscrowError::NotInitialized) };
        }
        let auth = Some(Role::Admin);
        let len = env.attestation_log.len();
        let ghost log = env.attestation_log@;
        // Validate the whole batch before touching the log.
        let mut seen: Vec<bool> = Vec::new();
        for j in 0..len
            invariant
                forall|x: int| 0 <= x < seen@.len() ==> !seen@[x],
                seen@.len() == j,
        {
            seen.push(false);
        }
        let mut k: usize = 0;
        while k < n
            invariant
                n == indices@.len(),
                len == log.len(),
                log == env.attestation_log@,
                *env == *old(env),
                1 <= n <= MAX_ATTESTATION_REVOKE_BATCH,
                attestation_ready(*old(env)),
                auth == Some(Role::Admin),
                k <= n,
                seen@.len() == len,
                forall|x: int| 0 <= x < len ==> seen@[x] == names_index(indices@.take(k as int), x),
                forall|j: int| 0 <= j < k ==> revoke_batch_entry_error(log, indices@, j) is None,
            decreases n - k,
        {
            let i = indices[k];
            proof {
                assert(indices@.take(k as int + 1) == indices@.take(k as int).push(i));
            }
            if i as usize >= len {
                proof {
                    lemma_first_failure_decides(log, indices@, k as int);
                }
                return Invocation { auth, result: Err(EscrowError::AttestationIndexOutOfRange) };
            }
            if env.attestation_log[i as usize].revoked || seen[i as usize] {
                proof {
                    assert(seen@[i as int] == names_index(indices@.take(k as int), i as int));
                    lemma_first_failure_decides(log, indices@, k as int);
                }
                return Invocation { auth, result: Err(EscrowError::AttestationAlreadyRevoked) };
            }
            seen.set(i as usize, true);
            proof {
                assert forall|x: int| 0 <= x < len implies #[trigger] seen@[x] == names_index(
                    indices@.take(k as int + 1),
                    x,
                ) by {
                    lemma_take_next_names(indices@, k as int, x);
                }
            }
            k = k + 1;
        }
        proof {
            lemma_no_failure(log, indices@);
        }
        // Every position passed: revoke them all.
        let mut events: Vec<AttestationDigestRevoked> = Vec::new();
        let mut k: usize = 0;
        while k < n
            invariant
                n == indices@.len(),
                len == log.len(),
                log == old(env).attestation_log@,
                k <= n,
                forall|j: int| 0 <= j < n ==> indices@[j] < len,
                env.attestation_log@.len() == len,
                forall|x: int|
                    0 <= x < len ==> env.attestation_log@[x] == (AttestationEntry {
                        revoked: log[x].revoked || names_index(indices@.take(k as int), x),
                        ..log[x]
                    }),
                events@ == revoked_events(invoice_id, indices@.take(k as int)),
                same_except_log(*old(env), *env),
                invoice_id == old(env).escrow->0.invoice_id,
            decreases n - k,
        {
            let i = indices[k];
            let digest = env.attestation_log[i as usize].digest;
            env.attestation_log.set(i as usize, AttestationEntry { digest, revoked: true });
            events.push(AttestationDigestRevoked { invoice_id, index: i });
            proof {
                let t0 = indices@.take(k as int);
                let t1 = indices@.take(k as int + 1);
                assert(t1 == t0.push(i));
                assert forall|x: int| 0 <= x < len implies #[trigger] env.attestation_log@[x] == (
                AttestationEntry {
                    revoked: log[x].revoked || names_index(t1, x),
                    ..log[x]
                }) by {
                    lemma_take_next_names(indices@, k as int, x);
                }
                assert(revoked_events(invoice_id, t1) == revoked_events(invoice_id, t0).push(
                    AttestationDigestRevoked { invoice_id, index: i },
                ));
            }
            k = k + 1;
        }
        proof {
            assert(indices@.take(n as int) == indices@);
            assert(env.attestation_log@ == revoke_all(log, indices@));
        }
        Invocation { auth, result: Ok(events) }
    }
}

/// Extending a prefix by one position names exactly one more index.
pub(crate) proof fn lemma_take_next_names(s: Seq<u32>, k: int, v: int)
    requires
        0 <= k < s.len(),
    ensures
        names_index(s.take(k + 1), v) == (names_index(s.take(k), v) || s[k] == v),
{
    let t0 = s.take(k);
    let t1 = s.take(k + 1);
    if names_index(t1, v) && s[k] != v {
        let w = choose|w: int| 0 <= w < t1.len() && t1[w] == v;
        assert(t0[w] == v);
    }
    if s[k] == v {
        assert(t1[k] == v);
    }
    if names_index(t0, v) {
        let w = choose|w: int| 0 <= w < t0.len() && t0[w] == v;
        assert(t1[w] == v);
    }
}

/// A first failing position decides the batch's error.
proof fn lemma_first_failure_decides(log: Seq<AttestationEntry>, indices: Seq<u32>, k: int)
    requires
        is_first_failure(log, indices, k),
    ensures
        revoke_batch_error(log, indices) == revoke_batch_entry_error(log, indices, k),
{
    let c = choose|c: int| is_first_failure(log, indices, c);
    assert(is_first_failure(log, indices, c));
    if c < k {
        assert(revoke_batch_entry_error(log, indices, c) is None);
    } else if c > k {
        assert(revoke_batch_entry_error(log, indices, k) is None);
    }
}

/// A batch in which every position passes has no error.
proof fn lemma_no_failure(log: Seq<AttestationEntry>, indices: Seq<u32>)
    requires
        forall|j: int| 0 <= j < indices.len() ==> revoke_batch_entry_error(log, indices, j) is None,
    ensures
        revoke_batch_error(log, indices) is None,
        forall|j: int| 0 <= j < indices.len() ==> indices[j] < log.len(),
{
    assert forall|j: int| 0 <= j < indices.len() implies indices[j] < log.len() by {
        assert(revoke_batch_entry_error(log, indices, j) is None);
    }
}

} // verus!
