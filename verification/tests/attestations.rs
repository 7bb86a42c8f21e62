use liquifact_escrow::{
    AttestationDigestAppended, AttestationDigestRevoked, AttestationDigestUnrevoked, EscrowError,
    EscrowStorage, Invocation, LiquifactEscrow, PrimaryAttestationBound, Role,
    MAX_ATTESTATION_APPEND_ENTRIES, MAX_ATTESTATION_REVOKE_BATCH,
};

type Storage = EscrowStorage<&'static str>;

const INVOICE_ID: u64 = 42;

/// A deterministic 32-byte digest seeded by `seed`.
fn digest(seed: u8) -> [u8; 32] {
    [seed; 32]
}

/// The host's authorization step: the call fails unless the caller holds the
/// role that the invocation asks for.
fn as_caller<T>(inv: Invocation<T>, caller: Option<Role>) -> Result<T, ()> {
    match inv.auth {
        Some(role) if caller != Some(role) => Err(()),
        _ => inv.result.map_err(|_| ()),
    }
}

fn setup_with_init() -> Storage {
    let mut env = EscrowStorage::new();
    LiquifactEscrow::init(&mut env, "admin", "sme", "token", INVOICE_ID, 10_000, 1_000).unwrap();
    env
}

fn setup_with_append() -> Storage {
    let mut env = setup_with_init();
    append(&mut env, digest(0xAA));
    env
}

fn append(env: &mut Storage, d: [u8; 32]) {
    LiquifactEscrow::append_attestation_digest(env, d).result.unwrap();
}

fn revoke(env: &mut Storage, index: u32) {
    LiquifactEscrow::revoke_attestation_digest(env, index).result.unwrap();
}

fn unrevoke(env: &mut Storage, index: u32) {
    LiquifactEscrow::unrevoke_attestation_digest(env, index).result.unwrap();
}

fn log(env: &Storage) -> Vec<[u8; 32]> {
    LiquifactEscrow::get_attestation_append_log(env)
}

fn revoked(env: &Storage, index: u32) -> bool {
    LiquifactEscrow::is_attestation_revoked(env, index)
}

// ---------------------------------------------------------------------------
// bind_primary_attestation_hash — single-set invariant
// ---------------------------------------------------------------------------

#[test]
fn test_bind_primary_hash_stores_and_reads() {
    let mut env = setup_with_init();
    let d = digest(0xAB);
    LiquifactEscrow::bind_primary_attestation_hash(&mut env, d).result.unwrap();
    assert_eq!(LiquifactEscrow::get_primary_attestation_hash(&env), Some(d));
}

#[test]
fn test_get_primary_hash_none_before_bind() {
    let env = setup_with_init();
    assert_eq!(LiquifactEscrow::get_primary_attestation_hash(&env), None);
}

#[test]
fn bind_primary_hash_twice_is_refused_whatever_the_digest() {
    for second in [0x01u8, 0x02] {
        let mut env = setup_with_init();
        LiquifactEscrow::bind_primary_attestation_hash(&mut env, digest(0x01)).result.unwrap();
        let inv = LiquifactEscrow::bind_primary_attestation_hash(&mut env, digest(second));
        assert_eq!(inv.auth, Some(Role::Admin));
        assert_eq!(inv.result, Err(EscrowError::PrimaryAttestationAlreadyBound));
        assert_eq!(LiquifactEscrow::get_primary_attestation_hash(&env), Some(digest(0x01)));
    }
}

#[test]
fn bind_primary_hash_requires_the_admin() {
    let mut env = setup_with_init();
    let inv = LiquifactEscrow::bind_primary_attestation_hash(&mut env, digest(0xFF));
    assert_eq!(inv.auth, Some(Role::Admin));
    assert!(as_caller(inv, Some(Role::Sme)).is_err());
}

// ---------------------------------------------------------------------------
// append_attestation_digest — bounded log invariant
// ---------------------------------------------------------------------------

#[test]
fn test_append_log_empty_before_first_append() {
    let env = setup_with_init();
    assert_eq!(log(&env).len(), 0);
}

#[test]
fn test_append_single_entry_stored() {
    let mut env = setup_with_init();
    let d = digest(0x10);
    append(&mut env, d);
    let l = log(&env);
    assert_eq!(l.len(), 1);
    assert_eq!(l[0], d);
}

#[test]
fn test_append_multiple_entries_ordered() {
    let mut env = setup_with_init();
    for i in 0u8..5 {
        append(&mut env, digest(i));
    }
    let l = log(&env);
    assert_eq!(l.len(), 5);
    for i in 0u8..5 {
        assert_eq!(l[i as usize], digest(i));
    }
}

#[test]
fn test_append_exactly_max_entries_succeeds() {
    let mut env = setup_with_init();
    for i in 0u8..(MAX_ATTESTATION_APPEND_ENTRIES as u8) {
        append(&mut env, digest(i));
    }
    assert_eq!(log(&env).len(), MAX_ATTESTATION_APPEND_ENTRIES as usize);
}

#[test]
fn append_beyond_max_is_refused() {
    let mut env = setup_with_init();
    for i in 0u8..(MAX_ATTESTATION_APPEND_ENTRIES as u8) {
        append(&mut env, digest(i));
    }
    let inv = LiquifactEscrow::append_attestation_digest(&mut env, digest(0xEE));
    assert_eq!(inv.auth, Some(Role::Admin));
    assert_eq!(inv.result, Err(EscrowError::AttestationAppendLogCapacityReached));
    assert_eq!(log(&env).len(), 32);
}

#[test]
fn test_append_duplicate_digest_allowed() {
    let mut env = setup_with_init();
    let d = digest(0x42);
    append(&mut env, d);
    append(&mut env, d);
    assert_eq!(log(&env).len(), 2);
}

#[test]
fn append_reports_index_and_digest() {
    let mut env = setup_with_init();
    for i in 0u8..3 {
        let inv = LiquifactEscrow::append_attestation_digest(&mut env, digest(i));
        assert_eq!(
            inv.result,
            Ok(AttestationDigestAppended { invoice_id: INVOICE_ID, index: i as u32, digest: digest(i) })
        );
    }
}

// ---------------------------------------------------------------------------
// Primary hash and append log are independent
// ---------------------------------------------------------------------------

#[test]
fn test_primary_bind_does_not_affect_append_log() {
    let mut env = setup_with_init();
    LiquifactEscrow::bind_primary_attestation_hash(&mut env, digest(0xAA)).result.unwrap();
    assert_eq!(log(&env).len(), 0);
}

#[test]
fn test_append_does_not_affect_primary_hash() {
    let mut env = setup_with_init();
    append(&mut env, digest(0xBB));
    assert_eq!(LiquifactEscrow::get_primary_attestation_hash(&env), None);
}

#[test]
fn test_primary_and_append_coexist() {
    let mut env = setup_with_init();
    let primary = digest(0xCC);
    LiquifactEscrow::bind_primary_attestation_hash(&mut env, primary).result.unwrap();
    for i in 0u8..4 {
        append(&mut env, digest(i));
    }
    assert_eq!(LiquifactEscrow::get_primary_attestation_hash(&env), Some(primary));
    assert_eq!(log(&env).len(), 4);
}

// ---------------------------------------------------------------------------
// revoke_attestation_digest
// ---------------------------------------------------------------------------

#[test]
fn test_revoke_single_entry() {
    let mut env = setup_with_init();
    append(&mut env, digest(0xAA));
    assert!(!revoked(&env, 0));
    revoke(&mut env, 0);
    assert!(revoked(&env, 0));
}

#[test]
fn test_revoke_later_index_does_not_affect_earlier() {
    let mut env = setup_with_init();
    append(&mut env, digest(0x01));
    append(&mut env, digest(0x02));
    revoke(&mut env, 1);
    assert!(!revoked(&env, 0));
    assert!(revoked(&env, 1));
}

#[test]
fn test_revoke_all_entries() {
    let mut env = setup_with_init();
    for i in 0u8..5 {
        append(&mut env, digest(i));
    }
    for i in 0u8..5 {
        assert!(!revoked(&env, i as u32));
        revoke(&mut env, i as u32);
        assert!(revoked(&env, i as u32));
    }
}

#[test]
fn test_double_revoke_typed_error() {
    let mut env = setup_with_init();
    append(&mut env, digest(0x42));
    revoke(&mut env, 0);
    assert_eq!(
        LiquifactEscrow::revoke_attestation_digest(&mut env, 0).result,
        Err(EscrowError::AttestationAlreadyRevoked)
    );
}

#[test]
fn test_revoke_out_of_range_typed_error() {
    let mut env = setup_with_init();
    assert_eq!(
        LiquifactEscrow::revoke_attestation_digest(&mut env, 0).result,
        Err(EscrowError::AttestationIndexOutOfRange)
    );
}

#[test]
fn test_revoke_at_log_len_typed_error() {
    let mut env = setup_with_init();
    append(&mut env, digest(0x10));
    assert_eq!(
        LiquifactEscrow::revoke_attestation_digest(&mut env, 1).result,
        Err(EscrowError::AttestationIndexOutOfRange)
    );
}

#[test]
fn test_is_revoked_empty_log() {
    let env = setup_with_init();
    assert!(!revoked(&env, 0));
    assert!(!revoked(&env, 99));
}

#[test]
fn revoke_requires_the_admin() {
    let mut env = setup_with_init();
    append(&mut env, digest(0xFF));
    let inv = LiquifactEscrow::revoke_attestation_digest(&mut env, 0);
    assert!(as_caller(inv, None).is_err());
}

#[test]
fn test_revoke_preserves_log_entry() {
    let mut env = setup_with_init();
    let d = digest(0xBB);
    append(&mut env, d);
    revoke(&mut env, 0);
    let l = log(&env);
    assert_eq!(l.len(), 1);
    assert_eq!(l[0], d);
}

#[test]
fn test_revoke_does_not_affect_primary_hash() {
    let mut env = setup_with_init();
    let primary = digest(0xCC);
    LiquifactEscrow::bind_primary_attestation_hash(&mut env, primary).result.unwrap();
    append(&mut env, digest(0xDD));
    revoke(&mut env, 0);
    assert_eq!(LiquifactEscrow::get_primary_attestation_hash(&env), Some(primary));
}

#[test]
fn test_revoke_emits_event() {
    let mut env = setup_with_init();
    append(&mut env, digest(0xAA));
    let inv = LiquifactEscrow::revoke_attestation_digest(&mut env, 0);
    assert_eq!(inv.result, Ok(AttestationDigestRevoked { invoice_id: INVOICE_ID, index: 0 }));
}

#[test]
fn test_revoke_event_fields_correct() {
    let mut env = setup_with_init();
    append(&mut env, digest(0x01));
    append(&mut env, digest(0x02));
    let inv = LiquifactEscrow::revoke_attestation_digest(&mut env, 1);
    let invoice_id = LiquifactEscrow::get_escrow(&env).unwrap().invoice_id;
    assert_eq!(inv.result, Ok(AttestationDigestRevoked { invoice_id, index: 1 }));
}

#[test]
fn test_multiple_revocations_emit_events() {
    let mut env = setup_with_init();
    for i in 0u8..3 {
        append(&mut env, digest(i));
    }
    let first = LiquifactEscrow::revoke_attestation_digest(&mut env, 0);
    assert_eq!(first.result, Ok(AttestationDigestRevoked { invoice_id: INVOICE_ID, index: 0 }));
    let second = LiquifactEscrow::revoke_attestation_digest(&mut env, 2);
    assert_eq!(second.result, Ok(AttestationDigestRevoked { invoice_id: INVOICE_ID, index: 2 }));
}

#[test]
fn test_revoke_out_of_range_no_event_emitted() {
    let mut env = setup_with_init();
    let inv = LiquifactEscrow::revoke_attestation_digest(&mut env, 0);
    // An error carries no event.
    assert!(inv.result.is_err());
    assert_eq!(inv.result, Err(EscrowError::AttestationIndexOutOfRange));
}

// ---------------------------------------------------------------------------
// unrevoke_attestation_digest
// ---------------------------------------------------------------------------

#[test]
fn test_unrevoke_single_entry() {
    let mut env = setup_with_append();
    revoke(&mut env, 0);
    assert!(revoked(&env, 0));
    unrevoke(&mut env, 0);
    assert!(!revoked(&env, 0));
}

#[test]
fn test_unrevoke_emits_event() {
    let mut env = setup_with_append();
    revoke(&mut env, 0);
    let inv = LiquifactEscrow::unrevoke_attestation_digest(&mut env, 0);
    let invoice_id = LiquifactEscrow::get_escrow(&env).unwrap().invoice_id;
    assert_eq!(inv.auth, Some(Role::Admin));
    assert_eq!(inv.result, Ok(AttestationDigestUnrevoked { invoice_id, index: 0 }));
}

#[test]
fn test_unrevoke_out_of_range_empty_log() {
    let mut env = setup_with_init();
    assert_eq!(
        LiquifactEscrow::unrevoke_attestation_digest(&mut env, 0).result,
        Err(EscrowError::AttestationIndexOutOfRange)
    );
}

#[test]
fn test_unrevoke_at_log_len() {
    let mut env = setup_with_append();
    assert_eq!(
        LiquifactEscrow::unrevoke_attestation_digest(&mut env, 1).result,
        Err(EscrowError::AttestationIndexOutOfRange)
    );
}

#[test]
fn test_unrevoke_large_index_out_of_range() {
    let mut env = setup_with_append();
    let inv = LiquifactEscrow::unrevoke_attestation_digest(&mut env, 99);
    assert_eq!(inv.auth, None);
    assert_eq!(inv.result, Err(EscrowError::AttestationIndexOutOfRange));
}

#[test]
fn test_unrevoke_not_revoked() {
    let mut env = setup_with_append();
    let inv = LiquifactEscrow::unrevoke_attestation_digest(&mut env, 0);
    assert_eq!(inv.auth, None);
    assert_eq!(inv.result, Err(EscrowError::AttestationNotRevoked));
}

#[test]
fn test_unrevoke_preserves_digest() {
    let mut env = setup_with_append();
    let d = digest(0xAA);
    assert_eq!(log(&env)[0], d);
    revoke(&mut env, 0);
    unrevoke(&mut env, 0);
    let l = log(&env);
    assert_eq!(l.len(), 1);
    assert_eq!(l[0], d);
}

#[test]
fn test_revoke_unrevoke_cycle() {
    let mut env = setup_with_append();
    revoke(&mut env, 0);
    assert!(revoked(&env, 0));
    unrevoke(&mut env, 0);
    assert!(!revoked(&env, 0));
    revoke(&mut env, 0);
    assert!(revoked(&env, 0));
}

#[test]
fn test_unrevoke_non_admin_returns_error() {
    let mut env = setup_with_append();
    revoke(&mut env, 0);
    // No authorization is held: the admin's is required.
    let inv = LiquifactEscrow::unrevoke_attestation_digest(&mut env, 0);
    assert_eq!(inv.auth, Some(Role::Admin));
    assert!(as_caller(inv, None).is_err());
}

#[test]
fn unrevoke_restores_log_exactly() {
    let mut env = setup_with_init();
    for i in 0..3u8 {
        append(&mut env, digest(i));
    }
    let before = env.attestation_log.clone();
    revoke(&mut env, 1);
    assert_ne!(env.attestation_log, before);
    unrevoke(&mut env, 1);
    assert_eq!(env.attestation_log, before);
}

// ---------------------------------------------------------------------------
// revoke_attestation_digests — batch revocation
// ---------------------------------------------------------------------------

#[test]
fn test_batch_revoke_happy_path() {
    let mut env = setup_with_init();
    for _ in 0..3 {
        append(&mut env, digest(0xFF));
    }
    LiquifactEscrow::revoke_attestation_digests(&mut env, &vec![0u32, 2u32]).result.unwrap();
    assert!(revoked(&env, 0));
    assert!(!revoked(&env, 1));
    assert!(revoked(&env, 2));
}

#[test]
fn test_batch_revoke_emits_events() {
    let mut env = setup_with_init();
    for _ in 0..3 {
        append(&mut env, digest(0xFF));
    }
    let inv = LiquifactEscrow::revoke_attestation_digests(&mut env, &vec![0u32, 2u32]);
    let events = inv.result.unwrap();
    assert_eq!(events.len(), 2, "expected 2 events for 2 revoked indices");
    let invoice_id = LiquifactEscrow::get_escrow(&env).unwrap().invoice_id;
    assert_eq!(events[0], AttestationDigestRevoked { invoice_id, index: 0 });
    assert_eq!(events[1], AttestationDigestRevoked { invoice_id, index: 2 });
}

#[test]
fn test_batch_revoke_empty_panics() {
    let mut env = setup_with_init();
    let inv = LiquifactEscrow::revoke_attestation_digests(&mut env, &vec![]);
    assert_eq!((inv.auth, inv.result), (None, Err(EscrowError::AttestationBatchEmpty)));
}

#[test]
fn test_batch_revoke_oversized() {
    let mut env = setup_with_init();
    let indices: Vec<u32> = (0..=MAX_ATTESTATION_REVOKE_BATCH).collect();
    let inv = LiquifactEscrow::revoke_attestation_digests(&mut env, &indices);
    assert_eq!((inv.auth, inv.result), (None, Err(EscrowError::AttestationBatchTooLarge)));
}

#[test]
fn test_batch_revoke_max_size_succeeds() {
    let mut env = setup_with_init();
    for _ in 0..MAX_ATTESTATION_REVOKE_BATCH {
        append(&mut env, digest(0xFF));
    }
    let indices: Vec<u32> = (0..MAX_ATTESTATION_REVOKE_BATCH).collect();
    LiquifactEscrow::revoke_attestation_digests(&mut env, &indices).result.unwrap();
    for i in 0..MAX_ATTESTATION_REVOKE_BATCH {
        assert!(revoked(&env, i));
    }
}

#[test]
fn test_batch_revoke_out_of_range_rollback() {
    let mut env = setup_with_init();
    append(&mut env, digest(0x01));
    let inv = LiquifactEscrow::revoke_attestation_digests(&mut env, &vec![0u32, 1u32]);
    assert_eq!(inv.result, Err(EscrowError::AttestationIndexOutOfRange));
    // Index 0 must not be revoked (atomic rollback).
    assert!(!revoked(&env, 0));
}

#[test]
fn test_batch_revoke_already_revoked_rollback() {
    let mut env = setup_with_init();
    append(&mut env, digest(0x01));
    append(&mut env, digest(0x02));
    revoke(&mut env, 1);
    let inv = LiquifactEscrow::revoke_attestation_digests(&mut env, &vec![0u32, 1u32]);
    assert_eq!(inv.result, Err(EscrowError::AttestationAlreadyRevoked));
    assert!(!revoked(&env, 0));
    assert!(revoked(&env, 1));
}

#[test]
fn test_batch_revoke_non_admin_returns_error() {
    let mut env = setup_with_init();
    append(&mut env, digest(0xFF));
    let inv = LiquifactEscrow::revoke_attestation_digests(&mut env, &vec![0u32]);
    assert_eq!(inv.auth, Some(Role::Admin));
    assert!(as_caller(inv, None).is_err());
}

#[test]
fn batch_revoke_duplicate_index_fails_atomically() {
    let mut env = setup_with_init();
    append(&mut env, digest(1));
    append(&mut env, digest(2));
    let inv = LiquifactEscrow::revoke_attestation_digests(&mut env, &vec![0, 1, 0]);
    assert_eq!(inv.result, Err(EscrowError::AttestationAlreadyRevoked));
    assert!(!revoked(&env, 0));
    assert!(!revoked(&env, 1));
}

#[test]
fn batch_revoke_reports_first_failure() {
    let mut env = setup_with_append();
    // Position 0 is out of range, position 1 would be fine.
    let inv = LiquifactEscrow::revoke_attestation_digests(&mut env, &vec![5, 0]);
    assert_eq!(inv.result, Err(EscrowError::AttestationIndexOutOfRange));
    revoke(&mut env, 0);
    // Position 0 already revoked comes before the out-of-range position 1.
    let inv = LiquifactEscrow::revoke_attestation_digests(&mut env, &vec![0, 5]);
    assert_eq!(inv.result, Err(EscrowError::AttestationAlreadyRevoked));
}

#[test]
fn batch_revoke_matches_sequential_revokes() {
    let mut batch = setup_with_init();
    let mut single = setup_with_init();
    for i in 0..4u8 {
        append(&mut batch, digest(i));
        append(&mut single, digest(i));
    }
    LiquifactEscrow::revoke_attestation_digests(&mut batch, &vec![3, 1]).result.unwrap();
    for i in [3u32, 1] {
        revoke(&mut single, i);
    }
    assert_eq!(batch.attestation_log, single.attestation_log);
}

#[test]
fn batch_revoke_keeps_digests() {
    let mut env = setup_with_init();
    for i in 0..3u8 {
        append(&mut env, digest(i));
    }
    LiquifactEscrow::revoke_attestation_digests(&mut env, &vec![2, 0, 1]).result.unwrap();
    assert_eq!(log(&env), vec![digest(0), digest(1), digest(2)]);
    for i in 0..3 {
        assert!(revoked(&env, i));
    }
}

// ---------------------------------------------------------------------------
// Event payloads
// ---------------------------------------------------------------------------

#[test]
fn bind_event_has_exact_topic_and_payload() {
    let mut env = setup_with_init();
    let value = digest(0xA1);
    let inv = LiquifactEscrow::bind_primary_attestation_hash(&mut env, value);
    assert_eq!(inv.result, Ok(PrimaryAttestationBound { invoice_id: INVOICE_ID, digest: value }));
}

#[test]
fn append_event_has_exact_topic_index_and_digest() {
    let mut env = setup_with_init();
    let value = digest(0xA2);
    let inv = LiquifactEscrow::append_attestation_digest(&mut env, value);
    assert_eq!(
        inv.result,
        Ok(AttestationDigestAppended { invoice_id: INVOICE_ID, index: 0, digest: value })
    );
}

#[test]
fn revoke_event_has_exact_topic_and_index() {
    let mut env = setup_with_init();
    append(&mut env, digest(0xC1));
    let inv = LiquifactEscrow::revoke_attestation_digest(&mut env, 0);
    assert_eq!(inv.result, Ok(AttestationDigestRevoked { invoice_id: INVOICE_ID, index: 0 }));
}

#[test]
fn batch_revoke_emits_ordered_event_per_index() {
    let mut env = setup_with_init();
    for seed in 0xD1..=0xD3 {
        append(&mut env, digest(seed));
    }
    let inv = LiquifactEscrow::revoke_attestation_digests(&mut env, &vec![2u32, 0, 1]);
    let events = inv.result.unwrap();
    assert_eq!(events.len(), 3, "batch revoke must emit once per index");
    for (position, index) in [2u32, 0, 1].into_iter().enumerate() {
        assert_eq!(events[position], AttestationDigestRevoked { invoice_id: INVOICE_ID, index });
    }
}

#[test]
fn unrevoke_event_has_exact_topic_and_index() {
    let mut env = setup_with_init();
    append(&mut env, digest(0xE1));
    revoke(&mut env, 0);
    let inv = LiquifactEscrow::unrevoke_attestation_digest(&mut env, 0);
    assert_eq!(inv.result, Ok(AttestationDigestUnrevoked { invoice_id: INVOICE_ID, index: 0 }));
}

// ---------------------------------------------------------------------------
// Before init, and the documented lifecycle
// ---------------------------------------------------------------------------

#[test]
fn attestation_entrypoints_before_init() {
    let mut env: Storage = EscrowStorage::new();
    let bind = LiquifactEscrow::bind_primary_attestation_hash(&mut env, digest(1));
    assert_eq!((bind.auth, bind.result), (None, Err(EscrowError::NotInitialized)));
    let app = LiquifactEscrow::append_attestation_digest(&mut env, digest(1));
    assert_eq!((app.auth, app.result), (None, Err(EscrowError::NotInitialized)));
    let rev = LiquifactEscrow::revoke_attestation_digest(&mut env, 0);
    assert_eq!((rev.auth, rev.result), (None, Err(EscrowError::NotInitialized)));
    let batch = LiquifactEscrow::revoke_attestation_digests(&mut env, &vec![0]);
    assert_eq!(batch.auth, None);
    assert_eq!(batch.result, Err(EscrowError::NotInitialized));
    // Unrevoke checks the index first.
    let unrev = LiquifactEscrow::unrevoke_attestation_digest(&mut env, 0);
    assert_eq!(unrev.result, Err(EscrowError::AttestationIndexOutOfRange));
}

#[test]
fn lifecycle_example_from_docs() {
    let mut env = setup_with_init();
    LiquifactEscrow::bind_primary_attestation_hash(&mut env, digest(0xA)).result.unwrap();
    assert_eq!(
        LiquifactEscrow::bind_primary_attestation_hash(&mut env, digest(0xB)).result,
        Err(EscrowError::PrimaryAttestationAlreadyBound)
    );
    append(&mut env, digest(0xB));
    append(&mut env, digest(0xC));
    revoke(&mut env, 0);
    assert_eq!(
        LiquifactEscrow::revoke_attestation_digest(&mut env, 0).result,
        Err(EscrowError::AttestationAlreadyRevoked)
    );
    assert_eq!(
        LiquifactEscrow::revoke_attestation_digests(&mut env, &vec![1, 99]).result,
        Err(EscrowError::AttestationIndexOutOfRange)
    );
    assert_eq!(
        LiquifactEscrow::unrevoke_attestation_digest(&mut env, 1).result,
        Err(EscrowError::AttestationNotRevoked)
    );
    unrevoke(&mut env, 0);
    assert!(!revoked(&env, 0));
    assert!(!revoked(&env, 1));
}
