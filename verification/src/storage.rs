//! The escrow's contract storage and the helpers that read and write it.
//!
//! [`EscrowStorage`] holds, as plain values, everything the contract keeps in
//! its instance storage: one field per storage key, `None` where the key is
//! absent. The funding-token key is the one exception: the token is written
//! once, at `init`, together with the escrow record, and the key reads the
//! record's token. [`InvestorContributions`] models the per-investor
//! persistent entries.
//!
//! # Additive-key policy
//!
//! A key that may be absent is read with a default, so that an absent key
//! behaves as "unset" and adding a key never changes existing entrypoints.

use vstd::prelude::*;
use vstd::laws_eq::obeys_concrete_eq;
use crate::types::{AttestationEntry, FundingCloseSnapshot, InvoiceEscrow, SmeCollateralCommitment};

verus! {

/// Default fees limit in basis points (10_000 = 100%).
pub const DEFAULT_FEES_LIMIT: i64 = 10_000;

/// Minimum valid fees limit (0%).
pub const MIN_FEES_LIMIT: i64 = 0;

/// Maximum valid fees limit (10_000 = 100%).
pub const MAX_FEES_LIMIT: i64 = 10_000;

/// Storage limit reported while none has been configured.
pub const DEFAULT_STORAGE_LIMIT: u32 = 5_000;

/// The contract's storage: one field per key, `None` when the key is absent.
pub struct EscrowStorage<A> {
    pub escrow: Option<InvoiceEscrow<A>>,
    pub version: Option<u32>,
    pub admin: Option<A>,
    pub treasury: Option<A>,
    pub legal_hold: Option<bool>,
    pub paused: Option<bool>,
    pub sme_collateral: Option<SmeCollateralCommitment>,
    pub protocol_fee_bps: Option<i64>,
    pub fees_limit: Option<i64>,
    pub unique_funder_count: Option<u32>,
    pub storage_limit: Option<u32>,
    pub funding_close_snapshot: Option<FundingCloseSnapshot>,
    pub primary_attestation_hash: Option<[u8; 32]>,
    /// The attestation append log (an absent key reads as the empty log).
    pub attestation_log: Vec<AttestationEntry>,
}

impl<A> EscrowStorage<A> {
    /// Storage of a freshly deployed contract: every key absent.
    pub fn new() -> (s: Self)
        ensures
            s.is_empty(),
    {
        EscrowStorage {
            escrow: None,
            version: None,
            admin: None,
            treasury: None,
            legal_hold: None,
            paused: None,
            sme_collateral: None,
            protocol_fee_bps: None,
            fees_limit: None,
            unique_funder_count: None,
            storage_limit: None,
            funding_close_snapshot: None,
            primary_attestation_hash: None,
            attestation_log: Vec::new(),
        }
    }

    /// No key is present.
    pub open spec fn is_empty(self) -> bool {
        &&& self.escrow is None
        &&& self.version is None
        &&& self.admin is None
        &&& self.treasury is None
        &&& self.legal_hold is None
        &&& self.paused is None
        &&& self.sme_collateral is None
        &&& self.protocol_fee_bps is None
        &&& self.fees_limit is None
        &&& self.unique_funder_count is None
        &&& self.storage_limit is None
        &&& self.funding_close_snapshot is None
        &&& self.primary_attestation_hash is None
        &&& self.attestation_log@.len() == 0
    }

    /// The legal-hold flag as read (absent reads as `false`).
    pub open spec fn legal_hold_flag(self) -> bool {
        self.legal_hold == Some(true)
    }

    /// The pause flag as read (absent reads as `false`).
    pub open spec fn paused_flag(self) -> bool {
        self.paused == Some(true)
    }

    /// The fees limit as read (absent reads as [`DEFAULT_FEES_LIMIT`]).
    pub open spec fn fees_limit_value(self) -> i64 {
        match self.fees_limit {
            Some(l) => l,
            None => DEFAULT_FEES_LIMIT,
        }
    }

    /// The protocol fee as read (absent reads as `0`).
    pub open spec fn protocol_fee_value(self) -> i64 {
        match self.protocol_fee_bps {
            Some(f) => f,
            None => 0,
        }
    }
}

/// A borrowed optional value agrees with the stored one.
pub open spec fn opt_ref_matches<T>(r: Option<&T>, stored: Option<T>) -> bool {
    match r {
        Some(v) => stored == Some(*v),
        None => stored is None,
    }
}

// ---------------------------------------------------------------------------
// Admin
// ---------------------------------------------------------------------------

pub fn get_admin<A>(env: &EscrowStorage<A>) -> (r: Option<&A>)
    ensures
        opt_ref_matches(r, env.admin),
{
    env.admin.as_ref()
}

pub fn set_admin<A>(env: &mut EscrowStorage<A>, admin: A)
    ensures
        *final(env) == (EscrowStorage { admin: Some(admin), ..*old(env) }),
{
    env.admin = Some(admin);
}

// ---------------------------------------------------------------------------
// Version / schema
// ---------------------------------------------------------------------------

pub fn get_version<A>(env: &EscrowStorage<A>) -> (r: Option<u32>)
    ensures
        r == env.version,
{
    env.version
}

pub fn set_version<A>(env: &mut EscrowStorage<A>, version: u32)
    ensures
        *final(env) == (EscrowStorage { version: Some(version), ..*old(env) }),
{
    env.version = Some(version);
}

// ---------------------------------------------------------------------------
// Escrow
// ---------------------------------------------------------------------------

pub fn get_escrow<A>(env: &EscrowStorage<A>) -> (r: Option<&InvoiceEscrow<A>>)
    ensures
        opt_ref_matches(r, env.escrow),
{
    env.escrow.as_ref()
}

pub fn set_escrow<A>(env: &mut EscrowStorage<A>, escrow: InvoiceEscrow<A>)
    ensures
        *final(env) == (EscrowStorage { escrow: Some(escrow), ..*old(env) }),
{
    env.escrow = Some(escrow);
}

// ---------------------------------------------------------------------------
// Legal hold
// ---------------------------------------------------------------------------

pub fn get_legal_hold<A>(env: &EscrowStorage<A>) -> (r: bool)
    ensures
        r == env.legal_hold_flag(),
{
    env.legal_hold.unwrap_or(false)
}

pub fn set_legal_hold<A>(env: &mut EscrowStorage<A>, value: bool)
    ensures
        *final(env) == (EscrowStorage { legal_hold: Some(value), ..*old(env) }),
{
    env.legal_hold = Some(value);
}

// ---------------------------------------------------------------------------
// Paused
// ---------------------------------------------------------------------------

pub fn get_paused<A>(env: &EscrowStorage<A>) -> (r: bool)
    ensures
        r == env.paused_flag(),
{
    env.paused.unwrap_or(false)
}

pub fn set_paused<A>(env: &mut EscrowStorage<A>, value: bool)
    ensures
        *final(env) == (EscrowStorage { paused: Some(value), ..*old(env) }),
{
    env.paused = Some(value);
}

// ---------------------------------------------------------------------------
// SME collateral
// ---------------------------------------------------------------------------

pub fn get_sme_collateral<A>(env: &EscrowStorage<A>) -> (r: Option<&SmeCollateralCommitment>)
    ensures
        opt_ref_matches(r, env.sme_collateral),
{
    env.sme_collateral.as_ref()
}

pub fn set_sme_collateral<A>(env: &mut EscrowStorage<A>, collateral: SmeCollateralCommitment)
    ensures
        *final(env) == (EscrowStorage { sme_collateral: Some(collateral), ..*old(env) }),
{
    env.sme_collateral = Some(collateral);
}

// ---------------------------------------------------------------------------
// Funding token / treasury
// ---------------------------------------------------------------------------

/// The funding token, set once at `init` as part of the escrow record.
pub fn get_funding_token<A>(env: &EscrowStorage<A>) -> (r: Option<&A>)
    ensures
        match r {
            Some(t) => env.escrow is Some && env.escrow->0.funding_token == *t,
            None => env.escrow is None,
        },
{
    match &env.escrow {
        Some(e) => Some(&e.funding_token),
        None => None,
    }
}

pub fn get_treasury<A>(env: &EscrowStorage<A>) -> (r: Option<&A>)
    ensures
        opt_ref_matches(r, env.treasury),
{
    env.treasury.as_ref()
}

// ---------------------------------------------------------------------------
// Protocol fee bps
// ---------------------------------------------------------------------------

pub fn get_protocol_fee_bps<A>(env: &EscrowStorage<A>) -> (r: i64)
    ensures
        r == env.protocol_fee_value(),
{
    env.protocol_fee_bps.unwrap_or(0)
}

pub fn set_protocol_fee_bps<A>(env: &mut EscrowStorage<A>, fee_bps: i64)
    ensures
        *final(env) == (EscrowStorage { protocol_fee_bps: Some(fee_bps), ..*old(env) }),
{
    env.protocol_fee_bps = Some(fee_bps);
}

// ---------------------------------------------------------------------------
// Fees limit
// ---------------------------------------------------------------------------

/// Read the configured fees limit; [`DEFAULT_FEES_LIMIT`] when the key has
/// never been written.
pub fn get_fees_limit<A>(env: &EscrowStorage<A>) -> (r: i64)
    ensures
        r == env.fees_limit_value(),
{
    env.fees_limit.unwrap_or(DEFAULT_FEES_LIMIT)
}

/// Write a new fees limit. The caller validates bounds before calling this.
pub fn set_fees_limit<A>(env: &mut EscrowStorage<A>, limit: i64)
    ensures
        *final(env) == (EscrowStorage { fees_limit: Some(limit), ..*old(env) }),
{
    env.fees_limit = Some(limit);
}

/// Whether `value` is within the acceptable range for a fees limit.
pub fn is_valid_fees_limit(value: i64) -> (ok: bool)
    ensures
        ok == (MIN_FEES_LIMIT <= value <= MAX_FEES_LIMIT),
{
    MIN_FEES_LIMIT <= value && value <= MAX_FEES_LIMIT
}

// ---------------------------------------------------------------------------
// Misc instance helpers
// ---------------------------------------------------------------------------

pub fn get_unique_funder_count<A>(env: &EscrowStorage<A>) -> (r: u32)
    ensures
        r == (match env.unique_funder_count { Some(c) => c, None => 0u32 }),
{
    env.unique_funder_count.unwrap_or(0)
}

pub fn get_storage_limit<A>(env: &EscrowStorage<A>) -> (r: u32)
    ensures
        r == (match env.storage_limit { Some(l) => l, None => DEFAULT_STORAGE_LIMIT }),
{
    env.storage_limit.unwrap_or(DEFAULT_STORAGE_LIMIT)
}

pub fn set_storage_limit<A>(env: &mut EscrowStorage<A>, limit: u32)
    ensures
        *final(env) == (EscrowStorage { storage_limit: Some(limit), ..*old(env) }),
{
    env.storage_limit = Some(limit);
}

pub fn get_funding_close_snapshot<A>(env: &EscrowStorage<A>) -> (r: Option<FundingCloseSnapshot>)
    ensures
        r == env.funding_close_snapshot,
{
    env.funding_close_snapshot
}

// ---------------------------------------------------------------------------
// Investor contributions (persistent storage, one entry per investor)
// ---------------------------------------------------------------------------

/// The per-investor principal entries, keyed by investor address. An
/// investor without an entry reads as `0`.
pub struct InvestorContributions<K> {
    entries: Vec<(K, i128)>,
}

/// The amount of the last entry for `k`, `0` if there is none.
pub open spec fn last_amount<K>(s: Seq<(K, i128)>, k: K) -> i128
    decreases s.len(),
{
    if s.len() == 0 {
        0
    } else if s.last().0 == k {
        s.last().1
    } else {
        last_amount(s.drop_last(), k)
    }
}

/// `i` is the position of the last entry for `k`.
pub open spec fn is_last_entry<K>(s: Seq<(K, i128)>, k: K, i: int) -> bool {
    &&& 0 <= i < s.len()
    &&& s[i].0 == k
    &&& forall|j: int| i < j < s.len() ==> s[j].0 != k
}

/// Some entry is for `k`.
pub open spec fn has_entry<K>(s: Seq<(K, i128)>, k: K) -> bool {
    exists|i: int| 0 <= i < s.len() && s[i].0 == k
}

/// The amount recorded for `k` in a contributions map, `0` when absent.
pub open spec fn contribution<K>(m: Map<K, i128>, k: K) -> i128 {
    if m.contains_key(k) {
        m[k]
    } else {
        0
    }
}

impl<K> View for InvestorContributions<K> {
    type V = Map<K, i128>;

    /// Each investor with an entry, mapped to its recorded amount.
    closed spec fn view(&self) -> Map<K, i128> {
        Map::new(
            |k: K| has_entry(self.entries@, k),
            |k: K| last_amount(self.entries@, k),
        )
    }
}

proof fn lemma_no_entry_reads_zero<K>(s: Seq<(K, i128)>, k: K)
    requires
        forall|i: int| 0 <= i < s.len() ==> s[i].0 != k,
    ensures
        last_amount(s, k) == 0,
    decreases s.len(),
{
    if s.len() > 0 {
        assert(s.last().0 != k);
        lemma_no_entry_reads_zero(s.drop_last(), k);
    }
}

proof fn lemma_last_entry_amount<K>(s: Seq<(K, i128)>, k: K, i: int)
    requires
        is_last_entry(s, k, i),
    ensures
        last_amount(s, k) == s[i].1,
    decreases s.len(),
{
    if i < s.len() - 1 {
        assert(s.last().0 != k);
        lemma_last_entry_amount(s.drop_last(), k, i);
    }
}

proof fn lemma_update_last_entry<K>(s: Seq<(K, i128)>, k: K, i: int, amount: i128, other: K)
    requires
        is_last_entry(s, k, i),
    ensures
        last_amount(s.update(i, (k, amount)), k) == amount,
        other != k ==> last_amount(s.update(i, (k, amount)), other) == last_amount(s, other),
    decreases s.len(),
{
    let u = s.update(i, (k, amount));
    if i == s.len() - 1 {
        assert(u.drop_last() == s.drop_last());
    } else {
        assert(s.last().0 != k);
        assert(u.last() == s.last());
        assert(u.drop_last() == s.drop_last().update(i, (k, amount)));
        lemma_update_last_entry(s.drop_last(), k, i, amount, other);
    }
}

impl<K: PartialEq> InvestorContributions<K> {
    /// No investor has an entry.
    pub fn new() -> (r: Self)
        ensures
            r@ == Map::<K, i128>::empty(),
    {
        let r = InvestorContributions { entries: Vec::new() };
        assert(r@ =~= Map::<K, i128>::empty());
        r
    }

    /// The position of the last entry for `investor`, if any.
    fn find_last(&self, investor: &K) -> (r: Option<usize>)
        requires
            obeys_concrete_eq::<K>(),
        ensures
            match r {
                Some(i) => is_last_entry(self.entries@, *investor, i as int),
                None => forall|j: int| 0 <= j < self.entries@.len() ==> self.entries@[j].0 != *investor,
            },
    {
        proof {
            reveal(obeys_concrete_eq);
        }
        let mut i = self.entries.len();
        while i > 0
            invariant
                i <= self.entries@.len(),
                obeys_concrete_eq::<K>(),
                forall|j: int| i <= j < self.entries@.len() ==> self.entries@[j].0 != *investor,
            decreases i,
        {
            i = i - 1;
            proof {
                reveal(obeys_concrete_eq);
            }
            if self.entries[i].0 == *investor {
                return Some(i);
            }
        }
        None
    }
}

/// The principal recorded for `investor`; `0` when never recorded.
pub fn get_investor_contribution<K: PartialEq>(contributions: &InvestorContributions<K>, investor: &K) -> (r: i128)
    requires
        obeys_concrete_eq::<K>(),
    ensures
        r == contribution(contributions@, *investor),
{
    match contributions.find_last(investor) {
        Some(i) => {
            proof {
                lemma_last_entry_amount(contributions.entries@, *investor, i as int);
                assert(has_entry(contributions.entries@, *investor));
            }
            contributions.entries[i].1
        },
        None => {
            proof {
                lemma_no_entry_reads_zero(contributions.entries@, *investor);
            }
            0
        },
    }
}

/// Record `amount` as the principal of `investor`, replacing any earlier
/// record of that investor and no other.
pub fn set_investor_contribution<K: PartialEq>(
    contributions: &mut InvestorContributions<K>,
    investor: K,
    amount: i128,
)
    requires
        obeys_concrete_eq::<K>(),
    ensures
        final(contributions)@ == old(contributions)@.insert(investor, amount),
{
    let ghost s = contributions.entries@;
    match contributions.find_last(&investor) {
        Some(i) => {
            contributions.entries.set(i, (investor, amount));
            proof {
                let u = s.update(i as int, (investor, amount));
                assert(contributions.entries@ == u);
                assert forall|k: K| #[trigger] last_amount(u, k) == (if k == investor {
                    amount
                } else {
                    last_amount(s, k)
                }) by {
                    lemma_update_last_entry(s, investor, i as int, amount, k);
                }
                assert forall|k: K| #[trigger] has_entry(u, k) == (k == investor || has_entry(s, k)) by {
                    if has_entry(s, k) {
                        let j = choose|j: int| 0 <= j < s.len() && s[j].0 == k;
                        if j != i {
                            assert(u[j].0 == k);
                        }
                    }
                    if k == investor {
                        assert(u[i as int].0 == k);
                    }
                }
                assert(contributions@ =~= old(contributions)@.insert(investor, amount));
            }
        },
        None => {
            contributions.entries.push((investor, amount));
            proof {
                let u = s.push((investor, amount));
                assert(contributions.entries@ == u);
                assert forall|k: K| #[trigger] last_amount(u, k) == (if k == investor {
                    amount
                } else {
                    last_amount(s, k)
                }) by {
                    assert(u.drop_last() == s);
                }
                assert forall|k: K| #[trigger] has_entry(u, k) == (k == investor || has_entry(s, k)) by {
                    if has_entry(s, k) {
                        let j = choose|j: int| 0 <= j < s.len() && s[j].0 == k;
                        assert(u[j].0 == k);
                    }
                    if k == investor {
                        assert(u[s.len() as int].0 == k);
                    }
                }
                assert(contributions@ =~= old(contributions)@.insert(investor, amount));
            }
        },
    }
}

} // verus!
