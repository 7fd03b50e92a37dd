//! One candidate under audit for admission: its own metrics, the running
//! aggregate over its pending ancestors, and the strict total order the
//! admission loop ranks it by.
//!
//! The score of an item is the worse of its own sigop-adjusted rate and the
//! blended rate of its whole pending ancestor package.  The aggregate is
//! maintained incrementally: it is assembled once by `set_ancestors` and
//! afterwards only shrinks, one admitted ancestor at a time, through
//! `remove_root`.

use crate::fee_rate::{
    calc_fee_rate, lemma_rate_eqv_trans, lemma_rate_lt_eqv, lemma_rate_lt_trans, rate_cmp,
    rate_eq, rate_eqv, rate_min, spec_calc_fee_rate, spec_rate_cmp, spec_rate_min, zero_rate,
    FeeRate,
};
use crate::thread_transaction::ThreadTransaction;
use std::cmp::Ordering;
use std::collections::HashSet;
use vstd::prelude::*;
use vstd::std_specs::cmp::PartialOrdSpec;

verus! {

broadcast use vstd::std_specs::hash::group_hash_axioms;

/// One candidate work item.  The identity and the own metrics are fixed at
/// construction; the ancestor aggregate and the flags are owned by the
/// admission loop.  The score has no public write path: it is recomputed by
/// the two aggregate operations and can never lose well-formedness.
#[derive(Debug)]
pub struct AuditTransaction {
    pub uid: u32,
    order: u32,
    pub fee: u64,
    pub size: u32,
    // exact sigop-adjusted size
    pub sigop_adjusted_size: u32,
    pub sigops: u32,
    adjusted_fee_per_size: FeeRate,
    pub fee_per_size: FeeRate,
    pub inputs: Vec<u32>,
    pub relatives_set_flag: bool,
    pub ancestors: HashSet<u32>,
    pub children: HashSet<u32>,
    ancestor_fee: u64,
    ancestor_sigop_adjusted_size: u32,
    ancestor_sigops: u32,
    // Must stay private so that no outside write can break the ordering.
    score: FeeRate,
    pub used: bool,
    /// whether this transaction has been moved to the "modified" priority queue
    pub modified: bool,
    pub dirty: bool,
}

/// The mathematical image of an `AuditTransaction`: every field as a plain
/// value, with the id sets as `Set` and the dependency list as `Seq`.
#[verifier::ext_equal]
pub struct AuditView {
    pub uid: u32,
    pub order: u32,
    pub fee: u64,
    pub size: u32,
    pub sigop_adjusted_size: u32,
    pub sigops: u32,
    pub adjusted_fee_per_size: FeeRate,
    pub fee_per_size: FeeRate,
    pub inputs: Seq<u32>,
    pub relatives_set_flag: bool,
    pub ancestors: Set<u32>,
    pub children: Set<u32>,
    pub ancestor_fee: u64,
    pub ancestor_sigop_adjusted_size: u32,
    pub ancestor_sigops: u32,
    pub score: FeeRate,
    pub used: bool,
    pub modified: bool,
    pub dirty: bool,
}

impl View for AuditTransaction {
    type V = AuditView;

    closed spec fn view(&self) -> AuditView {
        AuditView {
            uid: self.uid,
            order: self.order,
            fee: self.fee,
            size: self.size,
            sigop_adjusted_size: self.sigop_adjusted_size,
            sigops: self.sigops,
            adjusted_fee_per_size: self.adjusted_fee_per_size,
            fee_per_size: self.fee_per_size,
            inputs: self.inputs@,
            relatives_set_flag: self.relatives_set_flag,
            ancestors: self.ancestors@,
            children: self.children@,
            ancestor_fee: self.ancestor_fee,
            ancestor_sigop_adjusted_size: self.ancestor_sigop_adjusted_size,
            ancestor_sigops: self.ancestor_sigops,
            score: self.score,
            used: self.used,
            modified: self.modified,
            dirty: self.dirty,
        }
    }
}

/// Whether an item's size is dominated by its sigop cost, so that its rate
/// must be recomputed from the adjusted size instead of trusting the
/// caller's.
pub open spec fn spec_is_adjusted(size: u32, sigops: u32) -> bool {
    size < sigops * 20
}

/// Size inflated for the secondary sigop resource: the larger of the
/// quarter-size rounded up and five units per sigop.
pub open spec fn spec_sigop_adjusted_size(size: u32, sigops: u32) -> int {
    let quarter = (size + 3) / 4;
    let by_sigops = sigops * 5;
    if quarter > by_sigops {
        quarter
    } else {
        by_sigops
    }
}

/// The admission score derived from an item's own adjusted rate and its
/// current ancestor totals: the worse of the two rates.
pub open spec fn spec_score(adjusted: FeeRate, ancestor_fee: u64, ancestor_size: u32) -> FeeRate {
    spec_rate_min(adjusted, spec_calc_fee_rate(ancestor_fee, ancestor_size as int))
}

impl AuditView {
    /// The invariant every live item keeps: the derived fields match their
    /// defining formulas, the ancestor totals include the item's own
    /// metrics, every rate in play is a finite ratio — so the score can
    /// never be the analogue of `NaN` — and before the one-time aggregate
    /// initialization the item is still in its self-only state.
    pub open spec fn wf(self) -> bool {
        &&& self.sigop_adjusted_size == spec_sigop_adjusted_size(self.size, self.sigops)
        &&& self.adjusted_fee_per_size == spec_calc_fee_rate(
            self.fee,
            self.sigop_adjusted_size as int,
        )
        &&& self.fee_per_size.wf()
        &&& self.score.wf()
        &&& self.ancestor_fee >= self.fee
        &&& self.ancestor_sigop_adjusted_size >= self.sigop_adjusted_size
        &&& self.ancestor_sigops >= self.sigops
        &&& self.relatives_set_flag ==> self.score == spec_score(
            self.adjusted_fee_per_size,
            self.ancestor_fee,
            self.ancestor_sigop_adjusted_size,
        )
        &&& !self.relatives_set_flag ==> {
            &&& self.score == zero_rate()
            &&& self.ancestors == Set::<u32>::empty()
            &&& self.ancestor_fee == self.fee
            &&& self.ancestor_sigop_adjusted_size == self.sigop_adjusted_size
            &&& self.ancestor_sigops == self.sigops
        }
    }
}

/// The item the adapter builds from one caller record: self-only metrics,
/// empty relative sets, score zero, and `dirty` exactly when the adjusted
/// rate differs in value from the rate the caller supplied.
pub open spec fn spec_from_thread_transaction(tx: ThreadTransaction) -> AuditView {
    let sas = spec_sigop_adjusted_size(tx.size, tx.sigops);
    let fee_per_size = if spec_is_adjusted(tx.size, tx.sigops) {
        FeeRate { num: (4 * tx.fee) as u64, den: sas as u64 }
    } else {
        tx.fee_per_size
    };
    AuditView {
        uid: tx.uid,
        order: tx.order,
        fee: tx.fee,
        size: tx.size,
        sigop_adjusted_size: sas as u32,
        sigops: tx.sigops,
        adjusted_fee_per_size: spec_calc_fee_rate(tx.fee, sas),
        fee_per_size,
        inputs: tx.inputs@,
        relatives_set_flag: false,
        ancestors: Set::empty(),
        children: Set::empty(),
        ancestor_fee: tx.fee,
        ancestor_sigop_adjusted_size: sas as u32,
        ancestor_sigops: tx.sigops,
        score: zero_rate(),
        used: false,
        modified: false,
        dirty: !rate_eqv(fee_per_size, tx.fee_per_size),
    }
}

impl AuditTransaction {
    /// Builds one item from a caller record.  The bounds keep every
    /// intermediate product and sum inside its machine type.
    pub fn from_thread_transaction(tx: &ThreadTransaction) -> (r: Self)
        requires
            tx.size <= u32::MAX - 3,
            tx.sigops <= u32::MAX / 20,
            tx.fee <= u64::MAX / 4,
            tx.fee_per_size.wf(),
        ensures
            r@ == spec_from_thread_transaction(*tx),
            r@.wf(),
    {
        let fee: u64 = tx.fee;
        let is_adjusted: bool = tx.size < tx.sigops * 20;
        // rounded up to the nearest integer
        let quarter: u32 = (tx.size + 3) / 4;
        let by_sigops: u32 = tx.sigops * 5;
        let sigop_adjusted_size: u32 = if quarter > by_sigops {
            quarter
        } else {
            by_sigops
        };
        let fee_per_size: FeeRate = if is_adjusted {
            FeeRate { num: 4 * fee, den: sigop_adjusted_size as u64 }
        } else {
            tx.fee_per_size
        };
        let dirty: bool = !rate_eq(&fee_per_size, &tx.fee_per_size);
        let r = Self {
            uid: tx.uid,
            order: tx.order,
            fee,
            size: tx.size,
            sigop_adjusted_size,
            sigops: tx.sigops,
            adjusted_fee_per_size: calc_fee_rate(fee, sigop_adjusted_size),
            fee_per_size,
            inputs: tx.inputs.clone(),
            relatives_set_flag: false,
            ancestors: HashSet::new(),
            children: HashSet::new(),
            ancestor_fee: fee,
            ancestor_sigop_adjusted_size: sigop_adjusted_size,
            ancestor_sigops: tx.sigops,
            score: FeeRate { num: 0, den: 1 },
            used: false,
            modified: false,
            dirty,
        };
        proof {
            assert(r.inputs@ =~= tx.inputs@);
            assert(r@ =~= spec_from_thread_transaction(*tx));
        }
        r
    }

    /// The current admission score.  For a well-formed item it is always a
    /// finite ratio, never an undefined value.
    pub fn score(&self) -> (r: FeeRate)
        ensures
            r == self@.score,
    {
        self.score
    }

    /// The caller-assigned tie-break key.
    pub fn order(&self) -> (r: u32)
        ensures
            r == self@.order,
    {
        self.order
    }

    /// The running sigop-adjusted size over the item and its pending
    /// ancestors.
    pub fn ancestor_sigop_adjusted_size(&self) -> (r: u32)
        ensures
            r == self@.ancestor_sigop_adjusted_size,
    {
        self.ancestor_sigop_adjusted_size
    }

    /// The running sigop count over the item and its pending ancestors.
    pub fn ancestor_sigops(&self) -> (r: u32)
        ensures
            r == self@.ancestor_sigops,
    {
        self.ancestor_sigops
    }

    /// Rederives the score from the current ancestor totals.  The divisor is
    /// read as one when it is zero, so the new score is always well formed.
    fn calc_new_score(&mut self)
        ensures
            *final(self) == (Self {
                score: spec_score(
                    old(self).adjusted_fee_per_size,
                    old(self).ancestor_fee,
                    old(self).ancestor_sigop_adjusted_size,
                ),
                ..*old(self)
            }),
    {
        self.score = rate_min(
            self.adjusted_fee_per_size,
            calc_fee_rate(self.ancestor_fee, self.ancestor_sigop_adjusted_size),
        );
    }

    /// Installs the result of the one-time ancestor-discovery pass: the full
    /// transitive pending ancestor set and the totals of the members' own
    /// metrics.  Overwrites any earlier aggregate and rederives the score.
    pub fn set_ancestors(
        &mut self,
        ancestors: HashSet<u32>,
        total_fee: u64,
        total_sigop_adjusted_size: u32,
        total_sigops: u32,
    )
        requires
            old(self)@.wf(),
            old(self)@.fee + total_fee <= u64::MAX,
            old(self)@.sigop_adjusted_size + total_sigop_adjusted_size <= u32::MAX,
            old(self)@.sigops + total_sigops <= u32::MAX,
        ensures
            final(self)@ == spec_set_ancestors(
                old(self)@,
                ancestors@,
                total_fee,
                total_sigop_adjusted_size,
                total_sigops,
            ),
            final(self)@.wf(),
    {
        let ghost ancestors_view = ancestors@;
        self.ancestors = ancestors;
        self.ancestor_fee = self.fee + total_fee;
        self.ancestor_sigop_adjusted_size = self.sigop_adjusted_size + total_sigop_adjusted_size;
        self.ancestor_sigops = self.sigops + total_sigops;
        self.calc_new_score();
        self.relatives_set_flag = true;
        proof {
            assert(self@ =~= spec_set_ancestors(
                old(self)@,
                ancestors_view,
                total_fee,
                total_sigop_adjusted_size,
                total_sigops,
            ));
        }
    }

    /// Retracts one just-admitted ancestor's own contribution from the
    /// aggregate, rederiving the score; a no-op when the id is not in the
    /// pending set, so the call is idempotent per id.  Returns the score
    /// from before the call, so the caller can see whether a re-ranking is
    /// due.  The supplied metrics must be the ones the aggregate was built
    /// from, so that the remaining totals still cover the item's own.
    pub fn remove_root(
        &mut self,
        root_txid: u32,
        root_fee: u64,
        root_sigop_adjusted_size: u32,
        root_sigops: u32,
    ) -> (r: FeeRate)
        requires
            old(self)@.wf(),
            old(self)@.ancestors.contains(root_txid) ==> {
                &&& root_fee <= old(self)@.ancestor_fee - old(self)@.fee
                &&& root_sigop_adjusted_size <= old(self)@.ancestor_sigop_adjusted_size - old(
                    self,
                )@.sigop_adjusted_size
                &&& root_sigops <= old(self)@.ancestor_sigops - old(self)@.sigops
            },
        ensures
            final(self)@ == spec_remove_root(
                old(self)@,
                root_txid,
                root_fee,
                root_sigop_adjusted_size,
                root_sigops,
            ),
            final(self)@.wf(),
            r == old(self)@.score,
            final(self)@.ancestor_fee <= old(self)@.ancestor_fee,
            final(self)@.ancestor_sigop_adjusted_size <= old(self)@.ancestor_sigop_adjusted_size,
            final(self)@.ancestor_sigops <= old(self)@.ancestor_sigops,
    {
        let old_score = self.score();
        if self.ancestors.remove(&root_txid) {
            self.ancestor_fee = self.ancestor_fee - root_fee;
            self.ancestor_sigop_adjusted_size = self.ancestor_sigop_adjusted_size
                - root_sigop_adjusted_size;
            self.ancestor_sigops = self.ancestor_sigops - root_sigops;
            self.calc_new_score();
        }
        proof {
            assert(self@ =~= spec_remove_root(
                old(self)@,
                root_txid,
                root_fee,
                root_sigop_adjusted_size,
                root_sigops,
            ));
        }
        old_score
    }
}

/// The state after the one-time aggregate installation: the supplied set and
/// the self-plus-totals sums, with the score rederived and the flag set.
pub open spec fn spec_set_ancestors(
    v: AuditView,
    ancestors: Set<u32>,
    total_fee: u64,
    total_sigop_adjusted_size: u32,
    total_sigops: u32,
) -> AuditView {
    let ancestor_fee = (v.fee + total_fee) as u64;
    let ancestor_sigop_adjusted_size = (v.sigop_adjusted_size + total_sigop_adjusted_size) as u32;
    AuditView {
        ancestors,
        ancestor_fee,
        ancestor_sigop_adjusted_size,
        ancestor_sigops: (v.sigops + total_sigops) as u32,
        score: spec_score(v.adjusted_fee_per_size, ancestor_fee, ancestor_sigop_adjusted_size),
        relatives_set_flag: true,
        ..v
    }
}

/// The state after retracting one admitted ancestor: if the id is pending,
/// it leaves the set, its metrics leave the totals and the score is
/// rederived; otherwise the item is unchanged.
pub open spec fn spec_remove_root(
    v: AuditView,
    root_txid: u32,
    root_fee: u64,
    root_sigop_adjusted_size: u32,
    root_sigops: u32,
) -> AuditView {
    if v.ancestors.contains(root_txid) {
        let ancestor_fee = (v.ancestor_fee - root_fee) as u64;
        let ancestor_sigop_adjusted_size = (v.ancestor_sigop_adjusted_size
            - root_sigop_adjusted_size) as u32;
        AuditView {
            ancestors: v.ancestors.remove(root_txid),
            ancestor_fee,
            ancestor_sigop_adjusted_size,
            ancestor_sigops: (v.ancestor_sigops - root_sigops) as u32,
            score: spec_score(v.adjusted_fee_per_size, ancestor_fee, ancestor_sigop_adjusted_size),
            ..v
        }
    } else {
        v
    }
}

/// Retracting the same ancestor id twice comes to the same state as
/// retracting it once: the first retraction removes the id from the pending
/// set, so the second finds nothing and changes nothing.
pub proof fn lemma_remove_root_idempotent(
    v: AuditView,
    root_txid: u32,
    root_fee: u64,
    root_sigop_adjusted_size: u32,
    root_sigops: u32,
)
    ensures
        spec_remove_root(
            spec_remove_root(v, root_txid, root_fee, root_sigop_adjusted_size, root_sigops),
            root_txid,
            root_fee,
            root_sigop_adjusted_size,
            root_sigops,
        ) == spec_remove_root(v, root_txid, root_fee, root_sigop_adjusted_size, root_sigops),
{
    let once = spec_remove_root(v, root_txid, root_fee, root_sigop_adjusted_size, root_sigops);
    assert(!once.ancestors.contains(root_txid) || !v.ancestors.contains(root_txid));
}

/// A well-formed item's score is a genuine finite ratio — the denominator is
/// at least one, so the quotient it stands for exists and there is no
/// undefined value for the ordering to meet.
pub proof fn lemma_score_is_finite(v: AuditView)
    requires
        v.wf(),
    ensures
        v.score.wf(),
        v.score.den >= 1,
{
}

/// How one `(uid, order, score)` triple ranks against another: ascending by
/// score value, ties broken by descending order key, residual ties by
/// descending uid.
pub open spec fn spec_cmp_uid_score(a: (u32, u32, FeeRate), b: (u32, u32, FeeRate)) -> Ordering {
    if !rate_eqv(a.2, b.2) {
        spec_rate_cmp(a.2, b.2)
    } else if a.1 != b.1 {
        if b.1 < a.1 {
            Ordering::Less
        } else {
            Ordering::Greater
        }
    } else {
        if b.0 < a.0 {
            Ordering::Less
        } else if b.0 == a.0 {
            Ordering::Equal
        } else {
            Ordering::Greater
        }
    }
}

/// Ranks two `(uid, order, score)` triples.  Every score is an exact ratio,
/// so unlike a float comparison this can never meet an undefined value: the
/// result is always `Some`.
#[inline]
pub fn partial_cmp_uid_score(a: (u32, u32, FeeRate), b: (u32, u32, FeeRate)) -> (r: Option<
    Ordering,
>)
    ensures
        r == Some(spec_cmp_uid_score(a, b)),
{
    if !rate_eq(&a.2, &b.2) {
        // compare by score (sorts by ascending score)
        Some(rate_cmp(&a.2, &b.2))
    } else if a.1 != b.1 {
        // tie-break by comparing partial txids (sorts by descending txid)
        Some(if b.1 < a.1 {
            Ordering::Less
        } else {
            Ordering::Greater
        })
    } else {
        // tie-break partial txid collisions by comparing uids (sorts by descending uid)
        Some(
            if b.0 < a.0 {
                Ordering::Less
            } else if b.0 == a.0 {
                Ordering::Equal
            } else {
                Ordering::Greater
            },
        )
    }
}

/// Two triples rank as `Equal` exactly when they carry the same uid, the
/// same order key and the same score value — so two items with distinct
/// uids never compare equal.
pub proof fn lemma_cmp_uid_score_equal(a: (u32, u32, FeeRate), b: (u32, u32, FeeRate))
    ensures
        spec_cmp_uid_score(a, b) == Ordering::Equal <==> (a.0 == b.0 && a.1 == b.1 && rate_eqv(
            a.2,
            b.2,
        )),
        a.0 != b.0 ==> spec_cmp_uid_score(a, b) != Ordering::Equal,
{
}

/// A triple ranks as `Equal` against itself: the comparison is irreflexive
/// as a strict order, since nothing is `Less` than itself.
pub proof fn lemma_cmp_uid_score_irreflexive(a: (u32, u32, FeeRate))
    ensures
        spec_cmp_uid_score(a, a) == Ordering::Equal,
{
}

/// Swapping the operands mirrors the verdict, so `Less` and `Greater` are
/// antisymmetric and `Equal` is symmetric.
pub proof fn lemma_cmp_uid_score_antisymmetric(a: (u32, u32, FeeRate), b: (u32, u32, FeeRate))
    ensures
        spec_cmp_uid_score(a, b) == Ordering::Less <==> spec_cmp_uid_score(b, a)
            == Ordering::Greater,
        spec_cmp_uid_score(a, b) == Ordering::Equal <==> spec_cmp_uid_score(b, a)
            == Ordering::Equal,
{
}

/// The ranking is transitive over well-formed scores: `Less` of `Less` is
/// `Less`.  Together with the lemmas above this makes it a strict total
/// order on any set of items whose scores are finite ratios.
pub proof fn lemma_cmp_uid_score_transitive(
    a: (u32, u32, FeeRate),
    b: (u32, u32, FeeRate),
    c: (u32, u32, FeeRate),
)
    requires
        a.2.wf(),
        b.2.wf(),
        c.2.wf(),
        spec_cmp_uid_score(a, b) == Ordering::Less,
        spec_cmp_uid_score(b, c) == Ordering::Less,
    ensures
        spec_cmp_uid_score(a, c) == Ordering::Less,
{
    if !rate_eqv(a.2, b.2) {
        if !rate_eqv(b.2, c.2) {
            lemma_rate_lt_trans(a.2, b.2, c.2);
        } else {
            lemma_rate_lt_eqv(a.2, b.2, c.2);
        }
    } else {
        if !rate_eqv(b.2, c.2) {
            lemma_rate_lt_eqv(a.2, b.2, c.2);
        } else {
            lemma_rate_eqv_trans(a.2, b.2, c.2);
        }
    }
}

/// Two items with distinct uids never rank as `Equal`, whatever their
/// scores and order keys: the comparison is a strict total order over any
/// finite set of items.
pub proof fn lemma_distinct_items_never_tie(a: AuditTransaction, b: AuditTransaction)
    requires
        a@.uid != b@.uid,
    ensures
        a.partial_cmp_spec(&b) != Some(Ordering::Equal),
{
    lemma_cmp_uid_score_equal((a@.uid, a@.order, a@.score), (b@.uid, b@.order, b@.score));
}

impl PartialEq for AuditTransaction {
    /// Identity is the uid alone: two items are the same candidate exactly
    /// when their uids match.
    fn eq(&self, other: &Self) -> (r: bool)
        ensures
            r == (self@.uid == other@.uid),
    {
        self.uid == other.uid
    }
}

impl Eq for AuditTransaction {}

impl vstd::std_specs::cmp::PartialEqSpecImpl for AuditTransaction {
    open spec fn obeys_eq_spec() -> bool {
        true
    }

    open spec fn eq_spec(&self, other: &Self) -> bool {
        self@.uid == other@.uid
    }
}

impl PartialOrd for AuditTransaction {
    /// Ranks two items by `(score, order, uid)` as `spec_cmp_uid_score`
    /// says; always `Some`, since a score is never an undefined value.
    fn partial_cmp(&self, other: &Self) -> (r: Option<Ordering>)
        ensures
            r == Some(
                spec_cmp_uid_score(
                    (self@.uid, self@.order, self@.score),
                    (other@.uid, other@.order, other@.score),
                ),
            ),
    {
        partial_cmp_uid_score(
            (self.uid, self.order, self.score),
            (other.uid, other.order, other.score),
        )
    }
}

impl vstd::std_specs::cmp::PartialOrdSpecImpl for AuditTransaction {
    open spec fn obeys_partial_cmp_spec() -> bool {
        true
    }

    open spec fn partial_cmp_spec(&self, other: &Self) -> Option<Ordering> {
        Some(
            spec_cmp_uid_score(
                (self@.uid, self@.order, self@.score),
                (other@.uid, other@.order, other@.score),
            ),
        )
    }
}

} // verus!
