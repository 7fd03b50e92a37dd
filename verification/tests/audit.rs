use gbt::audit_transaction::{partial_cmp_uid_score, AuditTransaction};
use gbt::fee_rate::{calc_fee_rate, rate_cmp, rate_eq, rate_min, FeeRate};
use gbt::thread_transaction::ThreadTransaction;
use std::cmp::Ordering;
use std::collections::HashSet;

fn rate(num: u64, den: u64) -> FeeRate {
    FeeRate { num, den }
}

fn plain_tx(uid: u32, order: u32, fee: u64, size: u32, sigops: u32, fps: FeeRate) -> ThreadTransaction {
    ThreadTransaction {
        uid,
        order,
        fee,
        size,
        sigops,
        fee_per_size: fps,
        inputs: Vec::new(),
    }
}

fn same_value(a: FeeRate, b: FeeRate) -> bool {
    rate_cmp(&a, &b) == Ordering::Equal
}

#[test]
fn construction_plain_item() {
    // fee=1000, size=200, sigops=0: quarter size rounded up is 50, the
    // sigop bound is 0, and the item is not sigop-bound, so the caller's
    // rate is reused unchanged.
    let tx = plain_tx(1, 7, 1000, 200, 0, rate(20, 1));
    let item = AuditTransaction::from_thread_transaction(&tx);
    assert_eq!(item.sigop_adjusted_size, 50);
    assert_eq!(item.fee_per_size, rate(20, 1));
    assert!(!item.dirty);
    assert!(!item.relatives_set_flag);
    assert!(!item.used);
    assert!(!item.modified);
    assert_eq!(item.score(), rate(0, 1));
    assert_eq!(item.ancestor_sigop_adjusted_size(), 50);
    assert_eq!(item.ancestor_sigops(), 0);
    assert_eq!(item.order(), 7);
    assert!(item.ancestors.is_empty());
    assert!(item.children.is_empty());
}

#[test]
fn construction_sigop_bound_item() {
    // size=50 < sigops*20=200, so the rate is recomputed from the adjusted
    // size: max(ceil(50/4), 10*5) = 50, and 1000 over a quarter of 50 is 80.
    let tx = plain_tx(2, 3, 1000, 50, 10, rate(20, 1));
    let item = AuditTransaction::from_thread_transaction(&tx);
    assert_eq!(item.sigop_adjusted_size, 50);
    assert!(same_value(item.fee_per_size, rate(80, 1)));
    // the recomputed rate differs in value from the caller's, so the item
    // is marked dirty
    assert!(item.dirty);
}

#[test]
fn construction_sigop_bound_item_matching_rate_is_clean() {
    let tx = plain_tx(2, 3, 1000, 50, 10, rate(80, 1));
    let item = AuditTransaction::from_thread_transaction(&tx);
    assert!(same_value(item.fee_per_size, rate(80, 1)));
    assert!(!item.dirty);
}

#[test]
fn construction_zero_size() {
    // a zero size is read as a divisor of one everywhere
    let tx = plain_tx(3, 1, 700, 0, 0, rate(700, 1));
    let mut item = AuditTransaction::from_thread_transaction(&tx);
    assert_eq!(item.sigop_adjusted_size, 0);
    item.set_ancestors(HashSet::new(), 0, 0, 0);
    assert_eq!(item.score(), rate(700, 1));
}

#[test]
fn set_ancestors_totals_and_score() {
    // one ancestor contributing fee=500, size_adj=100, units=0 on an item
    // with fee=1000, size_adj=50: totals 1500/150 and score min(20, 10)=10
    let tx = plain_tx(1, 7, 1000, 200, 0, rate(20, 1));
    let mut item = AuditTransaction::from_thread_transaction(&tx);
    let mut anc: HashSet<u32> = HashSet::new();
    anc.insert(42);
    item.set_ancestors(anc, 500, 100, 0);
    assert!(item.relatives_set_flag);
    assert_eq!(item.score(), rate(1500, 150));
    assert!(same_value(item.score(), rate(10, 1)));
    assert_eq!(item.ancestor_sigop_adjusted_size(), 150);
    assert_eq!(item.ancestor_sigops(), 0);
    assert!(item.ancestors.contains(&42));
}

#[test]
fn set_ancestors_overwrites_previous_aggregate() {
    let tx = plain_tx(1, 7, 1000, 200, 0, rate(20, 1));
    let mut item = AuditTransaction::from_thread_transaction(&tx);
    let mut anc: HashSet<u32> = HashSet::new();
    anc.insert(42);
    item.set_ancestors(anc, 500, 100, 0);
    let mut anc2: HashSet<u32> = HashSet::new();
    anc2.insert(9);
    item.set_ancestors(anc2, 200, 10, 4);
    // no accumulation: the second call starts again from the item's own metrics
    assert_eq!(item.ancestor_sigop_adjusted_size(), 60);
    assert_eq!(item.ancestor_sigops(), 4);
    // both rates have value 20; the tie keeps the item's own adjusted rate
    assert!(same_value(item.score(), rate(20, 1)));
    assert_eq!(item.score(), rate(1000, 50));
    assert!(!item.ancestors.contains(&42));
    assert!(item.ancestors.contains(&9));
}

#[test]
fn remove_ancestor_restores_self_only_state() {
    let tx = plain_tx(1, 7, 1000, 200, 0, rate(20, 1));
    let mut item = AuditTransaction::from_thread_transaction(&tx);
    let mut anc: HashSet<u32> = HashSet::new();
    anc.insert(42);
    item.set_ancestors(anc, 500, 100, 0);
    let previous = item.remove_root(42, 500, 100, 0);
    // the returned score is the one from before the update
    assert!(same_value(previous, rate(10, 1)));
    // the aggregate is back to the item's own metrics and the score to
    // min(own_rate, 1000/50) = 20
    assert_eq!(item.ancestor_sigop_adjusted_size(), 50);
    assert_eq!(item.ancestor_sigops(), 0);
    assert!(same_value(item.score(), rate(20, 1)));
    assert!(!item.ancestors.contains(&42));
}

#[test]
fn remove_ancestor_twice_is_idempotent() {
    let tx = plain_tx(1, 7, 1000, 200, 0, rate(20, 1));
    let mut item = AuditTransaction::from_thread_transaction(&tx);
    let mut anc: HashSet<u32> = HashSet::new();
    anc.insert(42);
    item.set_ancestors(anc, 500, 100, 0);
    let first = item.remove_root(42, 500, 100, 0);
    assert!(same_value(first, rate(10, 1)));
    let score_after_first = item.score();
    let sas_after_first = item.ancestor_sigop_adjusted_size();
    // the second call finds nothing to retract: it is a no-op and returns
    // the score unchanged
    let second = item.remove_root(42, 500, 100, 0);
    assert_eq!(second, score_after_first);
    assert_eq!(item.score(), score_after_first);
    assert_eq!(item.ancestor_sigop_adjusted_size(), sas_after_first);
}

#[test]
fn remove_unknown_ancestor_is_a_no_op() {
    let tx = plain_tx(1, 7, 1000, 200, 0, rate(20, 1));
    let mut item = AuditTransaction::from_thread_transaction(&tx);
    let mut anc: HashSet<u32> = HashSet::new();
    anc.insert(42);
    item.set_ancestors(anc, 500, 100, 0);
    let previous = item.remove_root(7, 500, 100, 0);
    assert!(same_value(previous, rate(10, 1)));
    assert!(same_value(item.score(), rate(10, 1)));
    assert_eq!(item.ancestor_sigop_adjusted_size(), 150);
    assert!(item.ancestors.contains(&42));
}

#[test]
fn remove_never_raises_totals() {
    let tx = plain_tx(1, 7, 1000, 200, 0, rate(20, 1));
    let mut item = AuditTransaction::from_thread_transaction(&tx);
    let mut anc: HashSet<u32> = HashSet::new();
    anc.insert(10);
    anc.insert(11);
    anc.insert(12);
    item.set_ancestors(anc, 900, 300, 6);
    let mut sas = item.ancestor_sigop_adjusted_size();
    let mut sigops = item.ancestor_sigops();
    for (id, fee, size, units) in [(10u32, 300u64, 100u32, 2u32), (11, 300, 100, 2), (99, 1, 1, 1), (12, 300, 100, 2)] {
        item.remove_root(id, fee, size, units);
        assert!(item.ancestor_sigop_adjusted_size() <= sas);
        assert!(item.ancestor_sigops() <= sigops);
        sas = item.ancestor_sigop_adjusted_size();
        sigops = item.ancestor_sigops();
    }
    assert_eq!(sas, 50);
    assert_eq!(sigops, 0);
}

#[test]
fn score_stays_finite_through_a_whole_sequence() {
    // the denominator of the score is positive at every stage, so the score
    // is always a finite value with no NaN analogue
    let tx = plain_tx(1, 7, 0, 0, 0, rate(0, 1));
    let mut item = AuditTransaction::from_thread_transaction(&tx);
    assert!(item.score().den >= 1);
    let mut anc: HashSet<u32> = HashSet::new();
    anc.insert(5);
    item.set_ancestors(anc, 0, 0, 0);
    assert!(item.score().den >= 1);
    item.remove_root(5, 0, 0, 0);
    assert!(item.score().den >= 1);
    item.set_ancestors(HashSet::new(), 1, 0, 0);
    assert!(item.score().den >= 1);
}

#[test]
fn compare_orders_by_score_first() {
    let a = (1u32, 10u32, rate(5, 1));
    let b = (2u32, 3u32, rate(7, 1));
    assert_eq!(partial_cmp_uid_score(a, b), Some(Ordering::Less));
    assert_eq!(partial_cmp_uid_score(b, a), Some(Ordering::Greater));
    // equal values in different representations still tie on score
    let c = (1u32, 10u32, rate(10, 2));
    assert_eq!(partial_cmp_uid_score(a, c), Some(Ordering::Equal));
}

#[test]
fn compare_breaks_score_ties_by_order_key() {
    // items (score=5, order=10, uid=1) and (score=5, order=20, uid=1):
    // the larger order wins the descending tie-break
    let a = (1u32, 10u32, rate(5, 1));
    let b = (1u32, 20u32, rate(5, 1));
    assert_eq!(partial_cmp_uid_score(a, b), Some(Ordering::Greater));
    assert_eq!(partial_cmp_uid_score(b, a), Some(Ordering::Less));
}

#[test]
fn compare_breaks_residual_ties_by_uid() {
    // (score=5, order=10, uid=1) vs (score=5, order=10, uid=2): the larger
    // uid wins the descending tie-break
    let a = (1u32, 10u32, rate(5, 1));
    let b = (2u32, 10u32, rate(5, 1));
    assert_eq!(partial_cmp_uid_score(a, b), Some(Ordering::Greater));
    assert_eq!(partial_cmp_uid_score(b, a), Some(Ordering::Less));
    // distinct uids never compare equal, whatever else ties
    assert_ne!(partial_cmp_uid_score(a, b), Some(Ordering::Equal));
}

#[test]
fn compare_is_a_strict_total_order_on_samples() {
    let triples = [
        (1u32, 10u32, rate(5, 1)),
        (2u32, 10u32, rate(5, 1)),
        (3u32, 20u32, rate(5, 1)),
        (4u32, 20u32, rate(10, 2)),
        (5u32, 1u32, rate(7, 2)),
        (6u32, 1u32, rate(0, 1)),
    ];
    for &a in &triples {
        // irreflexive as a strict order: an item ties only with itself
        assert_eq!(partial_cmp_uid_score(a, a), Some(Ordering::Equal));
        for &b in &triples {
            let ab = partial_cmp_uid_score(a, b).unwrap();
            let ba = partial_cmp_uid_score(b, a).unwrap();
            // antisymmetry
            assert_eq!(ab, ba.reverse());
            // no two distinct items compare equal
            if a.0 != b.0 {
                assert_ne!(ab, Ordering::Equal);
            }
            for &c in &triples {
                let bc = partial_cmp_uid_score(b, c).unwrap();
                let ac = partial_cmp_uid_score(a, c).unwrap();
                // transitivity
                if ab == Ordering::Less && bc == Ordering::Less {
                    assert_eq!(ac, Ordering::Less);
                }
            }
        }
    }
}

#[test]
fn items_compare_through_partial_ord() {
    let mut low = AuditTransaction::from_thread_transaction(&plain_tx(1, 4, 100, 400, 0, rate(1, 1)));
    let mut high = AuditTransaction::from_thread_transaction(&plain_tx(2, 9, 900, 400, 0, rate(9, 1)));
    low.set_ancestors(HashSet::new(), 0, 0, 0);
    high.set_ancestors(HashSet::new(), 0, 0, 0);
    assert_eq!(low.partial_cmp(&high), Some(Ordering::Less));
    assert_eq!(high.partial_cmp(&low), Some(Ordering::Greater));
    assert!(low < high);
}

#[test]
fn equality_is_by_uid_alone() {
    let a = AuditTransaction::from_thread_transaction(&plain_tx(1, 4, 100, 400, 0, rate(1, 1)));
    let b = AuditTransaction::from_thread_transaction(&plain_tx(1, 9, 900, 300, 0, rate(12, 1)));
    let c = AuditTransaction::from_thread_transaction(&plain_tx(2, 4, 100, 400, 0, rate(1, 1)));
    assert!(a == b);
    assert!(a != c);
}

#[test]
fn fee_rate_helpers() {
    assert_eq!(calc_fee_rate(1000, 50), rate(1000, 50));
    assert_eq!(calc_fee_rate(1000, 0), rate(1000, 1));
    assert!(rate_eq(&rate(1, 2), &rate(2, 4)));
    assert!(!rate_eq(&rate(1, 2), &rate(2, 3)));
    assert_eq!(rate_min(rate(3, 1), rate(5, 2)), rate(5, 2));
    assert_eq!(rate_min(rate(1, 2), rate(2, 4)), rate(1, 2));
    assert_eq!(rate_cmp(&rate(1, 3), &rate(1, 2)), Ordering::Less);
}
