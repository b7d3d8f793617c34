//! Computations over the payment history, and the facts about them that the
//! contract's proofs use.

use vstd::prelude::*;

use crate::model::{
    compliance_of, history_wf, month_of, successes, total_paid, BPS_DENOM, SECONDS_PER_MONTH,
};
use crate::types::PaymentRecord;

verus! {

/// Counting successes over one more record adds that record's success.
pub proof fn lemma_successes_step(h: Seq<PaymentRecord>, i: int)
    requires
        0 <= i < h.len(),
    ensures
        successes(h.take(i + 1)) == successes(h.take(i)) + if h[i].success {
            1nat
        } else {
            0nat
        },
{
    assert(h.take(i + 1).drop_last() =~= h.take(i));
}

/// Summing over one more record adds that record's amount.
pub proof fn lemma_total_paid_step(h: Seq<PaymentRecord>, i: int)
    requires
        0 <= i < h.len(),
    ensures
        total_paid(h.take(i + 1)) == total_paid(h.take(i)) + h[i].amount_paid,
{
    assert(h.take(i + 1).drop_last() =~= h.take(i));
}

/// There are no more successes than records.
pub proof fn lemma_successes_bounded(h: Seq<PaymentRecord>)
    ensures
        successes(h) <= h.len(),
    decreases h.len(),
{
    if h.len() > 0 {
        lemma_successes_bounded(h.drop_last());
    }
}

/// Appending a record adds its success to the count.
pub proof fn lemma_successes_push(h: Seq<PaymentRecord>, r: PaymentRecord)
    ensures
        successes(h.push(r)) == successes(h) + if r.success {
            1nat
        } else {
            0nat
        },
{
    assert(h.push(r).drop_last() =~= h);
}

/// Appending a record adds its amount to the total.
pub proof fn lemma_total_paid_push(h: Seq<PaymentRecord>, r: PaymentRecord)
    ensures
        total_paid(h.push(r)) == total_paid(h) + r.amount_paid,
{
    assert(h.push(r).drop_last() =~= h);
}

/// Where no amount is negative, the total over a prefix never exceeds the total.
pub proof fn lemma_total_paid_prefix(h: Seq<PaymentRecord>, k: int)
    requires
        0 <= k <= h.len(),
        forall|i: int| 0 <= i < h.len() ==> (#[trigger] h[i]).amount_paid >= 0,
    ensures
        0 <= total_paid(h.take(k)) <= total_paid(h),
    decreases h.len() - k,
{
    if k == h.len() {
        assert(h.take(k) =~= h);
        lemma_total_paid_nonneg(h);
    } else {
        lemma_total_paid_step(h, k);
        lemma_total_paid_prefix(h, k + 1);
        let t = h.take(k);
        assert forall|i: int| 0 <= i < t.len() implies (#[trigger] t[i]).amount_paid >= 0 by {
            assert(t[i] == h[i]);
        }
        lemma_total_paid_nonneg(t);
    }
}

/// Where no amount is negative, neither is the total.
pub proof fn lemma_total_paid_nonneg(h: Seq<PaymentRecord>)
    requires
        forall|i: int| 0 <= i < h.len() ==> (#[trigger] h[i]).amount_paid >= 0,
    ensures
        total_paid(h) >= 0,
    decreases h.len(),
{
    if h.len() > 0 {
        let t = h.drop_last();
        assert forall|i: int| 0 <= i < t.len() implies (#[trigger] t[i]).amount_paid >= 0 by {
            assert(t[i] == h[i]);
        }
        lemma_total_paid_nonneg(t);
        assert(h.last() == h[h.len() - 1]);
    }
}

/// The compliance score lies between 0 and 100% in basis points.
pub proof fn lemma_compliance_bounded(h: Seq<PaymentRecord>)
    ensures
        0 <= compliance_of(h) <= BPS_DENOM,
{
    if h.len() > 0 {
        lemma_successes_bounded(h);
        let s = successes(h) as int;
        let n = h.len() as int;
        assert(s * 10000 <= n * 10000) by (nonlinear_arith)
            requires
                s <= n,
        ;
        assert((s * 10000) / n <= 10000) by (nonlinear_arith)
            requires
                s * 10000 <= n * 10000,
                n > 0,
                s >= 0,
        ;
        assert((s * 10000) / n >= 0) by (nonlinear_arith)
            requires
                n > 0,
                s >= 0,
        ;
    }
}

/// The number of successful payments in `h`.
pub fn count_successes(h: &Vec<PaymentRecord>) -> (n: u64)
    ensures
        n == successes(h@),
{
    let mut count: u64 = 0;
    let len = h.len();
    let mut i: usize = 0;
    while i < len
        invariant
            len == h@.len(),
            i <= len,
            count == successes(h@.take(i as int)),
            count <= i,
        decreases len - i,
    {
        proof {
            lemma_successes_step(h@, i as int);
        }
        if h[i].success {
            count = count + 1;
        }
        i = i + 1;
    }
    assert(h@.take(len as int) =~= h@);
    count
}

/// The sum of the amounts paid over `h`, or `None` where it does not fit an
/// `i128`.
pub fn sum_paid(h: &Vec<PaymentRecord>) -> (total: Option<i128>)
    requires
        forall|i: int| 0 <= i < h@.len() ==> (#[trigger] h@[i]).amount_paid >= 0,
    ensures
        total == if total_paid(h@) <= i128::MAX {
            Some(total_paid(h@) as i128)
        } else {
            None::<i128>
        },
{
    let mut total: i128 = 0;
    let len = h.len();
    let mut i: usize = 0;
    while i < len
        invariant
            len == h@.len(),
            i <= len,
            total == total_paid(h@.take(i as int)),
            forall|j: int| 0 <= j < h@.len() ==> (#[trigger] h@[j]).amount_paid >= 0,
        decreases len - i,
    {
        proof {
            lemma_total_paid_step(h@, i as int);
            lemma_total_paid_prefix(h@, i as int + 1);
        }
        match total.checked_add(h[i].amount_paid) {
            Some(t) => {
                total = t;
            },
            None => {
                return None;
            },
        }
        i = i + 1;
    }
    assert(h@.take(len as int) =~= h@);
    Some(total)
}

/// The compliance score of a non-empty history, computed as the contract
/// stores it.
pub fn compute_compliance(h: &Vec<PaymentRecord>) -> (score: u64)
    requires
        h@.len() > 0,
        h@.len() <= u64::MAX / BPS_DENOM,
    ensures
        score == compliance_of(h@),
{
    let total = h.len() as u64;
    let successful = count_successes(h);
    proof {
        lemma_successes_bounded(h@);
        assert(successful * 10000 <= total * 10000) by (nonlinear_arith)
            requires
                successful <= total,
        ;
        assert(total * 10000 <= u64::MAX) by (nonlinear_arith)
            requires
                total <= u64::MAX / 10000,
        ;
    }
    successful * BPS_DENOM / total
}

/// Whether `h` is a payment history that the contract can have produced, given
/// the last month paid for (see `history_wf`).
pub fn history_valid(h: &Vec<PaymentRecord>, last_month: u64) -> (b: bool)
    ensures
        b == history_wf(h@, last_month),
{
    let len = h.len();
    if len as u128 > last_month as u128 {
        return false;
    }
    let mut i: usize = 0;
    while i < len
        invariant
            len == h@.len(),
            len <= last_month,
            i <= len,
            forall|k: int| 0 <= k < i ==> (#[trigger] h@[k]).id == k + 1,
            forall|k: int, l: int| 0 <= k < l < i ==> (#[trigger] h@[k]).period < (#[trigger] h@[l]).period,
            forall|k: int| 0 <= k < i ==> (#[trigger] h@[k]).period == month_of(h@[k].timestamp),
            forall|k: int|
                0 <= k < i ==> {
                    &&& (#[trigger] h@[k]).amount_paid >= 0
                    &&& h@[k].success <==> h@[k].amount_paid > 0
                    &&& h@[k].success ==> h@[k].amount_paid <= h@[k].payer_balance_at_attempt
                },
        decreases len - i,
    {
        let r = h[i];
        if r.id as u128 != i as u128 + 1 {
            return false;
        }
        if i > 0 && h[i - 1].period >= r.period {
            assert(h@[i - 1].period >= h@[i as int].period);
            return false;
        }
        if r.period != r.timestamp / SECONDS_PER_MONTH {
            return false;
        }
        if r.amount_paid < 0 || r.success != (r.amount_paid > 0) || (r.success
            && r.amount_paid > r.payer_balance_at_attempt) {
            return false;
        }
        assert forall|k: int, l: int| 0 <= k < l < i + 1 implies (#[trigger] h@[k]).period
            < (#[trigger] h@[l]).period by {
            if l == i && k < i - 1 {
                assert(h@[k].period < h@[i - 1].period);
            }
        }
        i = i + 1;
    }
    if len > 0 && h[len - 1].period != last_month {
        return false;
    }
    if len == 0 && last_month != 0 {
        return false;
    }
    true
}

} // verus!
