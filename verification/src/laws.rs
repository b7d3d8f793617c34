//! Properties of the contract that span several calls, proved over the model
//! that each entry point is proved to follow.

use vstd::prelude::*;

use crate::history::{
    lemma_compliance_bounded, lemma_successes_bounded, lemma_successes_push,
    lemma_successes_step, lemma_total_paid_nonneg, lemma_total_paid_push, lemma_total_paid_step,
};
use crate::model::{
    compliance_of, contract_wf, create_order_spec, current_month_paid, day_of_month,
    deactivate_order_spec, default_alert_of, empty_view, execute_payment_spec, initialize_spec, month_of,
    successes, total_paid, ContractView, BPS_DENOM,
};
use crate::types::{AlertView, ContractError, OrderView, PaymentRecord, PaymentResult};

verus! {

/// A freshly deployed contract is in a reachable state.
pub proof fn law_fresh_contract_wf()
    ensures
        contract_wf(empty_view()),
{
}

/// Every entry point, from a reachable state, leads to a reachable state.
pub proof fn law_invariant_kept(
    v: ContractView,
    court_admin: Seq<char>,
    token: Seq<char>,
    caller: Seq<char>,
    order: OrderView,
    ts: u64,
    balance: i128,
)
    requires
        contract_wf(v),
    ensures
        contract_wf(initialize_spec(v, court_admin, token).0),
        contract_wf(create_order_spec(v, caller, order).0),
        contract_wf(execute_payment_spec(v, ts, balance).0),
        contract_wf(deactivate_order_spec(v, caller).0),
{
    let v1 = execute_payment_spec(v, ts, balance).0;
    if execute_payment_spec(v, ts, balance).1 is Ok {
        let h = v1.history;
        let o = v.order->Some_0;
        assert(month_of(ts) <= u64::MAX / 2_592_000) by {
            assert(ts / 2_592_000 <= u64::MAX / 2_592_000);
        }
        assert forall|i: int, j: int| 0 <= i < j < h.len() implies (#[trigger] h[i]).period
            < (#[trigger] h[j]).period by {
            assert(h[i] == v.history[i]);
            if j < h.len() - 1 {
                assert(h[j] == v.history[j]);
            } else if i < v.history.len() - 1 {
                assert(v.history[i].period < v.history[v.history.len() - 1].period);
            }
        }
        assert forall|i: int| 0 <= i < h.len() implies (#[trigger] h[i]).id == i + 1 by {
            if i < h.len() - 1 {
                assert(h[i] == v.history[i]);
            }
        }
        assert forall|i: int| 0 <= i < h.len() implies (#[trigger] h[i]).period == month_of(
            h[i].timestamp,
        ) by {
            if i < h.len() - 1 {
                assert(h[i] == v.history[i]);
            }
        }
        assert forall|i: int|
            0 <= i < h.len() implies {
                &&& (#[trigger] h[i]).amount_paid >= 0
                &&& h[i].success <==> h[i].amount_paid > 0
                &&& h[i].success ==> h[i].amount_paid <= h[i].payer_balance_at_attempt
            } by {
            if i < h.len() - 1 {
                assert(h[i] == v.history[i]);
            }
        }
        lemma_compliance_bounded(h);
    }
}

/// The contract is initialised at most once: after a successful
/// `initialize`, every further `initialize` is refused and changes nothing.
pub proof fn law_initialize_once(
    v: ContractView,
    court_admin: Seq<char>,
    token: Seq<char>,
    other_admin: Seq<char>,
    other_token: Seq<char>,
)
    requires
        contract_wf(v),
        initialize_spec(v, court_admin, token).1 is Ok,
    ensures
        ({
            let v1 = initialize_spec(v, court_admin, token).0;
            initialize_spec(v1, other_admin, other_token) == (
                v1,
                Err::<(), ContractError>(ContractError::AlreadyInitialized),
            )
        }),
{
}

/// A refused call leaves the contract exactly as it was.
pub proof fn law_refusal_changes_nothing(
    v: ContractView,
    court_admin: Seq<char>,
    token: Seq<char>,
    caller: Seq<char>,
    order: OrderView,
    ts: u64,
    balance: i128,
)
    ensures
        initialize_spec(v, court_admin, token).1 is Err ==> initialize_spec(v, court_admin, token).0
            == v,
        create_order_spec(v, caller, order).1 is Err ==> create_order_spec(v, caller, order).0 == v,
        execute_payment_spec(v, ts, balance).1 is Err ==> execute_payment_spec(v, ts, balance).0
            == v,
        deactivate_order_spec(v, caller).1 is Err ==> deactivate_order_spec(v, caller).0 == v,
{
}

/// Only the court admin can create or deactivate an order: anyone else is
/// refused as not the court admin.
pub proof fn law_only_court_admin_manages_orders(
    v: ContractView,
    caller: Seq<char>,
    order: OrderView,
)
    requires
        v.config is Some,
        v.config->Some_0.court_admin != caller,
    ensures
        create_order_spec(v, caller, order) == (v, Err::<(), ContractError>(ContractError::NotCourtAdmin)),
        deactivate_order_spec(v, caller) == (v, Err::<(), ContractError>(ContractError::NotCourtAdmin)),
{
}

/// At most one payment per month: once a payment has been executed at time
/// `ts`, the month counts as paid, and any attempt at a time in the same
/// month (or earlier) is refused without effect.
pub proof fn law_one_payment_per_month(v: ContractView, ts: u64, balance: i128, ts2: u64, balance2: i128)
    requires
        contract_wf(v),
        execute_payment_spec(v, ts, balance).1 is Ok,
        month_of(ts2) <= month_of(ts),
    ensures
        ({
            let v1 = execute_payment_spec(v, ts, balance).0;
            &&& current_month_paid(v1, ts)
            &&& current_month_paid(v1, ts2)
            &&& execute_payment_spec(v1, ts2, balance2) == (
                v1,
                Err::<PaymentResult, ContractError>(ContractError::AlreadyPaidThisMonth),
            )
        }),
{
}

/// No two records of a reachable history fall in the same month, and no two
/// carry the same identifier.
pub proof fn law_history_periods_distinct(v: ContractView, i: int, j: int)
    requires
        contract_wf(v),
        0 <= i < v.history.len(),
        0 <= j < v.history.len(),
        i != j,
    ensures
        v.history[i].period != v.history[j].period,
        v.history[i].id != v.history[j].id,
{
    if i < j {
        assert(v.history[i].period < v.history[j].period);
    } else {
        assert(v.history[j].period < v.history[i].period);
    }
}

/// An executed payment pays the monthly amount exactly when the payer's
/// balance covers it, and otherwise records a default that moves nothing:
/// the total paid grows by the amount paid, the count of successful payments
/// by one exactly on `Paid`, and the history by exactly that one record,
/// earlier records unchanged.
pub proof fn law_payment_outcome(v: ContractView, ts: u64, balance: i128)
    requires
        contract_wf(v),
        execute_payment_spec(v, ts, balance).1 is Ok,
    ensures
        ({
            let (v1, r) = execute_payment_spec(v, ts, balance);
            let amount = v.order->Some_0.monthly_amount;
            let paid = r == Ok::<PaymentResult, ContractError>(PaymentResult::Paid);
            &&& paid <==> balance >= amount
            &&& r == Ok::<PaymentResult, ContractError>(PaymentResult::Defaulted) <==> balance < amount
            &&& v1.history.len() == v.history.len() + 1
            &&& v1.history.take(v.history.len() as int) == v.history
            &&& total_paid(v1.history) == total_paid(v.history) + if paid {
                amount as int
            } else {
                0
            }
            &&& successes(v1.history) == successes(v.history) + if paid {
                1nat
            } else {
                0nat
            }
            &&& v1.order == v.order
            &&& v1.config == v.config
        }),
{
    let (v1, r) = execute_payment_spec(v, ts, balance);
    let rec = v1.history.last();
    assert(v1.history =~= v.history.push(rec));
    assert(v1.history.take(v.history.len() as int) =~= v.history);
    lemma_total_paid_push(v.history, rec);
    lemma_successes_push(v.history, rec);
}

/// No entry point rewrites or removes a payment record: the history before
/// any call is a prefix of the history after it.
pub proof fn law_history_append_only(
    v: ContractView,
    court_admin: Seq<char>,
    token: Seq<char>,
    caller: Seq<char>,
    order: OrderView,
    ts: u64,
    balance: i128,
)
    requires
        contract_wf(v),
    ensures
        v.history.is_prefix_of(initialize_spec(v, court_admin, token).0.history),
        v.history.is_prefix_of(create_order_spec(v, caller, order).0.history),
        v.history.is_prefix_of(execute_payment_spec(v, ts, balance).0.history),
        v.history.is_prefix_of(deactivate_order_spec(v, caller).0.history),
{
    let h1 = execute_payment_spec(v, ts, balance).0.history;
    assert(v.history.is_prefix_of(h1)) by {
        if execute_payment_spec(v, ts, balance).1 is Ok {
            assert(h1.take(v.history.len() as int) =~= v.history);
        } else {
            assert(h1.take(v.history.len() as int) =~= v.history);
        }
    }
    let h2 = initialize_spec(v, court_admin, token).0.history;
    assert(v.history.is_prefix_of(h2)) by {
        assert(h2.take(v.history.len() as int) =~= v.history);
    }
    let h3 = create_order_spec(v, caller, order).0.history;
    assert(h3.take(v.history.len() as int) =~= v.history);
    let h4 = deactivate_order_spec(v, caller).0.history;
    assert(h4.take(v.history.len() as int) =~= v.history);
}

/// A deactivated order is never paid: every payment attempt is refused until
/// the court admin creates a new order, and payment attempts do not
/// reactivate it.
pub proof fn law_deactivated_order_never_pays(
    v: ContractView,
    caller: Seq<char>,
    ts: u64,
    balance: i128,
)
    requires
        contract_wf(v),
        deactivate_order_spec(v, caller).1 is Ok,
    ensures
        ({
            let v1 = deactivate_order_spec(v, caller).0;
            &&& execute_payment_spec(v1, ts, balance) == (
                v1,
                Err::<PaymentResult, ContractError>(ContractError::OrderNotActive),
            )
            &&& deactivate_order_spec(v1, caller).0 == v1
        }),
{
    let v1 = deactivate_order_spec(v, caller).0;
    assert(deactivate_order_spec(v1, caller).0 =~= v1);
}

/// In every reachable state the stored compliance score lies between 0 and
/// 100% and, once initialised, equals successful payments over all attempts
/// in basis points; successful payments never outnumber attempts, and the
/// total paid is never negative.
pub proof fn law_score_and_totals(v: ContractView)
    requires
        contract_wf(v),
    ensures
        v.compliance_score <= BPS_DENOM,
        v.config is Some ==> v.compliance_score == compliance_of(v.history),
        successes(v.history) <= v.history.len(),
        total_paid(v.history) >= 0,
{
    lemma_compliance_bounded(v.history);
    lemma_successes_bounded(v.history);
    lemma_total_paid_nonneg(v.history);
}

/// No payment is taken before the order's due day: within a month not yet
/// paid for, an attempt on an earlier day of the month is refused without
/// effect.
pub proof fn law_no_payment_before_due_day(v: ContractView, ts: u64, balance: i128)
    requires
        v.order is Some,
        v.order->Some_0.active,
        month_of(ts) > v.last_executed_month,
        day_of_month(ts) < v.order->Some_0.due_day,
    ensures
        execute_payment_spec(v, ts, balance) == (
            v,
            Err::<PaymentResult, ContractError>(ContractError::NotDueYet),
        ),
{
}

/// Every successful record of `h` paid exactly `amount`.
pub open spec fn paid_at_rate(h: Seq<PaymentRecord>, amount: i128) -> bool {
    forall|i: int| 0 <= i < h.len() && (#[trigger] h[i]).success ==> h[i].amount_paid == amount
}

/// Where every successful payment paid the same amount, the total paid is
/// that amount times the number of successful payments.
pub proof fn law_total_paid_is_rate_times_count(v: ContractView, amount: i128)
    requires
        contract_wf(v),
        paid_at_rate(v.history, amount),
    ensures
        total_paid(v.history) == amount * successes(v.history),
{
    lemma_rate_prefix(v.history, amount, v.history.len() as int);
    assert(v.history.take(v.history.len() as int) =~= v.history);
}

/// The rate law on every prefix of a well-formed history.
proof fn lemma_rate_prefix(h: Seq<PaymentRecord>, amount: i128, k: int)
    requires
        0 <= k <= h.len(),
        paid_at_rate(h, amount),
        forall|i: int|
            0 <= i < h.len() ==> {
                &&& (#[trigger] h[i]).amount_paid >= 0
                &&& h[i].success <==> h[i].amount_paid > 0
            },
    ensures
        total_paid(h.take(k)) == amount * successes(h.take(k)),
    decreases k,
{
    if k == 0 {
        assert(h.take(0).len() == 0);
        assert(amount * 0 == 0);
    } else {
        lemma_rate_prefix(h, amount, k - 1);
        lemma_total_paid_step(h, k - 1);
        lemma_successes_step(h, k - 1);
        let r = h[k - 1];
        assert(r.amount_paid >= 0);
        let s = successes(h.take(k - 1)) as int;
        if r.success {
            assert(r.amount_paid == amount);
            assert(amount * (s + 1) == amount * s + amount) by (nonlinear_arith);
        } else {
            assert(r.amount_paid == 0);
        }
    }
}

/// With a single order in force, every payment attempt keeps the rate law:
/// if each success so far paid the order's monthly amount, so does each
/// success after the attempt, and the order's amount stays; hence the total
/// paid is always the monthly amount times the number of successful
/// payments, which are exactly the transfers made.
pub proof fn law_single_order_total_paid(v: ContractView, ts: u64, balance: i128)
    requires
        contract_wf(v),
        v.order is Some,
        paid_at_rate(v.history, v.order->Some_0.monthly_amount),
    ensures
        ({
            let v1 = execute_payment_spec(v, ts, balance).0;
            let amount = v.order->Some_0.monthly_amount;
            &&& v1.order is Some && v1.order->Some_0.monthly_amount == amount
            &&& paid_at_rate(v1.history, amount)
            &&& total_paid(v1.history) == amount * successes(v1.history)
        }),
{
    let amount = v.order->Some_0.monthly_amount;
    let v1 = execute_payment_spec(v, ts, balance).0;
    if execute_payment_spec(v, ts, balance).1 is Ok {
        let h = v1.history;
        assert forall|i: int| 0 <= i < h.len() && (#[trigger] h[i]).success implies h[i].amount_paid
            == amount by {
            if i < h.len() - 1 {
                assert(h[i] == v.history[i]);
            }
        }
    }
    law_invariant_kept(v, Seq::empty(), Seq::empty(), Seq::empty(), v.order->Some_0, ts, balance);
    law_total_paid_is_rate_times_count(v1, amount);
}

/// A successful payment never lowers the compliance score, and a default
/// never raises it.
pub proof fn law_score_monotone(v: ContractView, ts: u64, balance: i128)
    requires
        contract_wf(v),
        execute_payment_spec(v, ts, balance).1 is Ok,
    ensures
        ({
            let (v1, r) = execute_payment_spec(v, ts, balance);
            &&& r == Ok::<PaymentResult, ContractError>(PaymentResult::Paid) ==> v1.compliance_score
                >= v.compliance_score
            &&& r == Ok::<PaymentResult, ContractError>(PaymentResult::Defaulted)
                ==> v1.compliance_score <= v.compliance_score
        }),
{
    let (v1, r) = execute_payment_spec(v, ts, balance);
    let h = v.history;
    let rec = v1.history.last();
    assert(v1.history =~= h.push(rec));
    lemma_successes_push(h, rec);
    lemma_successes_bounded(h);
    law_invariant_kept(v, Seq::empty(), Seq::empty(), Seq::empty(), v.order->Some_0, ts, balance);
    lemma_compliance_bounded(v1.history);
    let s = successes(h) as int;
    let n = h.len() as int;
    if n == 0 {
        if rec.success {
            assert(successes(v1.history) == 1);
            assert(v1.history.len() == 1);
            let x = (successes(v1.history) * BPS_DENOM) as int;
            assert(x == 10000);
            assert(x / 1 == x) by (nonlinear_arith);
            assert(compliance_of(v1.history) == 10000);
        }
    } else {
        let q = (s * 10000) / n;
        assert(v.compliance_score == q);
        if rec.success {
            assert(q <= 10000 && q * n <= s * 10000) by (nonlinear_arith)
                requires
                    q == (s * 10000) / n,
                    n > 0,
                    0 <= s <= n,
            ;
            assert(q <= ((s + 1) * 10000) / (n + 1)) by (nonlinear_arith)
                requires
                    q <= 10000,
                    q * n <= s * 10000,
                    n > 0,
                    q >= 0,
            ;
        } else {
            assert((s * 10000) / (n + 1) <= q) by (nonlinear_arith)
                requires
                    q == (s * 10000) / n,
                    n > 0,
                    s >= 0,
            ;
        }
    }
}

/// A defaulted payment alerts the court: right after an attempt that
/// defaults, the alert names that attempt, its period, the order's case
/// number and monthly amount, and the payer's balance; after an attempt that
/// pays, no alert is owed.
pub proof fn law_default_alerts_court(v: ContractView, ts: u64, balance: i128)
    requires
        contract_wf(v),
        execute_payment_spec(v, ts, balance).1 is Ok,
    ensures
        ({
            let (v1, r) = execute_payment_spec(v, ts, balance);
            let o = v.order->Some_0;
            &&& r == Ok::<PaymentResult, ContractError>(PaymentResult::Defaulted)
                ==> default_alert_of(v1) == Some(
                AlertView {
                    payment_id: v.next_payment_id,
                    period: month_of(ts),
                    case_number: o.case_number,
                    amount_due: o.monthly_amount,
                    payer_balance: balance,
                },
            )
            &&& r == Ok::<PaymentResult, ContractError>(PaymentResult::Paid) ==> default_alert_of(v1)
                is None
        }),
{
}

/// The state after a sequence of payment attempts, each at a ledger time
/// with the payer holding a balance; a refused attempt changes nothing.
pub open spec fn run_payments(v: ContractView, attempts: Seq<(u64, i128)>) -> ContractView
    decreases attempts.len(),
{
    if attempts.len() == 0 {
        v
    } else {
        let prev = run_payments(v, attempts.drop_last());
        execute_payment_spec(prev, attempts.last().0, attempts.last().1).0
    }
}

/// The amount moved from the paying to the custodial parent over a sequence
/// of payment attempts: the order's monthly amount for each attempt that
/// returned `Paid`.
pub open spec fn transferred(v: ContractView, attempts: Seq<(u64, i128)>) -> int
    decreases attempts.len(),
{
    if attempts.len() == 0 {
        0
    } else {
        let prev = run_payments(v, attempts.drop_last());
        let paid = execute_payment_spec(prev, attempts.last().0, attempts.last().1).1 == Ok::<
            PaymentResult,
            ContractError,
        >(PaymentResult::Paid);
        transferred(v, attempts.drop_last()) + if paid {
            prev.order->Some_0.monthly_amount as int
        } else {
            0
        }
    }
}

/// Payment attempts from a reachable state with an order whose every
/// success paid its amount keep the state reachable, the order's amount, and
/// that rate; what they transfer is what they add to the total paid.
proof fn lemma_run_keeps_rate(v: ContractView, attempts: Seq<(u64, i128)>)
    requires
        contract_wf(v),
        v.order is Some,
        paid_at_rate(v.history, v.order->Some_0.monthly_amount),
    ensures
        ({
            let w = run_payments(v, attempts);
            &&& contract_wf(w)
            &&& w.order is Some
            &&& w.order->Some_0.monthly_amount == v.order->Some_0.monthly_amount
            &&& paid_at_rate(w.history, v.order->Some_0.monthly_amount)
            &&& total_paid(w.history) == total_paid(v.history) + transferred(v, attempts)
        }),
    decreases attempts.len(),
{
    if attempts.len() > 0 {
        let rest = attempts.drop_last();
        lemma_run_keeps_rate(v, rest);
        let prev = run_payments(v, rest);
        let (ts, b) = attempts.last();
        law_single_order_total_paid(prev, ts, b);
        law_invariant_kept(prev, Seq::empty(), Seq::empty(), Seq::empty(), prev.order->Some_0, ts, b);
        if execute_payment_spec(prev, ts, b).1 is Ok {
            law_payment_outcome(prev, ts, b);
        }
    }
}

/// Under one order: after `initialize` and a single accepted `create_order`
/// for an order of monthly amount `a`, any sequence of payment attempts
/// (accepted or refused) leaves a total paid of `a` times the number of
/// successful payments, equal to what those attempts transferred.
pub proof fn law_total_paid_under_one_order(
    court_admin: Seq<char>,
    token: Seq<char>,
    caller: Seq<char>,
    order: OrderView,
    attempts: Seq<(u64, i128)>,
)
    requires
        create_order_spec(initialize_spec(empty_view(), court_admin, token).0, caller, order).1 is Ok,
    ensures
        ({
            let v0 = create_order_spec(initialize_spec(empty_view(), court_admin, token).0, caller, order).0;
            let w = run_payments(v0, attempts);
            &&& total_paid(w.history) == order.monthly_amount * successes(w.history)
            &&& total_paid(w.history) == transferred(v0, attempts)
        }),
{
    let v_init = initialize_spec(empty_view(), court_admin, token).0;
    law_invariant_kept(empty_view(), court_admin, token, caller, order, 0, 0);
    law_invariant_kept(v_init, court_admin, token, caller, order, 0, 0);
    let v0 = create_order_spec(v_init, caller, order).0;
    assert(v0.history.len() == 0);
    assert(paid_at_rate(v0.history, order.monthly_amount));
    lemma_run_keeps_rate(v0, attempts);
    let w = run_payments(v0, attempts);
    law_total_paid_is_rate_times_count(w, order.monthly_amount);
}

/// A payment attempt is accepted exactly when there is an active order, the
/// month of `ts` (seconds divided by 30 days) is later than the last month
/// paid for, and the day of `ts` within that month (counted from 1) has
/// reached the order's due day. An accepted attempt appends exactly one
/// record, after the earlier ones, that reports the attempt as it happened:
/// the next identifier, the month and time of `ts`, the balance handed in,
/// success exactly when that balance covers the monthly amount, and that
/// amount paid on success and nothing on a default; the month is marked as
/// paid, and the order and configuration stay.
pub proof fn law_payment_record_reports_attempt(v: ContractView, ts: u64, balance: i128)
    requires
        contract_wf(v),
    ensures
        ({
            let (v1, r) = execute_payment_spec(v, ts, balance);
            let o = v.order->Some_0;
            &&& r is Ok <==> {
                &&& v.order is Some
                &&& o.active
                &&& ts / 2_592_000 > v.last_executed_month
                &&& (ts % 2_592_000) / 86_400 + 1 >= o.due_day
            }
            &&& r is Ok ==> {
                let rec = v1.history[v.history.len() as int];
                let covered = balance >= o.monthly_amount;
                &&& v1.history.len() == v.history.len() + 1
                &&& v1.history.take(v.history.len() as int) == v.history
                &&& rec.id == v.history.len() + 1
                &&& rec.period == ts / 2_592_000
                &&& rec.timestamp == ts
                &&& rec.payer_balance_at_attempt == balance
                &&& rec.success == covered
                &&& rec.amount_paid == if covered {
                    o.monthly_amount
                } else {
                    0i128
                }
                &&& r == Ok::<PaymentResult, ContractError>(
                    if covered {
                        PaymentResult::Paid
                    } else {
                        PaymentResult::Defaulted
                    },
                )
                &&& v1.last_executed_month == ts / 2_592_000
                &&& v1.order == v.order
                &&& v1.config == v.config
            }
        }),
{
    let (v1, r) = execute_payment_spec(v, ts, balance);
    if r is Ok {
        assert(v1.history.take(v.history.len() as int) =~= v.history);
    }
}

/// An accepted `create_order` stores the order exactly as given: the same
/// parents, monthly amount, due day, child name, case number and creation
/// time, and active; nothing else changes. It is accepted exactly when the
/// contract is initialised, the caller is the court admin, the amount is
/// positive, the due day lies in 1..=28, and neither name is empty.
pub proof fn law_create_order_stores_terms(v: ContractView, caller: Seq<char>, order: OrderView)
    ensures
        ({
            let (v1, r) = create_order_spec(v, caller, order);
            &&& r is Ok <==> {
                &&& v.config is Some
                &&& v.config->Some_0.court_admin == caller
                &&& order.monthly_amount > 0
                &&& 1 <= order.due_day <= 28
                &&& order.child_name.len() > 0
                &&& order.case_number.len() > 0
            }
            &&& r is Ok ==> {
                let o1 = v1.order->Some_0;
                &&& v1.order is Some
                &&& o1.paying_parent == order.paying_parent
                &&& o1.custodial_parent == order.custodial_parent
                &&& o1.monthly_amount == order.monthly_amount
                &&& o1.due_day == order.due_day
                &&& o1.child_name == order.child_name
                &&& o1.case_number == order.case_number
                &&& o1.created_at == order.created_at
                &&& o1.active
                &&& v1.config == v.config
                &&& v1.history == v.history
                &&& v1.compliance_score == v.compliance_score
                &&& v1.next_payment_id == v.next_payment_id
                &&& v1.last_executed_month == v.last_executed_month
            }
        }),
{
}

/// The current month counts as paid exactly when the last month paid for is
/// that of `ts` or later; in a reachable state that is when `ts` falls in
/// month 0 or some payment record is for the month of `ts` or a later one.
/// So a contract with no payment reports no month from month 1 on as paid.
pub proof fn law_current_month_paid_means_executed(v: ContractView, ts: u64)
    requires
        contract_wf(v),
    ensures
        current_month_paid(v, ts) == (v.last_executed_month >= ts / 2_592_000),
        current_month_paid(v, ts) <==> (ts / 2_592_000 == 0 || exists|i: int|
            0 <= i < v.history.len() && (#[trigger] v.history[i]).period >= ts / 2_592_000),
        v.history.len() == 0 && ts >= 2_592_000 ==> !current_month_paid(v, ts),
{
    let h = v.history;
    let m = ts / 2_592_000;
    if v.last_executed_month >= m && m != 0 {
        assert(h.len() > 0);
        assert(h[h.len() - 1].period >= m);
    }
    if exists|i: int| 0 <= i < h.len() && (#[trigger] h[i]).period >= m {
        let i = choose|i: int| 0 <= i < h.len() && (#[trigger] h[i]).period >= m;
        if i < h.len() - 1 {
            assert(h[i].period < h[h.len() - 1].period);
        }
        assert(h.last() == h[h.len() - 1]);
    }
}

/// The court admin can always deactivate an existing order, whatever the
/// payment history: the call succeeds, the order keeps all its terms but is
/// no longer active, and nothing else changes. It succeeds only then.
pub proof fn law_court_admin_deactivates(v: ContractView, caller: Seq<char>)
    ensures
        ({
            let (v1, r) = deactivate_order_spec(v, caller);
            &&& r is Ok <==> {
                &&& v.config is Some
                &&& v.config->Some_0.court_admin == caller
                &&& v.order is Some
            }
            &&& r is Ok ==> {
                let o = v.order->Some_0;
                let o1 = v1.order->Some_0;
                &&& v1.order is Some
                &&& !o1.active
                &&& o1.paying_parent == o.paying_parent
                &&& o1.custodial_parent == o.custodial_parent
                &&& o1.monthly_amount == o.monthly_amount
                &&& o1.due_day == o.due_day
                &&& o1.child_name == o.child_name
                &&& o1.case_number == o.case_number
                &&& o1.created_at == o.created_at
                &&& v1.config == v.config
                &&& v1.history == v.history
                &&& v1.compliance_score == v.compliance_score
                &&& v1.next_payment_id == v.next_payment_id
                &&& v1.last_executed_month == v.last_executed_month
            }
        }),
{
}

/// `initialize` succeeds exactly on a contract not yet initialised, and then
/// records the given court admin and token, a full score of 10000 basis
/// points, 1 as the next payment identifier, no month paid and no history,
/// leaving any order as it was.
pub proof fn law_initialize_records_config(v: ContractView, court_admin: Seq<char>, token: Seq<char>)
    ensures
        ({
            let (v1, r) = initialize_spec(v, court_admin, token);
            &&& r is Ok <==> v.config is None
            &&& r is Ok ==> {
                &&& v1.config is Some
                &&& v1.config->Some_0.court_admin == court_admin
                &&& v1.config->Some_0.token == token
                &&& v1.compliance_score == 10_000
                &&& v1.next_payment_id == 1
                &&& v1.last_executed_month == 0
                &&& v1.history.len() == 0
                &&& v1.order == v.order
            }
        }),
{
}

/// A refused payment attempt names the first check it fails, in this order:
/// no order, the order is inactive, the month of `ts` is already paid for,
/// the due day has not come.
pub proof fn law_payment_refusal_reasons(v: ContractView, ts: u64, balance: i128)
    ensures
        ({
            let r = execute_payment_spec(v, ts, balance).1;
            let o = v.order->Some_0;
            &&& v.order is None ==> r == Err::<PaymentResult, ContractError>(ContractError::NoOrder)
            &&& v.order is Some && !o.active ==> r == Err::<PaymentResult, ContractError>(
                ContractError::OrderNotActive,
            )
            &&& v.order is Some && o.active && ts / 2_592_000 <= v.last_executed_month ==> r
                == Err::<PaymentResult, ContractError>(ContractError::AlreadyPaidThisMonth)
            &&& v.order is Some && o.active && ts / 2_592_000 > v.last_executed_month && (ts
                % 2_592_000) / 86_400 + 1 < o.due_day ==> r == Err::<PaymentResult, ContractError>(
                ContractError::NotDueYet,
            )
        }),
{
}

/// A refused `create_order` names the first check it fails, in this order:
/// not initialised, not the court admin, a non-positive amount, a due day
/// outside 1..=28, an empty child name or case number.
pub proof fn law_create_order_refusal_reasons(v: ContractView, caller: Seq<char>, order: OrderView)
    ensures
        ({
            let r = create_order_spec(v, caller, order).1;
            let admin_ok = v.config is Some && v.config->Some_0.court_admin == caller;
            &&& v.config is None ==> r == Err::<(), ContractError>(ContractError::NotInitialized)
            &&& v.config is Some && !admin_ok ==> r == Err::<(), ContractError>(
                ContractError::NotCourtAdmin,
            )
            &&& admin_ok && order.monthly_amount <= 0 ==> r == Err::<(), ContractError>(
                ContractError::NonPositiveAmount,
            )
            &&& admin_ok && order.monthly_amount > 0 && (order.due_day < 1 || order.due_day > 28)
                ==> r == Err::<(), ContractError>(ContractError::InvalidDueDay)
            &&& admin_ok && order.monthly_amount > 0 && 1 <= order.due_day <= 28 && (
            order.child_name.len() == 0 || order.case_number.len() == 0) ==> r == Err::<
                (),
                ContractError,
            >(ContractError::EmptyName)
        }),
{
}

} // verus!
