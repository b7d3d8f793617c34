//! The contract as a mathematical state machine: its abstract state, the
//! invariant that every reachable state keeps, and what each entry point does
//! to the state and answers.

use vstd::prelude::*;

use crate::types::{
    AlertView, ConfigView, ContractError, OrderView, PaymentRecord, PaymentResult,
};

verus! {

/// Basis points in 100%, the scale of the compliance score.
pub const BPS_DENOM: u64 = 10_000;

/// A month, for payment periods, is 30 days of seconds.
pub const SECONDS_PER_MONTH: u64 = 2_592_000;

/// Seconds in a day.
pub const SECONDS_PER_DAY: u64 = 86_400;

/// The payment period into which ledger time `ts` falls.
pub open spec fn month_of(ts: u64) -> u64 {
    ts / SECONDS_PER_MONTH
}

/// The day, counted from 1 to 30, of ledger time `ts` within its payment period.
pub open spec fn day_of_month(ts: u64) -> u64 {
    ((ts % SECONDS_PER_MONTH) / SECONDS_PER_DAY + 1) as u64
}

/// The abstract instance storage of the contract. Entries that are read with
/// a default while absent (history, score, next identifier, last month) hold
/// that default until they are first written.
#[verifier::ext_equal]
pub struct ContractView {
    pub config: Option<ConfigView>,
    pub order: Option<OrderView>,
    pub history: Seq<PaymentRecord>,
    pub compliance_score: u64,
    pub next_payment_id: u64,
    pub last_executed_month: u64,
}

/// The number of successful payments in `h`.
pub open spec fn successes(h: Seq<PaymentRecord>) -> nat
    decreases h.len(),
{
    if h.len() == 0 {
        0
    } else {
        successes(h.drop_last()) + if h.last().success {
            1nat
        } else {
            0nat
        }
    }
}

/// The sum of the amounts paid over `h`.
pub open spec fn total_paid(h: Seq<PaymentRecord>) -> int
    decreases h.len(),
{
    if h.len() == 0 {
        0
    } else {
        total_paid(h.drop_last()) + h.last().amount_paid
    }
}

/// Successful payments as a share of all attempts, in basis points, rounded
/// down; a history with no attempt scores full compliance.
pub open spec fn compliance_of(h: Seq<PaymentRecord>) -> int {
    if h.len() == 0 {
        BPS_DENOM as int
    } else {
        (successes(h) * BPS_DENOM) as int / h.len() as int
    }
}

/// The terms that `create_order` accepts.
pub open spec fn order_terms_valid(o: OrderView) -> bool {
    &&& o.monthly_amount > 0
    &&& 1 <= o.due_day <= 28
    &&& o.child_name.len() > 0
    &&& o.case_number.len() > 0
}

/// What holds of the payment history given the last month paid for (0 before
/// any attempt):
/// identifiers count up from 1, periods strictly increase up to the last
/// month, each period is the month of its timestamp, and a record moved money
/// exactly when it succeeded, and never more than the payer held.
pub open spec fn history_wf(h: Seq<PaymentRecord>, last_month: u64) -> bool {
    &&& h.len() <= last_month
    &&& h.len() > 0 ==> h.last().period == last_month
    &&& h.len() == 0 ==> last_month == 0
    &&& forall|i: int| 0 <= i < h.len() ==> (#[trigger] h[i]).id == i + 1
    &&& forall|i: int, j: int| 0 <= i < j < h.len() ==> (#[trigger] h[i]).period < (#[trigger] h[j]).period
    &&& forall|i: int| 0 <= i < h.len() ==> (#[trigger] h[i]).period == month_of(h[i].timestamp)
    &&& forall|i: int|
        0 <= i < h.len() ==> {
            &&& (#[trigger] h[i]).amount_paid >= 0
            &&& h[i].success <==> h[i].amount_paid > 0
            &&& h[i].success ==> h[i].amount_paid <= h[i].payer_balance_at_attempt
        }
}

/// The invariant of every state that the contract can reach.
pub open spec fn contract_wf(v: ContractView) -> bool {
    &&& v.last_executed_month <= u64::MAX / SECONDS_PER_MONTH
    &&& history_wf(v.history, v.last_executed_month)
    &&& match v.config {
        None => {
            &&& v.order is None
            &&& v.history.len() == 0
            &&& v.compliance_score == 0
            &&& v.next_payment_id == 0
            &&& v.last_executed_month == 0
        },
        Some(_) => {
            &&& v.next_payment_id == v.history.len() + 1
            &&& v.compliance_score == compliance_of(v.history)
        },
    }
    &&& v.order matches Some(o) ==> order_terms_valid(o)
}

/// The storage of a freshly deployed contract: nothing is set.
pub open spec fn empty_view() -> ContractView {
    ContractView {
        config: None,
        order: None,
        history: Seq::empty(),
        compliance_score: 0,
        next_payment_id: 0,
        last_executed_month: 0,
    }
}

/// `initialize`: sets up the contract once, and refuses every later call.
pub open spec fn initialize_spec(v: ContractView, court_admin: Seq<char>, token: Seq<char>) -> (
    ContractView,
    Result<(), ContractError>,
) {
    if v.config is Some {
        (v, Err(ContractError::AlreadyInitialized))
    } else {
        (
            ContractView {
                config: Some(ConfigView { court_admin, token }),
                history: Seq::empty(),
                compliance_score: BPS_DENOM,
                next_payment_id: 1,
                last_executed_month: 0,
                ..v
            },
            Ok(()),
        )
    }
}

/// Why `create_order` refuses the call, checked in this order, or
/// `None` where it accepts it.
pub open spec fn create_order_error(
    v: ContractView,
    caller: Seq<char>,
    monthly_amount: i128,
    due_day: u32,
    child_name: Seq<char>,
    case_number: Seq<char>,
) -> Option<ContractError> {
    match v.config {
        None => Some(ContractError::NotInitialized),
        Some(c) => if c.court_admin != caller {
            Some(ContractError::NotCourtAdmin)
        } else if monthly_amount <= 0 {
            Some(ContractError::NonPositiveAmount)
        } else if due_day < 1 || due_day > 28 {
            Some(ContractError::InvalidDueDay)
        } else if child_name.len() == 0 || case_number.len() == 0 {
            Some(ContractError::EmptyName)
        } else {
            None
        },
    }
}

/// `create_order`: the court admin records a new, active order, replacing any
/// earlier one; the payment history stays.
pub open spec fn create_order_spec(
    v: ContractView,
    caller: Seq<char>,
    order: OrderView,
) -> (ContractView, Result<(), ContractError>) {
    match create_order_error(
        v,
        caller,
        order.monthly_amount,
        order.due_day,
        order.child_name,
        order.case_number,
    ) {
        Some(e) => (v, Err(e)),
        None => (ContractView { order: Some(OrderView { active: true, ..order }), ..v }, Ok(())),
    }
}

/// Why a payment cannot be executed at ledger time `ts`, or `None` where it
/// can: the month's payment is taken once, on or after the order's due day.
pub open spec fn payment_error(v: ContractView, ts: u64) -> Option<ContractError> {
    match v.order {
        None => Some(ContractError::NoOrder),
        Some(o) => if !o.active {
            Some(ContractError::OrderNotActive)
        } else if month_of(ts) <= v.last_executed_month {
            Some(ContractError::AlreadyPaidThisMonth)
        } else if day_of_month(ts) < o.due_day {
            Some(ContractError::NotDueYet)
        } else {
            None
        },
    }
}

/// The record of the payment attempt made at ledger time `ts`, for an order of
/// `monthly_amount`, when the payer holds `balance`.
pub open spec fn attempt_record(
    id: u64,
    ts: u64,
    monthly_amount: i128,
    balance: i128,
) -> PaymentRecord {
    let paid = balance >= monthly_amount;
    PaymentRecord {
        id,
        period: month_of(ts),
        amount_paid: if paid {
            monthly_amount
        } else {
            0
        },
        success: paid,
        timestamp: ts,
        payer_balance_at_attempt: balance,
    }
}

/// `execute_payment` at ledger time `ts`, where the paying parent holds
/// `balance`: pays the monthly amount if the balance covers it, else records a
/// default; either way the attempt is appended to the history, the score is
/// recomputed and the month is marked as done.
pub open spec fn execute_payment_spec(v: ContractView, ts: u64, balance: i128) -> (
    ContractView,
    Result<PaymentResult, ContractError>,
) {
    match payment_error(v, ts) {
        Some(e) => (v, Err(e)),
        None => {
            let o = v.order->Some_0;
            let rec = attempt_record(v.next_payment_id, ts, o.monthly_amount, balance);
            let h = v.history.push(rec);
            (
                ContractView {
                    history: h,
                    compliance_score: compliance_of(h) as u64,
                    last_executed_month: month_of(ts),
                    next_payment_id: (v.next_payment_id + 1) as u64,
                    ..v
                },
                Ok(
                    if rec.success {
                        PaymentResult::Paid
                    } else {
                        PaymentResult::Defaulted
                    },
                ),
            )
        },
    }
}

/// `deactivate_order`: the court admin switches the order off; nothing else changes.
pub open spec fn deactivate_order_spec(v: ContractView, caller: Seq<char>) -> (
    ContractView,
    Result<(), ContractError>,
) {
    match v.config {
        None => (v, Err(ContractError::NotInitialized)),
        Some(c) => if c.court_admin != caller {
            (v, Err(ContractError::NotCourtAdmin))
        } else {
            match v.order {
                None => (v, Err(ContractError::NoOrder)),
                Some(o) => (ContractView { order: Some(OrderView { active: false, ..o }), ..v }, Ok(())),
            }
        },
    }
}

/// The alert owed to the court where the latest payment attempt defaulted:
/// which attempt, for which period and case, what was due and what the payer
/// held; `None` where the latest attempt paid or there is none.
pub open spec fn default_alert_of(v: ContractView) -> Option<AlertView> {
    if v.history.len() > 0 && !v.history.last().success && v.order is Some {
        let r = v.history.last();
        let o = v.order->Some_0;
        Some(
            AlertView {
                payment_id: r.id,
                period: r.period,
                case_number: o.case_number,
                amount_due: o.monthly_amount,
                payer_balance: r.payer_balance_at_attempt,
            },
        )
    } else {
        None
    }
}

/// Whether the period of ledger time `ts` has already been paid for.
pub open spec fn current_month_paid(v: ContractView, ts: u64) -> bool {
    v.last_executed_month >= month_of(ts)
}

} // verus!
