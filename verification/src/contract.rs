//! The contract's instance storage and its entry points. Each entry point is
//! proved to do to the abstract state exactly what its counterpart in
//! `model` says, and to keep the contract's invariant.

use vstd::prelude::*;

use crate::laws::{law_invariant_kept, law_score_monotone};
use crate::history::{compute_compliance, count_successes, history_valid, sum_paid};
use crate::model::{
    compliance_of, contract_wf, create_order_spec, current_month_paid,
    deactivate_order_spec, empty_view, execute_payment_spec, initialize_spec, month_of,
    day_of_month, default_alert_of, order_terms_valid, payment_error, successes, total_paid, ContractView, BPS_DENOM, SECONDS_PER_DAY, SECONDS_PER_MONTH,
};
use crate::types::{
    Address, DefaultAlert, Config, ConfigView, ContractError, OrderView, PaymentRecord, PaymentResult,
    SupportOrder,
};

verus! {

/// The stored configuration, by its abstract value.
pub open spec fn config_view(c: Option<Config>) -> Option<ConfigView> {
    match c {
        Some(c) => Some(c@),
        None => None,
    }
}

/// The stored order, by its abstract value.
pub open spec fn order_view(o: Option<SupportOrder>) -> Option<OrderView> {
    match o {
        Some(o) => Some(o@),
        None => None,
    }
}

/// Whether an order carries terms that `create_order` accepts.
pub fn order_terms_ok(o: &SupportOrder) -> (b: bool)
    ensures
        b == order_terms_valid(o@),
{
    o.monthly_amount > 0 && 1 <= o.due_day && o.due_day <= 28 && !o.child_name.as_str().is_empty()
        && !o.case_number.as_str().is_empty()
}

/// Everything the contract keeps in its instance storage.
pub struct SupportChainContract {
    config: Option<Config>,
    order: Option<SupportOrder>,
    history: Vec<PaymentRecord>,
    compliance_score: u64,
    next_payment_id: u64,
    last_executed_month: u64,
}

impl View for SupportChainContract {
    type V = ContractView;

    closed spec fn view(&self) -> ContractView {
        ContractView {
            config: config_view(self.config),
            order: order_view(self.order),
            history: self.history@,
            compliance_score: self.compliance_score,
            next_payment_id: self.next_payment_id,
            last_executed_month: self.last_executed_month,
        }
    }
}

impl SupportChainContract {
    /// The storage of a contract that has just been deployed.
    pub fn new() -> (c: Self)
        ensures
            c@ == empty_view(),
            contract_wf(c@),
    {
        let c = SupportChainContract {
            config: None,
            order: None,
            history: Vec::new(),
            compliance_score: 0,
            next_payment_id: 0,
            last_executed_month: 0,
        };
        assert(c@ =~= empty_view());
        c
    }

    /// Rebuilds the contract from the entries read out of its instance
    /// storage (each absent entry given as its default), where they form a
    /// state that the contract can reach; `None` where they do not.
    pub fn from_storage(
        config: Option<Config>,
        order: Option<SupportOrder>,
        history: Vec<PaymentRecord>,
        compliance_score: u64,
        next_payment_id: u64,
        last_executed_month: u64,
    ) -> (r: Option<Self>)
        ensures
            ({
                let v = ContractView {
                    config: config_view(config),
                    order: order_view(order),
                    history: history@,
                    compliance_score,
                    next_payment_id,
                    last_executed_month,
                };
                &&& r is Some <==> contract_wf(v)
                &&& r matches Some(c) ==> c@ == v
            }),
    {
        let ghost v = ContractView {
            config: config_view(config),
            order: order_view(order),
            history: history@,
            compliance_score,
            next_payment_id,
            last_executed_month,
        };
        if last_executed_month > u64::MAX / SECONDS_PER_MONTH {
            return None;
        }
        if !history_valid(&history, last_executed_month) {
            return None;
        }
        let len = history.len() as u64;
        match &config {
            None => {
                if order.is_some() || len != 0 || compliance_score != 0 || next_payment_id != 0
                    || last_executed_month != 0 {
                    return None;
                }
            },
            Some(_) => {
                if next_payment_id != len + 1 {
                    return None;
                }
                let expected = if len == 0 {
                    BPS_DENOM
                } else {
                    compute_compliance(&history)
                };
                if compliance_score != expected {
                    return None;
                }
            },
        }
        match &order {
            Some(o) => {
                if !order_terms_ok(o) {
                    return None;
                }
            },
            None => {},
        }
        let c = SupportChainContract {
            config,
            order,
            history,
            compliance_score,
            next_payment_id,
            last_executed_month,
        };
        assert(c@ =~= v);
        Some(c)
    }

    /// The payment period into which ledger time `ts` falls.
    pub fn timestamp_to_month(ts: u64) -> (m: u64)
        ensures
            m == month_of(ts),
    {
        ts / SECONDS_PER_MONTH
    }

    /// The day, from 1 to 30, of ledger time `ts` within its payment period.
    pub fn timestamp_to_day(ts: u64) -> (d: u64)
        ensures
            d == day_of_month(ts),
            1 <= d <= 30,
    {
        (ts % SECONDS_PER_MONTH) / SECONDS_PER_DAY + 1
    }

    /// Sets the court admin and the token, once.
    pub fn initialize(&mut self, court_admin: Address, token: Address) -> (r: Result<
        (),
        ContractError,
    >)
        requires
            contract_wf(old(self)@),
        ensures
            final(self)@ == initialize_spec(old(self)@, court_admin@, token@).0,
            r == initialize_spec(old(self)@, court_admin@, token@).1,
            contract_wf(final(self)@),
    {
        if self.config.is_some() {
            return Err(ContractError::AlreadyInitialized);
        }
        self.config = Some(Config { court_admin, token });
        self.compliance_score = BPS_DENOM;
        self.next_payment_id = 1;
        self.last_executed_month = 0;
        self.history = Vec::new();
        proof {
            assert(self.history@ =~= Seq::<PaymentRecord>::empty());
        }
        Ok(())
    }

    /// The configuration, where the contract has been initialised.
    fn load_config(&self) -> (r: Result<&Config, ContractError>)
        ensures
            match r {
                Ok(c) => self.config == Some(*c),
                Err(e) => self.config is None && e == ContractError::NotInitialized,
            },
    {
        match &self.config {
            Some(c) => Ok(c),
            None => Err(ContractError::NotInitialized),
        }
    }

    /// Records a new active order on behalf of the court admin `court_admin`,
    /// created at ledger time `ledger_timestamp`.
    pub fn create_order(
        &mut self,
        court_admin: Address,
        paying_parent: Address,
        custodial_parent: Address,
        monthly_amount: i128,
        due_day: u32,
        child_name: String,
        case_number: String,
        ledger_timestamp: u64,
    ) -> (r: Result<(), ContractError>)
        requires
            contract_wf(old(self)@),
        ensures
            ({
                let order = OrderView {
                    paying_parent: paying_parent@,
                    custodial_parent: custodial_parent@,
                    monthly_amount,
                    due_day,
                    child_name: child_name@,
                    case_number: case_number@,
                    created_at: ledger_timestamp,
                    active: true,
                };
                &&& final(self)@ == create_order_spec(old(self)@, court_admin@, order).0
                &&& r == create_order_spec(old(self)@, court_admin@, order).1
                &&& r is Ok ==> final(self)@.order == Some(order)
            }),
            contract_wf(final(self)@),
    {
        let config = match self.load_config() {
            Ok(c) => c,
            Err(e) => {
                return Err(e);
            },
        };
        if !config.court_admin.same_as(&court_admin) {
            return Err(ContractError::NotCourtAdmin);
        }
        if monthly_amount <= 0 {
            return Err(ContractError::NonPositiveAmount);
        }
        if due_day < 1 || due_day > 28 {
            return Err(ContractError::InvalidDueDay);
        }
        if child_name.as_str().is_empty() || case_number.as_str().is_empty() {
            return Err(ContractError::EmptyName);
        }
        let order = SupportOrder {
            paying_parent,
            custodial_parent,
            monthly_amount,
            due_day,
            child_name,
            case_number,
            created_at: ledger_timestamp,
            active: true,
        };
        self.order = Some(order);
        Ok(())
    }

    /// Whether a payment may be executed at ledger time `ledger_timestamp`:
    /// there is an order, it is active, its month has not been paid for, and
    /// the order's due day within the month has come.
    pub fn payment_due(&self, ledger_timestamp: u64) -> (r: Result<(), ContractError>)
        ensures
            r == match payment_error(self@, ledger_timestamp) {
                Some(e) => Err(e),
                None => Ok::<(), ContractError>(()),
            },
    {
        match &self.order {
            None => Err(ContractError::NoOrder),
            Some(order) => {
                if !order.active {
                    Err(ContractError::OrderNotActive)
                } else if Self::timestamp_to_month(ledger_timestamp) <= self.last_executed_month {
                    Err(ContractError::AlreadyPaidThisMonth)
                } else if Self::timestamp_to_day(ledger_timestamp) < order.due_day as u64 {
                    Err(ContractError::NotDueYet)
                } else {
                    Ok(())
                }
            },
        }
    }

    /// Recomputes the stored compliance score from the history; an empty
    /// history leaves it as it was.
    fn update_compliance_score(&mut self)
        requires
            old(self).history@.len() <= u64::MAX / BPS_DENOM,
        ensures
            final(self).config == old(self).config,
            final(self).order == old(self).order,
            final(self).history == old(self).history,
            final(self).next_payment_id == old(self).next_payment_id,
            final(self).last_executed_month == old(self).last_executed_month,
            final(self).compliance_score == if old(self).history@.len() == 0 {
                old(self).compliance_score as int
            } else {
                compliance_of(old(self).history@)
            },
    {
        if self.history.len() == 0 {
            return ;
        }
        self.compliance_score = compute_compliance(&self.history);
    }

    /// Executes this month's payment at ledger time `ledger_timestamp`, where
    /// the paying parent holds `payer_balance`. On `Paid`, the monthly amount
    /// is owed to the custodial parent; on `Defaulted`, nothing moves.
    pub fn execute_payment(&mut self, ledger_timestamp: u64, payer_balance: i128) -> (r: Result<
        PaymentResult,
        ContractError,
    >)
        requires
            contract_wf(old(self)@),
        ensures
            final(self)@ == execute_payment_spec(old(self)@, ledger_timestamp, payer_balance).0,
            r == execute_payment_spec(old(self)@, ledger_timestamp, payer_balance).1,
            contract_wf(final(self)@),
            r is Ok ==> final(self)@.history.len() == old(self)@.history.len() + 1
                && final(self)@.history.last().payer_balance_at_attempt == payer_balance
                && final(self)@.history.last().timestamp == ledger_timestamp,
            r == Ok::<PaymentResult, ContractError>(PaymentResult::Paid)
                ==> final(self)@.compliance_score >= old(self)@.compliance_score,
            r == Ok::<PaymentResult, ContractError>(PaymentResult::Defaulted)
                ==> final(self)@.compliance_score <= old(self)@.compliance_score,
    {
        match self.payment_due(ledger_timestamp) {
            Err(e) => {
                return Err(e);
            },
            Ok(()) => {},
        }
        let ghost v = self@;
        let current_month = Self::timestamp_to_month(ledger_timestamp);
        let monthly_amount = match &self.order {
            Some(order) => order.monthly_amount,
            None => 0,
        };
        let success = payer_balance >= monthly_amount;
        let amount_paid = if success {
            monthly_amount
        } else {
            0
        };
        let record = PaymentRecord {
            id: self.next_payment_id,
            period: current_month,
            amount_paid,
            success,
            timestamp: ledger_timestamp,
            payer_balance_at_attempt: payer_balance,
        };
        self.history.push(record);
        assert(current_month <= u64::MAX / SECONDS_PER_MONTH) by {
            assert(ledger_timestamp / SECONDS_PER_MONTH <= u64::MAX / SECONDS_PER_MONTH);
        }
        self.update_compliance_score();
        self.last_executed_month = current_month;
        self.next_payment_id = self.next_payment_id + 1;
        proof {
            let h = self.history@;
            assert(h =~= v.history.push(record));
            assert(self@ =~= execute_payment_spec(v, ledger_timestamp, payer_balance).0);
            law_invariant_kept(
                v,
                Seq::empty(),
                Seq::empty(),
                Seq::empty(),
                v.order->Some_0,
                ledger_timestamp,
                payer_balance,
            );
            law_score_monotone(v, ledger_timestamp, payer_balance);
        }
        if success {
            Ok(PaymentResult::Paid)
        } else {
            Ok(PaymentResult::Defaulted)
        }
    }

    /// Switches the order off, on behalf of the court admin `court_admin`.
    pub fn deactivate_order(&mut self, court_admin: Address) -> (r: Result<(), ContractError>)
        requires
            contract_wf(old(self)@),
        ensures
            final(self)@ == deactivate_order_spec(old(self)@, court_admin@).0,
            r == deactivate_order_spec(old(self)@, court_admin@).1,
            contract_wf(final(self)@),
            old(self)@.config matches Some(c) && c.court_admin == court_admin@
                && old(self)@.order is Some ==> r is Ok && final(self)@.order is Some
                && !final(self)@.order->Some_0.active,
    {
        let config = match self.load_config() {
            Ok(c) => c,
            Err(e) => {
                return Err(e);
            },
        };
        if !config.court_admin.same_as(&court_admin) {
            return Err(ContractError::NotCourtAdmin);
        }
        match &mut self.order {
            None => Err(ContractError::NoOrder),
            Some(order) => {
                order.active = false;
                Ok(())
            },
        }
    }

    /// The configuration.
    pub fn get_config(&self) -> (r: Result<Config, ContractError>)
        ensures
            match r {
                Ok(c) => self@.config == Some(c@),
                Err(e) => self@.config is None && e == ContractError::NotInitialized,
            },
    {
        match self.load_config() {
            Ok(c) => Ok(c.clone()),
            Err(e) => Err(e),
        }
    }

    /// The current order.
    pub fn get_order(&self) -> (r: Result<SupportOrder, ContractError>)
        ensures
            match r {
                Ok(o) => self@.order == Some(o@),
                Err(e) => self@.order is None && e == ContractError::NoOrder,
            },
    {
        match &self.order {
            Some(o) => Ok(o.clone()),
            None => Err(ContractError::NoOrder),
        }
    }

    /// Every payment attempt so far, oldest first.
    pub fn get_payment_history(&self) -> (h: Vec<PaymentRecord>)
        ensures
            h@ == self@.history,
    {
        let mut out: Vec<PaymentRecord> = Vec::new();
        let len = self.history.len();
        let mut i: usize = 0;
        while i < len
            invariant
                len == self.history@.len(),
                i <= len,
                out@ =~= self.history@.take(i as int),
            decreases len - i,
        {
            out.push(self.history[i]);
            i = i + 1;
        }
        assert(self.history@.take(len as int) =~= self.history@);
        out
    }

    /// The stored compliance score: successful payments over all attempts, in
    /// basis points, full before any attempt, and 0 before initialisation.
    pub fn get_compliance_score(&self) -> (s: u64)
        requires
            contract_wf(self@),
        ensures
            s == self@.compliance_score,
            self@.config is Some ==> s == compliance_of(self@.history),
            self@.config is None ==> s == 0,
    {
        self.compliance_score
    }

    /// The number of successful payments.
    pub fn get_payment_count(&self) -> (n: u64)
        ensures
            n == successes(self@.history),
    {
        count_successes(&self.history)
    }

    /// The sum of all amounts paid, or `None` where it does not fit an `i128`
    /// (a running `i128` sum would overflow there).
    pub fn get_total_paid(&self) -> (t: Option<i128>)
        requires
            contract_wf(self@),
        ensures
            t == if total_paid(self@.history) <= i128::MAX {
                Some(total_paid(self@.history) as i128)
            } else {
                None::<i128>
            },
    {
        sum_paid(&self.history)
    }

    /// The alert to the court for the latest payment attempt, where it
    /// defaulted: the attempt's identifier and period, the order's case
    /// number and monthly amount, and the payer's balance at the attempt.
    pub fn default_alert(&self) -> (a: Option<DefaultAlert>)
        ensures
            match a {
                Some(x) => default_alert_of(self@) == Some(x@),
                None => default_alert_of(self@) is None,
            },
    {
        let len = self.history.len();
        if len == 0 {
            return None;
        }
        let r = self.history[len - 1];
        if r.success {
            return None;
        }
        match &self.order {
            None => None,
            Some(o) => {
                let alert = DefaultAlert {
                    payment_id: r.id,
                    period: r.period,
                    case_number: o.case_number.clone(),
                    amount_due: o.monthly_amount,
                    payer_balance: r.payer_balance_at_attempt,
                };
                assert(alert@ =~= default_alert_of(self@)->Some_0);
                Some(alert)
            },
        }
    }

    /// Whether the month of ledger time `ledger_timestamp` has been paid for.
    pub fn is_current_month_paid(&self, ledger_timestamp: u64) -> (b: bool)
        ensures
            b == current_month_paid(self@, ledger_timestamp),
            b == (self@.last_executed_month >= ledger_timestamp / SECONDS_PER_MONTH),
    {
        self.last_executed_month >= Self::timestamp_to_month(ledger_timestamp)
    }

    /// The identifier that the next payment record will carry.
    pub fn next_payment_id(&self) -> (n: u64)
        ensures
            n == self@.next_payment_id,
    {
        self.next_payment_id
    }

    /// The last month for which a payment was executed.
    pub fn last_executed_month(&self) -> (m: u64)
        ensures
            m == self@.last_executed_month,
    {
        self.last_executed_month
    }
}

} // verus!
