//! The values that the contract stores and hands out.

use vstd::prelude::*;

verus! {

/// An account or contract address, held as its strkey text ("G..." or "C...").
#[derive(Debug)]
pub struct Address {
    strkey: String,
}

impl View for Address {
    type V = Seq<char>;

    closed spec fn view(&self) -> Seq<char> {
        self.strkey@
    }
}

impl Address {
    /// The address whose strkey is `strkey`.
    pub fn new(strkey: String) -> (a: Address)
        ensures
            a@ == strkey@,
    {
        Address { strkey }
    }

    /// The strkey text of this address.
    pub fn as_str(&self) -> (s: &str)
        ensures
            s@ == self@,
    {
        self.strkey.as_str()
    }

    /// Whether two addresses are the same address.
    pub fn same_as(&self, other: &Address) -> (r: bool)
        ensures
            r == (self@ == other@),
    {
        self.strkey == other.strkey
    }
}

impl Clone for Address {
    fn clone(&self) -> (r: Self)
        ensures
            r@ == self@,
    {
        Address { strkey: self.strkey.clone() }
    }
}

/// Names of the entries in the contract's instance storage.
#[derive(Clone, Copy, Debug, PartialEq, Eq, Structural)]
pub enum DataKey {
    Config,
    SupportOrder,
    PaymentHistory,
    ComplianceScore,
    NextPaymentId,
    LastExecutedMonth,
}

/// Who administers the contract and which token it moves.
#[derive(Debug)]
pub struct Config {
    pub court_admin: Address,
    pub token: Address,
}

/// The abstract value of a [`Config`].
#[verifier::ext_equal]
pub struct ConfigView {
    pub court_admin: Seq<char>,
    pub token: Seq<char>,
}

impl View for Config {
    type V = ConfigView;

    open spec fn view(&self) -> ConfigView {
        ConfigView { court_admin: self.court_admin@, token: self.token@ }
    }
}

impl Clone for Config {
    fn clone(&self) -> (r: Self)
        ensures
            r@ == self@,
    {
        Config { court_admin: self.court_admin.clone(), token: self.token.clone() }
    }
}

/// A court order: who pays whom, how much each month, for which child and case.
#[derive(Debug)]
pub struct SupportOrder {
    pub paying_parent: Address,
    pub custodial_parent: Address,
    pub monthly_amount: i128,
    pub due_day: u32,
    pub child_name: String,
    pub case_number: String,
    pub created_at: u64,
    pub active: bool,
}

/// The abstract value of a [`SupportOrder`].
#[verifier::ext_equal]
pub struct OrderView {
    pub paying_parent: Seq<char>,
    pub custodial_parent: Seq<char>,
    pub monthly_amount: i128,
    pub due_day: u32,
    pub child_name: Seq<char>,
    pub case_number: Seq<char>,
    pub created_at: u64,
    pub active: bool,
}

impl View for SupportOrder {
    type V = OrderView;

    open spec fn view(&self) -> OrderView {
        OrderView {
            paying_parent: self.paying_parent@,
            custodial_parent: self.custodial_parent@,
            monthly_amount: self.monthly_amount,
            due_day: self.due_day,
            child_name: self.child_name@,
            case_number: self.case_number@,
            created_at: self.created_at,
            active: self.active,
        }
    }
}

impl Clone for SupportOrder {
    fn clone(&self) -> (r: Self)
        ensures
            r@ == self@,
    {
        SupportOrder {
            paying_parent: self.paying_parent.clone(),
            custodial_parent: self.custodial_parent.clone(),
            monthly_amount: self.monthly_amount,
            due_day: self.due_day,
            child_name: self.child_name.clone(),
            case_number: self.case_number.clone(),
            created_at: self.created_at,
            active: self.active,
        }
    }
}

/// One monthly payment attempt, paid or defaulted.
#[derive(Clone, Copy, Debug, PartialEq, Eq, Structural)]
pub struct PaymentRecord {
    pub id: u64,
    pub period: u64,
    pub amount_paid: i128,
    pub success: bool,
    pub timestamp: u64,
    pub payer_balance_at_attempt: i128,
}

/// The report to the court of a defaulted payment attempt.
#[derive(Debug)]
pub struct DefaultAlert {
    pub payment_id: u64,
    pub period: u64,
    pub case_number: String,
    pub amount_due: i128,
    pub payer_balance: i128,
}

/// The abstract value of a [`DefaultAlert`].
#[verifier::ext_equal]
pub struct AlertView {
    pub payment_id: u64,
    pub period: u64,
    pub case_number: Seq<char>,
    pub amount_due: i128,
    pub payer_balance: i128,
}

impl View for DefaultAlert {
    type V = AlertView;

    open spec fn view(&self) -> AlertView {
        AlertView {
            payment_id: self.payment_id,
            period: self.period,
            case_number: self.case_number@,
            amount_due: self.amount_due,
            payer_balance: self.payer_balance,
        }
    }
}

/// What a monthly payment attempt came to.
#[derive(Clone, Copy, Debug, PartialEq, Eq, Structural)]
pub enum PaymentResult {
    Paid,
    Defaulted,
}

/// Why the contract refused a call.
#[derive(Clone, Copy, Debug, PartialEq, Eq, Structural)]
pub enum ContractError {
    AlreadyInitialized,
    NotInitialized,
    NotCourtAdmin,
    NonPositiveAmount,
    InvalidDueDay,
    EmptyName,
    NoOrder,
    OrderNotActive,
    AlreadyPaidThisMonth,
    NotDueYet,
}

/// The text with which the contract rejects a call for `e`.
pub open spec fn error_message(e: ContractError) -> Seq<char> {
    match e {
        ContractError::AlreadyInitialized => "already initialized"@,
        ContractError::NotInitialized => "contract not initialized"@,
        ContractError::NotCourtAdmin => "caller is not the court admin"@,
        ContractError::NonPositiveAmount => "monthly amount must be positive"@,
        ContractError::InvalidDueDay => "due day must be between 1 and 28"@,
        ContractError::EmptyName => "child name and case number cannot be empty"@,
        ContractError::NoOrder => "no support order exists"@,
        ContractError::OrderNotActive => "support order is not active"@,
        ContractError::AlreadyPaidThisMonth => "payment already executed for this month"@,
        ContractError::NotDueYet => "payment is not due yet"@,
    }
}

impl ContractError {
    /// The text with which the contract rejects a call for this reason.
    pub fn message(&self) -> (m: &'static str)
        ensures
            m@ == error_message(*self),
    {
        match self {
            ContractError::AlreadyInitialized => "already initialized",
            ContractError::NotInitialized => "contract not initialized",
            ContractError::NotCourtAdmin => "caller is not the court admin",
            ContractError::NonPositiveAmount => "monthly amount must be positive",
            ContractError::InvalidDueDay => "due day must be between 1 and 28",
            ContractError::EmptyName => "child name and case number cannot be empty",
            ContractError::NoOrder => "no support order exists",
            ContractError::OrderNotActive => "support order is not active",
            ContractError::AlreadyPaidThisMonth => "payment already executed for this month",
            ContractError::NotDueYet => "payment is not due yet",
        }
    }
}

} // verus!
