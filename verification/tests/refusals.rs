use supportchain::{
    Address, Config, ContractError, PaymentRecord, PaymentResult, SupportChainContract,
    SupportOrder, BPS_DENOM, SECONDS_PER_DAY, SECONDS_PER_MONTH,
};

const T0: u64 = 1_700_000_000;
const ADMIN: &str = "GADMIN";
const TOKEN: &str = "CTOKEN";
const PAYER: &str = "GPAYER";
const PAYEE: &str = "GPAYEE";

fn addr(s: &str) -> Address {
    Address::new(s.to_string())
}

fn initialized() -> SupportChainContract {
    let mut c = SupportChainContract::new();
    assert_eq!(c.initialize(addr(ADMIN), addr(TOKEN)), Ok(()));
    c
}

fn create(
    c: &mut SupportChainContract,
    caller: &str,
    amount: i128,
    day: u32,
    child: &str,
    case: &str,
) -> Result<(), ContractError> {
    c.create_order(
        addr(caller),
        addr(PAYER),
        addr(PAYEE),
        amount,
        day,
        child.to_string(),
        case.to_string(),
        T0,
    )
}

fn with_order() -> SupportChainContract {
    let mut c = initialized();
    assert_eq!(create(&mut c, ADMIN, 500, 1, "child", "case"), Ok(()));
    c
}

#[test]
fn initialize_twice_is_refused() {
    let mut c = initialized();
    assert_eq!(c.initialize(addr("GOTHER"), addr("COTHER")), Err(ContractError::AlreadyInitialized));
    assert_eq!(c.get_config().unwrap().court_admin.as_str(), ADMIN);
}

#[test]
fn create_order_before_initialisation_is_refused() {
    let mut c = SupportChainContract::new();
    assert_eq!(create(&mut c, ADMIN, 500, 1, "child", "case"), Err(ContractError::NotInitialized));
    assert_eq!(c.get_order().err(), Some(ContractError::NoOrder));
}

#[test]
fn create_order_by_stranger_is_refused() {
    let mut c = initialized();
    assert_eq!(create(&mut c, "GSTRANGER", 500, 1, "child", "case"), Err(ContractError::NotCourtAdmin));
    assert!(c.get_order().is_err());
}

#[test]
fn create_order_amount_must_be_positive() {
    let mut c = initialized();
    assert_eq!(create(&mut c, ADMIN, 0, 1, "child", "case"), Err(ContractError::NonPositiveAmount));
    assert_eq!(create(&mut c, ADMIN, -5, 1, "child", "case"), Err(ContractError::NonPositiveAmount));
}

#[test]
fn create_order_due_day_bounds() {
    let mut c = initialized();
    assert_eq!(create(&mut c, ADMIN, 500, 0, "child", "case"), Err(ContractError::InvalidDueDay));
    assert_eq!(create(&mut c, ADMIN, 500, 29, "child", "case"), Err(ContractError::InvalidDueDay));
    assert_eq!(create(&mut c, ADMIN, 500, 28, "child", "case"), Ok(()));
    assert_eq!(create(&mut c, ADMIN, 500, 1, "child", "case"), Ok(()));
}

#[test]
fn create_order_names_must_not_be_empty() {
    let mut c = initialized();
    assert_eq!(create(&mut c, ADMIN, 500, 1, "", "case"), Err(ContractError::EmptyName));
    assert_eq!(create(&mut c, ADMIN, 500, 1, "child", ""), Err(ContractError::EmptyName));
}

#[test]
fn create_order_checks_in_order() {
    let mut c = initialized();
    // A stranger with bad terms is refused as a stranger first.
    assert_eq!(create(&mut c, "GSTRANGER", 0, 0, "", ""), Err(ContractError::NotCourtAdmin));
    assert_eq!(create(&mut c, ADMIN, 0, 0, "", ""), Err(ContractError::NonPositiveAmount));
    assert_eq!(create(&mut c, ADMIN, 1, 0, "", ""), Err(ContractError::InvalidDueDay));
}

#[test]
fn execute_without_order_is_refused() {
    let mut c = initialized();
    assert_eq!(c.execute_payment(T0, 1_000), Err(ContractError::NoOrder));
    assert_eq!(c.payment_due(T0), Err(ContractError::NoOrder));
}

#[test]
fn deactivated_order_is_never_paid() {
    let mut c = with_order();
    assert_eq!(c.deactivate_order(addr(ADMIN)), Ok(()));
    assert_eq!(c.get_order().unwrap().active, false);
    assert_eq!(c.execute_payment(T0 + SECONDS_PER_MONTH, 1_000_000), Err(ContractError::OrderNotActive));
    assert_eq!(c.get_payment_history().len(), 0);
    // A new order by the court admin is active again.
    assert_eq!(create(&mut c, ADMIN, 500, 1, "child", "case"), Ok(()));
    assert_eq!(c.execute_payment(T0 + SECONDS_PER_MONTH, 1_000_000), Ok(PaymentResult::Paid));
}

#[test]
fn deactivate_refusals() {
    let mut fresh = SupportChainContract::new();
    assert_eq!(fresh.deactivate_order(addr(ADMIN)), Err(ContractError::NotInitialized));
    let mut c = initialized();
    assert_eq!(c.deactivate_order(addr(ADMIN)), Err(ContractError::NoOrder));
    let mut c = with_order();
    assert_eq!(c.deactivate_order(addr("GSTRANGER")), Err(ContractError::NotCourtAdmin));
    assert_eq!(c.get_order().unwrap().active, true);
}

#[test]
fn get_config_before_initialisation_is_refused() {
    let c = SupportChainContract::new();
    assert_eq!(c.get_config().err(), Some(ContractError::NotInitialized));
}

#[test]
fn refused_payment_changes_nothing() {
    let mut c = with_order();
    assert_eq!(c.execute_payment(T0, 1_000), Ok(PaymentResult::Paid));
    let before = c.get_payment_history();
    assert_eq!(c.execute_payment(T0 + 10, 1_000), Err(ContractError::AlreadyPaidThisMonth));
    assert_eq!(c.get_payment_history(), before);
    assert_eq!(c.next_payment_id(), 2);
    assert_eq!(c.get_compliance_score(), BPS_DENOM);
}

#[test]
fn error_messages_match_the_contract() {
    assert_eq!(ContractError::AlreadyInitialized.message(), "already initialized");
    assert_eq!(ContractError::NotInitialized.message(), "contract not initialized");
    assert_eq!(ContractError::NotCourtAdmin.message(), "caller is not the court admin");
    assert_eq!(ContractError::NonPositiveAmount.message(), "monthly amount must be positive");
    assert_eq!(ContractError::InvalidDueDay.message(), "due day must be between 1 and 28");
    assert_eq!(ContractError::EmptyName.message(), "child name and case number cannot be empty");
    assert_eq!(ContractError::NoOrder.message(), "no support order exists");
    assert_eq!(ContractError::OrderNotActive.message(), "support order is not active");
    assert_eq!(
        ContractError::AlreadyPaidThisMonth.message(),
        "payment already executed for this month"
    );
    assert_eq!(ContractError::NotDueYet.message(), "payment is not due yet");
}

fn record(id: u64, ts: u64, amount: i128, balance: i128) -> PaymentRecord {
    PaymentRecord {
        id,
        period: ts / SECONDS_PER_MONTH,
        amount_paid: amount,
        success: amount > 0,
        timestamp: ts,
        payer_balance_at_attempt: balance,
    }
}

fn stored_order() -> SupportOrder {
    SupportOrder {
        paying_parent: addr(PAYER),
        custodial_parent: addr(PAYEE),
        monthly_amount: 500,
        due_day: 1,
        child_name: "child".to_string(),
        case_number: "case".to_string(),
        created_at: T0,
        active: true,
    }
}

fn stored_config() -> Config {
    Config { court_admin: addr(ADMIN), token: addr(TOKEN) }
}

#[test]
fn from_storage_accepts_reachable_states() {
    let t1 = T0;
    let t2 = T0 + 2 * SECONDS_PER_MONTH;
    let history = vec![record(1, t1, 500, 700), record(2, t2, 0, 100)];
    let c = SupportChainContract::from_storage(
        Some(stored_config()),
        Some(stored_order()),
        history.clone(),
        5_000,
        3,
        t2 / SECONDS_PER_MONTH,
    )
    .unwrap();
    assert_eq!(c.get_payment_history(), history);
    assert_eq!(c.get_compliance_score(), 5_000);
    assert_eq!(c.get_total_paid(), Some(500));
    let fresh = SupportChainContract::from_storage(None, None, vec![], 0, 0, 0);
    assert!(fresh.is_some());
}

#[test]
fn from_storage_rejects_inconsistent_states() {
    let t1 = T0;
    let m1 = t1 / SECONDS_PER_MONTH;
    // Wrong score.
    assert!(SupportChainContract::from_storage(
        Some(stored_config()),
        Some(stored_order()),
        vec![record(1, t1, 500, 700)],
        5_000,
        2,
        m1
    )
    .is_none());
    // Wrong identifier.
    assert!(SupportChainContract::from_storage(
        Some(stored_config()),
        None,
        vec![record(7, t1, 500, 700)],
        BPS_DENOM,
        2,
        m1
    )
    .is_none());
    // Two records in one month.
    assert!(SupportChainContract::from_storage(
        Some(stored_config()),
        None,
        vec![record(1, t1, 500, 700), record(2, t1 + 1, 500, 700)],
        BPS_DENOM,
        3,
        m1
    )
    .is_none());
    // An order without a configuration.
    assert!(SupportChainContract::from_storage(None, Some(stored_order()), vec![], 0, 0, 0).is_none());
    // A paid amount above the balance.
    assert!(SupportChainContract::from_storage(
        Some(stored_config()),
        None,
        vec![record(1, t1, 500, 400)],
        BPS_DENOM,
        2,
        m1
    )
    .is_none());
}

#[test]
fn total_paid_overflow_is_reported() {
    let big = i128::MAX / 2 + 1;
    let t1 = SECONDS_PER_MONTH;
    let t2 = 2 * SECONDS_PER_MONTH;
    let c = SupportChainContract::from_storage(
        Some(stored_config()),
        None,
        vec![record(1, t1, big, big), record(2, t2, big, big)],
        BPS_DENOM,
        3,
        2,
    )
    .unwrap();
    assert_eq!(c.get_total_paid(), None);
    assert_eq!(c.get_payment_count(), 2);
}

#[test]
fn address_comparison_is_by_strkey() {
    assert!(addr("GA").same_as(&addr("GA")));
    assert!(!addr("GA").same_as(&addr("GB")));
    assert_eq!(addr("GA").clone().as_str(), "GA");
}

#[test]
fn payment_before_due_day_is_refused() {
    let mut c = initialized();
    assert_eq!(create(&mut c, ADMIN, 500, 10, "child", "case"), Ok(()));
    // Month 700 starts at 700 * SECONDS_PER_MONTH: day 1 of the period.
    let start = 700 * SECONDS_PER_MONTH;
    assert_eq!(SupportChainContract::timestamp_to_day(start), 1);
    let day9 = start + 8 * SECONDS_PER_DAY + 5;
    assert_eq!(SupportChainContract::timestamp_to_day(day9), 9);
    assert_eq!(c.payment_due(day9), Err(ContractError::NotDueYet));
    assert_eq!(c.execute_payment(day9, 1_000), Err(ContractError::NotDueYet));
    assert_eq!(c.get_payment_history().len(), 0);
    let day10 = start + 9 * SECONDS_PER_DAY;
    assert_eq!(SupportChainContract::timestamp_to_day(day10), 10);
    assert_eq!(c.execute_payment(day10, 1_000), Ok(PaymentResult::Paid));
    // The last second of the period is day 30.
    assert_eq!(SupportChainContract::timestamp_to_day(start + SECONDS_PER_MONTH - 1), 30);
}

#[test]
fn already_paid_is_reported_before_not_due() {
    let mut c = initialized();
    assert_eq!(create(&mut c, ADMIN, 500, 28, "child", "case"), Ok(()));
    let start = 700 * SECONDS_PER_MONTH;
    assert_eq!(c.execute_payment(start + 29 * SECONDS_PER_DAY, 1_000), Ok(PaymentResult::Paid));
    assert_eq!(c.execute_payment(start, 1_000), Err(ContractError::AlreadyPaidThisMonth));
}

#[test]
fn score_rises_on_payment_and_falls_on_default() {
    let mut c = with_order();
    let m = SECONDS_PER_MONTH;
    assert_eq!(c.execute_payment(m, 0), Ok(PaymentResult::Defaulted));
    assert_eq!(c.get_compliance_score(), 0);
    assert_eq!(c.execute_payment(2 * m, 500), Ok(PaymentResult::Paid));
    assert_eq!(c.get_compliance_score(), 5_000);
    assert_eq!(c.execute_payment(3 * m, 500), Ok(PaymentResult::Paid));
    assert_eq!(c.get_compliance_score(), 6_666);
    assert_eq!(c.execute_payment(4 * m, 10), Ok(PaymentResult::Defaulted));
    assert_eq!(c.get_compliance_score(), 5_000);
    // One order throughout: total paid is its amount times the successes.
    assert_eq!(c.get_total_paid(), Some(500 * c.get_payment_count() as i128));
}
