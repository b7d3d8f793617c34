use supportchain::{
    Address, ContractError, PaymentResult, SupportChainContract, BPS_DENOM, SECONDS_PER_MONTH,
};

const T0: u64 = 1_700_000_000;
const MONTHLY_AMOUNT: i128 = 6_000;
const DUE_DAY: u32 = 15;

const COURT_ADMIN: &str = "GCOURTADMINXXXXXXXXXXXXXXXXXXXXXXXXXXXXXXXXXXXXXXXXXXXXX";
const TOKEN: &str = "CTOKENXXXXXXXXXXXXXXXXXXXXXXXXXXXXXXXXXXXXXXXXXXXXXXXXXX";
const PAYING_PARENT: &str = "GPAYINGPARENTXXXXXXXXXXXXXXXXXXXXXXXXXXXXXXXXXXXXXXXXXXX";
const CUSTODIAL_PARENT: &str = "GCUSTODIALPARENTXXXXXXXXXXXXXXXXXXXXXXXXXXXXXXXXXXXXXXXX";

/// The contract together with the token balances and ledger time around it.
struct Ctx {
    contract: SupportChainContract,
    now: u64,
    payer: i128,
    custodian: i128,
}

fn addr(s: &str) -> Address {
    Address::new(s.to_string())
}

fn setup() -> Ctx {
    let mut contract = SupportChainContract::new();
    contract.initialize(addr(COURT_ADMIN), addr(TOKEN)).unwrap();
    contract
        .create_order(
            addr(COURT_ADMIN),
            addr(PAYING_PARENT),
            addr(CUSTODIAL_PARENT),
            MONTHLY_AMOUNT,
            DUE_DAY,
            "Maria's Child".to_string(),
            "FC-QC-2024-1234".to_string(),
            T0,
        )
        .unwrap();
    Ctx { contract, now: T0, payer: 0, custodian: 0 }
}

fn mint_usdc(ctx: &mut Ctx, amount: i128) {
    ctx.payer += amount;
}

fn advance_months(ctx: &mut Ctx, n: u64) {
    ctx.now += n * SECONDS_PER_MONTH;
}

/// Runs a payment as the deployed contract does: refuse early, read the
/// payer's balance, decide, and move the monthly amount when it is paid.
fn execute_payment(ctx: &mut Ctx) -> PaymentResult {
    if let Err(e) = ctx.contract.payment_due(ctx.now) {
        panic!("{}", e.message());
    }
    let amount = ctx.contract.get_order().unwrap().monthly_amount;
    let result = match ctx.contract.execute_payment(ctx.now, ctx.payer) {
        Ok(r) => r,
        Err(e) => panic!("{}", e.message()),
    };
    if result == PaymentResult::Paid {
        ctx.payer -= amount;
        ctx.custodian += amount;
    }
    result
}

#[test]
fn test_execute_payment_success_end_to_end() {
    let mut ctx = setup();
    mint_usdc(&mut ctx, 10_000);
    assert_eq!(ctx.payer, 10_000);
    advance_months(&mut ctx, 1);
    let result = execute_payment(&mut ctx);
    assert_eq!(result, PaymentResult::Paid);
    assert_eq!(ctx.custodian, MONTHLY_AMOUNT);
    assert_eq!(ctx.payer, 10_000 - MONTHLY_AMOUNT);
    assert_eq!(ctx.contract.get_compliance_score(), 10_000);
    let history = ctx.contract.get_payment_history();
    assert_eq!(history.len(), 1);
    assert_eq!(history[0].success, true);
    assert_eq!(history[0].amount_paid, MONTHLY_AMOUNT);
    assert!(ctx.contract.is_current_month_paid(ctx.now));
    assert_eq!(ctx.contract.get_total_paid(), Some(MONTHLY_AMOUNT));
    assert_eq!(ctx.contract.get_payment_count(), 1);
}

#[test]
fn test_execute_payment_insufficient_balance_defaults() {
    let mut ctx = setup();
    mint_usdc(&mut ctx, 2_000);
    advance_months(&mut ctx, 1);
    let result = execute_payment(&mut ctx);
    assert_eq!(result, PaymentResult::Defaulted);
    assert_eq!(ctx.custodian, 0);
    assert_eq!(ctx.payer, 2_000);
    assert_eq!(ctx.contract.get_compliance_score(), 0);
    let history = ctx.contract.get_payment_history();
    assert_eq!(history.len(), 1);
    let record = history[0];
    assert_eq!(record.success, false);
    assert_eq!(record.amount_paid, 0);
    assert_eq!(record.payer_balance_at_attempt, 2_000);
}

#[test]
fn test_create_order_stores_correct_state() {
    let ctx = setup();
    let order = ctx.contract.get_order().unwrap();
    assert_eq!(order.paying_parent.as_str(), PAYING_PARENT);
    assert_eq!(order.custodial_parent.as_str(), CUSTODIAL_PARENT);
    assert_eq!(order.monthly_amount, MONTHLY_AMOUNT);
    assert_eq!(order.due_day, DUE_DAY);
    assert_eq!(order.active, true);
    assert_eq!(order.created_at, T0);
    let config = ctx.contract.get_config().unwrap();
    assert_eq!(config.court_admin.as_str(), COURT_ADMIN);
    assert_eq!(config.token.as_str(), TOKEN);
}

#[test]
#[should_panic(expected = "payment already executed for this month")]
fn test_cannot_execute_same_month_twice() {
    let mut ctx = setup();
    mint_usdc(&mut ctx, 20_000);
    advance_months(&mut ctx, 1);
    let result1 = execute_payment(&mut ctx);
    assert_eq!(result1, PaymentResult::Paid);
    execute_payment(&mut ctx);
}

#[test]
fn test_compliance_score_reflects_mixed_history() {
    let mut ctx = setup();
    mint_usdc(&mut ctx, 10_000);
    advance_months(&mut ctx, 1);
    execute_payment(&mut ctx);
    advance_months(&mut ctx, 1);
    execute_payment(&mut ctx);
    mint_usdc(&mut ctx, 20_000);
    advance_months(&mut ctx, 1);
    execute_payment(&mut ctx);
    let expected_score = 2 * BPS_DENOM / 3; // 6,666
    assert_eq!(ctx.contract.get_compliance_score(), expected_score);
    assert_eq!(ctx.contract.get_payment_history().len(), 3);
    assert_eq!(ctx.contract.get_payment_count(), 2);
    assert_eq!(ctx.contract.get_total_paid(), Some(2 * MONTHLY_AMOUNT));
}

#[test]
fn records_carry_consecutive_ids_and_months() {
    let mut ctx = setup();
    mint_usdc(&mut ctx, 100_000);
    advance_months(&mut ctx, 1);
    execute_payment(&mut ctx);
    advance_months(&mut ctx, 3);
    execute_payment(&mut ctx);
    let history = ctx.contract.get_payment_history();
    assert_eq!(history[0].id, 1);
    assert_eq!(history[1].id, 2);
    assert_eq!(history[0].period, (T0 + SECONDS_PER_MONTH) / SECONDS_PER_MONTH);
    assert_eq!(history[1].period, (T0 + 4 * SECONDS_PER_MONTH) / SECONDS_PER_MONTH);
    assert_eq!(history[1].timestamp, T0 + 4 * SECONDS_PER_MONTH);
    assert_eq!(ctx.contract.next_payment_id(), 3);
    assert_eq!(ctx.contract.last_executed_month(), history[1].period);
}

#[test]
fn order_month_is_payable_once() {
    // Nothing has been paid yet (the last executed month is 0), so the month in
    // which the order was created can be paid, once.
    let mut ctx = setup();
    mint_usdc(&mut ctx, 10_000);
    assert_eq!(ctx.contract.payment_due(ctx.now), Ok(()));
    assert_eq!(execute_payment(&mut ctx), PaymentResult::Paid);
    assert_eq!(
        ctx.contract.execute_payment(ctx.now + 1, 10_000),
        Err(ContractError::AlreadyPaidThisMonth)
    );
}

#[test]
fn exact_balance_pays() {
    let mut ctx = setup();
    mint_usdc(&mut ctx, MONTHLY_AMOUNT);
    advance_months(&mut ctx, 1);
    assert_eq!(execute_payment(&mut ctx), PaymentResult::Paid);
    assert_eq!(ctx.payer, 0);
    assert_eq!(ctx.custodian, MONTHLY_AMOUNT);
}

#[test]
fn current_month_not_paid_before_execution() {
    let mut ctx = setup();
    advance_months(&mut ctx, 1);
    assert!(!ctx.contract.is_current_month_paid(ctx.now));
    execute_payment(&mut ctx);
    assert!(ctx.contract.is_current_month_paid(ctx.now));
    advance_months(&mut ctx, 1);
    assert!(!ctx.contract.is_current_month_paid(ctx.now));
}

#[test]
fn timestamp_to_month_divides_by_thirty_days() {
    assert_eq!(SupportChainContract::timestamp_to_month(0), 0);
    assert_eq!(SupportChainContract::timestamp_to_month(2_591_999), 0);
    assert_eq!(SupportChainContract::timestamp_to_month(2_592_000), 1);
    assert_eq!(SupportChainContract::timestamp_to_month(T0), 655);
}

#[test]
fn score_before_any_attempt_is_full_and_zero_before_initialisation() {
    let fresh = SupportChainContract::new();
    assert_eq!(fresh.get_compliance_score(), 0);
    assert_eq!(fresh.get_payment_count(), 0);
    assert_eq!(fresh.get_total_paid(), Some(0));
    assert_eq!(fresh.get_payment_history().len(), 0);
    let ctx = setup();
    assert_eq!(ctx.contract.get_compliance_score(), BPS_DENOM);
}

#[test]
fn default_alerts_the_court() {
    let mut ctx = setup();
    assert!(ctx.contract.default_alert().is_none());
    mint_usdc(&mut ctx, 2_000);
    advance_months(&mut ctx, 1);
    assert_eq!(execute_payment(&mut ctx), PaymentResult::Defaulted);
    let alert = ctx.contract.default_alert().unwrap();
    assert_eq!(alert.payment_id, 1);
    assert_eq!(alert.period, ctx.now / SECONDS_PER_MONTH);
    assert_eq!(alert.case_number, "FC-QC-2024-1234");
    assert_eq!(alert.amount_due, MONTHLY_AMOUNT);
    assert_eq!(alert.payer_balance, 2_000);
    mint_usdc(&mut ctx, 10_000);
    advance_months(&mut ctx, 1);
    assert_eq!(execute_payment(&mut ctx), PaymentResult::Paid);
    assert!(ctx.contract.default_alert().is_none());
}
