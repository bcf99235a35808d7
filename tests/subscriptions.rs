use qbitflow_payment_system::{
    cancel_subscription, create_subscription, execute_subscription, force_cancel_subscription, increase_allowance,
    update_max_amount, ComputeRefundData, PermitRegistry, QBitFlowError, Subscription, TransferLeg, MIN_FREQUENCY,
};

const MERCHANT: [u8; 32] = [1u8; 32];
const PAYER: [u8; 32] = [2u8; 32];
const PARTNER: [u8; 32] = [3u8; 32];
const NOW: i64 = 1_700_000_000;

fn always_ok(_leg: TransferLeg, _amount: u64) -> bool {
    true
}

fn always_refused(_leg: TransferLeg, _amount: u64) -> bool {
    false
}

fn no_refund() -> ComputeRefundData {
    ComputeRefundData { token_price_in_lamports: 0, compute_cost_in_lamports: 0 }
}

fn open(registry: &mut PermitRegistry, amount: u64, max_amount: u64, allowance: u64, is_payg: bool) -> Subscription {
    create_subscription(
        registry, [5u8; 16], NOW, PAYER, amount, max_amount, MIN_FREQUENCY, allowance, &MERCHANT, &PAYER, &PARTNER,
        &no_refund(), is_payg, 1, &always_ok,
    )
    .unwrap()
    .subscription
}

fn execute(
    sub: &mut Subscription,
    registry: &mut PermitRegistry,
    now: i64,
    amount: u64,
    is_payg: bool,
) -> Result<qbitflow_payment_system::ExecutionReport, QBitFlowError> {
    execute_subscription(
        sub, registry, [5u8; 16], now, amount, 100, MIN_FREQUENCY, 0, &MERCHANT, &PAYER, &PARTNER, &no_refund(),
        is_payg, &always_ok,
    )
}

#[test]
fn create_registers_slice_and_is_due_now() {
    let mut reg = PermitRegistry::new(9);
    let rep = create_subscription(
        &mut reg, [5u8; 16], NOW, PAYER, 100, 1000, MIN_FREQUENCY, 5000, &MERCHANT, &PAYER, &PARTNER, &no_refund(),
        false, 1, &always_ok,
    )
    .unwrap();
    assert_eq!(rep.subscription.next_payment_due, NOW);
    assert_eq!(rep.subscription.allowance, 5000);
    assert_eq!(rep.subscription.used_allowance, 0);
    assert_eq!(rep.subscription.last_payment_amount, 100);
    assert_eq!(rep.approval, 5000);
    assert_eq!(rep.event.initial_allowance, 5000);
    assert_eq!((reg.total_allowance, reg.total_used, reg.bump), (5000, 0, 9));
}

#[test]
fn payg_create_is_due_after_one_period() {
    let mut reg = PermitRegistry::new(0);
    let sub = open(&mut reg, 100, 1000, 5000, true);
    assert_eq!(sub.next_payment_due, NOW + MIN_FREQUENCY as i64);
}

#[test]
fn create_errors() {
    let mut reg = PermitRegistry::new(0);
    let r = create_subscription(
        &mut reg, [5u8; 16], NOW, PAYER, 100, 1000, MIN_FREQUENCY - 1, 5000, &MERCHANT, &PAYER, &PARTNER,
        &no_refund(), false, 1, &always_ok,
    );
    assert_eq!(r.unwrap_err(), QBitFlowError::InvalidFrequency);
    let r = create_subscription(
        &mut reg, [5u8; 16], NOW, PAYER, 1000, 1000, MIN_FREQUENCY, 5000, &MERCHANT, &PAYER, &PARTNER, &no_refund(),
        false, 1, &always_ok,
    );
    assert_eq!(r.unwrap_err(), QBitFlowError::InvalidAmount);
    assert_eq!((reg.total_allowance, reg.total_used), (0, 0));
}

#[test]
fn create_folds_refund_into_both_counters() {
    let mut reg = PermitRegistry::new(0);
    let p = ComputeRefundData { token_price_in_lamports: 1_000_000_000, compute_cost_in_lamports: 40 };
    let rep = create_subscription(
        &mut reg, [5u8; 16], NOW, PAYER, 100, 1000, MIN_FREQUENCY, 5000, &MERCHANT, &PAYER, &PARTNER, &p, false, 1,
        &always_ok,
    )
    .unwrap();
    assert_eq!(rep.refund, 40);
    assert_eq!(rep.subscription.used_allowance, 40);
    assert_eq!(rep.event.initial_allowance, 4960);
    assert_eq!((reg.total_allowance, reg.total_used), (5000, 40));
}

#[test]
fn create_refund_over_headroom_fails() {
    let mut reg = PermitRegistry::new(0);
    let p = ComputeRefundData { token_price_in_lamports: 1_000_000_000, compute_cost_in_lamports: 901 };
    let r = create_subscription(
        &mut reg, [5u8; 16], NOW, PAYER, 100, 1000, MIN_FREQUENCY, 5000, &MERCHANT, &PAYER, &PARTNER, &p, false, 1,
        &always_ok,
    );
    assert_eq!(r.unwrap_err(), QBitFlowError::MaxAmountExceeded);
    assert_eq!((reg.total_allowance, reg.total_used), (0, 0));
}

#[test]
fn cap_is_exclusive() {
    let mut reg = PermitRegistry::new(0);
    let mut sub = open(&mut reg, 100, 1000, 100_000, false);
    let before = sub;
    assert_eq!(execute(&mut sub, &mut reg, NOW, 1000, false).unwrap_err(), QBitFlowError::MaxAmountExceeded);
    assert_eq!(sub, before);
    let rep = execute(&mut sub, &mut reg, NOW, 999, false).unwrap();
    assert_eq!(rep.split.protocol_fee + rep.split.partner_fee + rep.split.merchant_amount, 999);
    assert_eq!(sub.used_allowance, 999);
    assert_eq!(sub.last_payment_amount, 999);
    assert_eq!(reg.total_used, 999);
}

#[test]
fn tampered_parameters_are_refused() {
    let mut reg = PermitRegistry::new(0);
    let mut sub = open(&mut reg, 100, 1000, 100_000, false);
    let other = [8u8; 32];
    let run = |sub: &mut Subscription, reg: &mut PermitRegistry, m: &[u8; 32], f: u32, p: &[u8; 32]| {
        execute_subscription(
            sub, reg, [5u8; 16], NOW, 500, 100, f, 0, m, &PAYER, p, &no_refund(), false, &always_ok,
        )
    };
    assert_eq!(run(&mut sub, &mut reg, &other, MIN_FREQUENCY, &PARTNER).unwrap_err(), QBitFlowError::InvalidSubscriptionParameters);
    assert_eq!(run(&mut sub, &mut reg, &MERCHANT, MIN_FREQUENCY, &other).unwrap_err(), QBitFlowError::InvalidSubscriptionParameters);
    assert_eq!(run(&mut sub, &mut reg, &MERCHANT, MIN_FREQUENCY + 1, &PARTNER).unwrap_err(), QBitFlowError::InvalidSubscriptionParameters);
    assert!(run(&mut sub, &mut reg, &MERCHANT, MIN_FREQUENCY, &PARTNER).is_ok());
}

#[test]
fn fixed_period_schedule_advances_by_frequency() {
    let mut reg = PermitRegistry::new(0);
    let mut sub = open(&mut reg, 100, 1000, 100_000, false);
    let due = sub.next_payment_due;
    let rep = execute(&mut sub, &mut reg, NOW + 50, 500, false).unwrap();
    assert_eq!(sub.next_payment_due, due + MIN_FREQUENCY as i64);
    assert_eq!(rep.event.next_payment_due, due + MIN_FREQUENCY as i64);
    assert_eq!(rep.event.remaining_allowance, 100_000 - 500);
}

#[test]
fn payg_schedule_restarts_from_now_less_grace() {
    let mut reg = PermitRegistry::new(0);
    let mut sub = open(&mut reg, 100, 1000, 100_000, true);
    let now = sub.next_payment_due + 7200;
    execute(&mut sub, &mut reg, now, 500, true).unwrap();
    assert_eq!(sub.next_payment_due, now + MIN_FREQUENCY as i64 - 3600);
}

#[test]
fn execute_timing_and_amount_errors() {
    let mut reg = PermitRegistry::new(0);
    let mut sub = open(&mut reg, 100, 1000, 100_000, false);
    assert_eq!(execute(&mut sub, &mut reg, NOW - 1, 500, false).unwrap_err(), QBitFlowError::PaymentNotDueYet);
    assert_eq!(execute(&mut sub, &mut reg, NOW, 0, false).unwrap_err(), QBitFlowError::ZeroAmount);
}

#[test]
fn subscription_allowance_ceiling_is_exclusive() {
    let mut reg = PermitRegistry::new(0);
    let mut sub = open(&mut reg, 100, 1000, 500, false);
    assert_eq!(execute(&mut sub, &mut reg, NOW, 500, false).unwrap_err(), QBitFlowError::InsufficientAllowance);
    assert!(execute(&mut sub, &mut reg, NOW, 499, false).is_ok());
}

#[test]
fn registry_shortfall_is_refused() {
    let mut reg = PermitRegistry::new(0);
    let mut sub = open(&mut reg, 100, 1000, 5000, false);
    reg.total_allowance = 300;
    assert_eq!(execute(&mut sub, &mut reg, NOW, 400, false).unwrap_err(), QBitFlowError::InsufficientAllowance);
}

#[test]
fn failed_payment_transfer_changes_nothing() {
    let mut reg = PermitRegistry::new(0);
    let mut sub = open(&mut reg, 100, 1000, 100_000, false);
    let (s0, r0) = (sub, reg);
    let r = execute_subscription(
        &mut sub, &mut reg, [5u8; 16], NOW, 500, 100, MIN_FREQUENCY, 0, &MERCHANT, &PAYER, &PARTNER, &no_refund(),
        false, &always_refused,
    );
    assert_eq!(r.unwrap_err(), QBitFlowError::TransferFailed);
    assert_eq!((sub, reg), (s0, r0));
}

#[test]
fn execute_refund_is_charged_with_the_payment() {
    let mut reg = PermitRegistry::new(0);
    let mut sub = open(&mut reg, 100, 1000, 100_000, false);
    let p = ComputeRefundData { token_price_in_lamports: 1_000_000_000, compute_cost_in_lamports: 30 };
    let rep = execute_subscription(
        &mut sub, &mut reg, [5u8; 16], NOW, 500, 100, MIN_FREQUENCY, 0, &MERCHANT, &PAYER, &PARTNER, &p, false,
        &always_ok,
    )
    .unwrap();
    assert_eq!(rep.refund, 30);
    assert_eq!(sub.used_allowance, 530);
    assert_eq!(reg.total_used, 530);
    let refuse_refund = |leg: TransferLeg, _a: u64| leg != TransferLeg::ComputeRefund;
    sub.next_payment_due = NOW;
    let rep = execute_subscription(
        &mut sub, &mut reg, [5u8; 16], NOW, 500, 100, MIN_FREQUENCY, 0, &MERCHANT, &PAYER, &PARTNER, &p, false,
        &refuse_refund,
    )
    .unwrap();
    assert_eq!(rep.refund, 0);
    assert!(rep.refund_failed);
    assert_eq!(sub.used_allowance, 1030);
}

#[test]
fn execute_refund_over_cap_fails() {
    let mut reg = PermitRegistry::new(0);
    let mut sub = open(&mut reg, 100, 1000, 100_000, false);
    let p = ComputeRefundData { token_price_in_lamports: 1_000_000_000, compute_cost_in_lamports: 501 };
    let r = execute_subscription(
        &mut sub, &mut reg, [5u8; 16], NOW, 500, 100, MIN_FREQUENCY, 0, &MERCHANT, &PAYER, &PARTNER, &p, false,
        &always_ok,
    );
    assert_eq!(r.unwrap_err(), QBitFlowError::MaxAmountExceeded);
}

#[test]
fn cancel_before_due_only() {
    let mut reg = PermitRegistry::new(0);
    let mut sub = open(&mut reg, 100, 1000, 5000, false);
    sub.next_payment_due = NOW + 10;
    let r = cancel_subscription(&mut sub, &mut reg, [5u8; 16], NOW + 10, false);
    assert_eq!(r.unwrap_err(), QBitFlowError::CannotCancelActiveSubscription);
    assert_eq!(reg.total_allowance, 5000);
    let r = cancel_subscription(&mut sub, &mut reg, [5u8; 16], NOW + 9, false).unwrap();
    assert_eq!(r.unwrap().uuid, [5u8; 16]);
    assert_eq!((reg.total_allowance, reg.total_used), (0, 0));
}

#[test]
fn payg_cancel_stops_then_execution_closes() {
    let mut reg = PermitRegistry::new(0);
    let mut sub = open(&mut reg, 100, 1000, 5000, true);
    assert_eq!(cancel_subscription(&mut sub, &mut reg, [5u8; 16], NOW, true), Ok(None));
    assert!(sub.stopped);
    assert_eq!(reg.total_allowance, 5000);
    let due = sub.next_payment_due;
    let rep = execute(&mut sub, &mut reg, due, 300, true).unwrap();
    assert!(rep.closed);
    assert_eq!(rep.event.remaining_allowance, 0);
    assert_eq!((reg.total_allowance, reg.total_used), (0, 0));
}

#[test]
fn force_cancel_ignores_timing() {
    let mut reg = PermitRegistry::new(0);
    let sub = open(&mut reg, 100, 1000, 5000, false);
    let ev = force_cancel_subscription(&sub, &mut reg, [5u8; 16]).unwrap();
    assert_eq!(ev.uuid, [5u8; 16]);
    assert_eq!((reg.total_allowance, reg.total_used), (0, 0));
}

#[test]
fn second_revoke_is_refused() {
    let mut reg = PermitRegistry::new(0);
    let sub = open(&mut reg, 100, 1000, 5000, false);
    force_cancel_subscription(&sub, &mut reg, [5u8; 16]).unwrap();
    assert_eq!(force_cancel_subscription(&sub, &mut reg, [5u8; 16]).unwrap_err(), QBitFlowError::Overflow);
    assert_eq!((reg.total_allowance, reg.total_used), (0, 0));
}

#[test]
fn increase_allowance_replaces_slice() {
    let mut reg = PermitRegistry::new(0);
    let mut sub = open(&mut reg, 100, 1000, 5000, false);
    execute(&mut sub, &mut reg, NOW, 500, false).unwrap();
    let rep = increase_allowance(&mut sub, &mut reg, [5u8; 16], 8000, &no_refund(), &always_ok).unwrap();
    assert_eq!(rep.event.new_allowance, 8000);
    assert_eq!(rep.approval, 8000);
    assert_eq!((sub.allowance, sub.used_allowance), (8000, 0));
    assert_eq!((reg.total_allowance, reg.total_used), (8000, 0));
}

#[test]
fn increase_allowance_errors() {
    let mut reg = PermitRegistry::new(0);
    let mut sub = open(&mut reg, 100, 1000, 5000, false);
    assert_eq!(increase_allowance(&mut sub, &mut reg, [5u8; 16], 0, &no_refund(), &always_ok).unwrap_err(), QBitFlowError::ZeroAmount);
    assert_eq!(increase_allowance(&mut sub, &mut reg, [5u8; 16], 5000, &no_refund(), &always_ok).unwrap_err(), QBitFlowError::InvalidAmount);
}

#[test]
fn increase_allowance_absorbs_refund_errors() {
    let mut reg = PermitRegistry::new(0);
    let mut sub = open(&mut reg, 100, 1000, 5000, false);
    let too_big = ComputeRefundData { token_price_in_lamports: 1_000_000_000, compute_cost_in_lamports: 10_000 };
    let rep = increase_allowance(&mut sub, &mut reg, [5u8; 16], 6000, &too_big, &always_ok).unwrap();
    assert_eq!(rep.refund, 0);
    assert_eq!(sub.used_allowance, 0);
}

#[test]
fn update_max_amount_rules() {
    let mut reg = PermitRegistry::new(0);
    let mut sub = open(&mut reg, 100, 1000, 5000, false);
    assert_eq!(update_max_amount(&mut sub, &mut reg, [5u8; 16], 0, &no_refund(), &always_ok).unwrap_err(), QBitFlowError::ZeroAmount);
    assert_eq!(update_max_amount(&mut sub, &mut reg, [5u8; 16], 100, &no_refund(), &always_ok).unwrap_err(), QBitFlowError::MaxAmountInvalid);
    let too_big = ComputeRefundData { token_price_in_lamports: 1_000_000_000, compute_cost_in_lamports: 50 };
    assert_eq!(update_max_amount(&mut sub, &mut reg, [5u8; 16], 120, &too_big, &always_ok).unwrap_err(), QBitFlowError::MaxAmountExceeded);
    let rep = update_max_amount(&mut sub, &mut reg, [5u8; 16], 200, &too_big, &always_ok).unwrap();
    assert_eq!(rep.event.new_max_amount, 200);
    assert_eq!(rep.refund, 50);
    assert_eq!((sub.max_amount, sub.used_allowance), (200, 50));
    assert_eq!(reg.total_used, 50);
}

#[test]
fn shared_pool_stays_in_step_over_a_lifecycle() {
    let mut reg = PermitRegistry::new(0);
    let mut a = open(&mut reg, 100, 1000, 5000, false);
    let mut b = open(&mut reg, 100, 2000, 3000, false);
    let check = |reg: &PermitRegistry, live: &[&Subscription]| {
        assert!(reg.total_used <= reg.total_allowance);
        assert_eq!(reg.total_allowance, live.iter().map(|s| s.allowance).sum::<u64>());
        assert_eq!(reg.total_used, live.iter().map(|s| s.used_allowance).sum::<u64>());
    };
    check(&reg, &[&a, &b]);
    execute(&mut a, &mut reg, NOW, 900, false).unwrap();
    execute(&mut b, &mut reg, NOW, 1500, false).unwrap();
    check(&reg, &[&a, &b]);
    increase_allowance(&mut a, &mut reg, [5u8; 16], 9000, &no_refund(), &always_ok).unwrap();
    check(&reg, &[&a, &b]);
    force_cancel_subscription(&b, &mut reg, [5u8; 16]).unwrap();
    check(&reg, &[&a]);
    assert_eq!(reg.set_permit(), Ok(9000));
}

#[test]
fn registry_operations() {
    let mut reg = PermitRegistry::new(0);
    assert_eq!(reg.add_allowance(100), Ok(100));
    assert_eq!(reg.use_allowance(40), Ok(()));
    assert_eq!(reg.add_allowance(50), Ok(110));
    assert!(reg.has_enough_allowance(110));
    assert!(!reg.has_enough_allowance(111));
    assert!(!reg.has_enough_allowance(u64::MAX));
    assert_eq!(reg.use_allowance(111), Err(QBitFlowError::InsufficientAllowance));
    assert_eq!(reg.use_allowance(u64::MAX), Err(QBitFlowError::Overflow));
    assert_eq!(reg.add_allowance(u64::MAX), Err(QBitFlowError::Overflow));
    assert_eq!(reg.set_permit(), Ok(110));
}

#[test]
fn refused_refund_on_create_charges_nothing() {
    let mut reg = PermitRegistry::new(0);
    let p = ComputeRefundData { token_price_in_lamports: 1_000_000_000, compute_cost_in_lamports: 40 };
    let rep = create_subscription(
        &mut reg, [5u8; 16], NOW, PAYER, 100, 1000, MIN_FREQUENCY, 5000, &MERCHANT, &PAYER, &PARTNER, &p, false, 1,
        &always_refused,
    )
    .unwrap();
    assert_eq!(rep.refund, 0);
    assert!(rep.refund_failed);
    assert_eq!(rep.subscription.used_allowance, 0);
    assert_eq!((reg.total_allowance, reg.total_used), (5000, 0));
}

#[test]
fn refused_refund_on_increase_charges_nothing() {
    let mut reg = PermitRegistry::new(0);
    let mut sub = open(&mut reg, 100, 1000, 5000, false);
    let p = ComputeRefundData { token_price_in_lamports: 1_000_000_000, compute_cost_in_lamports: 40 };
    let rep = increase_allowance(&mut sub, &mut reg, [5u8; 16], 6000, &p, &always_refused).unwrap();
    assert_eq!(rep.refund, 0);
    assert!(rep.refund_failed);
    assert_eq!((sub.allowance, sub.used_allowance), (6000, 0));
    assert_eq!((reg.total_allowance, reg.total_used), (6000, 0));
}

#[test]
fn refused_refund_on_cap_update_charges_nothing() {
    let mut reg = PermitRegistry::new(0);
    let mut sub = open(&mut reg, 100, 1000, 5000, false);
    let p = ComputeRefundData { token_price_in_lamports: 1_000_000_000, compute_cost_in_lamports: 40 };
    let rep = update_max_amount(&mut sub, &mut reg, [5u8; 16], 2000, &p, &always_refused).unwrap();
    assert_eq!(rep.refund, 0);
    assert!(rep.refund_failed);
    assert_eq!((sub.max_amount, sub.used_allowance), (2000, 0));
    assert_eq!(reg.total_used, 0);
}
