use bank_core::bank::Bank;
use bank_core::rules::{decide_refund, LedgerError, RefundDecision};
use bank_core::model::{CustomError, Status};

const REFUND_AMOUNT: i32 = 42;

#[test]
fn test_refund() {
    let mut bank = Bank::new();
    let payment = bank.insert_payment(1205, "4111-1111-1111-0001".to_string()).unwrap();
    let created = bank.insert(payment.id, REFUND_AMOUNT).expect("failed to create refund");
    let refund = bank.get(created.id).unwrap();
    assert_eq!(refund.amount, REFUND_AMOUNT);
    assert_eq!(refund.payment_id, payment.id);
}

#[test]
fn refunds_accumulate_up_to_the_payment_amount() {
    let mut bank = Bank::new();
    let payment = bank.insert_payment(50, "card".to_string()).unwrap();
    let first = bank.insert(payment.id, 30).unwrap();
    assert_eq!(first.amount, 30);
    let second = bank.insert(payment.id, 25);
    match second {
        Err(e) => {
            assert!(matches!(e, CustomError::AmoutRefundFailed { .. }));
            assert_eq!(e.code(), 422);
        }
        Ok(_) => panic!("over-refund accepted"),
    }
    assert_eq!(bank.get_payment_refund(payment.id).unwrap().amount, 30);
    let third = bank.insert(payment.id, 20).unwrap();
    assert_eq!(third.amount, 50);
    assert_eq!(third.id, first.id);
    assert_eq!(bank.get_payment_refund(payment.id).unwrap().amount, 50);
}

#[test]
fn refund_of_unknown_payment_is_refused() {
    let mut bank = Bank::new();
    match bank.insert(77, 10) {
        Err(e) => {
            assert!(matches!(e, CustomError::PaymentNotExist { .. }));
            assert_eq!(e.code(), 404);
        }
        Ok(_) => panic!("refund of a missing payment"),
    }
    assert!(bank.get_payment_refund(77).is_none());
}

#[test]
fn refund_of_full_amount_then_nothing_more() {
    let mut bank = Bank::new();
    let payment = bank.insert_payment(10, "card".to_string()).unwrap();
    assert_eq!(bank.insert(payment.id, 10).unwrap().amount, 10);
    assert!(bank.insert(payment.id, 1).is_err());
    assert_eq!(bank.insert(payment.id, 0).unwrap().amount, 10);
    assert!(bank.insert(payment.id, -1).is_err());
}

#[test]
fn zero_refund_creates_a_record_at_zero() {
    let mut bank = Bank::new();
    let payment = bank.insert_payment(50, "card".to_string()).unwrap();
    let r = bank.insert(payment.id, 0).unwrap();
    assert_eq!(r.amount, 0);
    let again = bank.insert(payment.id, 20).unwrap();
    assert_eq!(again.id, r.id);
    assert_eq!(again.amount, 20);
}

#[test]
fn taken_identifier_error_code() {
    let e = CustomError::IdTaken;
    assert_eq!(e.code(), 500);
}

#[test]
fn competing_refunds_at_most_one_succeeds() {
    let mut bank = Bank::new();
    let payment = bank.insert_payment(100, "card".to_string()).unwrap();
    bank.insert(payment.id, 40).unwrap();
    // remaining 60: 35 and 30 each fit, together they do not
    assert!(bank.insert(payment.id, 35).is_ok());
    assert!(bank.insert(payment.id, 30).is_err());
    assert_eq!(bank.get_payment_refund(payment.id).unwrap().amount, 75);
}

#[test]
fn refund_decisions() {
    assert_eq!(decide_refund(None, None, 5), RefundDecision::PaymentMissing);
    assert_eq!(decide_refund(Some((Status::Declined, 50)), None, 5), RefundDecision::PaymentNotApproved);
    assert_eq!(decide_refund(Some((Status::Approved, 50)), None, 30), RefundDecision::Insert { total: 30 });
    assert_eq!(decide_refund(Some((Status::Approved, 50)), Some(30), 25), RefundDecision::ExceedsRefundable);
    assert_eq!(decide_refund(Some((Status::Approved, 50)), Some(30), 20), RefundDecision::Update { total: 50 });
    assert_eq!(decide_refund(Some((Status::Approved, 50)), None, -1), RefundDecision::ExceedsRefundable);
    assert_eq!(decide_refund(Some((Status::Approved, 50)), Some(50), 0), RefundDecision::Update { total: 50 });
    assert_eq!(decide_refund(Some((Status::Approved, i32::MAX)), Some(i32::MAX - 1), i32::MAX), RefundDecision::ExceedsRefundable);
}

#[test]
fn refund_reads_repeat_and_missing_ids() {
    let mut bank = Bank::new();
    let payment = bank.insert_payment(10, "card".to_string()).unwrap();
    let r = bank.insert(payment.id, 3).unwrap();
    assert_eq!(bank.get(r.id), bank.get(r.id));
    assert!(bank.get(r.id.wrapping_add(1)).is_none());
    assert!(r.inserted_at > 1_600_000_000);
}

#[test]
fn identifiers_already_in_use_are_refused() {
    let mut bank = Bank::new();
    bank.insert_payment_with(1, 50, "a".to_string(), 0).unwrap();
    bank.insert_payment_with(2, 50, "b".to_string(), 0).unwrap();
    bank.insert_with(1, 10, 9, 0).unwrap();
    assert!(matches!(bank.insert_with(2, 10, 9, 0), Err(CustomError::IdTaken)));
    assert!(bank.get_payment_refund(2).is_none());
    assert!(matches!(bank.insert_payment_with(1, 5, "c".to_string(), 0), Err(LedgerError::IdTaken)));
    assert!(matches!(bank.insert_payment_with(0, 5, "c".to_string(), 0), Err(LedgerError::IdTaken)));
}

#[test]
fn drawn_identifier_collision_falls_back_to_a_free_one() {
    let mut bank = Bank::new();
    for k in 1..=3u128 {
        bank.insert_payment_with(k, 5, format!("card{}", k), 0).unwrap();
    }
    let p = bank.insert_payment(7, "fresh".to_string()).unwrap();
    assert_ne!(p.id, 0);
    assert_eq!(bank.get_payment(p.id).unwrap().amount, 7);
}
