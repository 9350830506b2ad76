use bank_core::bank::Bank;
use bank_core::flow::{after_hold, after_release, after_withdraw, start_payment, HoldToken, PaymentOutcome, Step};
use bank_core::model::{DeclineReason, PaymentError, RequestBody, RequestData, Status, NIL_ID};

/// Runs one payment request against a scripted authority that answers the
/// hold with `hold`, and records each call made to it.
fn drive(bank: &mut Bank, request: RequestData, hold: Result<HoldToken, DeclineReason>, calls: &mut Vec<String>) -> PaymentOutcome {
    let mut step = start_payment(request.clone());
    loop {
        step = match step {
            Step::PlaceHold { card_number, amount } => {
                calls.push(format!("hold {} {}", card_number, amount));
                after_hold(bank, request.clone(), hold)
            }
            Step::Withdraw { token, payment } => {
                calls.push(format!("withdraw {}", token.value));
                after_withdraw(&payment, true)
            }
            Step::Release { token, outcome } => {
                calls.push(format!("release {}", token.value));
                after_release(outcome, true)
            }
            Step::Respond(outcome) => return outcome,
        };
    }
}

fn body(amount: i32, card: &str) -> RequestBody {
    RequestBody { payment: RequestData { amount, card_number: card.to_string() } }
}

#[test]
fn should_approve_valid_payment() {
    let mut bank = Bank::new();
    let request_body = body(1205, "4111-1111-1111-0001");
    let mut calls = Vec::new();
    let outcome = drive(&mut bank, request_body.payment.clone(), Ok(HoldToken { value: 7 }), &mut calls);
    assert_eq!(outcome.status_code(), 201);
    let data = outcome.data().unwrap();
    assert_eq!(data.amount, request_body.payment.amount);

    let stored = bank.get_payment(data.id).unwrap();
    assert_eq!(stored.amount, request_body.payment.amount);
    assert_eq!(stored.status, Status::Approved);
    assert_eq!(calls, vec!["hold 4111-1111-1111-0001 1205".to_string(), "withdraw 7".to_string()]);
}

#[test]
fn should_decline_payment_and_return_402_with_insufficient_funds() {
    let mut bank = Bank::new();
    let request_body = body(1205, "4111-1111-1111-0001");
    let mut calls = Vec::new();
    let reason = DeclineReason::parse("insufficient_funds");
    let outcome = drive(&mut bank, request_body.payment.clone(), Err(reason), &mut calls);
    assert_eq!(outcome.status_code(), 402);
    let data = outcome.data().unwrap();
    assert_eq!(data.amount, request_body.payment.amount);
    assert_eq!(data.status, Status::Declined);
    assert_eq!(data.id, NIL_ID);
    assert!(!bank.card_in_use(&request_body.payment.card_number));
    assert_eq!(calls.len(), 1);
}

#[test]
fn should_decline_payment_and_return_403_for_invalid_account_number() {
    let mut bank = Bank::new();
    let request_body = body(1205, "4111-1111-1111-0001");
    let mut calls = Vec::new();
    let reason = DeclineReason::parse("invalid_account_number");
    let outcome = drive(&mut bank, request_body.payment.clone(), Err(reason), &mut calls);
    assert_eq!(outcome.status_code(), 403);
    let data = outcome.data().unwrap();
    assert_eq!(data.amount, request_body.payment.amount);
    assert_eq!(data.card_number, request_body.payment.card_number);
    assert_eq!(data.status, Status::Declined);
}

#[test]
fn should_return_204_for_zero_amount() {
    let mut bank = Bank::new();
    let mut calls = Vec::new();
    let outcome = drive(&mut bank, body(0, "4111-1111-1111-0001").payment, Ok(HoldToken { value: 1 }), &mut calls);
    assert_eq!(outcome.status_code(), 204);
    assert_eq!(outcome.error_text().unwrap(), "zero amount");
    assert!(calls.is_empty());
}

#[test]
fn should_return_422_for_existing_card_number() {
    let mut bank = Bank::new();
    let request_body = body(123, "4111-1111-1111-0002");
    let mut calls = Vec::new();
    let first = drive(&mut bank, request_body.payment.clone(), Ok(HoldToken { value: 1 }), &mut calls);
    assert_eq!(first.status_code(), 201);
    let second = drive(&mut bank, request_body.payment.clone(), Ok(HoldToken { value: 2 }), &mut calls);
    assert_eq!(second.status_code(), 422);
    assert_eq!(second.error_text().unwrap(), "card_number already used");
    assert_eq!(
        calls,
        vec![
            "hold 4111-1111-1111-0002 123".to_string(),
            "withdraw 1".to_string(),
            "hold 4111-1111-1111-0002 123".to_string(),
            "release 2".to_string(),
        ]
    );
}

#[test]
fn invalid_amount_from_authority_is_an_error() {
    let mut bank = Bank::new();
    let mut calls = Vec::new();
    let outcome = drive(&mut bank, body(-5, "c").payment, Err(DeclineReason::parse("invalid_amount")), &mut calls);
    assert_eq!(outcome.status_code(), 400);
    assert!(outcome.data().is_none());
}

#[test]
fn unknown_refusal_is_a_processing_error() {
    let mut bank = Bank::new();
    let mut calls = Vec::new();
    let outcome = drive(&mut bank, body(10, "c").payment, Err(DeclineReason::parse("card_network_down")), &mut calls);
    assert_eq!(outcome.status_code(), 204);
    assert_eq!(outcome.error_text().unwrap(), "cannot process the request");
}

#[test]
fn negative_amount_with_granted_hold_is_released() {
    let mut bank = Bank::new();
    let mut calls = Vec::new();
    let outcome = drive(&mut bank, body(-5, "c").payment, Ok(HoldToken { value: 9 }), &mut calls);
    assert_eq!(outcome.status_code(), 400);
    assert_eq!(calls, vec!["hold c -5".to_string(), "release 9".to_string()]);
    assert!(!bank.card_in_use(&"c".to_string()));
}

#[test]
fn used_card_is_a_conflict_whatever_the_amount() {
    let mut bank = Bank::new();
    let mut calls = Vec::new();
    let first = drive(&mut bank, body(10, "c").payment, Ok(HoldToken { value: 1 }), &mut calls);
    assert_eq!(first.status_code(), 201);
    let second = drive(&mut bank, body(-5, "c").payment, Ok(HoldToken { value: 2 }), &mut calls);
    assert_eq!(second.status_code(), 422);
    assert_eq!(calls.last().unwrap(), "release 2");
}

#[test]
fn failed_withdraw_and_release_are_fatal() {
    let mut bank = Bank::new();
    let step = after_hold(&mut bank, body(10, "c").payment, Ok(HoldToken { value: 3 }));
    match step {
        Step::Withdraw { payment, .. } => {
            let end = after_withdraw(&payment, false);
            match end {
                Step::Respond(o) => assert_eq!(o.status_code(), 500),
                _ => panic!("expected a response"),
            }
        }
        _ => panic!("expected a withdrawal"),
    }
    match after_release(PaymentOutcome::DuplicateInstrument, false) {
        Step::Respond(o) => assert_eq!(o.error_text().unwrap(), "failed to release the hold"),
        _ => panic!("expected a response"),
    }
}

#[test]
fn recorded_payments_get_distinct_fresh_ids_and_timestamps() {
    let mut bank = Bank::new();
    let a = bank.insert_payment(10, "a".to_string()).unwrap();
    let b = bank.insert_payment(20, "b".to_string()).unwrap();
    assert_ne!(a.id, NIL_ID);
    assert_ne!(a.id, b.id);
    assert!(a.inserted_at > 1_600_000_000);
    assert_eq!(a.inserted_at, a.updated_at);
    assert_eq!(bank.get_payment(b.id).unwrap().card_number, "b");
    assert!(bank.get_payment(12345).is_none());
}

#[test]
fn payment_reads_repeat() {
    let mut bank = Bank::new();
    let a = bank.insert_payment(10, "a".to_string()).unwrap();
    let first = bank.get_payment(a.id).unwrap();
    let second = bank.get_payment(a.id).unwrap();
    assert_eq!(first.id, second.id);
    assert_eq!(first.amount, second.amount);
    assert_eq!(first.card_number, second.card_number);
}

#[test]
fn payment_error_codes_follow_refusal_text() {
    let e = PaymentError::from("invalid_account_number");
    assert_eq!((e.code, e.message.as_str()), (403, "Forbidden"));
    let e = PaymentError::from("invalid_amount");
    assert_eq!((e.code, e.message.as_str()), (400, "Forbidden"));
    let e = PaymentError::from("insufficient_funds");
    assert_eq!((e.code, e.message.as_str()), (402, " Payment Requires"));
    let e = PaymentError::from("something else");
    assert_eq!((e.code, e.message.as_str()), (500, "Internal Error"));
}
