//! The payment workflow, one step at a time: the driver performs each call
//! to the funds authority and hands its answer back.

use vstd::prelude::*;
use crate::bank::{card_used, id_used, Bank};
use crate::rules::LedgerError;
use crate::model::{DeclineReason, Payment, RequestData, ResponseData, Status, NIL_ID};

verus! {

/// A hold that the funds authority placed and that awaits withdrawal or release.
#[derive(Debug, Clone, Copy, PartialEq, Eq, Structural)]
pub struct HoldToken {
    pub value: u128,
}

/// How a payment request ends.
#[derive(Debug, Clone)]
pub enum PaymentOutcome {
    /// The payment was approved and recorded, and its funds withdrawn.
    Created(ResponseData),
    /// The authority declined: nothing was recorded and no hold remains.
    Declined { reason: DeclineReason, data: ResponseData },
    /// The request asked for a zero amount; nothing was called.
    ZeroAmount,
    InvalidAmount,
    /// The card already paid for an approved payment; the hold was released.
    DuplicateInstrument,
    /// The authority refused for a reason the service does not know.
    ProcessingError,
    /// The ledger could not record the payment; the hold was released.
    StorageFailed,
    /// The authority failed to withdraw a hold after the payment was recorded.
    WithdrawFailed,
    /// The authority failed to release a hold.
    ReleaseFailed,
}

/// What the driver of a payment request does next.
#[derive(Debug, Clone)]
pub enum Step {
    /// Ask the authority for a hold, then call `after_hold`.
    PlaceHold { card_number: String, amount: i32 },
    /// Withdraw the held funds, then call `after_withdraw`.
    Withdraw { token: HoldToken, payment: Payment },
    /// Release the hold, then call `after_release`.
    Release { token: HoldToken, outcome: PaymentOutcome },
    /// Answer the request; nothing is left to do.
    Respond(PaymentOutcome),
}

impl PaymentOutcome {
    /// The HTTP status the outcome is answered with.
    pub fn status_code(&self) -> (r: u16)
        ensures
            self is Created ==> r == 201,
            self is Declined && self->reason is InsufficientFunds ==> r == 402,
            self is Declined && !(self->reason is InsufficientFunds) ==> r == 403,
            self is ZeroAmount ==> r == 204,
            self is InvalidAmount ==> r == 400,
            self is DuplicateInstrument ==> r == 422,
            self is ProcessingError ==> r == 204,
            self is StorageFailed || self is WithdrawFailed || self is ReleaseFailed ==> r == 500,
    {
        match self {
            PaymentOutcome::Created(_) => 201,
            PaymentOutcome::Declined { reason, .. } => match reason {
                DeclineReason::InsufficientFunds => 402,
                _ => 403,
            },
            PaymentOutcome::ZeroAmount => 204,
            PaymentOutcome::InvalidAmount => 400,
            PaymentOutcome::DuplicateInstrument => 422,
            PaymentOutcome::ProcessingError => 204,
            PaymentOutcome::StorageFailed => 500,
            PaymentOutcome::WithdrawFailed => 500,
            PaymentOutcome::ReleaseFailed => 500,
        }
    }

    /// The payment data answered with, where the outcome carries any.
    pub fn data(&self) -> (r: Option<ResponseData>)
        ensures
            self is Created ==> r == Some(self->Created_0),
            self is Declined ==> r == Some(self->data),
            !(self is Created || self is Declined) ==> r is None,
    {
        match self {
            PaymentOutcome::Created(d) => Some(d.snapshot()),
            PaymentOutcome::Declined { data, .. } => Some(data.snapshot()),
            _ => None,
        }
    }

    /// The error text answered with, where the outcome is an error.
    pub fn error_text(&self) -> (r: Option<String>)
        ensures
            self is Created || self is Declined <==> r is None,
            self is ZeroAmount ==> r->Some_0@ == "zero amount"@,
            self is InvalidAmount ==> r->Some_0@ == "invalid amount"@,
            self is DuplicateInstrument ==> r->Some_0@ == "card_number already used"@,
            self is ProcessingError ==> r->Some_0@ == "cannot process the request"@,
            self is StorageFailed ==> r->Some_0@ == "failed to record the payment"@,
            self is WithdrawFailed ==> r->Some_0@ == "failed to withdraw the held funds"@,
            self is ReleaseFailed ==> r->Some_0@ == "failed to release the hold"@,
    {
        match self {
            PaymentOutcome::Created(_) => None,
            PaymentOutcome::Declined { .. } => None,
            PaymentOutcome::ZeroAmount => Some("zero amount".to_owned()),
            PaymentOutcome::InvalidAmount => Some("invalid amount".to_owned()),
            PaymentOutcome::DuplicateInstrument => Some("card_number already used".to_owned()),
            PaymentOutcome::ProcessingError => Some("cannot process the request".to_owned()),
            PaymentOutcome::StorageFailed => Some("failed to record the payment".to_owned()),
            PaymentOutcome::WithdrawFailed => Some("failed to withdraw the held funds".to_owned()),
            PaymentOutcome::ReleaseFailed => Some("failed to release the hold".to_owned()),
        }
    }
}

/// The first step of a payment request: a zero amount is refused before
/// any call to the authority.
pub fn start_payment(request: RequestData) -> (r: Step)
    ensures
        request.amount == 0 ==> r == Step::Respond(PaymentOutcome::ZeroAmount),
        request.amount != 0 ==> r == (Step::PlaceHold {
            card_number: request.card_number,
            amount: request.amount,
        }),
{
    if request.amount == 0 {
        Step::Respond(PaymentOutcome::ZeroAmount)
    } else {
        Step::PlaceHold { card_number: request.card_number, amount: request.amount }
    }
}

/// The step after the authority answered the hold request. A granted hold
/// is followed by exactly one of withdraw (the payment was recorded) and
/// release (it was not); a refused one leaves no hold and records nothing.
/// A card that already paid is a conflict, whatever the amount; a granted
/// hold on an unused card and a positive amount is recorded unless the
/// ledger has run out of identifiers.
pub fn after_hold(bank: &mut Bank, request: RequestData, hold: Result<HoldToken, DeclineReason>) -> (r:
    Step)
    requires
        old(bank).wf(),
        request.amount != 0,
    ensures
        final(bank).wf(),
        final(bank).refunds_view() == old(bank).refunds_view(),
        !(r is Withdraw) ==> final(bank).payments_view() == old(bank).payments_view(),
        match hold {
            Err(reason) => r is Respond && if reason is InvalidAccountNumber
                || reason is InsufficientFunds {
                let o = r->Respond_0;
                &&& o is Declined && o->reason == reason
                &&& o->data.id == NIL_ID && o->data.amount == request.amount
                &&& o->data.card_number@ == request.card_number@
                &&& o->data.status == Status::Declined
            } else if reason is InvalidAmount {
                r->Respond_0 is InvalidAmount
            } else {
                r->Respond_0 is ProcessingError
            },
            Ok(token) => if card_used(old(bank).payments_view(), request.card_number@) {
                r is Release && r->Release_token == token
                    && r->Release_outcome is DuplicateInstrument
            } else if request.amount < 0 {
                r is Release && r->Release_token == token && r->Release_outcome is InvalidAmount
            } else if !id_used(old(bank).payments_view(), u128::MAX) {
                r is Withdraw && r->Withdraw_token == token && {
                    let p = r->Withdraw_payment;
                    &&& p.amount == request.amount && p.card_number@ == request.card_number@
                    &&& p.status == Status::Approved && p.id != NIL_ID
                    &&& final(bank).payments_view() == old(bank).payments_view().push(p)
                    &&& card_used(final(bank).payments_view(), request.card_number@)
                }
            } else {
                (r is Withdraw && r->Withdraw_token == token && {
                    let p = r->Withdraw_payment;
                    &&& p.amount == request.amount && p.card_number@ == request.card_number@
                    &&& p.status == Status::Approved && p.id != NIL_ID
                    &&& final(bank).payments_view() == old(bank).payments_view().push(p)
                    &&& card_used(final(bank).payments_view(), request.card_number@)
                }) || (r is Release && r->Release_token == token
                    && r->Release_outcome is StorageFailed)
            },
        },
{
    match hold {
        Err(reason) => match reason {
            DeclineReason::InvalidAccountNumber | DeclineReason::InsufficientFunds => {
                let data = ResponseData {
                    id: NIL_ID,
                    amount: request.amount,
                    card_number: request.card_number,
                    status: Status::Declined,
                };
                Step::Respond(PaymentOutcome::Declined { reason, data })
            },
            DeclineReason::InvalidAmount => Step::Respond(PaymentOutcome::InvalidAmount),
            DeclineReason::Other => Step::Respond(PaymentOutcome::ProcessingError),
        },
        Ok(token) => {
            if bank.card_in_use(&request.card_number) {
                return Step::Release { token, outcome: PaymentOutcome::DuplicateInstrument };
            }
            if request.amount < 0 {
                return Step::Release { token, outcome: PaymentOutcome::InvalidAmount };
            }
            match bank.insert_payment(request.amount, request.card_number) {
                Ok(payment) => Step::Withdraw { token, payment },
                Err(LedgerError::DuplicateInstrument) => Step::Release {
                    token,
                    outcome: PaymentOutcome::DuplicateInstrument,
                },
                Err(LedgerError::IdTaken) => Step::Release { token, outcome: PaymentOutcome::StorageFailed },
            }
        },
    }
}

/// The step after the authority answered the withdrawal: the request ends.
/// A failed withdrawal of a recorded payment cannot be repaired here and is
/// reported as such.
pub fn after_withdraw(payment: &Payment, withdrawn: bool) -> (r: Step)
    ensures
        r is Respond,
        withdrawn ==> r->Respond_0 is Created && {
            let d = r->Respond_0->Created_0;
            &&& d.id == payment.id && d.amount == payment.amount
            &&& d.card_number@ == payment.card_number@ && d.status == payment.status
        },
        !withdrawn ==> r->Respond_0 is WithdrawFailed,
{
    if withdrawn {
        Step::Respond(PaymentOutcome::Created(ResponseData::of_payment(payment)))
    } else {
        Step::Respond(PaymentOutcome::WithdrawFailed)
    }
}

/// The step after the authority answered the release: the request ends with
/// the outcome decided before the release, unless the release failed.
pub fn after_release(outcome: PaymentOutcome, released: bool) -> (r: Step)
    ensures
        released ==> r == Step::Respond(outcome),
        !released ==> r == Step::Respond(PaymentOutcome::ReleaseFailed),
{
    if released {
        Step::Respond(outcome)
    } else {
        Step::Respond(PaymentOutcome::ReleaseFailed)
    }
}

} // verus!
