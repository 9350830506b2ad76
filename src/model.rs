//! The records and messages of the service.

use vstd::prelude::*;

verus! {

/// The identifier that declined payments carry: no record stands behind it.
pub const NIL_ID: u128 = 0;

#[derive(Debug, Clone, Copy, PartialEq, Eq, Structural)]
pub enum Status {
    Approved,
    Declined,
}

/// A recorded payment. Timestamps are seconds since the Unix epoch, UTC.
#[derive(Debug, Clone)]
pub struct Payment {
    pub id: u128,
    pub amount: i32,
    pub card_number: String,
    pub status: Status,
    pub inserted_at: i64,
    pub updated_at: i64,
}

impl Payment {
    /// A field-by-field copy.
    pub fn snapshot(&self) -> (r: Payment)
        ensures
            r == *self,
    {
        Payment {
            id: self.id,
            amount: self.amount,
            card_number: self.card_number.clone(),
            status: self.status,
            inserted_at: self.inserted_at,
            updated_at: self.updated_at,
        }
    }
}

/// The refund record of one payment. `amount` is the running total refunded
/// so far, not the amount of the latest request.
#[derive(Debug, Clone, Copy, PartialEq, Eq, Structural)]
pub struct Refund {
    pub id: u128,
    pub payment_id: u128,
    pub amount: i32,
    pub inserted_at: i64,
    pub updated_at: i64,
}

/// A payment request: the amount in minor units and the card to charge.
#[derive(Debug, Clone)]
pub struct RequestData {
    pub amount: i32,
    pub card_number: String,
}

#[derive(Debug, Clone)]
pub struct RequestBody {
    pub payment: RequestData,
}

/// What a payment request answers with.
#[derive(Debug, Clone)]
pub struct ResponseData {
    pub id: u128,
    pub amount: i32,
    pub card_number: String,
    pub status: Status,
}

#[derive(Debug, Clone)]
pub struct ResponseBody {
    pub data: ResponseData,
}

impl ResponseData {
    /// A field-by-field copy.
    pub fn snapshot(&self) -> (r: ResponseData)
        ensures
            r == *self,
    {
        ResponseData {
            id: self.id,
            amount: self.amount,
            card_number: self.card_number.clone(),
            status: self.status,
        }
    }

    /// The response that echoes a recorded payment.
    pub fn of_payment(p: &Payment) -> (r: ResponseData)
        ensures
            r.id == p.id,
            r.amount == p.amount,
            r.card_number@ == p.card_number@,
            r.status == p.status,
    {
        ResponseData {
            id: p.id,
            amount: p.amount,
            card_number: p.card_number.clone(),
            status: p.status,
        }
    }
}

/// Why the funds authority refused to place a hold.
#[derive(Debug, Clone, Copy, PartialEq, Eq, Structural)]
pub enum DeclineReason {
    InvalidAccountNumber,
    InvalidAmount,
    InsufficientFunds,
    Other,
}

/// The reason that the authority's refusal text stands for.
pub open spec fn decline_reason_of(s: Seq<char>) -> DeclineReason {
    if s == "invalid_account_number"@ {
        DeclineReason::InvalidAccountNumber
    } else if s == "invalid_amount"@ {
        DeclineReason::InvalidAmount
    } else if s == "insufficient_funds"@ {
        DeclineReason::InsufficientFunds
    } else {
        DeclineReason::Other
    }
}

impl DeclineReason {
    /// Reads the authority's refusal text.
    pub fn parse(text: &str) -> (r: DeclineReason)
        ensures
            r == decline_reason_of(text@),
    {
        let s = text.to_owned();
        if s == "invalid_account_number".to_owned() {
            DeclineReason::InvalidAccountNumber
        } else if s == "invalid_amount".to_owned() {
            DeclineReason::InvalidAmount
        } else if s == "insufficient_funds".to_owned() {
            DeclineReason::InsufficientFunds
        } else {
            DeclineReason::Other
        }
    }

    pub open spec fn spec_code(self) -> i32 {
        match self {
            DeclineReason::InvalidAccountNumber => 403,
            DeclineReason::InvalidAmount => 400,
            DeclineReason::InsufficientFunds => 402,
            DeclineReason::Other => 500,
        }
    }
}

/// An error reported by the funds authority, with the code it maps to.
#[derive(Debug, Clone)]
pub struct PaymentError {
    pub code: i32,
    pub message: String,
}

impl PaymentError {
    /// The error for the authority's refusal text.
    pub fn from(messages: &str) -> (r: PaymentError)
        ensures
            r.code == decline_reason_of(messages@).spec_code(),
            decline_reason_of(messages@) is InvalidAccountNumber ==> r.message@ == "Forbidden"@,
            decline_reason_of(messages@) is InvalidAmount ==> r.message@ == "Forbidden"@,
            decline_reason_of(messages@) is InsufficientFunds ==> r.message@
                == " Payment Requires"@,
            decline_reason_of(messages@) is Other ==> r.message@ == "Internal Error"@,
    {
        let (code, message) = match DeclineReason::parse(messages) {
            DeclineReason::InvalidAccountNumber => (403, "Forbidden"),
            DeclineReason::InvalidAmount => (400, "Forbidden"),
            DeclineReason::InsufficientFunds => (402, " Payment Requires"),
            DeclineReason::Other => (500, "Internal Error"),
        };
        PaymentError { code, message: message.to_owned() }
    }
}

/// Errors of the refund path and of the wider service.
#[derive(Debug, Clone)]
pub enum CustomError {
    Unauthorized,
    InValidCard { code: i32, message: String },
    AmoutRefundFailed { code: i32, message: String },
    PaymentNotExist { code: i32, message: String },
    PaymentError(PaymentError),
    /// The identifier drawn for a new record already names one.
    IdTaken,
}

impl CustomError {
    /// The protocol code the error carries.
    pub fn code(&self) -> (r: i32)
        ensures
            self is Unauthorized ==> r == 401,
            self is InValidCard ==> r == self->InValidCard_code,
            self is AmoutRefundFailed ==> r == self->AmoutRefundFailed_code,
            self is PaymentNotExist ==> r == self->PaymentNotExist_code,
            self is PaymentError ==> r == self->PaymentError_0.code,
            self is IdTaken ==> r == 500,
    {
        match self {
            CustomError::Unauthorized => 401,
            CustomError::InValidCard { code, .. } => *code,
            CustomError::AmoutRefundFailed { code, .. } => *code,
            CustomError::PaymentNotExist { code, .. } => *code,
            CustomError::PaymentError(e) => e.code,
            CustomError::IdTaken => 500,
        }
    }
}

} // verus!
