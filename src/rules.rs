//! The rules of the refund path, and the laws that follow from them.

use vstd::prelude::*;
use crate::model::Status;

verus! {

/// Why the ledger refused to record a payment.
#[derive(Debug, Clone, Copy, PartialEq, Eq, Structural)]
pub enum LedgerError {
    /// The card already paid for an approved payment.
    DuplicateInstrument,
    /// The identifier is nil or already names a payment.
    IdTaken,
}

/// What a refund request does to the refund record of its payment.
#[derive(Debug, Clone, Copy, PartialEq, Eq, Structural)]
pub enum RefundDecision {
    /// No refund yet: create the record with this total.
    Insert { total: i32 },
    /// Raise the existing record to this total.
    Update { total: i32 },
    PaymentMissing,
    PaymentNotApproved,
    /// The request would refund more than was paid, or asks for a negative
    /// amount.
    ExceedsRefundable,
}

/// The running total before a request: zero when there is no record yet.
pub open spec fn prior_total(existing: Option<i32>) -> int {
    match existing {
        Some(t) => t as int,
        None => 0,
    }
}

/// The running total after a request of `amount` on a payment of `paid`,
/// or `None` where the request is refused.
pub open spec fn refunded_total_after(paid: int, existing: Option<int>, amount: int) -> Option<int> {
    let prior = match existing {
        Some(t) => t,
        None => 0,
    };
    if 0 <= amount && prior + amount <= paid {
        Some(prior + amount)
    } else {
        None
    }
}

/// The decision for a request of `amount` on a payment with the given status
/// and amount (`None`: no such payment) and the given refunded total.
pub open spec fn refund_decision_of(
    payment: Option<(Status, i32)>,
    existing: Option<i32>,
    amount: i32,
) -> RefundDecision {
    match payment {
        None => RefundDecision::PaymentMissing,
        Some((status, paid)) => if status != Status::Approved {
            RefundDecision::PaymentNotApproved
        } else {
            let ex = match existing {
                Some(t) => Some(t as int),
                None => None,
            };
            match refunded_total_after(paid as int, ex, amount as int) {
                Some(t) => if existing is Some {
                    RefundDecision::Update { total: t as i32 }
                } else {
                    RefundDecision::Insert { total: t as i32 }
                },
                None => RefundDecision::ExceedsRefundable,
            }
        },
    }
}

/// Decides a refund request of `amount` (a delta) against a payment and
/// the total refunded on it so far.
pub fn decide_refund(payment: Option<(Status, i32)>, existing: Option<i32>, amount: i32) -> (r:
    RefundDecision)
    ensures
        r == refund_decision_of(payment, existing, amount),
{
    match payment {
        None => RefundDecision::PaymentMissing,
        Some((status, paid)) => {
            if status != Status::Approved {
                RefundDecision::PaymentNotApproved
            } else {
                let prior: i64 = match existing {
                    Some(t) => t as i64,
                    None => 0,
                };
                if 0 <= amount && prior + (amount as i64) <= paid as i64 {
                    let total = (prior + amount as i64) as i32;
                    if existing.is_some() {
                        RefundDecision::Update { total }
                    } else {
                        RefundDecision::Insert { total }
                    }
                } else {
                    RefundDecision::ExceedsRefundable
                }
            }
        },
    }
}

/// The total after each request of `amounts` in turn, refused ones leaving
/// it as it was.
pub open spec fn total_after_requests(paid: int, start: Option<int>, amounts: Seq<int>) -> Option<
    int,
>
    decreases amounts.len(),
{
    if amounts.len() == 0 {
        start
    } else {
        let before = total_after_requests(paid, start, amounts.drop_last());
        match refunded_total_after(paid, before, amounts.last()) {
            Some(t) => Some(t),
            None => before,
        }
    }
}

/// Whatever refund requests come against one payment, one after another,
/// the refunded total never exceeds the amount paid, and it never falls.
pub proof fn lemma_refunds_stay_within_payment(paid: int, start: Option<int>, amounts: Seq<int>)
    requires
        match start {
            Some(t) => 0 <= t <= paid,
            None => true,
        },
    ensures
        match total_after_requests(paid, start, amounts) {
            Some(t) => t <= paid && (match start {
                Some(s) => s <= t,
                None => 0 <= t,
            }),
            None => start is None,
        },
    decreases amounts.len(),
{
    if amounts.len() > 0 {
        lemma_refunds_stay_within_payment(paid, start, amounts.drop_last());
    }
}

/// Two requests of `a` and `b` against one payment, each within the
/// refundable balance but together beyond it: in whichever order they are
/// served, at most one of them succeeds.
pub proof fn lemma_competing_refunds(paid: int, existing: Option<int>, a: int, b: int)
    requires
        ({
            let r = paid - match existing {
                Some(t) => t,
                None => 0,
            };
            a <= r && b <= r && a + b > r
        }),
    ensures
        !(refunded_total_after(paid, existing, a) is Some && refunded_total_after(
            paid,
            refunded_total_after(paid, existing, a),
            b,
        ) is Some),
        !(refunded_total_after(paid, existing, b) is Some && refunded_total_after(
            paid,
            refunded_total_after(paid, existing, b),
            a,
        ) is Some),
{
}

} // verus!
