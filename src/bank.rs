//! The ledger of payments and refund records, and its invariants.

use vstd::prelude::*;
use crate::external::{fresh_id, now_timestamp};
use crate::rules::{decide_refund, prior_total, refund_decision_of, LedgerError, RefundDecision};
use crate::model::{CustomError, Payment, Refund, Status};

verus! {

/// No two payments share an identifier, and none has the nil one.
pub open spec fn payment_ids_unique(ps: Seq<Payment>) -> bool {
    &&& forall|i: int| 0 <= i < ps.len() ==> ps[i].id != 0
    &&& forall|i: int, j: int| 0 <= i < j < ps.len() ==> ps[i].id != ps[j].id
}

/// No two approved payments were made with the same card.
pub open spec fn approved_cards_unique(ps: Seq<Payment>) -> bool {
    forall|i: int, j: int|
        0 <= i < j < ps.len() && ps[i].status == Status::Approved && ps[j].status
            == Status::Approved ==> ps[i].card_number@ != ps[j].card_number@
}

/// At most one refund record per payment.
pub open spec fn one_refund_per_payment(rs: Seq<Refund>) -> bool {
    forall|i: int, j: int| 0 <= i < j < rs.len() ==> rs[i].payment_id != rs[j].payment_id
}

/// No two refund records share an identifier.
pub open spec fn refund_ids_unique(rs: Seq<Refund>) -> bool {
    forall|i: int, j: int| 0 <= i < j < rs.len() ==> rs[i].id != rs[j].id
}

pub open spec fn refund_id_used(rs: Seq<Refund>, id: u128) -> bool {
    exists|i: int| 0 <= i < rs.len() && rs[i].id == id
}

/// Every refund record belongs to a recorded, approved payment, is not
/// negative, and does not exceed what that payment paid.
pub open spec fn refunds_within_payments(ps: Seq<Payment>, rs: Seq<Refund>) -> bool {
    &&& forall|i: int| 0 <= i < rs.len() ==> id_used(ps, #[trigger] rs[i].payment_id)
    &&& forall|i: int, j: int|
        0 <= i < rs.len() && 0 <= j < ps.len() && ps[j].id == rs[i].payment_id ==> {
            &&& ps[j].status == Status::Approved
            &&& 0 <= rs[i].amount <= ps[j].amount
        }
}

/// Whether some approved payment was made with this card.
pub open spec fn card_used(ps: Seq<Payment>, card: Seq<char>) -> bool {
    exists|i: int| 0 <= i < ps.len() && ps[i].status == Status::Approved && ps[i].card_number@ == card
}

pub open spec fn id_used(ps: Seq<Payment>, id: u128) -> bool {
    exists|i: int| 0 <= i < ps.len() && ps[i].id == id
}

/// The payments and refund records of the service, held in memory.
pub struct Bank {
    payments: Vec<Payment>,
    refunds: Vec<Refund>,
}

impl Bank {
    pub closed spec fn payments_view(&self) -> Seq<Payment> {
        self.payments@
    }

    pub closed spec fn refunds_view(&self) -> Seq<Refund> {
        self.refunds@
    }

    pub open spec fn wf(&self) -> bool {
        &&& payment_ids_unique(self.payments_view())
        &&& approved_cards_unique(self.payments_view())
        &&& one_refund_per_payment(self.refunds_view())
        &&& refund_ids_unique(self.refunds_view())
        &&& refunds_within_payments(self.payments_view(), self.refunds_view())
    }

    /// The status and amount of the payment with this identifier.
    pub open spec fn payment_terms(&self, id: u128) -> Option<(Status, i32)> {
        let ps = self.payments_view();
        if id_used(ps, id) {
            let i = choose|i: int| 0 <= i < ps.len() && ps[i].id == id;
            Some((ps[i].status, ps[i].amount))
        } else {
            None
        }
    }

    /// Where the refund record of this payment stands, when it has one.
    pub open spec fn refund_slot(&self, payment_id: u128) -> int {
        let rs = self.refunds_view();
        choose|i: int| 0 <= i < rs.len() && rs[i].payment_id == payment_id
    }

    /// The refunded total recorded for this payment.
    pub open spec fn refunded_total(&self, payment_id: u128) -> Option<i32> {
        let rs = self.refunds_view();
        if exists|i: int| 0 <= i < rs.len() && rs[i].payment_id == payment_id {
            let i = choose|i: int| 0 <= i < rs.len() && rs[i].payment_id == payment_id;
            Some(rs[i].amount)
        } else {
            None
        }
    }

    pub fn new() -> (r: Bank)
        ensures
            r.wf(),
            r.payments_view().len() == 0,
            r.refunds_view().len() == 0,
    {
        Bank { payments: Vec::new(), refunds: Vec::new() }
    }

    fn find_payment(&self, id: u128) -> (r: Option<usize>)
        ensures
            match r {
                Some(i) => i < self.payments_view().len() && self.payments_view()[i as int].id == id
                    && forall|j: int| 0 <= j < i ==> self.payments_view()[j].id != id,
                None => !id_used(self.payments_view(), id),
            },
    {
        let mut i: usize = 0;
        while i < self.payments.len()
            invariant
                i <= self.payments@.len(),
                forall|j: int| 0 <= j < i ==> self.payments@[j].id != id,
            decreases self.payments.len() - i,
        {
            if self.payments[i].id == id {
                return Some(i);
            }
            i = i + 1;
        }
        None
    }

    fn find_refund(&self, id: u128) -> (r: Option<usize>)
        ensures
            match r {
                Some(i) => i < self.refunds_view().len() && self.refunds_view()[i as int].id == id
                    && forall|j: int| 0 <= j < i ==> self.refunds_view()[j].id != id,
                None => !refund_id_used(self.refunds_view(), id),
            },
    {
        let mut i: usize = 0;
        while i < self.refunds.len()
            invariant
                i <= self.refunds@.len(),
                forall|j: int| 0 <= j < i ==> self.refunds@[j].id != id,
            decreases self.refunds.len() - i,
        {
            if self.refunds[i].id == id {
                return Some(i);
            }
            i = i + 1;
        }
        None
    }

    fn find_refund_of(&self, payment_id: u128) -> (r: Option<usize>)
        ensures
            match r {
                Some(i) => i < self.refunds_view().len() && self.refunds_view()[i as int].payment_id
                    == payment_id && forall|j: int|
                    0 <= j < i ==> self.refunds_view()[j].payment_id != payment_id,
                None => forall|j: int|
                    0 <= j < self.refunds_view().len() ==> self.refunds_view()[j].payment_id
                        != payment_id,
            },
    {
        let mut i: usize = 0;
        while i < self.refunds.len()
            invariant
                i <= self.refunds@.len(),
                forall|j: int| 0 <= j < i ==> self.refunds@[j].payment_id != payment_id,
            decreases self.refunds.len() - i,
        {
            if self.refunds[i].payment_id == payment_id {
                return Some(i);
            }
            i = i + 1;
        }
        None
    }

    /// Whether an approved payment was already made with this card.
    pub fn card_in_use(&self, card: &String) -> (r: bool)
        ensures
            r == card_used(self.payments_view(), card@),
    {
        let mut i: usize = 0;
        while i < self.payments.len()
            invariant
                i <= self.payments@.len(),
                forall|j: int|
                    0 <= j < i ==> !(self.payments@[j].status == Status::Approved
                        && self.payments@[j].card_number@ == card@),
            decreases self.payments.len() - i,
        {
            if self.payments[i].status == Status::Approved && self.payments[i].card_number == *card {
                return true;
            }
            i = i + 1;
        }
        false
    }

    /// Records an approved payment under `id` at time `now`. Refused where
    /// the card already paid for an approved payment, or where `id` is nil
    /// or already taken; a refusal leaves the ledger as it was.
    pub fn insert_payment_with(&mut self, id: u128, amount: i32, card_number: String, now: i64) -> (r:
        Result<Payment, LedgerError>)
        requires
            old(self).wf(),
            amount > 0,
        ensures
            final(self).wf(),
            final(self).refunds_view() == old(self).refunds_view(),
            card_used(old(self).payments_view(), card_number@) ==> r == Err::<
                Payment,
                LedgerError,
            >(LedgerError::DuplicateInstrument),
            !card_used(old(self).payments_view(), card_number@) && (id == 0 || id_used(
                old(self).payments_view(),
                id,
            )) ==> r == Err::<Payment, LedgerError>(LedgerError::IdTaken),
            r is Err ==> final(self).payments_view() == old(self).payments_view(),
            r is Ok <==> !card_used(old(self).payments_view(), card_number@) && id != 0
                && !id_used(old(self).payments_view(), id),
            r is Ok ==> {
                let p = r->Ok_0;
                &&& p.id == id && p.amount == amount && p.card_number@ == card_number@
                &&& p.status == Status::Approved && p.inserted_at == now && p.updated_at == now
                &&& final(self).payments_view() == old(self).payments_view().push(p)
                &&& card_used(final(self).payments_view(), card_number@)
                &&& final(self).payment_terms(id) == Some((Status::Approved, amount))
                &&& final(self).refunded_total(id) is None
            },
    {
        if self.card_in_use(&card_number) {
            return Err(LedgerError::DuplicateInstrument);
        }
        if id == 0 || self.find_payment(id).is_some() {
            return Err(LedgerError::IdTaken);
        }
        let p = Payment {
            id,
            amount,
            card_number,
            status: Status::Approved,
            inserted_at: now,
            updated_at: now,
        };
        let out = p.snapshot();
        let ghost ps = self.payments@;
        self.payments.push(p);
        proof {
            let ps2 = self.payments@;
            assert forall|i: int| 0 <= i < ps.len() implies ps2[i] == ps[i] by {}
            assert forall|i: int|
                0 <= i < self.refunds@.len() implies id_used(ps2, #[trigger] self.refunds@[i].payment_id) by {
                let j = choose|j: int| 0 <= j < ps.len() && ps[j].id == self.refunds@[i].payment_id;
                assert(ps2[j] == ps[j]);
            }
            let n = ps.len() as int;
            assert(ps2[n].id == id);
            let c = choose|c: int| 0 <= c < ps2.len() && ps2[c].id == id;
            assert(c == n);
            assert(ps2[n].status == Status::Approved);
            assert forall|i: int| 0 <= i < self.refunds@.len() implies self.refunds@[i].payment_id != id by {
                assert(id_used(ps, self.refunds@[i].payment_id));
            }
        }
        Ok(out)
    }

    /// The largest payment identifier, or zero on an empty ledger.
    fn max_payment_id(&self) -> (r: u128)
        ensures
            forall|i: int| 0 <= i < self.payments_view().len() ==> self.payments_view()[i].id <= r,
            r == u128::MAX ==> id_used(self.payments_view(), u128::MAX),
    {
        let mut m: u128 = 0;
        let mut i: usize = 0;
        while i < self.payments.len()
            invariant
                i <= self.payments@.len(),
                forall|j: int| 0 <= j < i ==> self.payments@[j].id <= m,
                m == 0 || exists|j: int| 0 <= j < i && self.payments@[j].id == m,
            decreases self.payments.len() - i,
        {
            if self.payments[i].id > m {
                m = self.payments[i].id;
            }
            i = i + 1;
        }
        m
    }

    /// Records an approved payment under a fresh random identifier, stamped
    /// with the current time. Refused where the card already paid for an
    /// approved payment. Where the drawn identifier is taken, the one past
    /// the largest in use is taken instead, so a payment with an unused card
    /// is refused only where some payment already holds the largest
    /// identifier.
    pub fn insert_payment(&mut self, amount: i32, card_number: String) -> (r: Result<Payment, LedgerError>)
        requires
            old(self).wf(),
            amount > 0,
        ensures
            final(self).wf(),
            final(self).refunds_view() == old(self).refunds_view(),
            card_used(old(self).payments_view(), card_number@) ==> r == Err::<
                Payment,
                LedgerError,
            >(LedgerError::DuplicateInstrument),
            !card_used(old(self).payments_view(), card_number@) ==> r != Err::<
                Payment,
                LedgerError,
            >(LedgerError::DuplicateInstrument),
            r is Err ==> final(self).payments_view() == old(self).payments_view(),
            !card_used(old(self).payments_view(), card_number@) && !id_used(
                old(self).payments_view(),
                u128::MAX,
            ) ==> r is Ok,
            r == Err::<Payment, LedgerError>(LedgerError::IdTaken) ==> id_used(
                old(self).payments_view(),
                u128::MAX,
            ),
            r is Ok ==> {
                let p = r->Ok_0;
                &&& p.amount == amount && p.card_number@ == card_number@
                &&& p.status == Status::Approved && p.id != 0
                &&& !id_used(old(self).payments_view(), p.id)
                &&& final(self).payments_view() == old(self).payments_view().push(p)
                &&& card_used(final(self).payments_view(), card_number@)
                &&& final(self).payment_terms(p.id) == Some((Status::Approved, amount))
                &&& final(self).refunded_total(p.id) is None
            },
    {
        let drawn = fresh_id();
        let id = if self.find_payment(drawn).is_none() {
            drawn
        } else {
            let m = self.max_payment_id();
            if m < u128::MAX {
                m + 1
            } else {
                drawn
            }
        };
        let now = now_timestamp();
        self.insert_payment_with(id, amount, card_number, now)
    }

    /// The decision for a refund request of `amount` against `payment_id`.
    pub open spec fn refund_decision(&self, payment_id: u128, amount: i32) -> RefundDecision {
        refund_decision_of(self.payment_terms(payment_id), self.refunded_total(payment_id), amount)
    }

    /// Applies a refund request of `amount` (a delta) to the payment's refund
    /// record, creating it under `refund_id` where the payment has none yet.
    /// The decision and the write happen under one exclusive borrow, so no
    /// other request against the payment comes between them.
    pub fn insert_with(&mut self, payment_id: u128, amount: i32, refund_id: u128, now: i64) -> (r:
        Result<Refund, CustomError>)
        requires
            old(self).wf(),
        ensures
            final(self).wf(),
            final(self).payments_view() == old(self).payments_view(),
            r is Err ==> final(self).refunds_view() == old(self).refunds_view(),
            r is Ok ==> final(self).refunded_total(payment_id) == Some(r->Ok_0.amount),
            match old(self).refund_decision(payment_id, amount) {
                RefundDecision::PaymentMissing => r is Err && r->Err_0 is PaymentNotExist
                    && r->Err_0->PaymentNotExist_code == 404,
                RefundDecision::PaymentNotApproved => r is Err && r->Err_0 is PaymentNotExist
                    && r->Err_0->PaymentNotExist_code == 404,
                RefundDecision::ExceedsRefundable => r is Err && r->Err_0 is AmoutRefundFailed
                    && r->Err_0->AmoutRefundFailed_code == 422,
                RefundDecision::Insert { total } => if refund_id_used(
                    old(self).refunds_view(),
                    refund_id,
                ) {
                    r is Err && r->Err_0 is IdTaken
                } else {
                    r == Ok::<Refund, CustomError>(
                        Refund { id: refund_id, payment_id, amount: total, inserted_at: now, updated_at: now },
                    ) && final(self).refunds_view() == old(self).refunds_view().push(r->Ok_0)
                },
                RefundDecision::Update { total } => {
                    let k = old(self).refund_slot(payment_id);
                    &&& 0 <= k < old(self).refunds_view().len()
                    &&& old(self).refunds_view()[k].payment_id == payment_id
                    &&& r == Ok::<Refund, CustomError>(
                        Refund { amount: total, updated_at: now, ..old(self).refunds_view()[k] },
                    )
                    &&& final(self).refunds_view() == old(self).refunds_view().update(k, r->Ok_0)
                },
            },
    {
        let ghost ps = self.payments@;
        let ghost rs = self.refunds@;
        let found = self.find_payment(payment_id);
        let terms = match found {
            Some(i) => Some((self.payments[i].status, self.payments[i].amount)),
            None => None,
        };
        let slot = self.find_refund_of(payment_id);
        let existing = match slot {
            Some(k) => Some(self.refunds[k].amount),
            None => None,
        };
        proof {
            if let Some(i) = found {
                let c = choose|c: int| 0 <= c < ps.len() && ps[c].id == payment_id;
                assert(ps[i as int].id == payment_id);
                assert(c == i as int);
            }
            if let Some(k) = slot {
                let c = choose|c: int| 0 <= c < rs.len() && rs[c].payment_id == payment_id;
                assert(rs[k as int].payment_id == payment_id);
                assert(c == k as int);
            }
            assert(terms == self.payment_terms(payment_id));
            assert(existing == self.refunded_total(payment_id));
        }
        match decide_refund(terms, existing, amount) {
            RefundDecision::PaymentMissing => Err(
                CustomError::PaymentNotExist {
                    code: 404,
                    message: "Failed to refund the amount: no such payment".to_owned(),
                },
            ),
            RefundDecision::PaymentNotApproved => Err(
                CustomError::PaymentNotExist {
                    code: 404,
                    message: "Failed to refund the amount: the payment is not approved".to_owned(),
                },
            ),
            RefundDecision::ExceedsRefundable => Err(
                CustomError::AmoutRefundFailed {
                    code: 422,
                    message: "The amount is more than the refundable amount".to_owned(),
                },
            ),
            RefundDecision::Insert { total } => {
                if self.find_refund(refund_id).is_some() {
                    return Err(CustomError::IdTaken);
                }
                let rf = Refund { id: refund_id, payment_id, amount: total, inserted_at: now, updated_at: now };
                let i = found.unwrap();
                self.refunds.push(rf);
                proof {
                    let rs2 = self.refunds@;
                    assert(rs2[rs.len() as int] == rf);
                    assert forall|a: int| 0 <= a < rs.len() implies rs2[a] == rs[a] by {}
                    assert(id_used(ps, rs2[rs.len() as int].payment_id)) by {
                        assert(ps[i as int].id == payment_id);
                    }
                    assert forall|a: int, j: int|
                        0 <= a < rs2.len() && 0 <= j < ps.len() && ps[j].id == rs2[a].payment_id implies {
                        &&& ps[j].status == Status::Approved
                        &&& 0 <= rs2[a].amount <= ps[j].amount
                    } by {
                        if a == rs.len() {
                            assert(ps[i as int].id == payment_id);
                            assert(j == i as int);
                        }
                    }
                    let c = choose|c: int| 0 <= c < rs2.len() && rs2[c].payment_id == payment_id;
                    assert(rs2[c].payment_id == payment_id);
                    assert(c == rs.len() as int);
                    assert(!refund_id_used(rs, refund_id));
                    assert(self.refunds@ == rs.push(rf));
                }
                Ok(rf)
            },
            RefundDecision::Update { total } => {
                let k = slot.unwrap();
                let i = found.unwrap();
                let old_rf = self.refunds[k];
                let rf = Refund { amount: total, updated_at: now, ..old_rf };
                self.refunds[k] = rf;
                proof {
                    let rs2 = self.refunds@;
                    assert(rs2 == rs.update(k as int, rf));
                    assert forall|a: int| 0 <= a < rs.len() && a != k as int implies rs2[a] == rs[a] by {}
                    assert forall|a: int| 0 <= a < rs2.len() implies id_used(ps, #[trigger] rs2[a].payment_id) by {
                        if a == k as int {
                            assert(ps[i as int].id == payment_id);
                        }
                    }
                    assert forall|a: int, j: int|
                        0 <= a < rs2.len() && 0 <= j < ps.len() && ps[j].id == rs2[a].payment_id implies {
                        &&& ps[j].status == Status::Approved
                        &&& 0 <= rs2[a].amount <= ps[j].amount
                    } by {
                        if a == k as int {
                            assert(ps[i as int].id == payment_id);
                            assert(j == i as int);
                        }
                    }
                    let c = choose|c: int| 0 <= c < rs2.len() && rs2[c].payment_id == payment_id;
                    assert(rs2[c].payment_id == payment_id);
                    assert(c == k as int);
                    assert(rs[k as int].payment_id == payment_id);
                    assert(rf == (Refund { amount: total, updated_at: now, ..rs[k as int] }));
                }
                Ok(rf)
            },
        }
    }

    /// Applies a refund request of `amount` (a delta) against `payment_id`,
    /// stamped with the current time; a new record gets a fresh random
    /// identifier. Only where that identifier is already taken, which an
    /// empty set of refund records rules out, is a due insertion refused.
    pub fn insert(&mut self, payment_id: u128, amount: i32) -> (r: Result<Refund, CustomError>)
        requires
            old(self).wf(),
        ensures
            final(self).wf(),
            final(self).payments_view() == old(self).payments_view(),
            r is Err ==> final(self).refunds_view() == old(self).refunds_view(),
            r is Ok ==> final(self).refunded_total(payment_id) == Some(r->Ok_0.amount),
            match old(self).refund_decision(payment_id, amount) {
                RefundDecision::PaymentMissing => r is Err && r->Err_0 is PaymentNotExist
                    && r->Err_0->PaymentNotExist_code == 404,
                RefundDecision::PaymentNotApproved => r is Err && r->Err_0 is PaymentNotExist
                    && r->Err_0->PaymentNotExist_code == 404,
                RefundDecision::ExceedsRefundable => r is Err && r->Err_0 is AmoutRefundFailed
                    && r->Err_0->AmoutRefundFailed_code == 422,
                RefundDecision::Insert { total } => (r is Ok && {
                    let rf = r->Ok_0;
                    &&& rf.payment_id == payment_id && rf.amount == total
                    &&& rf.inserted_at == rf.updated_at
                    &&& !refund_id_used(old(self).refunds_view(), rf.id)
                    &&& final(self).refunds_view() == old(self).refunds_view().push(rf)
                }) || (r is Err && r->Err_0 is IdTaken && old(self).refunds_view().len() > 0),
                RefundDecision::Update { total } => {
                    let k = old(self).refund_slot(payment_id);
                    &&& r is Ok
                    &&& 0 <= k < old(self).refunds_view().len()
                    &&& old(self).refunds_view()[k].payment_id == payment_id
                    &&& r->Ok_0 == (Refund {
                        amount: total,
                        updated_at: r->Ok_0.updated_at,
                        ..old(self).refunds_view()[k]
                    })
                    &&& final(self).refunds_view() == old(self).refunds_view().update(k, r->Ok_0)
                },
            },
    {
        let refund_id = fresh_id();
        let now = now_timestamp();
        self.insert_with(payment_id, amount, refund_id, now)
    }

    /// The payment with this identifier. A read: the ledger is unchanged.
    pub fn get_payment(&self, id: u128) -> (r: Option<Payment>)
        ensures
            match r {
                Some(p) => exists|i: int|
                    0 <= i < self.payments_view().len() && self.payments_view()[i] == p && p.id == id
                        && forall|j: int| 0 <= j < i ==> self.payments_view()[j].id != id,
                None => !id_used(self.payments_view(), id),
            },
    {
        match self.find_payment(id) {
            Some(i) => {
                let p = self.payments[i].snapshot();
                assert(self.payments_view()[i as int] == p);
                Some(p)
            },
            None => None,
        }
    }

    /// The refund record with this identifier. A read: the ledger is unchanged.
    pub fn get(&self, id: u128) -> (r: Option<Refund>)
        ensures
            match r {
                Some(rf) => exists|i: int|
                    0 <= i < self.refunds_view().len() && self.refunds_view()[i] == rf && rf.id == id
                        && forall|j: int| 0 <= j < i ==> self.refunds_view()[j].id != id,
                None => forall|i: int|
                    0 <= i < self.refunds_view().len() ==> self.refunds_view()[i].id != id,
            },
    {
        match self.find_refund(id) {
            Some(i) => {
                let rf = self.refunds[i];
                assert(self.refunds_view()[i as int] == rf);
                Some(rf)
            },
            None => None,
        }
    }

    /// The refund record of a payment, if any refund was made on it.
    pub fn get_payment_refund(&self, payment_id: u128) -> (r: Option<Refund>)
        ensures
            match r {
                Some(rf) => exists|i: int|
                    0 <= i < self.refunds_view().len() && self.refunds_view()[i] == rf
                        && rf.payment_id == payment_id && forall|j: int|
                        0 <= j < i ==> self.refunds_view()[j].payment_id != payment_id,
                None => forall|i: int|
                    0 <= i < self.refunds_view().len() ==> self.refunds_view()[i].payment_id
                        != payment_id,
            },
    {
        match self.find_refund_of(payment_id) {
            Some(i) => {
                let rf = self.refunds[i];
                assert(self.refunds_view()[i as int] == rf);
                Some(rf)
            },
            None => None,
        }
    }
}

/// Two refund requests of `a` and `b` against one payment, each within the
/// refundable balance but together beyond it. Once the ledger has applied
/// `a` (`after` is the ledger that `insert` leaves on success), `b` is
/// refused: the two cannot both succeed.
pub proof fn lemma_ledger_refuses_second_of_competing_refunds(
    before: Bank,
    after: Bank,
    payment_id: u128,
    a: i32,
    b: i32,
)
    requires
        before.payment_terms(payment_id) is Some,
        ({
            let paid = before.payment_terms(payment_id)->Some_0.1 as int;
            let r = paid - prior_total(before.refunded_total(payment_id));
            a <= r && b <= r && a + b > r
        }),
        after.payments_view() == before.payments_view(),
        before.refund_decision(payment_id, a) is Insert ==> after.refunded_total(payment_id) == Some(
            before.refund_decision(payment_id, a)->Insert_total,
        ),
        before.refund_decision(payment_id, a) is Update ==> after.refunded_total(payment_id) == Some(
            before.refund_decision(payment_id, a)->Update_total,
        ),
        before.refund_decision(payment_id, a) is Insert || before.refund_decision(payment_id, a) is Update,
    ensures
        !(after.refund_decision(payment_id, b) is Insert),
        !(after.refund_decision(payment_id, b) is Update),
{
}

} // verus!
