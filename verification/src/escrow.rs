//! The life of an order: opened unpaid, paid by a settled invoice, then
//! awarded to the seller or canceled by either side; or, if it is never paid,
//! deleted when it expires.
//!
//! Every transition is a guarded update: it changes the rows that match the
//! key and are in a state from which the transition is allowed, and no others.

use crate::error::LedgerError;
use crate::models::{Case, CaseView};
use crate::store::{MAX_STORED, Store, StoreModel};
use crate::table::{
    count, count_where, first, is_key, lemma_count_le, lemma_filter_embeds, lemma_keyed_len,
    lemma_keyed_push, lemma_keyed_unique, lemma_keyed_updated, lemma_keyed_without,
    lemma_updated_none, position_where, remove_where, select_where, update_where, updated, views,
    without,
};
use vstd::prelude::*;

verus! {

impl CaseView {
    /// Whether the order may be awarded: it is paid and not yet closed.
    pub open spec fn can_award(self) -> bool {
        self.paid && !self.closed()
    }

    /// Whether the order may be canceled: it is not yet closed.
    pub open spec fn can_cancel(self) -> bool {
        !self.closed()
    }

    /// The order with the key `id`.
    pub open spec fn with_id(self, id: i32) -> CaseView {
        CaseView { id: Some(id), ..self }
    }

    /// The order once it is paid at time `now`.
    pub open spec fn settled(self, now: u64) -> CaseView {
        CaseView { paid: true, payment_time_ms: now, ..self }
    }

    /// The order once it is awarded: its details are cleared.
    pub open spec fn award(self) -> CaseView {
        CaseView { awarded: true, case_details: Seq::empty(), ..self }
    }

    /// The order once the seller has canceled it: its details are cleared.
    pub open spec fn cancel_by_seller(self) -> CaseView {
        CaseView { canceled_by_seller: true, case_details: Seq::empty(), ..self }
    }

    /// The order once the buyer has canceled it: its details are cleared.
    pub open spec fn cancel_by_buyer(self) -> CaseView {
        CaseView { canceled_by_buyer: true, case_details: Seq::empty(), ..self }
    }
}

/// The unpaid orders of the buyer `buyer`.
pub open spec fn unpaid_of(buyer: i32) -> spec_fn(CaseView) -> bool {
    |c: CaseView| c.buyer_user_id == buyer && !c.paid
}

impl Case {
    /// What [`Case::insert`] answers: the key of the new row, unless the table
    /// is full or the buyer, the new order counted, would have more than
    /// `max_unpaid_cases` unpaid orders.
    pub open spec fn insert_result(db: StoreModel, case: CaseView, max_unpaid_cases: u32) -> Result<
        i32,
        LedgerError,
    > {
        if db.next_case_id == i32::MAX {
            Err(LedgerError::StoreFull)
        } else if count(
            db.cases.push(case.with_id(db.next_case_id)),
            unpaid_of(case.buyer_user_id),
        ) > max_unpaid_cases {
            Err(LedgerError::TooManyUnpaidCases)
        } else {
            Ok(db.next_case_id)
        }
    }

    /// Opens an order. The row gets the table's next key, whatever `case.id`
    /// holds. The buyer's unpaid orders are counted with the new row among
    /// them, and the order is refused if they are more than
    /// `max_unpaid_cases`: exactly `max_unpaid_cases` are allowed.
    pub fn insert(case: Case, max_unpaid_cases: u32, db: &mut Store) -> (r: Result<
        i32,
        LedgerError,
    >)
        requires
            old(db).wf(),
            case@.wf(),
        ensures
            final(db).wf(),
            r == Case::insert_result(old(db)@, case@, max_unpaid_cases),
            match r {
                Ok(id) => final(db)@ == (StoreModel {
                    cases: old(db)@.cases.push(case@.with_id(id)),
                    next_case_id: (id + 1) as i32,
                    ..old(db)@
                }),
                Err(_) => final(db)@ == old(db)@,
            },
            old(db)@.closed_cases_paid() && (case@.closed() ==> case@.paid)
                ==> final(db)@.closed_cases_paid(),
    {
        if db.next_case_id == i32::MAX {
            return Err(LedgerError::StoreFull);
        }
        let id: i32 = db.next_case_id;
        let buyer: i32 = case.buyer_user_id;
        let mut row = case;
        row.id = Some(id);
        let test = |c: &Case| -> (b: bool)
            ensures
                b == unpaid_of(buyer)(c@),
            { c.buyer_user_id == buyer && !c.paid };
        let others: usize = count_where(&db.cases, test, Ghost(unpaid_of(buyer)));
        let own: usize = if row.paid {
            0
        } else {
            1
        };
        proof {
            db@.cases.lemma_filter_push(row@, unpaid_of(buyer));
            db@.cases.lemma_filter_len(unpaid_of(buyer));
        }
        if others as u128 + own as u128 > max_unpaid_cases as u128 {
            return Err(LedgerError::TooManyUnpaidCases);
        }
        proof {
            lemma_keyed_push(db@.cases, |c: CaseView| c.id, db@.next_case_id, row@);
            assert(views(db.cases@.push(row)) =~= db@.cases.push(row@));
        }
        db.cases.push(row);
        db.next_case_id = id + 1;
        Ok(id)
    }

    /// The order with the key `id`.
    pub fn single(db: &Store, id: i32) -> (r: Result<Case, LedgerError>)
        ensures
            match first(db@.cases, case_with_id(id)) {
                Some(row) => r is Ok && r->Ok_0@ == row,
                None => r == Err::<Case, LedgerError>(LedgerError::RowNotFound),
            },
    {
        let test = |c: &Case| -> (b: bool)
            ensures
                b == case_with_id(id)(c@),
            { is_key(c.id, id) };
        match position_where(&db.cases, test, Ghost(case_with_id(id))) {
            Some(i) => Ok(db.cases[i].clone()),
            None => Err(LedgerError::RowNotFound),
        }
    }

    /// The first order with the public identifier `public_id`.
    pub fn single_by_public_id(db: &Store, public_id: &str) -> (r: Result<Case, LedgerError>)
        ensures
            match first(db@.cases, case_with_public_id(public_id@)) {
                Some(row) => r is Ok && r->Ok_0@ == row,
                None => r == Err::<Case, LedgerError>(LedgerError::RowNotFound),
            },
    {
        let key = public_id.to_owned();
        let test = |c: &Case| -> (b: bool)
            ensures
                b == case_with_public_id(public_id@)(c@),
            { c.public_id == key };
        match position_where(&db.cases, test, Ghost(case_with_public_id(public_id@))) {
            Some(i) => Ok(db.cases[i].clone()),
            None => Err(LedgerError::RowNotFound),
        }
    }

    /// The first order whose invoice has the hash `invoice_hash`.
    pub fn single_by_invoice_hash(db: &Store, invoice_hash: &str) -> (r: Result<
        Case,
        LedgerError,
    >)
        ensures
            match first(db@.cases, case_with_invoice(invoice_hash@)) {
                Some(row) => r is Ok && r->Ok_0@ == row,
                None => r == Err::<Case, LedgerError>(LedgerError::RowNotFound),
            },
    {
        let key = invoice_hash.to_owned();
        let test = |c: &Case| -> (b: bool)
            ensures
                b == case_with_invoice(invoice_hash@)(c@),
            { c.invoice_hash == key };
        match position_where(&db.cases, test, Ghost(case_with_invoice(invoice_hash@))) {
            Some(i) => Ok(db.cases[i].clone()),
            None => Err(LedgerError::RowNotFound),
        }
    }

    /// The unpaid orders that were opened before `created_time_ms`, in the
    /// order of the table.
    pub fn all_older_than(db: &Store, created_time_ms: u64) -> (found: Vec<Case>)
        ensures
            views(found@) == db@.cases.filter(case_expired(created_time_ms)),
    {
        let test = |c: &Case| -> (b: bool)
            ensures
                b == case_expired(created_time_ms)(c@),
            { c.created_time_ms < created_time_ms && !c.paid };
        let copy = |c: &Case| -> (r: Case)
            ensures
                r@ == c@,
            { c.clone() };
        select_where(&db.cases, test, copy, Ghost(case_expired(created_time_ms)))
    }

    /// Marks the order with the key `case_id` as paid at `time_now_ms`, and
    /// says how many rows it changed. An order that is paid already keeps its
    /// payment time: a second settlement of one invoice changes nothing.
    pub fn mark_as_paid(db: &mut Store, case_id: i32, time_now_ms: u64) -> (changed: usize)
        requires
            old(db).wf(),
            time_now_ms <= MAX_STORED,
        ensures
            final(db).wf(),
            final(db)@ == (StoreModel {
                cases: updated(
                    old(db)@.cases,
                    case_unpaid_with_id(case_id),
                    |c: CaseView| c.settled(time_now_ms),
                ),
                ..old(db)@
            }),
            changed == count(old(db)@.cases, case_unpaid_with_id(case_id)),
            changed <= 1,
            old(db)@.closed_cases_paid() ==> final(db)@.closed_cases_paid(),
    {
        let ghost hit = case_unpaid_with_id(case_id);
        let ghost to = |c: CaseView| c.settled(time_now_ms);
        let test = |c: &Case| -> (b: bool)
            ensures
                b == case_unpaid_with_id(case_id)(c@),
            { is_key(c.id, case_id) && !c.paid };
        let change = |c: &Case| -> (r: Case)
            ensures
                r@ == c@.settled(time_now_ms),
            {
                let mut row = c.clone();
                row.paid = true;
                row.payment_time_ms = time_now_ms;
                row
            };
        proof {
            lemma_keyed_updated(db@.cases, |c: CaseView| c.id, db@.next_case_id, hit, to);
            lemma_at_most_one(db@, case_id, hit);
        }
        update_where(&mut db.cases, test, change, Ghost(hit), Ghost(to))
    }

    /// Awards the order with the key `case_id` to its seller and clears its
    /// details. Only a paid order that is not yet closed can be awarded; on
    /// any other, and where no order has the key, nothing changes and the
    /// transition is rejected.
    pub fn mark_as_awarded(db: &mut Store, case_id: i32) -> (r: Result<(), LedgerError>)
        requires
            old(db).wf(),
        ensures
            final(db).wf(),
            final(db)@ == (StoreModel {
                cases: updated(
                    old(db)@.cases,
                    case_awardable_with_id(case_id),
                    |c: CaseView| c.award(),
                ),
                ..old(db)@
            }),
            r == transition_result(count(old(db)@.cases, case_awardable_with_id(case_id))),
            count(old(db)@.cases, case_awardable_with_id(case_id)) <= 1,
            r is Err ==> final(db)@ == old(db)@,
            old(db)@.closed_cases_paid() ==> final(db)@.closed_cases_paid(),
    {
        let ghost hit = case_awardable_with_id(case_id);
        let ghost to = |c: CaseView| c.award();
        let test = |c: &Case| -> (b: bool)
            ensures
                b == case_awardable_with_id(case_id)(c@),
            { is_key(c.id, case_id) && c.paid && !is_closed(c) };
        let change = |c: &Case| -> (r: Case)
            ensures
                r@ == c@.award(),
            {
                let mut row = c.clone();
                row.awarded = true;
                row.case_details = String::new();
                row
            };
        proof {
            lemma_keyed_updated(db@.cases, |c: CaseView| c.id, db@.next_case_id, hit, to);
            lemma_at_most_one(db@, case_id, hit);
            if count(db@.cases, hit) == 0 {
                lemma_updated_none(db@.cases, hit, to);
            }
        }
        let changed: usize = update_where(&mut db.cases, test, change, Ghost(hit), Ghost(to));
        if changed == 0 {
            Err(LedgerError::TransitionRejected)
        } else {
            Ok(())
        }
    }

    /// Cancels the order with the key `case_id` on the seller's side and
    /// clears its details. An order that is not yet closed can be canceled,
    /// paid or not; on any other, and where no order has the key, nothing
    /// changes and the transition is rejected.
    pub fn mark_as_canceled_by_seller(db: &mut Store, case_id: i32) -> (r: Result<
        (),
        LedgerError,
    >)
        requires
            old(db).wf(),
        ensures
            final(db).wf(),
            final(db)@ == (StoreModel {
                cases: updated(
                    old(db)@.cases,
                    case_open_with_id(case_id),
                    |c: CaseView| c.cancel_by_seller(),
                ),
                ..old(db)@
            }),
            r == transition_result(count(old(db)@.cases, case_open_with_id(case_id))),
            count(old(db)@.cases, case_open_with_id(case_id)) <= 1,
            r is Err ==> final(db)@ == old(db)@,
            old(db)@.closed_cases_paid() && count(old(db)@.cases, case_unpaid_with_id(case_id))
                == 0 ==> final(db)@.closed_cases_paid(),
    {
        let ghost hit = case_open_with_id(case_id);
        let ghost to = |c: CaseView| c.cancel_by_seller();
        let test = |c: &Case| -> (b: bool)
            ensures
                b == case_open_with_id(case_id)(c@),
            { is_key(c.id, case_id) && !is_closed(c) };
        let change = |c: &Case| -> (r: Case)
            ensures
                r@ == c@.cancel_by_seller(),
            {
                let mut row = c.clone();
                row.canceled_by_seller = true;
                row.case_details = String::new();
                row
            };
        proof {
            lemma_keyed_updated(db@.cases, |c: CaseView| c.id, db@.next_case_id, hit, to);
            lemma_at_most_one(db@, case_id, hit);
            lemma_none_unpaid(db@.cases, case_id);
            if count(db@.cases, hit) == 0 {
                lemma_updated_none(db@.cases, hit, to);
            }
        }
        let changed: usize = update_where(&mut db.cases, test, change, Ghost(hit), Ghost(to));
        if changed == 0 {
            Err(LedgerError::TransitionRejected)
        } else {
            Ok(())
        }
    }

    /// Cancels the order with the key `case_id` on the buyer's side and
    /// clears its details. An order that is not yet closed can be canceled,
    /// paid or not; on any other, and where no order has the key, nothing
    /// changes and the transition is rejected.
    pub fn mark_as_canceled_by_buyer(db: &mut Store, case_id: i32) -> (r: Result<
        (),
        LedgerError,
    >)
        requires
            old(db).wf(),
        ensures
            final(db).wf(),
            final(db)@ == (StoreModel {
                cases: updated(
                    old(db)@.cases,
                    case_open_with_id(case_id),
                    |c: CaseView| c.cancel_by_buyer(),
                ),
                ..old(db)@
            }),
            r == transition_result(count(old(db)@.cases, case_open_with_id(case_id))),
            count(old(db)@.cases, case_open_with_id(case_id)) <= 1,
            r is Err ==> final(db)@ == old(db)@,
            old(db)@.closed_cases_paid() && count(old(db)@.cases, case_unpaid_with_id(case_id))
                == 0 ==> final(db)@.closed_cases_paid(),
    {
        let ghost hit = case_open_with_id(case_id);
        let ghost to = |c: CaseView| c.cancel_by_buyer();
        let test = |c: &Case| -> (b: bool)
            ensures
                b == case_open_with_id(case_id)(c@),
            { is_key(c.id, case_id) && !is_closed(c) };
        let change = |c: &Case| -> (r: Case)
            ensures
                r@ == c@.cancel_by_buyer(),
            {
                let mut row = c.clone();
                row.canceled_by_buyer = true;
                row.case_details = String::new();
                row
            };
        proof {
            lemma_keyed_updated(db@.cases, |c: CaseView| c.id, db@.next_case_id, hit, to);
            lemma_at_most_one(db@, case_id, hit);
            lemma_none_unpaid(db@.cases, case_id);
            if count(db@.cases, hit) == 0 {
                lemma_updated_none(db@.cases, hit, to);
            }
        }
        let changed: usize = update_where(&mut db.cases, test, change, Ghost(hit), Ghost(to));
        if changed == 0 {
            Err(LedgerError::TransitionRejected)
        } else {
            Ok(())
        }
    }

    /// Deletes the order with the key `case_id` if it is still unpaid, and
    /// says how many rows it deleted. An order that was paid in the meantime
    /// stays.
    pub fn delete_expired_case(db: &mut Store, case_id: i32) -> (deleted: usize)
        requires
            old(db).wf(),
        ensures
            final(db).wf(),
            final(db)@ == (StoreModel {
                cases: without(old(db)@.cases, case_unpaid_with_id(case_id)),
                ..old(db)@
            }),
            deleted == count(old(db)@.cases, case_unpaid_with_id(case_id)),
            deleted <= 1,
            old(db)@.closed_cases_paid() ==> final(db)@.closed_cases_paid(),
    {
        let ghost doomed = case_unpaid_with_id(case_id);
        let test = |c: &Case| -> (b: bool)
            ensures
                b == case_unpaid_with_id(case_id)(c@),
            { is_key(c.id, case_id) && !c.paid };
        proof {
            lemma_keyed_without(db@.cases, |c: CaseView| c.id, db@.next_case_id, doomed);
            lemma_at_most_one(db@, case_id, doomed);
            lemma_filter_embeds(db@.cases, |c: CaseView| !doomed(c));
        }
        remove_where(&mut db.cases, test, Ghost(doomed))
    }

    /// How many paid orders wait for the seller `user_id` to award or cancel
    /// them.
    pub fn num_processing_for_user(db: &Store, user_id: i32) -> (n: u32)
        requires
            db.wf(),
        ensures
            n == count(db@.cases, case_processing_for(user_id)),
    {
        let test = |c: &Case| -> (b: bool)
            ensures
                b == case_processing_for(user_id)(c@),
            { c.paid && !is_closed(c) && c.seller_user_id == user_id };
        proof {
            lemma_keyed_len(db@.cases, |c: CaseView| c.id, db@.next_case_id);
            db@.cases.lemma_filter_len(case_processing_for(user_id));
        }
        let n: usize = count_where(&db.cases, test, Ghost(case_processing_for(user_id)));
        n as u32
    }
}

/// What a guarded transition answers when it has changed `changed` rows: it
/// is rejected where it changed none.
pub open spec fn transition_result(changed: nat) -> Result<(), LedgerError> {
    if changed == 0 {
        Err(LedgerError::TransitionRejected)
    } else {
        Ok(())
    }
}

/// The order with the key `id`.
pub open spec fn case_with_id(id: i32) -> spec_fn(CaseView) -> bool {
    |c: CaseView| c.id == Some(id)
}

/// The orders with the public identifier `public_id`.
pub open spec fn case_with_public_id(public_id: Seq<char>) -> spec_fn(CaseView) -> bool {
    |c: CaseView| c.public_id == public_id
}

/// The orders whose invoice has the hash `invoice_hash`.
pub open spec fn case_with_invoice(invoice_hash: Seq<char>) -> spec_fn(CaseView) -> bool {
    |c: CaseView| c.invoice_hash == invoice_hash
}

/// The unpaid orders that were opened before `cutoff`.
pub open spec fn case_expired(cutoff: u64) -> spec_fn(CaseView) -> bool {
    |c: CaseView| c.created_time_ms < cutoff && !c.paid
}

/// The order with the key `id`, if it is unpaid.
pub open spec fn case_unpaid_with_id(id: i32) -> spec_fn(CaseView) -> bool {
    |c: CaseView| c.id == Some(id) && !c.paid
}

/// The order with the key `id`, if it may be awarded.
pub open spec fn case_awardable_with_id(id: i32) -> spec_fn(CaseView) -> bool {
    |c: CaseView| c.id == Some(id) && c.can_award()
}

/// The order with the key `id`, if it may be canceled.
pub open spec fn case_open_with_id(id: i32) -> spec_fn(CaseView) -> bool {
    |c: CaseView| c.id == Some(id) && c.can_cancel()
}

/// The paid orders that wait for the seller `user_id` to award or cancel them.
pub open spec fn case_processing_for(user_id: i32) -> spec_fn(CaseView) -> bool {
    |c: CaseView| c.paid && !c.closed() && c.seller_user_id == user_id
}

/// Whether the order has reached one of its final states.
pub fn is_closed(case: &Case) -> (b: bool)
    ensures
        b == case@.closed(),
{
    case.awarded || case.canceled_by_seller || case.canceled_by_buyer
}

/// A selection that asks for the key `id` selects at most one order.
pub proof fn lemma_at_most_one(db: StoreModel, id: i32, hit: spec_fn(CaseView) -> bool)
    requires
        db.wf(),
        forall|c: CaseView| #[trigger] hit(c) ==> c.id == Some(id),
    ensures
        count(db.cases, hit) <= 1,
{
    let by_id = |c: CaseView| (|c: CaseView| c.id)(c) == Some(id);
    lemma_keyed_unique(db.cases, |c: CaseView| c.id, db.next_case_id, id);
    lemma_count_le(db.cases, hit, by_id);
}

/// Where no unpaid order has the key `id`, every order with that key is paid.
pub proof fn lemma_none_unpaid(cases: Seq<CaseView>, id: i32)
    ensures
        count(cases, case_unpaid_with_id(id)) == 0 ==> forall|i: int|
            0 <= i < cases.len() && (#[trigger] cases[i]).id == Some(id) ==> cases[i].paid,
{
    if count(cases, case_unpaid_with_id(id)) == 0 {
        assert forall|i: int| 0 <= i < cases.len() && (#[trigger] cases[i]).id == Some(
            id,
        ) implies cases[i].paid by {
            if !cases[i].paid {
                cases.lemma_filter_contains(case_unpaid_with_id(id), i);
            }
        }
    }
}

} // verus!
