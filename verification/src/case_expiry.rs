//! The reaper of orders: it deletes the orders that were never paid and asks
//! for their invoices to be canceled.
//!
//! Deleting the row and canceling the invoice are not one transaction: the
//! backend takes no part in the store's. The reaper deletes the rows and hands
//! back the invoices to cancel; whether the backend then cancels them does not
//! bring a row back.

use crate::escrow::case_expired;
use crate::models::{Case, CaseView};
use crate::store::{Store, StoreModel};
use crate::table::{
    append_where, lemma_filter_embeds, lemma_keyed_without, remove_where, views, without,
};
use crate::util::{hex_bytes, is_hex_text, try_from_hex};
use vstd::prelude::*;

verus! {

/// The milliseconds after which an unpaid order expires: one day.
pub const ORDER_EXPIRY_INTERVAL_MS: u64 = 86400000;

/// The unpaid orders that were opened before `cutoff` and whose invoice hash
/// is hexadecimal text: those whose invoice can be named to the backend.
pub open spec fn case_to_cancel(cutoff: u64) -> spec_fn(CaseView) -> bool {
    |c: CaseView| case_expired(cutoff)(c) && is_hex_text(c.invoice_hash)
}

/// The hash of the invoice of the order `c`, as bytes.
pub open spec fn case_payment_hash() -> spec_fn(CaseView) -> Seq<u8> {
    |c: CaseView|
        if is_hex_text(c.invoice_hash) {
            hex_bytes(c.invoice_hash)
        } else {
            Seq::empty()
        }
}

/// The hash of the order's invoice as bytes; empty where it is no hexadecimal
/// text.
fn payment_hash_of(case: &Case) -> (hash: Vec<u8>)
    ensures
        hash@ == case_payment_hash()(case@),
{
    match try_from_hex(case.invoice_hash.as_str()) {
        Some(hash) => hash,
        None => Vec::new(),
    }
}

/// Deletes the order `case` if it is still unpaid, and hands back the hash of
/// its invoice for the backend to cancel; `None` where the hash is no
/// hexadecimal text. The invoice is to be canceled whether or not a row was
/// deleted.
pub fn remove_case(db: &mut Store, case: &Case) -> (cancel: Option<Vec<u8>>)
    requires
        old(db).wf(),
    ensures
        final(db).wf(),
        final(db)@ == (match case@.id {
            Some(id) => StoreModel {
                cases: without(old(db)@.cases, crate::escrow::case_unpaid_with_id(id)),
                ..old(db)@
            },
            None => old(db)@,
        }),
        cancel is Some <==> is_hex_text(case@.invoice_hash),
        cancel is Some ==> cancel->Some_0@ == hex_bytes(case@.invoice_hash),
{
    match case.id {
        Some(id) => {
            Case::delete_expired_case(db, id);
        },
        None => {},
    }
    try_from_hex(case.invoice_hash.as_str())
}

/// One sweep of the reaper at the time `now`: deletes every unpaid order that
/// was opened more than [`ORDER_EXPIRY_INTERVAL_MS`] before `now`, and hands
/// back, in the order of the table, the hashes of their invoices for the
/// backend to cancel. An order whose hash is no hexadecimal text is deleted
/// and has nothing to cancel. Paid orders, and orders opened at the cutoff or
/// later, stay.
pub fn remove_expired_cases(db: &mut Store, now: u64) -> (cancel: Vec<Vec<u8>>)
    requires
        old(db).wf(),
        now >= ORDER_EXPIRY_INTERVAL_MS,
    ensures
        final(db).wf(),
        final(db)@ == (StoreModel {
            cases: without(
                old(db)@.cases,
                case_expired((now - ORDER_EXPIRY_INTERVAL_MS) as u64),
            ),
            ..old(db)@
        }),
        views(cancel@) == old(db)@.cases.filter(
            case_to_cancel((now - ORDER_EXPIRY_INTERVAL_MS) as u64),
        ).map_values(case_payment_hash()),
        old(db)@.closed_cases_paid() ==> final(db)@.closed_cases_paid(),
{
    let expiry_cutoff: u64 = now - ORDER_EXPIRY_INTERVAL_MS;
    let mut cancel: Vec<Vec<u8>> = Vec::new();
    assert(views(cancel@) =~= Seq::<Seq<u8>>::empty());
    let to_cancel = |c: &Case| -> (b: bool)
        ensures
            b == case_to_cancel(expiry_cutoff)(c@),
        {
            c.created_time_ms < expiry_cutoff && !c.paid && try_from_hex(
                c.invoice_hash.as_str(),
            ).is_some()
        };
    let hash = |c: &Case| -> (h: Vec<u8>)
        ensures
            h@ == case_payment_hash()(c@),
        { payment_hash_of(c) };
    append_where(
        &mut cancel,
        &db.cases,
        to_cancel,
        hash,
        Ghost(case_to_cancel(expiry_cutoff)),
        Ghost(case_payment_hash()),
        Ghost(|c: CaseView| true),
    );
    let expired = |c: &Case| -> (b: bool)
        ensures
            b == case_expired(expiry_cutoff)(c@),
        { c.created_time_ms < expiry_cutoff && !c.paid };
    proof {
        lemma_keyed_without(
            db@.cases,
            |c: CaseView| c.id,
            db@.next_case_id,
            case_expired(expiry_cutoff),
        );
        lemma_filter_embeds(db@.cases, |c: CaseView| !case_expired(expiry_cutoff)(c));
    }
    remove_where(&mut db.cases, expired, Ghost(case_expired(expiry_cutoff)));
    cancel
}

} // verus!
