//! What the users of an order may do with it: the seller awards or cancels,
//! the buyer cancels. Each request names the order by its public identifier
//! and is checked against the user who makes it before the transition is
//! tried.

use crate::error::LedgerError;
use crate::escrow::{
    case_awardable_with_id, case_open_with_id, case_unpaid_with_id, case_with_public_id,
    transition_result,
};
use crate::models::{Case, CaseView};
use crate::store::{Store, StoreModel};
use crate::table::{count, first, lemma_filter_embeds, lemma_none_selected, updated};
use vstd::prelude::*;

verus! {

/// Who asks for a transition of an order.
#[derive(Debug, Clone, Copy, PartialEq, Eq, Structural)]
pub enum Party {
    /// The order's seller.
    Seller,
    /// The order's buyer.
    Buyer,
}

/// Why the user `user_id` may not close the order `c` as `party`, if there is
/// a reason: the user is not that party of the order, or the order is closed
/// already.
pub open spec fn refusal(c: CaseView, user_id: i32, party: Party) -> Option<LedgerError> {
    if (party == Party::Seller && c.seller_user_id != user_id) || (party == Party::Buyer
        && c.buyer_user_id != user_id) {
        Some(LedgerError::NotOwner)
    } else if c.awarded {
        Some(LedgerError::AlreadyAwarded)
    } else if c.canceled_by_seller || c.canceled_by_buyer {
        Some(LedgerError::AlreadyCanceled)
    } else {
        None
    }
}

/// What [`mark_case_as_awarded`] answers.
pub open spec fn award_result(db: StoreModel, case_id: Seq<char>, user_id: i32) -> Result<
    (),
    LedgerError,
> {
    match first(db.cases, case_with_public_id(case_id)) {
        None => Err(LedgerError::RowNotFound),
        Some(c) => match refusal(c, user_id, Party::Seller) {
            Some(e) => Err(e),
            None => match c.id {
                None => Err(LedgerError::RowNotFound),
                Some(id) => transition_result(count(db.cases, case_awardable_with_id(id))),
            },
        },
    }
}

/// What [`mark_case_as_canceled_by_seller`] and
/// [`mark_case_as_canceled_by_buyer`] answer.
pub open spec fn cancel_result(db: StoreModel, case_id: Seq<char>, user_id: i32, party: Party) -> Result<
    (),
    LedgerError,
> {
    match first(db.cases, case_with_public_id(case_id)) {
        None => Err(LedgerError::RowNotFound),
        Some(c) => match refusal(c, user_id, party) {
            Some(e) => Err(e),
            None => match c.id {
                None => Err(LedgerError::RowNotFound),
                Some(id) => transition_result(count(db.cases, case_open_with_id(id))),
            },
        },
    }
}

/// The key of the first order with the public identifier `public_id`.
pub open spec fn key_of(db: StoreModel, public_id: Seq<char>) -> i32 {
    first(db.cases, case_with_public_id(public_id)).unwrap().id.unwrap()
}

/// Why the user may not close the order as `party`, if there is a reason.
fn check(case: &Case, user_id: i32, party: Party) -> (r: Option<LedgerError>)
    ensures
        r == refusal(case@, user_id, party),
{
    let owner: i32 = match party {
        Party::Seller => case.seller_user_id,
        Party::Buyer => case.buyer_user_id,
    };
    if owner != user_id {
        Some(LedgerError::NotOwner)
    } else if case.awarded {
        Some(LedgerError::AlreadyAwarded)
    } else if case.canceled_by_seller || case.canceled_by_buyer {
        Some(LedgerError::AlreadyCanceled)
    } else {
        None
    }
}

/// The seller `user_id` awards the order with the public identifier
/// `case_id`. The request is refused where there is no such order, where the
/// user is not its seller, where it is awarded or canceled already, and where
/// it is not paid yet. A refused request changes nothing.
pub fn mark_case_as_awarded(case_id: &str, db: &mut Store, user_id: i32) -> (r: Result<
    (),
    LedgerError,
>)
    requires
        old(db).wf(),
    ensures
        final(db).wf(),
        r == award_result(old(db)@, case_id@, user_id),
        match r {
            Ok(_) => final(db)@ == (StoreModel {
                cases: updated(
                    old(db)@.cases,
                    case_awardable_with_id(key_of(old(db)@, case_id@)),
                    |c: CaseView| c.award(),
                ),
                ..old(db)@
            }),
            Err(_) => final(db)@ == old(db)@,
        },
        old(db)@.closed_cases_paid() ==> final(db)@.closed_cases_paid(),
{
    let case = match Case::single_by_public_id(db, case_id) {
        Ok(case) => case,
        Err(_) => { return Err(LedgerError::RowNotFound); },
    };
    match check(&case, user_id, Party::Seller) {
        Some(e) => { return Err(e); },
        None => {},
    }
    match case.id {
        Some(id) => Case::mark_as_awarded(db, id),
        None => Err(LedgerError::RowNotFound),
    }
}

/// The seller `user_id` cancels the order with the public identifier
/// `case_id`. The request is refused where there is no such order, where the
/// user is not its seller, and where it is awarded or canceled already. A
/// refused request changes nothing.
pub fn mark_case_as_canceled_by_seller(case_id: &str, db: &mut Store, user_id: i32) -> (r: Result<
    (),
    LedgerError,
>)
    requires
        old(db).wf(),
    ensures
        final(db).wf(),
        r == cancel_result(old(db)@, case_id@, user_id, Party::Seller),
        match r {
            Ok(_) => final(db)@ == (StoreModel {
                cases: updated(
                    old(db)@.cases,
                    case_open_with_id(key_of(old(db)@, case_id@)),
                    |c: CaseView| c.cancel_by_seller(),
                ),
                ..old(db)@
            }),
            Err(_) => final(db)@ == old(db)@,
        },
        old(db)@.closed_cases_paid() && (match first(
            old(db)@.cases,
            case_with_public_id(case_id@),
        ) {
            Some(c) => c.paid,
            None => true,
        }) ==> final(db)@.closed_cases_paid(),
{
    let case = match Case::single_by_public_id(db, case_id) {
        Ok(case) => case,
        Err(_) => { return Err(LedgerError::RowNotFound); },
    };
    match check(&case, user_id, Party::Seller) {
        Some(e) => { return Err(e); },
        None => {},
    }
    match case.id {
        Some(id) => {
            proof {
                lemma_paid_has_no_unpaid(db@, case@, id);
            }
            Case::mark_as_canceled_by_seller(db, id)
        },
        None => Err(LedgerError::RowNotFound),
    }
}

/// The buyer `user_id` cancels the order with the public identifier
/// `case_id`. The request is refused where there is no such order, where the
/// user is not its buyer, and where it is awarded or canceled already. A
/// refused request changes nothing.
pub fn mark_case_as_canceled_by_buyer(case_id: &str, db: &mut Store, user_id: i32) -> (r: Result<
    (),
    LedgerError,
>)
    requires
        old(db).wf(),
    ensures
        final(db).wf(),
        r == cancel_result(old(db)@, case_id@, user_id, Party::Buyer),
        match r {
            Ok(_) => final(db)@ == (StoreModel {
                cases: updated(
                    old(db)@.cases,
                    case_open_with_id(key_of(old(db)@, case_id@)),
                    |c: CaseView| c.cancel_by_buyer(),
                ),
                ..old(db)@
            }),
            Err(_) => final(db)@ == old(db)@,
        },
        old(db)@.closed_cases_paid() && (match first(
            old(db)@.cases,
            case_with_public_id(case_id@),
        ) {
            Some(c) => c.paid,
            None => true,
        }) ==> final(db)@.closed_cases_paid(),
{
    let case = match Case::single_by_public_id(db, case_id) {
        Ok(case) => case,
        Err(_) => { return Err(LedgerError::RowNotFound); },
    };
    match check(&case, user_id, Party::Buyer) {
        Some(e) => { return Err(e); },
        None => {},
    }
    match case.id {
        Some(id) => {
            proof {
                lemma_paid_has_no_unpaid(db@, case@, id);
            }
            Case::mark_as_canceled_by_buyer(db, id)
        },
        None => Err(LedgerError::RowNotFound),
    }
}

/// Where a paid order of the store has the key `id`, no unpaid order has it.
pub proof fn lemma_paid_has_no_unpaid(db: StoreModel, c: CaseView, id: i32)
    requires
        db.wf(),
        first(db.cases, case_with_public_id(c.public_id)) == Some(c),
        c.id == Some(id),
    ensures
        c.paid ==> count(db.cases, case_unpaid_with_id(id)) == 0,
{
    if c.paid {
        let key = |c: CaseView| c.id;
        lemma_filter_embeds(db.cases, case_with_public_id(c.public_id));
        let at = choose|k: int|
            0 <= k < db.cases.len() && db.cases[k] == db.cases.filter(
                case_with_public_id(c.public_id),
            )[0];
        assert(db.cases[at] == c);
        assert forall|i: int| 0 <= i < db.cases.len() implies !case_unpaid_with_id(id)(
            #[trigger] db.cases[i],
        ) by {
            if i < at {
                assert(key(db.cases[i]).unwrap() < key(db.cases[at]).unwrap());
            } else if i > at {
                assert(key(db.cases[at]).unwrap() < key(db.cases[i]).unwrap());
            }
        }
        lemma_none_selected(db.cases, case_unpaid_with_id(id));
    }
}

} // verus!
