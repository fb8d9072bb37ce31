//! Balances and ledger events, derived from the records.
//!
//! No balance is stored. A user's balance is the sum of what the records give
//! and take: what the user's awarded orders credit to the user as seller, what
//! the user's canceled orders refund to the user as buyer, the user's paid
//! bond, less the user's withdrawals. A withdrawal counts from the moment its
//! row is inserted, before any funds are sent.

use crate::error::LedgerError;
use crate::escrow::{case_processing_for, is_closed};
use crate::models::{
    AccountBalanceChange, AccountBalanceChangeView, AccountInfo, AccountInfoView, Case, CaseView,
    UserAccount, UserAccountView, Withdrawal, WithdrawalView,
};
use crate::store::{Store, StoreModel};
use crate::table::{
    append_where, lemma_keyed_len, page, sort_desc, sorted_desc, sum, sum_where, take_page, views,
};
use vstd::prelude::*;

verus! {

/// What the order `c` adds to the balance of `user`: the seller's credit once
/// it is paid and awarded, and the buyer's refund once it is paid and canceled.
pub open spec fn case_delta(c: CaseView, user: i32) -> int {
    (if c.paid && c.awarded && c.seller_user_id == user {
        c.seller_credit_sat as int
    } else {
        0
    }) + (if c.paid && (c.canceled_by_seller || c.canceled_by_buyer) && c.buyer_user_id == user {
        c.amount_owed_sat as int
    } else {
        0
    })
}

/// What the withdrawal `w` takes from the balance of `user`.
pub open spec fn withdrawal_delta(w: WithdrawalView, user: i32) -> int {
    if w.user_id == user {
        -(w.amount_sat as int)
    } else {
        0
    }
}

/// What the activation `a` adds to the balance of `user`: the bond, once paid.
pub open spec fn activation_delta(a: UserAccountView, user: i32) -> int {
    if a.paid && a.user_id == user {
        a.amount_owed_sat as int
    } else {
        0
    }
}

/// The balance of `user`: the sum of what the orders, the withdrawals and the
/// activations add to it and take from it.
pub open spec fn balance(db: StoreModel, user: i32) -> int {
    sum(db.cases, |c: CaseView| case_delta(c, user)) + sum(
        db.withdrawals,
        |w: WithdrawalView| withdrawal_delta(w, user),
    ) + sum(db.user_accounts, |a: UserAccountView| activation_delta(a, user))
}

/// What the market holds for the order `c`: for a paid order the seller's
/// credit once awarded, the buyer's refund once canceled, and the amount in
/// escrow while it is neither.
pub open spec fn case_liability(c: CaseView) -> int {
    if !c.paid {
        0
    } else {
        (if c.awarded {
            c.seller_credit_sat as int
        } else {
            0
        }) + (if c.canceled_by_seller || c.canceled_by_buyer {
            c.amount_owed_sat as int
        } else {
            0
        }) + (if !c.closed() {
            c.amount_owed_sat as int
        } else {
            0
        })
    }
}

/// What the market owes in all: what it holds for every paid order and every
/// paid bond, less what has been withdrawn.
pub open spec fn market_liabilities(db: StoreModel) -> int {
    sum(db.cases, |c: CaseView| case_liability(c)) + sum(
        db.withdrawals,
        |w: WithdrawalView| -(w.amount_sat as int),
    ) + sum(
        db.user_accounts,
        |a: UserAccountView|
            if a.paid {
                a.amount_owed_sat as int
            } else {
                0
            },
    )
}

/// `total` as a 64-bit amount, if it is one.
pub open spec fn as_amount(total: int) -> Result<i64, LedgerError> {
    if i64::MIN <= total <= i64::MAX {
        Ok(total as i64)
    } else {
        Err(LedgerError::BalanceOverflow)
    }
}

/// `total` as a 64-bit amount, if it is one.
fn to_amount(total: i128) -> (r: Result<i64, LedgerError>)
    ensures
        r == as_amount(total as int),
{
    if total < i64::MIN as i128 || total > i64::MAX as i128 {
        Err(LedgerError::BalanceOverflow)
    } else {
        Ok(total as i64)
    }
}

/// The sum of the balance's three parts, computed.
pub(crate) fn balance_of(db: &Store, user_id: i32) -> (total: i128)
    requires
        db.wf(),
    ensures
        total == balance(db@, user_id),
{
    proof {
        lemma_keyed_len(db@.cases, |c: CaseView| c.id, db@.next_case_id);
        lemma_keyed_len(db@.withdrawals, |w: WithdrawalView| w.id, db@.next_withdrawal_id);
        lemma_keyed_len(
            db@.user_accounts,
            |a: UserAccountView| a.id,
            db@.next_user_account_id,
        );
        assert(db.cases@.len() == db@.cases.len());
        assert(db.withdrawals@.len() == db@.withdrawals.len());
        assert(db.user_accounts@.len() == db@.user_accounts.len());
    }
    let of_case = |c: &Case| -> (a: i128)
        ensures
            a == case_delta(c@, user_id),
        {
            let credit: i128 = if c.paid && c.awarded && c.seller_user_id == user_id {
                c.seller_credit_sat as i128
            } else {
                0
            };
            let refund: i128 = if c.paid && (c.canceled_by_seller || c.canceled_by_buyer)
                && c.buyer_user_id == user_id {
                c.amount_owed_sat as i128
            } else {
                0
            };
            credit + refund
        };
    let of_withdrawal = |w: &Withdrawal| -> (a: i128)
        ensures
            a == withdrawal_delta(w@, user_id),
        {
            if w.user_id == user_id {
                -(w.amount_sat as i128)
            } else {
                0
            }
        };
    let of_account = |a: &UserAccount| -> (d: i128)
        ensures
            d == activation_delta(a@, user_id),
        {
            if a.paid && a.user_id == user_id {
                a.amount_owed_sat as i128
            } else {
                0
            }
        };
    let credits: i128 = sum_where(&db.cases, of_case, Ghost(|c: CaseView| case_delta(c, user_id)));
    let debits: i128 = sum_where(
        &db.withdrawals,
        of_withdrawal,
        Ghost(|w: WithdrawalView| withdrawal_delta(w, user_id)),
    );
    let bonds: i128 = sum_where(
        &db.user_accounts,
        of_account,
        Ghost(|a: UserAccountView| activation_delta(a, user_id)),
    );
    credits + debits + bonds
}

impl AccountInfo {
    /// The balance of the user `user_id`, or an error where it does not fit in
    /// 64 bits. A user without any record has the balance 0.
    pub fn total_account_balance_for_user(db: &Store, user_id: i32) -> (r: Result<
        i64,
        LedgerError,
    >)
        requires
            db.wf(),
        ensures
            r == as_amount(balance(db@, user_id)),
    {
        to_amount(balance_of(db, user_id))
    }

    /// What the market owes in all, or an error where it does not fit in 64
    /// bits.
    pub fn total_market_liabilities_sat(db: &Store) -> (r: Result<i64, LedgerError>)
        requires
            db.wf(),
        ensures
            r == as_amount(market_liabilities(db@)),
    {
        proof {
            lemma_keyed_len(db@.cases, |c: CaseView| c.id, db@.next_case_id);
            lemma_keyed_len(db@.withdrawals, |w: WithdrawalView| w.id, db@.next_withdrawal_id);
            lemma_keyed_len(
                db@.user_accounts,
                |a: UserAccountView| a.id,
                db@.next_user_account_id,
            );
            assert(db.cases@.len() == db@.cases.len());
            assert(db.withdrawals@.len() == db@.withdrawals.len());
            assert(db.user_accounts@.len() == db@.user_accounts.len());
        }
        let of_case = |c: &Case| -> (a: i128)
            ensures
                a == case_liability(c@),
            {
                if !c.paid {
                    0
                } else {
                    let credit: i128 = if c.awarded {
                        c.seller_credit_sat as i128
                    } else {
                        0
                    };
                    let refund: i128 = if c.canceled_by_seller || c.canceled_by_buyer {
                        c.amount_owed_sat as i128
                    } else {
                        0
                    };
                    let escrow: i128 = if !is_closed(c) {
                        c.amount_owed_sat as i128
                    } else {
                        0
                    };
                    credit + refund + escrow
                }
            };
        let of_withdrawal = |w: &Withdrawal| -> (a: i128)
            ensures
                a == -(w@.amount_sat as int),
            { -(w.amount_sat as i128) };
        let of_account = |a: &UserAccount| -> (d: i128)
            ensures
                d == (if a@.paid {
                    a@.amount_owed_sat as int
                } else {
                    0
                }),
            {
                if a.paid {
                    a.amount_owed_sat as i128
                } else {
                    0
                }
            };
        let held: i128 = sum_where(&db.cases, of_case, Ghost(|c: CaseView| case_liability(c)));
        let taken: i128 = sum_where(
            &db.withdrawals,
            of_withdrawal,
            Ghost(|w: WithdrawalView| -(w.amount_sat as int)),
        );
        let bonds: i128 = sum_where(
            &db.user_accounts,
            of_account,
            Ghost(
                |a: UserAccountView|
                    if a.paid {
                        a.amount_owed_sat as int
                    } else {
                        0
                    },
            ),
        );
        to_amount(held + taken + bonds)
    }

    /// The balance of the user `user_id` and the number of paid orders that
    /// wait for the user, as seller, to award or cancel them.
    pub fn account_info_for_user(db: &Store, user_id: i32) -> (r: Result<AccountInfo, LedgerError>)
        requires
            db.wf(),
        ensures
            match as_amount(balance(db@, user_id)) {
                Ok(total) => r is Ok && r->Ok_0@ == (AccountInfoView {
                    account_balance_sat: total,
                    num_unawarded_cases: crate::table::count(
                        db@.cases,
                        case_processing_for(user_id),
                    ) as u32,
                }),
                Err(e) => r == Err::<AccountInfo, LedgerError>(e),
            },
    {
        match AccountInfo::total_account_balance_for_user(db, user_id) {
            Ok(account_balance_sat) => {
                let num_unawarded_cases: u32 = Case::num_processing_for_user(db, user_id);
                Ok(AccountInfo { account_balance_sat, num_unawarded_cases })
            },
            Err(e) => Err(e),
        }
    }
}

/// Whether a record of the user `user` is asked for: `who` names that user,
/// or names nobody and so asks for everyone's.
pub open spec fn concerns(who: Option<i32>, user: i32) -> bool {
    match who {
        Some(u) => u == user,
        None => true,
    }
}

/// The paid and awarded orders, of the seller that `who` asks for.
pub open spec fn received_by(who: Option<i32>) -> spec_fn(CaseView) -> bool {
    |c: CaseView| c.paid && c.awarded && concerns(who, c.seller_user_id)
}

/// The paid and canceled orders, of the buyer that `who` asks for.
pub open spec fn refunded_to(who: Option<i32>) -> spec_fn(CaseView) -> bool {
    |c: CaseView|
        c.paid && (c.canceled_by_seller || c.canceled_by_buyer) && concerns(who, c.buyer_user_id)
}

/// The paid orders that are neither awarded nor canceled.
pub open spec fn in_escrow() -> spec_fn(CaseView) -> bool {
    |c: CaseView| c.paid && !c.closed()
}

/// The withdrawals of the user that `who` asks for.
pub open spec fn withdrawn_by(who: Option<i32>) -> spec_fn(WithdrawalView) -> bool {
    |w: WithdrawalView| concerns(who, w.user_id)
}

/// The paid activations of the user that `who` asks for.
pub open spec fn bond_of(who: Option<i32>) -> spec_fn(UserAccountView) -> bool {
    |a: UserAccountView| a.paid && concerns(who, a.user_id)
}

/// The event of an award: the seller is credited.
pub open spec fn received_event(c: CaseView) -> AccountBalanceChangeView {
    AccountBalanceChangeView {
        amount_change_sat: c.seller_credit_sat as i64,
        event_type: "received_case"@,
        event_id: c.public_id,
        event_time_ms: c.created_time_ms,
    }
}

/// The event of a cancellation: the buyer is refunded.
pub open spec fn refunded_event(c: CaseView) -> AccountBalanceChangeView {
    AccountBalanceChangeView {
        amount_change_sat: c.amount_owed_sat as i64,
        event_type: "refunded_case"@,
        event_id: c.public_id,
        event_time_ms: c.created_time_ms,
    }
}

/// The event of a payment that is held in escrow.
pub open spec fn processing_event(c: CaseView) -> AccountBalanceChangeView {
    AccountBalanceChangeView {
        amount_change_sat: c.amount_owed_sat as i64,
        event_type: "processing_case"@,
        event_id: c.public_id,
        event_time_ms: c.created_time_ms,
    }
}

/// The event of a withdrawal: the user is debited.
pub open spec fn withdrawal_event(w: WithdrawalView) -> AccountBalanceChangeView {
    AccountBalanceChangeView {
        amount_change_sat: (0 - w.amount_sat) as i64,
        event_type: "withdrawal"@,
        event_id: w.public_id,
        event_time_ms: w.created_time_ms,
    }
}

/// The event of a paid bond.
pub open spec fn activation_event(a: UserAccountView) -> AccountBalanceChangeView {
    AccountBalanceChangeView {
        amount_change_sat: a.amount_owed_sat as i64,
        event_type: "user_activation"@,
        event_id: a.public_id,
        event_time_ms: a.created_time_ms,
    }
}

/// The ledger events of the user `user`, kind by kind: awards, refunds,
/// withdrawals, bond.
pub open spec fn events_of(db: StoreModel, user: i32) -> Seq<AccountBalanceChangeView> {
    db.cases.filter(received_by(Some(user))).map_values(|c: CaseView| received_event(c))
        + db.cases.filter(refunded_to(Some(user))).map_values(|c: CaseView| refunded_event(c))
        + db.withdrawals.filter(withdrawn_by(Some(user))).map_values(
        |w: WithdrawalView| withdrawal_event(w),
    ) + db.user_accounts.filter(bond_of(Some(user))).map_values(
        |a: UserAccountView| activation_event(a),
    )
}

/// The ledger events of the whole market, kind by kind: awards, refunds,
/// payments in escrow, withdrawals, bonds.
pub open spec fn events_of_market(db: StoreModel) -> Seq<AccountBalanceChangeView> {
    db.cases.filter(received_by(None)).map_values(|c: CaseView| received_event(c))
        + db.cases.filter(refunded_to(None)).map_values(|c: CaseView| refunded_event(c))
        + db.cases.filter(in_escrow()).map_values(|c: CaseView| processing_event(c))
        + db.withdrawals.filter(withdrawn_by(None)).map_values(
        |w: WithdrawalView| withdrawal_event(w),
    ) + db.user_accounts.filter(bond_of(None)).map_values(
        |a: UserAccountView| activation_event(a),
    )
}

/// The time of an event, by which events are listed.
pub open spec fn event_time() -> spec_fn(AccountBalanceChangeView) -> int {
    |e: AccountBalanceChangeView| e.event_time_ms as int
}

/// The amount of an event.
pub open spec fn event_amount() -> spec_fn(AccountBalanceChangeView) -> int {
    |e: AccountBalanceChangeView| e.amount_change_sat as int
}

/// Whether `user` is the user that `who` asks for.
fn is_concerned(who: Option<i32>, user: i32) -> (b: bool)
    ensures
        b == concerns(who, user),
{
    match who {
        Some(u) => u == user,
        None => true,
    }
}

/// The events that the records give, kind by kind, for the user that `who`
/// names; where it names nobody, for the whole market, with the payments in
/// escrow.
fn collect_events(db: &Store, who: Option<i32>) -> (events: Vec<AccountBalanceChange>)
    requires
        db.wf(),
    ensures
        views(events@) == match who {
            Some(user) => events_of(db@, user),
            None => events_of_market(db@),
        },
{
    let mut events: Vec<AccountBalanceChange> = Vec::new();
    assert(views(events@) =~= Seq::<AccountBalanceChangeView>::empty());
    let received = |c: &Case| -> (b: bool)
        ensures
            b == received_by(who)(c@),
        { c.paid && c.awarded && is_concerned(who, c.seller_user_id) };
    let make_received = |c: &Case| -> (e: AccountBalanceChange)
        requires
            c@.wf(),
        ensures
            e@ == received_event(c@),
        {
            AccountBalanceChange {
                amount_change_sat: c.seller_credit_sat as i64,
                event_type: "received_case".to_owned(),
                event_id: c.public_id.clone(),
                event_time_ms: c.created_time_ms,
            }
        };
    append_where(
        &mut events,
        &db.cases,
        received,
        make_received,
        Ghost(received_by(who)),
        Ghost(|c: CaseView| received_event(c)),
        Ghost(|c: CaseView| c.wf()),
    );
    let refunded = |c: &Case| -> (b: bool)
        ensures
            b == refunded_to(who)(c@),
        {
            c.paid && (c.canceled_by_seller || c.canceled_by_buyer) && is_concerned(
                who,
                c.buyer_user_id,
            )
        };
    let make_refunded = |c: &Case| -> (e: AccountBalanceChange)
        requires
            c@.wf(),
        ensures
            e@ == refunded_event(c@),
        {
            AccountBalanceChange {
                amount_change_sat: c.amount_owed_sat as i64,
                event_type: "refunded_case".to_owned(),
                event_id: c.public_id.clone(),
                event_time_ms: c.created_time_ms,
            }
        };
    append_where(
        &mut events,
        &db.cases,
        refunded,
        make_refunded,
        Ghost(refunded_to(who)),
        Ghost(|c: CaseView| refunded_event(c)),
        Ghost(|c: CaseView| c.wf()),
    );
    if who.is_none() {
        let processing = |c: &Case| -> (b: bool)
            ensures
                b == in_escrow()(c@),
            { c.paid && !is_closed(c) };
        let make_processing = |c: &Case| -> (e: AccountBalanceChange)
            requires
                c@.wf(),
            ensures
                e@ == processing_event(c@),
            {
                AccountBalanceChange {
                    amount_change_sat: c.amount_owed_sat as i64,
                    event_type: "processing_case".to_owned(),
                    event_id: c.public_id.clone(),
                    event_time_ms: c.created_time_ms,
                }
            };
        append_where(
            &mut events,
            &db.cases,
            processing,
            make_processing,
            Ghost(in_escrow()),
            Ghost(|c: CaseView| processing_event(c)),
            Ghost(|c: CaseView| c.wf()),
        );
    }
    let withdrawn = |w: &Withdrawal| -> (b: bool)
        ensures
            b == withdrawn_by(who)(w@),
        { is_concerned(who, w.user_id) };
    let make_withdrawn = |w: &Withdrawal| -> (e: AccountBalanceChange)
        requires
            w@.wf(),
        ensures
            e@ == withdrawal_event(w@),
        {
            AccountBalanceChange {
                amount_change_sat: 0 - (w.amount_sat as i64),
                event_type: "withdrawal".to_owned(),
                event_id: w.public_id.clone(),
                event_time_ms: w.created_time_ms,
            }
        };
    append_where(
        &mut events,
        &db.withdrawals,
        withdrawn,
        make_withdrawn,
        Ghost(withdrawn_by(who)),
        Ghost(|w: WithdrawalView| withdrawal_event(w)),
        Ghost(|w: WithdrawalView| w.wf()),
    );
    let bonded = |a: &UserAccount| -> (b: bool)
        ensures
            b == bond_of(who)(a@),
        { a.paid && is_concerned(who, a.user_id) };
    let make_bonded = |a: &UserAccount| -> (e: AccountBalanceChange)
        requires
            a@.wf(),
        ensures
            e@ == activation_event(a@),
        {
            AccountBalanceChange {
                amount_change_sat: a.amount_owed_sat as i64,
                event_type: "user_activation".to_owned(),
                event_id: a.public_id.clone(),
                event_time_ms: a.created_time_ms,
            }
        };
    append_where(
        &mut events,
        &db.user_accounts,
        bonded,
        make_bonded,
        Ghost(bond_of(who)),
        Ghost(|a: UserAccountView| activation_event(a)),
        Ghost(|a: UserAccountView| a.wf()),
    );
    events
}

impl AccountInfo {
    /// One page of the ledger events of the user `user_id`, the newest first.
    /// Events of one time stand kind by kind: awards, refunds, withdrawals,
    /// bond; within a kind, in the order of the table. Pages are counted from
    /// 1.
    pub fn all_account_balance_changes_for_user(
        db: &Store,
        user_id: i32,
        page_size: u32,
        page_num: u32,
    ) -> (events: Vec<AccountBalanceChange>)
        requires
            db.wf(),
            page_num >= 1,
        ensures
            views(events@) == page(
                sorted_desc(events_of(db@, user_id), event_time()),
                page_size,
                page_num,
            ),
    {
        let events = collect_events(db, Some(user_id));
        let time = |e: &AccountBalanceChange| -> (t: u64)
            ensures
                t == event_time()(e@),
            { e.event_time_ms };
        let sorted = sort_desc(events, time, Ghost(event_time()));
        take_page(sorted, page_size, page_num)
    }

    /// One page of the ledger events of the whole market, the newest first,
    /// with the payments that are held in escrow. Events of one time stand
    /// kind by kind: awards, refunds, payments in escrow, withdrawals, bonds;
    /// within a kind, in the order of the table. Pages are counted from 1.
    pub fn all_account_balance_changes(db: &Store, page_size: u32, page_num: u32) -> (events: Vec<
        AccountBalanceChange,
    >)
        requires
            db.wf(),
            page_num >= 1,
        ensures
            views(events@) == page(
                sorted_desc(events_of_market(db@), event_time()),
                page_size,
                page_num,
            ),
    {
        let events = collect_events(db, None);
        let time = |e: &AccountBalanceChange| -> (t: u64)
            ensures
                t == event_time()(e@),
            { e.event_time_ms };
        let sorted = sort_desc(events, time, Ghost(event_time()));
        take_page(sorted, page_size, page_num)
    }
}

} // verus!
