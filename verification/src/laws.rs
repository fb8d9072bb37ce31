//! What holds of the ledger as a whole: the laws that relate its operations
//! to one another. Each is a proof over the models that the operations'
//! contracts speak of.

use crate::activation::{account_paid_of, account_unpaid_with_id, account_with_invoice};
use crate::case_expiry::ORDER_EXPIRY_INTERVAL_MS;
use crate::error::LedgerError;
use crate::escrow::{
    case_awardable_with_id, case_expired, case_open_with_id, case_unpaid_with_id, case_with_invoice,
    transition_result,
};
use crate::ledger::{
    activation_delta, activation_event, balance, bond_of, case_delta, event_amount, event_time,
    events_of, received_by, received_event, refunded_event, refunded_to, withdrawal_delta,
    withdrawal_event, withdrawn_by,
};
use crate::models::{CaseView, UserAccount, UserAccountView, Withdrawal, WithdrawalView};
use crate::payment_processor::{Payment, later, latest, settled};
use crate::store::StoreModel;
use crate::table::{
    count, falling, first, lemma_filter_embeds, lemma_first_updated, lemma_none_selected,
    lemma_sorted_desc, lemma_sum_add, lemma_sum_agree, lemma_sum_push, lemma_sum_selected,
    lemma_sum_sorted, lemma_sum_split, lemma_updated_none, lemma_updated_once,
    lemma_without_leaves_none, lemma_without_none, sorted_desc, sum, updated, without,
};
use crate::util::{hex_bytes, hex_digit_value, hex_digits, hex_text, is_hex_text};
use crate::withdrawal::{deactivated, withdrawal_since, withdrawal_with_id};
use vstd::prelude::*;

verus! {

/// An order that is closed stays as it is: it can be neither awarded nor
/// canceled.
pub proof fn law_closed_is_final(c: CaseView)
    requires
        c.closed(),
    ensures
        !c.can_award(),
        !c.can_cancel(),
{
}

/// Awarding an order that may be awarded leaves it with one outcome, closed
/// and paid.
pub proof fn law_award_has_one_outcome(c: CaseView)
    requires
        c.single_outcome(),
        c.can_award(),
    ensures
        c.award().single_outcome(),
        c.award().closed(),
        c.award().paid,
        c.award().case_details.len() == 0,
{
}

/// Canceling an order that may be canceled leaves it with one outcome and
/// closed; it is then paid exactly if it was paid before.
pub proof fn law_cancel_has_one_outcome(c: CaseView)
    requires
        c.single_outcome(),
        c.can_cancel(),
    ensures
        c.cancel_by_seller().single_outcome() && c.cancel_by_seller().closed(),
        c.cancel_by_buyer().single_outcome() && c.cancel_by_buyer().closed(),
        c.cancel_by_seller().paid == c.paid,
        c.cancel_by_buyer().paid == c.paid,
        c.cancel_by_seller().case_details.len() == 0,
        c.cancel_by_buyer().case_details.len() == 0,
{
}

/// In a store every order has at most one outcome.
pub proof fn law_one_outcome(db: StoreModel, i: int)
    requires
        db.wf(),
        0 <= i < db.cases.len(),
    ensures
        !(db.cases[i].awarded && db.cases[i].canceled_by_seller),
        !(db.cases[i].awarded && db.cases[i].canceled_by_buyer),
        !(db.cases[i].canceled_by_seller && db.cases[i].canceled_by_buyer),
{
    assert(db.cases[i].wf());
}

/// Where no order with the key `id` may be awarded, awarding it changes no
/// row and is rejected.
pub proof fn law_award_needs_guard(db: StoreModel, id: i32)
    requires
        forall|i: int|
            0 <= i < db.cases.len() && (#[trigger] db.cases[i]).id == Some(id)
                ==> !db.cases[i].can_award(),
    ensures
        count(db.cases, case_awardable_with_id(id)) == 0,
        transition_result(count(db.cases, case_awardable_with_id(id))) == Err::<
            (),
            LedgerError,
        >(LedgerError::TransitionRejected),
        updated(db.cases, case_awardable_with_id(id), |c: CaseView| c.award()) == db.cases,
{
    lemma_none_selected(db.cases, case_awardable_with_id(id));
    lemma_updated_none(db.cases, case_awardable_with_id(id), |c: CaseView| c.award());
}

/// Where no order with the key `id` may be canceled, canceling it changes no
/// row and is rejected.
pub proof fn law_cancel_needs_guard(db: StoreModel, id: i32)
    requires
        forall|i: int|
            0 <= i < db.cases.len() && (#[trigger] db.cases[i]).id == Some(id)
                ==> !db.cases[i].can_cancel(),
    ensures
        count(db.cases, case_open_with_id(id)) == 0,
        transition_result(count(db.cases, case_open_with_id(id))) == Err::<(), LedgerError>(
            LedgerError::TransitionRejected,
        ),
        updated(db.cases, case_open_with_id(id), |c: CaseView| c.cancel_by_seller())
            == db.cases,
        updated(db.cases, case_open_with_id(id), |c: CaseView| c.cancel_by_buyer()) == db.cases,
{
    lemma_none_selected(db.cases, case_open_with_id(id));
    lemma_updated_none(db.cases, case_open_with_id(id), |c: CaseView| c.cancel_by_seller());
    lemma_updated_none(db.cases, case_open_with_id(id), |c: CaseView| c.cancel_by_buyer());
}

/// A reserved withdrawal counts against the balance at once: with its row
/// inserted, the user's balance is lower by its amount, and nobody else's
/// balance changes.
pub proof fn law_reservation_debits(db: StoreModel, w: WithdrawalView, user: i32)
    ensures
        balance(Withdrawal::reserved(db, w), user) == balance(db, user) - (if w.user_id
            == user {
            w.amount_sat as int
        } else {
            0
        }),
{
    lemma_sum_push(
        db.withdrawals,
        w.with_id(db.next_withdrawal_id),
        |x: WithdrawalView| withdrawal_delta(x, user),
    );
}

/// A withdrawal of more than the balance is refused and changes nothing: the
/// answer is an error whenever the amount is more than the user's balance
/// before the request.
pub proof fn law_no_overdraft(db: StoreModel, w: WithdrawalView, max: u32, start: u64)
    requires
        w.amount_sat > balance(db, w.user_id),
    ensures
        Withdrawal::do_withdrawal_result(db, w, max, start) is Err,
{
    law_reservation_debits(db, w, w.user_id);
}

/// The rate limit: a user who has `max` withdrawals after the start of the
/// interval already is refused another one in the interval, and a user who
/// has fewer is not refused for the count.
pub proof fn law_rate_limit(db: StoreModel, w: WithdrawalView, max: u32, start: u64)
    requires
        db.next_withdrawal_id < i32::MAX,
        w.created_time_ms > start,
    ensures
        count(db.withdrawals, withdrawal_since(w.user_id, start)) >= max
            ==> Withdrawal::do_withdrawal_result(db, w, max, start) == Err::<i32, LedgerError>(
            LedgerError::TooManyWithdrawals,
        ),
        count(db.withdrawals, withdrawal_since(w.user_id, start)) < max
            ==> Withdrawal::do_withdrawal_result(db, w, max, start) != Err::<i32, LedgerError>(
            LedgerError::TooManyWithdrawals,
        ),
{
    db.withdrawals.lemma_filter_push(
        w.with_id(db.next_withdrawal_id),
        withdrawal_since(w.user_id, start),
    );
}

/// Settling an invoice twice is settling it once: the second settlement, at
/// whatever time, changes nothing, and so no balance.
pub proof fn law_settlement_idempotent(db: StoreModel, invoice_hash: Seq<char>, t1: u64, t2: u64)
    ensures
        settled(settled(db, invoice_hash, t1), invoice_hash, t2) == settled(db, invoice_hash, t1),
        forall|user: i32|
            balance(settled(settled(db, invoice_hash, t1), invoice_hash, t2), user) == balance(
                settled(db, invoice_hash, t1),
                user,
            ),
{
    let once = settled(db, invoice_hash, t1);
    let twice = settled(once, invoice_hash, t2);
    match first(db.cases, case_with_invoice(invoice_hash)) {
        Some(c) => match c.id {
            Some(id) => {
                let hit = case_unpaid_with_id(id);
                let to1 = |c: CaseView| c.settled(t1);
                let to2 = |c: CaseView| c.settled(t2);
                assert forall|v: CaseView| hit(v) implies case_with_invoice(invoice_hash)(
                    #[trigger] to1(v),
                ) == case_with_invoice(invoice_hash)(v) by {}
                lemma_first_updated(db.cases, case_with_invoice(invoice_hash), hit, to1);
                assert forall|v: CaseView| hit(v) implies !hit(#[trigger] to1(v)) by {}
                lemma_updated_once(db.cases, hit, to1, to2);
                assert(twice.cases == once.cases);
            },
            None => {},
        },
        None => {},
    }
    match first(db.user_accounts, account_with_invoice(invoice_hash)) {
        Some(a) => match a.id {
            Some(id) => {
                let hit = account_unpaid_with_id(id);
                let to1 = |a: UserAccountView| a.settled(t1);
                let to2 = |a: UserAccountView| a.settled(t2);
                assert forall|v: UserAccountView| hit(v) implies account_with_invoice(
                    invoice_hash,
                )(#[trigger] to1(v)) == account_with_invoice(invoice_hash)(v) by {}
                lemma_first_updated(
                    db.user_accounts,
                    account_with_invoice(invoice_hash),
                    hit,
                    to1,
                );
                assert forall|v: UserAccountView| hit(v) implies !hit(#[trigger] to1(v)) by {}
                lemma_updated_once(db.user_accounts, hit, to1, to2);
                assert(twice.user_accounts == once.user_accounts);
            },
            None => {},
        },
        None => {},
    }
    assert(twice == once);
}

/// The record that was paid last is a paid record, and no paid record was
/// paid later; there is none exactly where no record is paid.
pub proof fn law_latest_is_last(records: Seq<Payment>)
    ensures
        match latest(records) {
            Some(p) => p.paid && records.contains(p) && forall|i: int|
                0 <= i < records.len() && (#[trigger] records[i]).paid
                    ==> records[i].payment_time_ms <= p.payment_time_ms,
            None => forall|i: int| 0 <= i < records.len() ==> !(#[trigger] records[i]).paid,
        },
    decreases records.len(),
{
    if records.len() > 0 {
        let head = records.drop_last();
        law_latest_is_last(head);
        let last = records.last();
        assert(records[records.len() - 1] == last);
        match latest(records) {
            Some(p) => {
                assert forall|i: int| 0 <= i < records.len() && (#[trigger] records[i]).paid
                    implies records[i].payment_time_ms <= p.payment_time_ms by {
                    if i < head.len() {
                        assert(head[i] == records[i]);
                    }
                }
                if latest(head) == Some(p) {
                    let k = choose|k: int| 0 <= k < head.len() && head[k] == p;
                    assert(records[k] == p);
                }
            },
            None => {
                assert forall|i: int| 0 <= i < records.len() implies !(
                #[trigger] records[i]).paid by {
                    if i < head.len() {
                        assert(head[i] == records[i]);
                    }
                }
            },
        }
    }
}

/// A user's balance is the sum of the amounts of the user's ledger events,
/// in whatever order they are listed.
pub proof fn law_balance_is_sum_of_events(db: StoreModel, user: i32)
    requires
        db.wf(),
    ensures
        balance(db, user) == sum(events_of(db, user), event_amount()),
        balance(db, user) == sum(sorted_desc(events_of(db, user), event_time()), event_amount()),
{
    let amount = event_amount();
    let who = Some(user);
    let received = db.cases.filter(received_by(who)).map_values(|c: CaseView| received_event(c));
    let refunded = db.cases.filter(refunded_to(who)).map_values(|c: CaseView| refunded_event(c));
    let withdrawn = db.withdrawals.filter(withdrawn_by(who)).map_values(
        |w: WithdrawalView| withdrawal_event(w),
    );
    let bonds = db.user_accounts.filter(bond_of(who)).map_values(
        |a: UserAccountView| activation_event(a),
    );
    let credit = |c: CaseView|
        if received_by(who)(c) {
            amount(received_event(c))
        } else {
            0
        };
    let refund = |c: CaseView|
        if refunded_to(who)(c) {
            amount(refunded_event(c))
        } else {
            0
        };
    let debit = |w: WithdrawalView|
        if withdrawn_by(who)(w) {
            amount(withdrawal_event(w))
        } else {
            0
        };
    let bond = |a: UserAccountView|
        if bond_of(who)(a) {
            amount(activation_event(a))
        } else {
            0
        };
    let of_case = |c: CaseView| case_delta(c, user);
    let of_withdrawal = |w: WithdrawalView| withdrawal_delta(w, user);
    let of_account = |a: UserAccountView| activation_delta(a, user);
    let both = |c: CaseView| credit(c) + refund(c);
    lemma_sum_add(received + refunded + withdrawn, bonds, amount);
    lemma_sum_add(received + refunded, withdrawn, amount);
    lemma_sum_add(received, refunded, amount);
    lemma_sum_selected(db.cases, received_by(who), |c: CaseView| received_event(c), amount, credit);
    lemma_sum_selected(db.cases, refunded_to(who), |c: CaseView| refunded_event(c), amount, refund);
    lemma_sum_selected(
        db.withdrawals,
        withdrawn_by(who),
        |w: WithdrawalView| withdrawal_event(w),
        amount,
        debit,
    );
    lemma_sum_selected(
        db.user_accounts,
        bond_of(who),
        |a: UserAccountView| activation_event(a),
        amount,
        bond,
    );
    lemma_sum_split(db.cases, both, credit, refund);
    assert forall|i: int| 0 <= i < db.cases.len() implies both(#[trigger] db.cases[i])
        == of_case(db.cases[i]) by {
        assert(db.cases[i].wf());
    }
    lemma_sum_agree(db.cases, both, of_case);
    assert forall|i: int| 0 <= i < db.withdrawals.len() implies debit(
        #[trigger] db.withdrawals[i],
    ) == of_withdrawal(db.withdrawals[i]) by {
        assert(db.withdrawals[i].wf());
    }
    lemma_sum_agree(db.withdrawals, debit, of_withdrawal);
    assert forall|i: int| 0 <= i < db.user_accounts.len() implies bond(
        #[trigger] db.user_accounts[i],
    ) == of_account(db.user_accounts[i]) by {
        assert(db.user_accounts[i].wf());
    }
    lemma_sum_agree(db.user_accounts, bond, of_account);
    assert(sum(events_of(db, user), amount) == sum(db.cases, of_case) + sum(
        db.withdrawals,
        of_withdrawal,
    ) + sum(db.user_accounts, of_account));
    assert(balance(db, user) == sum(db.cases, of_case) + sum(db.withdrawals, of_withdrawal) + sum(
        db.user_accounts,
        of_account,
    ));
    lemma_sum_sorted(events_of(db, user), event_time(), amount);
}

/// The listing of a user's ledger events holds exactly the user's events,
/// and no event in it is newer than one before it.
pub proof fn law_events_newest_first(db: StoreModel, user: i32)
    ensures
        falling(sorted_desc(events_of(db, user), event_time()), event_time()),
        sorted_desc(events_of(db, user), event_time()).to_multiset() == events_of(
            db,
            user,
        ).to_multiset(),
{
    lemma_sorted_desc(events_of(db, user), event_time());
}

/// What the reaper of orders deletes: an order of the store is gone after
/// the sweep at `now` exactly if it is unpaid and was opened before the
/// cutoff, one expiry interval before `now`. An order that was opened at the
/// cutoff or later stays, and so does every paid order.
pub proof fn law_expiry_cutoff(db: StoreModel, now: u64, c: CaseView)
    requires
        now >= ORDER_EXPIRY_INTERVAL_MS,
        db.cases.contains(c),
    ensures
        without(db.cases, case_expired((now - ORDER_EXPIRY_INTERVAL_MS) as u64)).contains(c) <==> (
        c.paid || c.created_time_ms >= now - ORDER_EXPIRY_INTERVAL_MS),
{
    let cutoff = (now - ORDER_EXPIRY_INTERVAL_MS) as u64;
    let keep = |c: CaseView| !case_expired(cutoff)(c);
    let after = db.cases.filter(keep);
    lemma_filter_embeds(db.cases, keep);
    if after.contains(c) {
        let j = choose|j: int| 0 <= j < after.len() && after[j] == c;
        assert(keep(after[j]));
    }
    if keep(c) {
        let i = choose|i: int| 0 <= i < db.cases.len() && db.cases[i] == c;
        db.cases.lemma_filter_contains(keep, i);
    }
}

/// Hexadecimal text reads back as the bytes that it was written from.
pub proof fn law_hex_round_trip(bytes: Seq<u8>)
    ensures
        is_hex_text(hex_text(bytes)),
        hex_bytes(hex_text(bytes)) == bytes,
{
    let text = hex_text(bytes);
    assert forall|n: int| 0 <= n < 16 implies hex_digit_value(#[trigger] hex_digits()[n]) == Some(
        n,
    ) by {
        if n == 0 {
        } else if n == 1 {
        } else if n == 2 {
        } else if n == 3 {
        } else if n == 4 {
        } else if n == 5 {
        } else if n == 6 {
        } else if n == 7 {
        } else if n == 8 {
        } else if n == 9 {
        } else if n == 10 {
        } else if n == 11 {
        } else if n == 12 {
        } else if n == 13 {
        } else if n == 14 {
        } else {
        }
    }
    assert forall|i: int| 0 <= i < text.len() implies (#[trigger] hex_digit_value(
        text[i],
    )) is Some by {
        let b = bytes[i / 2] as int;
        if i % 2 == 0 {
            assert(text[i] == hex_digits()[b / 16]);
        } else {
            assert(text[i] == hex_digits()[b % 16]);
        }
    }
    assert forall|i: int| 0 <= i < bytes.len() implies hex_bytes(text)[i] == bytes[i] by {
        let b = bytes[i] as int;
        assert(text[2 * i] == hex_digits()[b / 16]);
        assert(text[2 * i + 1] == hex_digits()[b % 16]);
        assert(hex_digit_value(hex_digits()[b / 16]) == Some(b / 16));
        assert(hex_digit_value(hex_digits()[b % 16]) == Some(b % 16));
    }
    assert(hex_bytes(text) =~= bytes);
}

/// A payment that fails undoes the reservation: with the reserved row
/// deleted, the withdrawals are those from before the request, and so is
/// every balance.
pub proof fn law_failed_payment_restores(db: StoreModel, w: WithdrawalView)
    requires
        db.wf(),
    ensures
        without(Withdrawal::reserved(db, w).withdrawals, withdrawal_with_id(db.next_withdrawal_id))
            == db.withdrawals,
{
    let row = w.with_id(db.next_withdrawal_id);
    let doomed = withdrawal_with_id(db.next_withdrawal_id);
    let keep = |x: WithdrawalView| !doomed(x);
    assert forall|i: int| 0 <= i < db.withdrawals.len() implies !doomed(
        #[trigger] db.withdrawals[i],
    ) by {
        assert((|x: WithdrawalView| x.id)(db.withdrawals[i]).unwrap() < db.next_withdrawal_id);
    }
    lemma_without_none(db.withdrawals, doomed);
    db.withdrawals.lemma_filter_push(row, keep);
}

/// An account is deactivated once: after a deactivation the user has no paid
/// bond, and a second request is refused for that.
pub proof fn law_no_second_deactivation(
    db: StoreModel,
    user_id: i32,
    amount_sat: u64,
    user_account: UserAccountView,
)
    requires
        user_account.user_id == user_id,
    ensures
        count(deactivated(db, user_id).user_accounts, account_paid_of(user_id)) == 0,
        UserAccount::do_deactivation_result(deactivated(db, user_id), amount_sat, user_account)
            == Err::<u64, LedgerError>(LedgerError::NoUserBond),
{
    lemma_without_leaves_none(db.user_accounts, account_paid_of(user_id));
}

} // verus!
