//! Moving funds out: withdrawals and the return of a bond.
//!
//! Both follow one protocol, in two steps with the payment between them. The
//! first step makes the local reservation and checks the ledger; only where it
//! succeeds may the funds be sent. The second step takes the outcome of the
//! payment and confirms or undoes the reservation. Funds are sent before the
//! second step records them: if the process stops between the payment and the
//! second step, the store does not show the payment. That window is accepted
//! and not closed here.

use crate::activation::{account_paid_of, user_with_id};
use crate::backend::SendResponse;
use crate::error::LedgerError;
use crate::ledger::{balance, balance_of};
use crate::models::{
    Bounty, BountyImage, BountyImageView, BountyView, User, UserAccount, UserAccountView, UserView,
    Withdrawal, WithdrawalView,
};
use crate::store::{Store, StoreModel};
use crate::table::{
    count, count_where, first, is_key, lemma_filter_embeds, lemma_keyed_push, lemma_keyed_updated,
    lemma_keyed_without, position_where, remove_where, update_where, updated, views, without,
};
use crate::util::{hex_text, to_hex};
use vstd::prelude::*;

verus! {

impl WithdrawalView {
    /// The withdrawal with the key `id`.
    pub open spec fn with_id(self, id: i32) -> WithdrawalView {
        WithdrawalView { id: Some(id), ..self }
    }

    /// The withdrawal with the hash of its payment filled in.
    pub open spec fn with_invoice_hash(self, invoice_hash: Seq<char>) -> WithdrawalView {
        WithdrawalView { invoice_hash, ..self }
    }
}

/// The withdrawal with the key `id`.
pub open spec fn withdrawal_with_id(id: i32) -> spec_fn(WithdrawalView) -> bool {
    |w: WithdrawalView| w.id == Some(id)
}

/// The withdrawals with the public identifier `public_id`.
pub open spec fn withdrawal_with_public_id(public_id: Seq<char>) -> spec_fn(WithdrawalView) -> bool {
    |w: WithdrawalView| w.public_id == public_id
}

/// The withdrawals that the user `user_id` asked for after `start`.
pub open spec fn withdrawal_since(user_id: i32, start: u64) -> spec_fn(WithdrawalView) -> bool {
    |w: WithdrawalView| w.user_id == user_id && w.created_time_ms > start
}

/// The bounties of the seller `user_id`.
pub open spec fn bounty_of(user_id: i32) -> spec_fn(BountyView) -> bool {
    |b: BountyView| b.user_id == user_id
}

/// The bounty with the key `id`, if it is the seller `user_id`'s.
pub open spec fn bounty_of_with_id(user_id: i32, id: i32) -> spec_fn(BountyView) -> bool {
    |b: BountyView| b.user_id == user_id && b.id == Some(id)
}

/// The pictures of the bounties in `bounties` of the seller `user_id`.
pub open spec fn image_of_seller(bounties: Seq<BountyView>, user_id: i32) -> spec_fn(
    BountyImageView,
) -> bool {
    |i: BountyImageView| count(bounties, bounty_of_with_id(user_id, i.bounty_id)) > 0
}

/// The store once the user `user_id` is deactivated: without the user's paid
/// activations, the user, the user's bounties and their pictures.
pub open spec fn deactivated(db: StoreModel, user_id: i32) -> StoreModel {
    StoreModel {
        user_accounts: without(db.user_accounts, account_paid_of(user_id)),
        users: without(db.users, user_with_id(user_id)),
        bounty_images: without(db.bounty_images, image_of_seller(db.bounties, user_id)),
        bounties: without(db.bounties, bounty_of(user_id)),
        ..db
    }
}

impl Withdrawal {
    /// The store with the withdrawal `w` reserved: its row inserted under the
    /// next key.
    pub open spec fn reserved(db: StoreModel, w: WithdrawalView) -> StoreModel {
        StoreModel {
            withdrawals: db.withdrawals.push(w.with_id(db.next_withdrawal_id)),
            next_withdrawal_id: (db.next_withdrawal_id + 1) as i32,
            ..db
        }
    }

    /// What [`Withdrawal::do_withdrawal`] answers. With the new row counted,
    /// the user may have at most `max_withdrawals_per_interval` withdrawals
    /// after `interval_start_time_ms`, and the balance must not be negative.
    pub open spec fn do_withdrawal_result(
        db: StoreModel,
        w: WithdrawalView,
        max_withdrawals_per_interval: u32,
        interval_start_time_ms: u64,
    ) -> Result<i32, LedgerError> {
        if db.next_withdrawal_id == i32::MAX {
            Err(LedgerError::StoreFull)
        } else if count(
            Withdrawal::reserved(db, w).withdrawals,
            withdrawal_since(w.user_id, interval_start_time_ms),
        ) > max_withdrawals_per_interval {
            Err(LedgerError::TooManyWithdrawals)
        } else if balance(Withdrawal::reserved(db, w), w.user_id) < 0 {
            Err(LedgerError::InsufficientFunds)
        } else {
            Ok(db.next_withdrawal_id)
        }
    }

    /// The first step of a withdrawal: the reservation. Inserts the row, as
    /// it is given and so without the hash of a payment, then counts the
    /// user's withdrawals after `interval_start_time_ms` and recomputes the
    /// user's balance, both with the new row. If the count is more than
    /// `max_withdrawals_per_interval` or the balance is negative, the row is
    /// taken out again and the store is as before. Otherwise the row stays,
    /// the answer is its key, and the funds may be sent; the outcome of the
    /// payment goes to [`Withdrawal::finish_withdrawal`].
    pub fn do_withdrawal(
        withdrawal: Withdrawal,
        db: &mut Store,
        max_withdrawals_per_interval: u32,
        interval_start_time_ms: u64,
    ) -> (r: Result<i32, LedgerError>)
        requires
            old(db).wf(),
            withdrawal@.wf(),
        ensures
            final(db).wf(),
            r == Withdrawal::do_withdrawal_result(
                old(db)@,
                withdrawal@,
                max_withdrawals_per_interval,
                interval_start_time_ms,
            ),
            match r {
                Ok(_) => final(db)@ == Withdrawal::reserved(old(db)@, withdrawal@),
                Err(_) => final(db)@ == old(db)@,
            },
    {
        if db.next_withdrawal_id == i32::MAX {
            return Err(LedgerError::StoreFull);
        }
        let id: i32 = db.next_withdrawal_id;
        let user_id: i32 = withdrawal.user_id;
        let mut row = withdrawal;
        row.id = Some(id);
        proof {
            lemma_keyed_push(
                db@.withdrawals,
                |w: WithdrawalView| w.id,
                db@.next_withdrawal_id,
                row@,
            );
            assert(views(db.withdrawals@.push(row)) =~= db@.withdrawals.push(row@));
        }
        let ghost before = db@;
        db.withdrawals.push(row);
        db.next_withdrawal_id = id + 1;
        assert(db@ == Withdrawal::reserved(before, withdrawal@));
        let recent = |w: &Withdrawal| -> (b: bool)
            ensures
                b == withdrawal_since(user_id, interval_start_time_ms)(w@),
            { w.user_id == user_id && w.created_time_ms > interval_start_time_ms };
        let n: usize = count_where(
            &db.withdrawals,
            recent,
            Ghost(withdrawal_since(user_id, interval_start_time_ms)),
        );
        let refused: Option<LedgerError> = if n as u128 > max_withdrawals_per_interval as u128 {
            Some(LedgerError::TooManyWithdrawals)
        } else if balance_of(db, user_id) < 0 {
            Some(LedgerError::InsufficientFunds)
        } else {
            None
        };
        match refused {
            Some(e) => {
                db.withdrawals.pop();
                db.next_withdrawal_id = id;
                proof {
                    assert(views(db.withdrawals@) =~= before.withdrawals);
                }
                Err(e)
            },
            None => Ok(id),
        }
    }

    /// The second step of a withdrawal, with the outcome of the payment. If
    /// the funds were sent, the row with the key `withdrawal_id` gets the
    /// hash of the payment, as hexadecimal text. If they were not, the row is
    /// deleted: the reservation is undone, and the key is not handed out
    /// again.
    pub fn finish_withdrawal(
        db: &mut Store,
        withdrawal_id: i32,
        sent: Result<SendResponse, String>,
    ) -> (r: Result<i32, LedgerError>)
        requires
            old(db).wf(),
        ensures
            final(db).wf(),
            match sent {
                Ok(response) => r == Ok::<i32, LedgerError>(withdrawal_id) && final(db)@
                    == (StoreModel {
                    withdrawals: updated(
                        old(db)@.withdrawals,
                        withdrawal_with_id(withdrawal_id),
                        |w: WithdrawalView|
                            w.with_invoice_hash(hex_text(response@.payment_hash)),
                    ),
                    ..old(db)@
                }),
                Err(_) => r == Err::<i32, LedgerError>(LedgerError::PaymentFailed) && final(db)@
                    == (StoreModel {
                    withdrawals: without(old(db)@.withdrawals, withdrawal_with_id(withdrawal_id)),
                    ..old(db)@
                }),
            },
    {
        let ghost hit = withdrawal_with_id(withdrawal_id);
        let test = |w: &Withdrawal| -> (b: bool)
            ensures
                b == withdrawal_with_id(withdrawal_id)(w@),
            { is_key(w.id, withdrawal_id) };
        match sent {
            Ok(response) => {
                let payment_hash_hex = to_hex(&response.payment_hash);
                let ghost to = |w: WithdrawalView|
                    w.with_invoice_hash(hex_text(response@.payment_hash));
                let change = |w: &Withdrawal| -> (r: Withdrawal)
                    ensures
                        r@ == w@.with_invoice_hash(payment_hash_hex@),
                    {
                        let mut row = w.clone();
                        row.invoice_hash = payment_hash_hex.clone();
                        row
                    };
                proof {
                    lemma_keyed_updated(
                        db@.withdrawals,
                        |w: WithdrawalView| w.id,
                        db@.next_withdrawal_id,
                        hit,
                        to,
                    );
                }
                update_where(&mut db.withdrawals, test, change, Ghost(hit), Ghost(to));
                Ok(withdrawal_id)
            },
            Err(_) => {
                proof {
                    lemma_keyed_without(
                        db@.withdrawals,
                        |w: WithdrawalView| w.id,
                        db@.next_withdrawal_id,
                        hit,
                    );
                    lemma_filter_embeds(db@.withdrawals, |w: WithdrawalView| !hit(w));
                }
                remove_where(&mut db.withdrawals, test, Ghost(hit));
                Err(LedgerError::PaymentFailed)
            },
        }
    }

    /// The first withdrawal with the public identifier `public_id`.
    pub fn single_by_public_id(db: &Store, public_id: &str) -> (r: Result<
        Withdrawal,
        LedgerError,
    >)
        ensures
            match first(db@.withdrawals, withdrawal_with_public_id(public_id@)) {
                Some(row) => r is Ok && r->Ok_0@ == row,
                None => r == Err::<Withdrawal, LedgerError>(LedgerError::RowNotFound),
            },
    {
        let key = public_id.to_owned();
        let test = |w: &Withdrawal| -> (b: bool)
            ensures
                b == withdrawal_with_public_id(public_id@)(w@),
            { w.public_id == key };
        match position_where(&db.withdrawals, test, Ghost(withdrawal_with_public_id(public_id@))) {
            Some(i) => Ok(db.withdrawals[i].clone()),
            None => Err(LedgerError::RowNotFound),
        }
    }
}

impl UserAccount {
    /// What [`UserAccount::do_deactivation`] answers: the bond less the fee,
    /// where the user has a paid bond and the fee is no more than the bond of
    /// `user_account`.
    pub open spec fn do_deactivation_result(
        db: StoreModel,
        amount_sat: u64,
        user_account: UserAccountView,
    ) -> Result<u64, LedgerError> {
        if count(db.user_accounts, account_paid_of(user_account.user_id)) == 0 {
            Err(LedgerError::NoUserBond)
        } else if user_account.amount_owed_sat < amount_sat {
            Err(LedgerError::InsufficientBond)
        } else {
            Ok((user_account.amount_owed_sat - amount_sat) as u64)
        }
    }

    /// The first step of a deactivation: the checks. The user of
    /// `user_account` must have a paid activation in the store, which guards
    /// against a second deactivation, and the fee `amount_sat` must be no
    /// more than the bond. Where both hold, the answer is the amount to send
    /// back, the bond less the fee; the outcome of the payment goes to
    /// [`UserAccount::finish_deactivation`]. The store does not change.
    pub fn do_deactivation(amount_sat: u64, user_account: UserAccount, db: &Store) -> (r: Result<
        u64,
        LedgerError,
    >)
        ensures
            r == UserAccount::do_deactivation_result(db@, amount_sat, user_account@),
    {
        let user_id: i32 = user_account.user_id;
        let paid = |a: &UserAccount| -> (b: bool)
            ensures
                b == account_paid_of(user_id)(a@),
            { a.user_id == user_id && a.paid };
        let bonds: usize = count_where(&db.user_accounts, paid, Ghost(account_paid_of(user_id)));
        if bonds < 1 {
            Err(LedgerError::NoUserBond)
        } else if user_account.amount_owed_sat < amount_sat {
            Err(LedgerError::InsufficientBond)
        } else {
            Ok(user_account.amount_owed_sat - amount_sat)
        }
    }

    /// The second step of a deactivation, with the outcome of the payment. If
    /// the funds were sent, the user's paid activations, the user, the user's
    /// bounties and their pictures are deleted. If they were not, nothing
    /// changes.
    pub fn finish_deactivation(db: &mut Store, user_id: i32, sent: Result<SendResponse, String>) -> (r:
        Result<(), LedgerError>)
        requires
            old(db).wf(),
        ensures
            final(db).wf(),
            match sent {
                Ok(_) => r == Ok::<(), LedgerError>(()) && final(db)@ == deactivated(
                    old(db)@,
                    user_id,
                ),
                Err(_) => r == Err::<(), LedgerError>(LedgerError::PaymentFailed) && final(db)@
                    == old(db)@,
            },
    {
        if sent.is_err() {
            return Err(LedgerError::PaymentFailed);
        }
        let ghost before = db@;
        proof {
            lemma_keyed_without(
                db@.user_accounts,
                |a: UserAccountView| a.id,
                db@.next_user_account_id,
                account_paid_of(user_id),
            );
            lemma_filter_embeds(
                db@.user_accounts,
                |a: UserAccountView| !account_paid_of(user_id)(a),
            );
            lemma_keyed_without(db@.users, |u: UserView| u.id, db@.next_user_id, user_with_id(user_id));
            lemma_keyed_without(
                db@.bounty_images,
                |i: BountyImageView| i.id,
                db@.next_bounty_image_id,
                image_of_seller(db@.bounties, user_id),
            );
            lemma_keyed_without(
                db@.bounties,
                |b: BountyView| b.id,
                db@.next_bounty_id,
                bounty_of(user_id),
            );
            lemma_filter_embeds(db@.bounties, |b: BountyView| !bounty_of(user_id)(b));
        }
        let paid = |a: &UserAccount| -> (b: bool)
            ensures
                b == account_paid_of(user_id)(a@),
            { a.user_id == user_id && a.paid };
        remove_where(&mut db.user_accounts, paid, Ghost(account_paid_of(user_id)));
        let is_user = |u: &User| -> (b: bool)
            ensures
                b == user_with_id(user_id)(u@),
            { is_key(u.id, user_id) };
        remove_where(&mut db.users, is_user, Ghost(user_with_id(user_id)));
        let bounties = &db.bounties;
        let of_seller = |i: &BountyImage| -> (b: bool)
            ensures
                b == image_of_seller(views(bounties@), user_id)(i@),
            {
                let bounty_id: i32 = i.bounty_id;
                let owned = |b: &Bounty| -> (r: bool)
                    ensures
                        r == bounty_of_with_id(user_id, bounty_id)(b@),
                    { b.user_id == user_id && is_key(b.id, bounty_id) };
                let n: usize = count_where(
                    bounties,
                    owned,
                    Ghost(bounty_of_with_id(user_id, bounty_id)),
                );
                n > 0
            };
        remove_where(
            &mut db.bounty_images,
            of_seller,
            Ghost(image_of_seller(before.bounties, user_id)),
        );
        let owned_by = |b: &Bounty| -> (r: bool)
            ensures
                r == bounty_of(user_id)(b@),
            { b.user_id == user_id };
        remove_where(&mut db.bounties, owned_by, Ghost(bounty_of(user_id)));
        Ok(())
    }
}

} // verus!
