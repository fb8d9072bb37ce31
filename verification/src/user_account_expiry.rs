//! The reaper of activations: it deletes the activations that were never
//! paid, with their users, and asks for their invoices to be canceled.

use crate::activation::{account_expired, account_of};
use crate::models::{User, UserAccount, UserAccountView, UserView};
use crate::store::{Store, StoreModel};
use crate::table::{
    append_where, count, count_where, lemma_filter_embeds, lemma_keyed_without, remove_where, views,
    without,
};
use crate::util::{hex_bytes, is_hex_text, try_from_hex};
use vstd::prelude::*;

verus! {

/// The milliseconds after which an unpaid activation expires: one day.
pub const USER_ACCOUNT_EXPIRY_INTERVAL_MS: u64 = 86400000;

/// The unpaid activations that were opened before `cutoff` and whose invoice
/// hash is hexadecimal text.
pub open spec fn account_to_cancel(cutoff: u64) -> spec_fn(UserAccountView) -> bool {
    |a: UserAccountView| account_expired(cutoff)(a) && is_hex_text(a.invoice_hash)
}

/// The hash of the invoice of the activation `a`, as bytes.
pub open spec fn account_payment_hash() -> spec_fn(UserAccountView) -> Seq<u8> {
    |a: UserAccountView|
        if is_hex_text(a.invoice_hash) {
            hex_bytes(a.invoice_hash)
        } else {
            Seq::empty()
        }
}

/// The unpaid activations of the users who have an activation among
/// `expired`.
pub open spec fn account_reaped(expired: Seq<UserAccountView>) -> spec_fn(UserAccountView) -> bool {
    |a: UserAccountView| !a.paid && count(expired, account_of(a.user_id)) > 0
}

/// The users who have an activation among `expired`.
pub open spec fn user_reaped(expired: Seq<UserAccountView>) -> spec_fn(UserView) -> bool {
    |u: UserView| u.id is Some && count(expired, account_of(u.id.unwrap())) > 0
}

/// One sweep of the reaper at the time `now`. An activation expires when it
/// is unpaid and was opened more than [`USER_ACCOUNT_EXPIRY_INTERVAL_MS`]
/// before `now`. The sweep deletes, for every user with an expired
/// activation, the user's unpaid activations and the user, and hands back, in
/// the order of the table, the hashes of the expired activations' invoices
/// for the backend to cancel. Paid activations stay.
pub fn remove_expired_user_accounts(db: &mut Store, now: u64) -> (cancel: Vec<Vec<u8>>)
    requires
        old(db).wf(),
        now >= USER_ACCOUNT_EXPIRY_INTERVAL_MS,
    ensures
        final(db).wf(),
        final(db)@ == (StoreModel {
            user_accounts: without(
                old(db)@.user_accounts,
                account_reaped(
                    old(db)@.user_accounts.filter(
                        account_expired((now - USER_ACCOUNT_EXPIRY_INTERVAL_MS) as u64),
                    ),
                ),
            ),
            users: without(
                old(db)@.users,
                user_reaped(
                    old(db)@.user_accounts.filter(
                        account_expired((now - USER_ACCOUNT_EXPIRY_INTERVAL_MS) as u64),
                    ),
                ),
            ),
            ..old(db)@
        }),
        views(cancel@) == old(db)@.user_accounts.filter(
            account_to_cancel((now - USER_ACCOUNT_EXPIRY_INTERVAL_MS) as u64),
        ).map_values(account_payment_hash()),
{
    let expiry_cutoff: u64 = now - USER_ACCOUNT_EXPIRY_INTERVAL_MS;
    let expired: Vec<UserAccount> = UserAccount::all_older_than(db, expiry_cutoff);
    let ghost gone = views(expired@);
    let mut cancel: Vec<Vec<u8>> = Vec::new();
    assert(views(cancel@) =~= Seq::<Seq<u8>>::empty());
    let to_cancel = |a: &UserAccount| -> (b: bool)
        ensures
            b == account_to_cancel(expiry_cutoff)(a@),
        {
            a.created_time_ms < expiry_cutoff && !a.paid && try_from_hex(
                a.invoice_hash.as_str(),
            ).is_some()
        };
    let hash = |a: &UserAccount| -> (h: Vec<u8>)
        ensures
            h@ == account_payment_hash()(a@),
        {
            match try_from_hex(a.invoice_hash.as_str()) {
                Some(hash) => hash,
                None => Vec::new(),
            }
        };
    append_where(
        &mut cancel,
        &db.user_accounts,
        to_cancel,
        hash,
        Ghost(account_to_cancel(expiry_cutoff)),
        Ghost(account_payment_hash()),
        Ghost(|a: UserAccountView| true),
    );
    let rows = &expired;
    let reaped = |a: &UserAccount| -> (b: bool)
        ensures
            b == account_reaped(views(rows@))(a@),
        {
            let user_id: i32 = a.user_id;
            let same = |x: &UserAccount| -> (r: bool)
                ensures
                    r == account_of(user_id)(x@),
                { x.user_id == user_id };
            let n: usize = count_where(rows, same, Ghost(account_of(user_id)));
            !a.paid && n > 0
        };
    proof {
        lemma_keyed_without(
            db@.user_accounts,
            |a: UserAccountView| a.id,
            db@.next_user_account_id,
            account_reaped(gone),
        );
        lemma_filter_embeds(db@.user_accounts, |a: UserAccountView| !account_reaped(gone)(a));
        lemma_keyed_without(db@.users, |u: UserView| u.id, db@.next_user_id, user_reaped(gone));
    }
    remove_where(&mut db.user_accounts, reaped, Ghost(account_reaped(gone)));
    let owner = |u: &User| -> (b: bool)
        ensures
            b == user_reaped(views(rows@))(u@),
        {
            match u.id {
                Some(user_id) => {
                    let same = |x: &UserAccount| -> (r: bool)
                        ensures
                            r == account_of(user_id)(x@),
                        { x.user_id == user_id };
                    let n: usize = count_where(rows, same, Ghost(account_of(user_id)));
                    n > 0
                },
                None => false,
            }
        };
    remove_where(&mut db.users, owner, Ghost(user_reaped(gone)));
    cancel
}

} // verus!
