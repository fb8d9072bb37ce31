//! Account activations: the bond that a user pays to take part as a seller.
//!
//! An activation is opened unpaid and paid by a settled invoice. A paid
//! activation can be disabled and enabled again. An activation that is never
//! paid is deleted, with its user, when it expires.

use crate::error::LedgerError;
use crate::models::{RocketAuthUser, User, UserAccount, UserAccountView, UserView};
use crate::store::{MAX_STORED, Store, StoreModel};
use crate::table::{
    count, count_where, first, is_key, lemma_count_le, lemma_filter_embeds, lemma_keyed_push,
    lemma_keyed_unique, lemma_keyed_updated, lemma_keyed_without, position_where, remove_where,
    select_where, update_where, updated, views, without,
};
use vstd::prelude::*;

verus! {

impl UserAccountView {
    /// The activation with the key `id`.
    pub open spec fn with_id(self, id: i32) -> UserAccountView {
        UserAccountView { id: Some(id), ..self }
    }

    /// The activation once it is paid at time `now`.
    pub open spec fn settled(self, now: u64) -> UserAccountView {
        UserAccountView { paid: true, payment_time_ms: now, ..self }
    }

    /// The activation with its privileges switched off or on.
    pub open spec fn with_disabled(self, disabled: bool) -> UserAccountView {
        UserAccountView { disabled, ..self }
    }
}

/// The activation with the key `id`, if it is unpaid.
pub open spec fn account_unpaid_with_id(id: i32) -> spec_fn(UserAccountView) -> bool {
    |a: UserAccountView| a.id == Some(id) && !a.paid
}

/// The activations of the user `user_id`.
pub open spec fn account_of(user_id: i32) -> spec_fn(UserAccountView) -> bool {
    |a: UserAccountView| a.user_id == user_id
}

/// The unpaid activations of the user `user_id`.
pub open spec fn account_unpaid_of(user_id: i32) -> spec_fn(UserAccountView) -> bool {
    |a: UserAccountView| a.user_id == user_id && !a.paid
}

/// The paid activations of the user `user_id`.
pub open spec fn account_paid_of(user_id: i32) -> spec_fn(UserAccountView) -> bool {
    |a: UserAccountView| a.user_id == user_id && a.paid
}

/// The activations with the public identifier `public_id`.
pub open spec fn account_with_public_id(public_id: Seq<char>) -> spec_fn(UserAccountView) -> bool {
    |a: UserAccountView| a.public_id == public_id
}

/// The activations whose invoice has the hash `invoice_hash`.
pub open spec fn account_with_invoice(invoice_hash: Seq<char>) -> spec_fn(UserAccountView) -> bool {
    |a: UserAccountView| a.invoice_hash == invoice_hash
}

/// The unpaid activations that were opened before `cutoff`.
pub open spec fn account_expired(cutoff: u64) -> spec_fn(UserAccountView) -> bool {
    |a: UserAccountView| a.created_time_ms < cutoff && !a.paid
}

/// The user with the key `id`.
pub open spec fn user_with_id(id: i32) -> spec_fn(UserView) -> bool {
    |u: UserView| u.id == Some(id)
}

/// The users with the name `username`.
pub open spec fn user_named(username: Seq<char>) -> spec_fn(UserView) -> bool {
    |u: UserView| u.username == username
}

/// The users who are not administrators.
pub open spec fn user_ordinary() -> spec_fn(UserView) -> bool {
    |u: UserView| !u.is_admin
}

/// The users who are not administrators and have no activation in `accounts`,
/// paid or not.
pub open spec fn user_without_account(accounts: Seq<UserAccountView>) -> spec_fn(UserView) -> bool {
    |u: UserView| !u.is_admin && u.id is Some && count(accounts, account_of(u.id.unwrap())) == 0
}

/// What the market reads of a user.
pub open spec fn as_auth_user(u: UserView) -> crate::models::RocketAuthUserView {
    crate::models::RocketAuthUserView { id: u.id, username: u.username }
}

impl User {
    /// Registers a user. The row gets the table's next key, whatever
    /// `user.id` holds.
    pub fn insert(user: User, db: &mut Store) -> (r: Result<i32, LedgerError>)
        requires
            old(db).wf(),
        ensures
            final(db).wf(),
            match r {
                Ok(id) => id == old(db)@.next_user_id && final(db)@ == (StoreModel {
                    users: old(db)@.users.push(UserView { id: Some(id), ..user@ }),
                    next_user_id: (id + 1) as i32,
                    ..old(db)@
                }),
                Err(e) => e == LedgerError::StoreFull && old(db)@.next_user_id == i32::MAX
                    && final(db)@ == old(db)@,
            },
    {
        if db.next_user_id == i32::MAX {
            return Err(LedgerError::StoreFull);
        }
        let id: i32 = db.next_user_id;
        let mut row = user;
        row.id = Some(id);
        proof {
            lemma_keyed_push(db@.users, |u: UserView| u.id, db@.next_user_id, row@);
            assert(views(db.users@.push(row)) =~= db@.users.push(row@));
        }
        db.users.push(row);
        db.next_user_id = id + 1;
        Ok(id)
    }
}

impl RocketAuthUser {
    /// The user with the key `id`.
    pub fn single(db: &Store, id: i32) -> (r: Result<RocketAuthUser, LedgerError>)
        ensures
            match first(db@.users, user_with_id(id)) {
                Some(row) => r is Ok && r->Ok_0@ == as_auth_user(row),
                None => r == Err::<RocketAuthUser, LedgerError>(LedgerError::RowNotFound),
            },
    {
        let test = |u: &User| -> (b: bool)
            ensures
                b == user_with_id(id)(u@),
            { is_key(u.id, id) };
        match position_where(&db.users, test, Ghost(user_with_id(id))) {
            Some(i) => Ok(
                RocketAuthUser { id: db.users[i].id, username: db.users[i].username.clone() },
            ),
            None => Err(LedgerError::RowNotFound),
        }
    }

    /// The first user with the name `username`.
    pub fn single_by_username(db: &Store, username: String) -> (r: Result<
        RocketAuthUser,
        LedgerError,
    >)
        ensures
            match first(db@.users, user_named(username@)) {
                Some(row) => r is Ok && r->Ok_0@ == as_auth_user(row),
                None => r == Err::<RocketAuthUser, LedgerError>(LedgerError::RowNotFound),
            },
    {
        let test = |u: &User| -> (b: bool)
            ensures
                b == user_named(username@)(u@),
            { u.username == username };
        match position_where(&db.users, test, Ghost(user_named(username@))) {
            Some(i) => Ok(
                RocketAuthUser { id: db.users[i].id, username: db.users[i].username.clone() },
            ),
            None => Err(LedgerError::RowNotFound),
        }
    }
}

impl UserAccount {
    /// Opens an activation. The row gets the table's next key, whatever
    /// `user_account.id` holds.
    pub fn insert(user_account: UserAccount, db: &mut Store) -> (r: Result<i32, LedgerError>)
        requires
            old(db).wf(),
            user_account@.wf(),
        ensures
            final(db).wf(),
            match r {
                Ok(id) => id == old(db)@.next_user_account_id && final(db)@ == (StoreModel {
                    user_accounts: old(db)@.user_accounts.push(user_account@.with_id(id)),
                    next_user_account_id: (id + 1) as i32,
                    ..old(db)@
                }),
                Err(e) => e == LedgerError::StoreFull && old(db)@.next_user_account_id
                    == i32::MAX && final(db)@ == old(db)@,
            },
    {
        if db.next_user_account_id == i32::MAX {
            return Err(LedgerError::StoreFull);
        }
        let id: i32 = db.next_user_account_id;
        let mut row = user_account;
        row.id = Some(id);
        proof {
            lemma_keyed_push(
                db@.user_accounts,
                |a: UserAccountView| a.id,
                db@.next_user_account_id,
                row@,
            );
            assert(views(db.user_accounts@.push(row)) =~= db@.user_accounts.push(row@));
        }
        db.user_accounts.push(row);
        db.next_user_account_id = id + 1;
        Ok(id)
    }

    /// The first activation of the user `id`.
    pub fn single(db: &Store, id: i32) -> (r: Result<UserAccount, LedgerError>)
        ensures
            match first(db@.user_accounts, account_of(id)) {
                Some(row) => r is Ok && r->Ok_0@ == row,
                None => r == Err::<UserAccount, LedgerError>(LedgerError::RowNotFound),
            },
    {
        let test = |a: &UserAccount| -> (b: bool)
            ensures
                b == account_of(id)(a@),
            { a.user_id == id };
        match position_where(&db.user_accounts, test, Ghost(account_of(id))) {
            Some(i) => Ok(db.user_accounts[i].clone()),
            None => Err(LedgerError::RowNotFound),
        }
    }

    /// The first activation with the public identifier `public_id`.
    pub fn single_by_public_id(db: &Store, public_id: &str) -> (r: Result<
        UserAccount,
        LedgerError,
    >)
        ensures
            match first(db@.user_accounts, account_with_public_id(public_id@)) {
                Some(row) => r is Ok && r->Ok_0@ == row,
                None => r == Err::<UserAccount, LedgerError>(LedgerError::RowNotFound),
            },
    {
        let key = public_id.to_owned();
        let test = |a: &UserAccount| -> (b: bool)
            ensures
                b == account_with_public_id(public_id@)(a@),
            { a.public_id == key };
        match position_where(&db.user_accounts, test, Ghost(account_with_public_id(public_id@))) {
            Some(i) => Ok(db.user_accounts[i].clone()),
            None => Err(LedgerError::RowNotFound),
        }
    }

    /// The first activation whose invoice has the hash `invoice_hash`.
    pub fn single_by_invoice_hash(db: &Store, invoice_hash: &str) -> (r: Result<
        UserAccount,
        LedgerError,
    >)
        ensures
            match first(db@.user_accounts, account_with_invoice(invoice_hash@)) {
                Some(row) => r is Ok && r->Ok_0@ == row,
                None => r == Err::<UserAccount, LedgerError>(LedgerError::RowNotFound),
            },
    {
        let key = invoice_hash.to_owned();
        let test = |a: &UserAccount| -> (b: bool)
            ensures
                b == account_with_invoice(invoice_hash@)(a@),
            { a.invoice_hash == key };
        match position_where(&db.user_accounts, test, Ghost(account_with_invoice(invoice_hash@))) {
            Some(i) => Ok(db.user_accounts[i].clone()),
            None => Err(LedgerError::RowNotFound),
        }
    }

    /// Marks the activation with the key `user_account_id` as paid at
    /// `time_now_ms`, and says how many rows it changed. An activation that is
    /// paid already keeps its payment time.
    pub fn mark_as_paid(db: &mut Store, user_account_id: i32, time_now_ms: u64) -> (changed: usize)
        requires
            old(db).wf(),
            time_now_ms <= MAX_STORED,
        ensures
            final(db).wf(),
            final(db)@ == (StoreModel {
                user_accounts: updated(
                    old(db)@.user_accounts,
                    account_unpaid_with_id(user_account_id),
                    |a: UserAccountView| a.settled(time_now_ms),
                ),
                ..old(db)@
            }),
            changed == count(old(db)@.user_accounts, account_unpaid_with_id(user_account_id)),
            changed <= 1,
    {
        let ghost hit = account_unpaid_with_id(user_account_id);
        let ghost to = |a: UserAccountView| a.settled(time_now_ms);
        let test = |a: &UserAccount| -> (b: bool)
            ensures
                b == account_unpaid_with_id(user_account_id)(a@),
            { is_key(a.id, user_account_id) && !a.paid };
        let change = |a: &UserAccount| -> (r: UserAccount)
            ensures
                r@ == a@.settled(time_now_ms),
            {
                let mut row = a.clone();
                row.paid = true;
                row.payment_time_ms = time_now_ms;
                row
            };
        proof {
            let key = |a: UserAccountView| a.id;
            lemma_keyed_updated(db@.user_accounts, key, db@.next_user_account_id, hit, to);
            lemma_keyed_unique(db@.user_accounts, key, db@.next_user_account_id, user_account_id);
            lemma_count_le(
                db@.user_accounts,
                hit,
                |a: UserAccountView| key(a) == Some(user_account_id),
            );
        }
        update_where(&mut db.user_accounts, test, change, Ghost(hit), Ghost(to))
    }

    /// Takes the marketplace privileges from the user `user_id`, who keeps the
    /// bond. Says how many activations the user has.
    pub fn mark_as_disabled(db: &mut Store, user_id: i32) -> (changed: usize)
        requires
            old(db).wf(),
        ensures
            final(db).wf(),
            final(db)@ == (StoreModel {
                user_accounts: updated(
                    old(db)@.user_accounts,
                    account_of(user_id),
                    |a: UserAccountView| a.with_disabled(true),
                ),
                ..old(db)@
            }),
            changed == count(old(db)@.user_accounts, account_of(user_id)),
    {
        let ghost hit = account_of(user_id);
        let ghost to = |a: UserAccountView| a.with_disabled(true);
        let test = |a: &UserAccount| -> (b: bool)
            ensures
                b == account_of(user_id)(a@),
            { a.user_id == user_id };
        let change = |a: &UserAccount| -> (r: UserAccount)
            ensures
                r@ == a@.with_disabled(true),
            {
                let mut row = a.clone();
                row.disabled = true;
                row
            };
        proof {
            let key = |a: UserAccountView| a.id;
            lemma_keyed_updated(db@.user_accounts, key, db@.next_user_account_id, hit, to);
        }
        update_where(&mut db.user_accounts, test, change, Ghost(hit), Ghost(to))
    }

    /// Gives the marketplace privileges back to the user `user_id`. Says how
    /// many activations the user has.
    pub fn mark_as_enabled(db: &mut Store, user_id: i32) -> (changed: usize)
        requires
            old(db).wf(),
        ensures
            final(db).wf(),
            final(db)@ == (StoreModel {
                user_accounts: updated(
                    old(db)@.user_accounts,
                    account_of(user_id),
                    |a: UserAccountView| a.with_disabled(false),
                ),
                ..old(db)@
            }),
            changed == count(old(db)@.user_accounts, account_of(user_id)),
    {
        let ghost hit = account_of(user_id);
        let ghost to = |a: UserAccountView| a.with_disabled(false);
        let test = |a: &UserAccount| -> (b: bool)
            ensures
                b == account_of(user_id)(a@),
            { a.user_id == user_id };
        let change = |a: &UserAccount| -> (r: UserAccount)
            ensures
                r@ == a@.with_disabled(false),
            {
                let mut row = a.clone();
                row.disabled = false;
                row
            };
        proof {
            let key = |a: UserAccountView| a.id;
            lemma_keyed_updated(db@.user_accounts, key, db@.next_user_account_id, hit, to);
        }
        update_where(&mut db.user_accounts, test, change, Ghost(hit), Ghost(to))
    }

    /// How many users are not administrators.
    pub fn number_of_users(db: &Store) -> (n: u64)
        ensures
            n == count(db@.users, user_ordinary()),
    {
        let test = |u: &User| -> (b: bool)
            ensures
                b == user_ordinary()(u@),
            { !u.is_admin };
        let n: usize = count_where(&db.users, test, Ghost(user_ordinary()));
        n as u64
    }

    /// The unpaid activations that were opened before `created_time_ms`, in
    /// the order of the table.
    pub fn all_older_than(db: &Store, created_time_ms: u64) -> (found: Vec<UserAccount>)
        ensures
            views(found@) == db@.user_accounts.filter(account_expired(created_time_ms)),
    {
        let test = |a: &UserAccount| -> (b: bool)
            ensures
                b == account_expired(created_time_ms)(a@),
            { a.created_time_ms < created_time_ms && !a.paid };
        let copy = |a: &UserAccount| -> (r: UserAccount)
            ensures
                r@ == a@,
            { a.clone() };
        select_where(&db.user_accounts, test, copy, Ghost(account_expired(created_time_ms)))
    }

    /// Deletes the unpaid activations of the user `user_id` and, if there was
    /// one, the user with them. Says how many activations it deleted. An
    /// activation that was paid in the meantime stays, and so does its user.
    pub fn delete_expired_user_account(db: &mut Store, user_id: i32) -> (deleted: usize)
        requires
            old(db).wf(),
        ensures
            final(db).wf(),
            deleted == count(old(db)@.user_accounts, account_unpaid_of(user_id)),
            final(db)@ == (StoreModel {
                user_accounts: without(old(db)@.user_accounts, account_unpaid_of(user_id)),
                users: if deleted > 0 {
                    without(old(db)@.users, user_with_id(user_id))
                } else {
                    old(db)@.users
                },
                ..old(db)@
            }),
    {
        let ghost doomed = account_unpaid_of(user_id);
        let test = |a: &UserAccount| -> (b: bool)
            ensures
                b == account_unpaid_of(user_id)(a@),
            { a.user_id == user_id && !a.paid };
        proof {
            let key = |a: UserAccountView| a.id;
            lemma_keyed_without(db@.user_accounts, key, db@.next_user_account_id, doomed);
            lemma_filter_embeds(db@.user_accounts, |a: UserAccountView| !doomed(a));
        }
        let deleted: usize = remove_where(&mut db.user_accounts, test, Ghost(doomed));
        if deleted > 0 {
            let is_user = |u: &User| -> (b: bool)
                ensures
                    b == user_with_id(user_id)(u@),
                { is_key(u.id, user_id) };
            proof {
                lemma_keyed_without(
                    db@.users,
                    |u: UserView| u.id,
                    db@.next_user_id,
                    user_with_id(user_id),
                );
            }
            remove_where(&mut db.users, is_user, Ghost(user_with_id(user_id)));
        }
        deleted
    }

    /// Deletes the users who are not administrators and have no activation,
    /// paid or not. Says how many it deleted.
    pub fn delete_users_with_no_account(db: &mut Store) -> (deleted: usize)
        requires
            old(db).wf(),
        ensures
            final(db).wf(),
            deleted == count(old(db)@.users, user_without_account(old(db)@.user_accounts)),
            final(db)@ == (StoreModel {
                users: without(old(db)@.users, user_without_account(old(db)@.user_accounts)),
                ..old(db)@
            }),
    {
        let ghost accounts = db@.user_accounts;
        let ghost doomed = user_without_account(accounts);
        proof {
            lemma_keyed_without(db@.users, |u: UserView| u.id, db@.next_user_id, doomed);
        }
        let rows = &db.user_accounts;
        let test = |u: &User| -> (b: bool)
            ensures
                b == user_without_account(views(rows@))(u@),
            {
                match u.id {
                    Some(id) => {
                        let of_user = |a: &UserAccount| -> (b: bool)
                            ensures
                                b == account_of(id)(a@),
                            { a.user_id == id };
                        let n: usize = count_where(rows, of_user, Ghost(account_of(id)));
                        !u.is_admin && n == 0
                    },
                    None => false,
                }
            };
        remove_where(&mut db.users, test, Ghost(doomed))
    }
}

} // verus!
