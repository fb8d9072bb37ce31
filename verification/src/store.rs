//! The store: the tables of the market, with the counters that hand out keys.
//!
//! Every operation of the crate takes the store, reads or changes its tables,
//! and says in its contract what the tables hold afterwards. An operation that
//! is refused leaves the store as it was, as a transaction that is rolled back.
//! Whoever holds the store exclusively sees it alone, as a transaction does.

use crate::models::{
    AdminSettings, AdminSettingsView, Bounty, BountyImage, BountyImageView, BountyView, Case,
    CaseView, User, UserAccount, UserAccountView, UserSettingsRow, UserSettingsRowView, UserView,
    Withdrawal, WithdrawalView,
};
use crate::table::{all, all_where, copy_rows, is_keyed, keyed, views};
use vstd::prelude::*;

verus! {

/// The largest amount or time that a table can hold.
pub const MAX_STORED: u64 = 0x7fff_ffff_ffff_ffff;

/// The tables of the market.
pub struct Store {
    pub(crate) cases: Vec<Case>,
    pub(crate) next_case_id: i32,
    pub(crate) user_accounts: Vec<UserAccount>,
    pub(crate) next_user_account_id: i32,
    pub(crate) withdrawals: Vec<Withdrawal>,
    pub(crate) next_withdrawal_id: i32,
    pub(crate) users: Vec<User>,
    pub(crate) next_user_id: i32,
    pub(crate) bounties: Vec<Bounty>,
    pub(crate) next_bounty_id: i32,
    pub(crate) bounty_images: Vec<BountyImage>,
    pub(crate) next_bounty_image_id: i32,
    pub(crate) admin_settings: Vec<AdminSettings>,
    pub(crate) next_admin_settings_id: i32,
    pub(crate) user_settings: Vec<UserSettingsRow>,
    pub(crate) next_user_settings_id: i32,
}

/// The view of a [`Store`]: each table as the sequence of its rows' views, in
/// the order of insertion, and each counter.
pub struct StoreModel {
    pub cases: Seq<CaseView>,
    pub next_case_id: i32,
    pub user_accounts: Seq<UserAccountView>,
    pub next_user_account_id: i32,
    pub withdrawals: Seq<WithdrawalView>,
    pub next_withdrawal_id: i32,
    pub users: Seq<UserView>,
    pub next_user_id: i32,
    pub bounties: Seq<BountyView>,
    pub next_bounty_id: i32,
    pub bounty_images: Seq<BountyImageView>,
    pub next_bounty_image_id: i32,
    pub admin_settings: Seq<AdminSettingsView>,
    pub next_admin_settings_id: i32,
    pub user_settings: Seq<UserSettingsRowView>,
    pub next_user_settings_id: i32,
}

impl CaseView {
    /// Whether the order has reached one of its final states.
    pub open spec fn closed(self) -> bool {
        self.awarded || self.canceled_by_seller || self.canceled_by_buyer
    }

    /// Whether at most one of the final states is marked.
    pub open spec fn single_outcome(self) -> bool {
        &&& !(self.awarded && self.canceled_by_seller)
        &&& !(self.awarded && self.canceled_by_buyer)
        &&& !(self.canceled_by_seller && self.canceled_by_buyer)
    }

    /// Whether the order's amounts and times fit in a table.
    pub open spec fn storable(self) -> bool {
        &&& self.amount_owed_sat <= MAX_STORED
        &&& self.seller_credit_sat <= MAX_STORED
        &&& self.created_time_ms <= MAX_STORED
        &&& self.payment_time_ms <= MAX_STORED
    }

    /// Whether the order is one that a table may hold.
    pub open spec fn wf(self) -> bool {
        self.single_outcome() && self.storable()
    }
}

impl UserAccountView {
    /// Whether the activation's amount and times fit in a table.
    pub open spec fn wf(self) -> bool {
        &&& self.amount_owed_sat <= MAX_STORED
        &&& self.created_time_ms <= MAX_STORED
        &&& self.payment_time_ms <= MAX_STORED
    }
}

impl WithdrawalView {
    /// Whether the withdrawal's amount and time fit in a table.
    pub open spec fn wf(self) -> bool {
        &&& self.amount_sat <= MAX_STORED
        &&& self.created_time_ms <= MAX_STORED
    }
}

impl BountyView {
    /// Whether the bounty's price and time fit in a table.
    pub open spec fn wf(self) -> bool {
        &&& self.price_sat <= MAX_STORED
        &&& self.created_time_ms <= MAX_STORED
    }
}

impl AdminSettingsView {
    /// Whether the settings' amounts fit in a table.
    pub open spec fn wf(self) -> bool {
        &&& self.fee_rate_basis_points <= i32::MAX
        &&& self.user_bond_price_sat <= MAX_STORED
        &&& self.max_allowed_users <= MAX_STORED
    }
}

impl StoreModel {
    /// Whether the tables are keyed by their counters and hold only rows that
    /// a table may hold.
    pub open spec fn wf(self) -> bool {
        &&& keyed(self.cases, |c: CaseView| c.id, self.next_case_id)
        &&& keyed(self.user_accounts, |a: UserAccountView| a.id, self.next_user_account_id)
        &&& keyed(self.withdrawals, |w: WithdrawalView| w.id, self.next_withdrawal_id)
        &&& keyed(self.users, |u: UserView| u.id, self.next_user_id)
        &&& keyed(self.bounties, |b: BountyView| b.id, self.next_bounty_id)
        &&& keyed(self.bounty_images, |i: BountyImageView| i.id, self.next_bounty_image_id)
        &&& keyed(self.admin_settings, |s: AdminSettingsView| s.id, self.next_admin_settings_id)
        &&& keyed(self.user_settings, |s: UserSettingsRowView| s.id, self.next_user_settings_id)
        &&& forall|i: int| 0 <= i < self.cases.len() ==> (#[trigger] self.cases[i]).wf()
        &&& forall|i: int|
            0 <= i < self.user_accounts.len() ==> (#[trigger] self.user_accounts[i]).wf()
        &&& forall|i: int| 0 <= i < self.withdrawals.len() ==> (#[trigger] self.withdrawals[i]).wf()
        &&& forall|i: int| 0 <= i < self.bounties.len() ==> (#[trigger] self.bounties[i]).wf()
        &&& forall|i: int|
            0 <= i < self.admin_settings.len() ==> (#[trigger] self.admin_settings[i]).wf()
    }

    /// Whether every order that has reached a final state is paid.
    pub open spec fn closed_cases_paid(self) -> bool {
        forall|i: int|
            0 <= i < self.cases.len() ==> ((#[trigger] self.cases[i]).closed()
                ==> self.cases[i].paid)
    }
}

impl View for Store {
    type V = StoreModel;

    open(crate) spec fn view(&self) -> StoreModel {
        StoreModel {
            cases: views(self.cases@),
            next_case_id: self.next_case_id,
            user_accounts: views(self.user_accounts@),
            next_user_account_id: self.next_user_account_id,
            withdrawals: views(self.withdrawals@),
            next_withdrawal_id: self.next_withdrawal_id,
            users: views(self.users@),
            next_user_id: self.next_user_id,
            bounties: views(self.bounties@),
            next_bounty_id: self.next_bounty_id,
            bounty_images: views(self.bounty_images@),
            next_bounty_image_id: self.next_bounty_image_id,
            admin_settings: views(self.admin_settings@),
            next_admin_settings_id: self.next_admin_settings_id,
            user_settings: views(self.user_settings@),
            next_user_settings_id: self.next_user_settings_id,
        }
    }
}

impl Store {
    /// Whether the store is one that the crate's operations have made.
    pub open spec fn wf(&self) -> bool {
        self@.wf()
    }

    /// A store with empty tables, whose first keys will be 1.
    pub fn new() -> (db: Store)
        ensures
            db.wf(),
            db@.cases.len() == 0,
            db@.user_accounts.len() == 0,
            db@.withdrawals.len() == 0,
            db@.users.len() == 0,
            db@.bounties.len() == 0,
            db@.bounty_images.len() == 0,
            db@.admin_settings.len() == 0,
            db@.user_settings.len() == 0,
            db@.next_case_id == 1,
            db@.next_user_account_id == 1,
            db@.next_withdrawal_id == 1,
            db@.next_user_id == 1,
            db@.next_bounty_id == 1,
            db@.next_bounty_image_id == 1,
            db@.next_admin_settings_id == 1,
            db@.next_user_settings_id == 1,
    {
        Store {
            cases: Vec::new(),
            next_case_id: 1,
            user_accounts: Vec::new(),
            next_user_account_id: 1,
            withdrawals: Vec::new(),
            next_withdrawal_id: 1,
            users: Vec::new(),
            next_user_id: 1,
            bounties: Vec::new(),
            next_bounty_id: 1,
            bounty_images: Vec::new(),
            next_bounty_image_id: 1,
            admin_settings: Vec::new(),
            next_admin_settings_id: 1,
            user_settings: Vec::new(),
            next_user_settings_id: 1,
        }
    }
}

/// The tables of a market as plain data: what is written to a disk and read
/// back. Nothing is promised of a value of this type; [`Store::restore`]
/// accepts the values that a store can hold.
pub struct Tables {
    pub cases: Vec<Case>,
    pub next_case_id: i32,
    pub user_accounts: Vec<UserAccount>,
    pub next_user_account_id: i32,
    pub withdrawals: Vec<Withdrawal>,
    pub next_withdrawal_id: i32,
    pub users: Vec<User>,
    pub next_user_id: i32,
    pub bounties: Vec<Bounty>,
    pub next_bounty_id: i32,
    pub bounty_images: Vec<BountyImage>,
    pub next_bounty_image_id: i32,
    pub admin_settings: Vec<AdminSettings>,
    pub next_admin_settings_id: i32,
    pub user_settings: Vec<UserSettingsRow>,
    pub next_user_settings_id: i32,
}

impl View for Tables {
    type V = StoreModel;

    open spec fn view(&self) -> StoreModel {
        StoreModel {
            cases: views(self.cases@),
            next_case_id: self.next_case_id,
            user_accounts: views(self.user_accounts@),
            next_user_account_id: self.next_user_account_id,
            withdrawals: views(self.withdrawals@),
            next_withdrawal_id: self.next_withdrawal_id,
            users: views(self.users@),
            next_user_id: self.next_user_id,
            bounties: views(self.bounties@),
            next_bounty_id: self.next_bounty_id,
            bounty_images: views(self.bounty_images@),
            next_bounty_image_id: self.next_bounty_image_id,
            admin_settings: views(self.admin_settings@),
            next_admin_settings_id: self.next_admin_settings_id,
            user_settings: views(self.user_settings@),
            next_user_settings_id: self.next_user_settings_id,
        }
    }
}

impl Store {
    /// The store that holds `tables`, if a store can hold them: if every
    /// table is keyed by its counter and every row is one that a table may
    /// hold.
    pub fn restore(tables: Tables) -> (r: Option<Store>)
        ensures
            match r {
                Some(db) => db.wf() && db@ == tables@,
                None => !tables@.wf(),
            },
    {
        let case_key = |c: &Case| -> (k: Option<i32>)
            ensures
                k == c@.id,
            { c.id };
        let account_key = |a: &UserAccount| -> (k: Option<i32>)
            ensures
                k == a@.id,
            { a.id };
        let withdrawal_key = |w: &Withdrawal| -> (k: Option<i32>)
            ensures
                k == w@.id,
            { w.id };
        let user_key = |u: &User| -> (k: Option<i32>)
            ensures
                k == u@.id,
            { u.id };
        let bounty_key = |b: &Bounty| -> (k: Option<i32>)
            ensures
                k == b@.id,
            { b.id };
        let image_key = |i: &BountyImage| -> (k: Option<i32>)
            ensures
                k == i@.id,
            { i.id };
        let admin_key = |s: &AdminSettings| -> (k: Option<i32>)
            ensures
                k == s@.id,
            { s.id };
        let settings_key = |s: &UserSettingsRow| -> (k: Option<i32>)
            ensures
                k == s@.id,
            { s.id };
        let case_ok = |c: &Case| -> (b: bool)
            ensures
                b == c@.wf(),
            {
                !(c.awarded && c.canceled_by_seller) && !(c.awarded && c.canceled_by_buyer) && !(
                c.canceled_by_seller && c.canceled_by_buyer) && c.amount_owed_sat <= MAX_STORED
                    && c.seller_credit_sat <= MAX_STORED && c.created_time_ms <= MAX_STORED
                    && c.payment_time_ms <= MAX_STORED
            };
        let account_ok = |a: &UserAccount| -> (b: bool)
            ensures
                b == a@.wf(),
            {
                a.amount_owed_sat <= MAX_STORED && a.created_time_ms <= MAX_STORED
                    && a.payment_time_ms <= MAX_STORED
            };
        let withdrawal_ok = |w: &Withdrawal| -> (b: bool)
            ensures
                b == w@.wf(),
            { w.amount_sat <= MAX_STORED && w.created_time_ms <= MAX_STORED };
        let bounty_ok = |b: &Bounty| -> (r: bool)
            ensures
                r == b@.wf(),
            { b.price_sat <= MAX_STORED && b.created_time_ms <= MAX_STORED };
        let admin_ok = |s: &AdminSettings| -> (b: bool)
            ensures
                b == s@.wf(),
            {
                s.fee_rate_basis_points <= 0x7fff_ffff && s.user_bond_price_sat <= MAX_STORED
                    && s.max_allowed_users <= MAX_STORED
            };
        let ok: bool = is_keyed(
            &tables.cases,
            case_key,
            tables.next_case_id,
            Ghost(|c: CaseView| c.id),
        ) && is_keyed(
            &tables.user_accounts,
            account_key,
            tables.next_user_account_id,
            Ghost(|a: UserAccountView| a.id),
        ) && is_keyed(
            &tables.withdrawals,
            withdrawal_key,
            tables.next_withdrawal_id,
            Ghost(|w: WithdrawalView| w.id),
        ) && is_keyed(&tables.users, user_key, tables.next_user_id, Ghost(|u: UserView| u.id))
            && is_keyed(
            &tables.bounties,
            bounty_key,
            tables.next_bounty_id,
            Ghost(|b: BountyView| b.id),
        ) && is_keyed(
            &tables.bounty_images,
            image_key,
            tables.next_bounty_image_id,
            Ghost(|i: BountyImageView| i.id),
        ) && is_keyed(
            &tables.admin_settings,
            admin_key,
            tables.next_admin_settings_id,
            Ghost(|s: AdminSettingsView| s.id),
        ) && is_keyed(
            &tables.user_settings,
            settings_key,
            tables.next_user_settings_id,
            Ghost(|s: UserSettingsRowView| s.id),
        ) && all_where(&tables.cases, case_ok, Ghost(|c: CaseView| c.wf())) && all_where(
            &tables.user_accounts,
            account_ok,
            Ghost(|a: UserAccountView| a.wf()),
        ) && all_where(&tables.withdrawals, withdrawal_ok, Ghost(|w: WithdrawalView| w.wf()))
            && all_where(&tables.bounties, bounty_ok, Ghost(|b: BountyView| b.wf()))
            && all_where(&tables.admin_settings, admin_ok, Ghost(|s: AdminSettingsView| s.wf()));
        proof {
            let t = tables@;
            assert(all(t.cases, |c: CaseView| c.wf()) <==> (forall|i: int|
                0 <= i < t.cases.len() ==> (#[trigger] t.cases[i]).wf()));
            assert(all(t.user_accounts, |a: UserAccountView| a.wf()) <==> (forall|i: int|
                0 <= i < t.user_accounts.len() ==> (#[trigger] t.user_accounts[i]).wf()));
            assert(all(t.withdrawals, |w: WithdrawalView| w.wf()) <==> (forall|i: int|
                0 <= i < t.withdrawals.len() ==> (#[trigger] t.withdrawals[i]).wf()));
            assert(all(t.bounties, |b: BountyView| b.wf()) <==> (forall|i: int|
                0 <= i < t.bounties.len() ==> (#[trigger] t.bounties[i]).wf()));
            assert(all(t.admin_settings, |s: AdminSettingsView| s.wf()) <==> (forall|i: int|
                0 <= i < t.admin_settings.len() ==> (#[trigger] t.admin_settings[i]).wf()));
        }
        if !ok {
            return None;
        }
        Some(
            Store {
                cases: tables.cases,
                next_case_id: tables.next_case_id,
                user_accounts: tables.user_accounts,
                next_user_account_id: tables.next_user_account_id,
                withdrawals: tables.withdrawals,
                next_withdrawal_id: tables.next_withdrawal_id,
                users: tables.users,
                next_user_id: tables.next_user_id,
                bounties: tables.bounties,
                next_bounty_id: tables.next_bounty_id,
                bounty_images: tables.bounty_images,
                next_bounty_image_id: tables.next_bounty_image_id,
                admin_settings: tables.admin_settings,
                next_admin_settings_id: tables.next_admin_settings_id,
                user_settings: tables.user_settings,
                next_user_settings_id: tables.next_user_settings_id,
            },
        )
    }

    /// A copy of the store's tables as plain data.
    pub fn export(&self) -> (tables: Tables)
        ensures
            tables@ == self@,
    {
        let case = |c: &Case| -> (r: Case)
            ensures
                r@ == c@,
            { c.clone() };
        let account = |a: &UserAccount| -> (r: UserAccount)
            ensures
                r@ == a@,
            { a.clone() };
        let withdrawal = |w: &Withdrawal| -> (r: Withdrawal)
            ensures
                r@ == w@,
            { w.clone() };
        let user = |u: &User| -> (r: User)
            ensures
                r@ == u@,
            { u.clone() };
        let bounty = |b: &Bounty| -> (r: Bounty)
            ensures
                r@ == b@,
            { b.clone() };
        let image = |i: &BountyImage| -> (r: BountyImage)
            ensures
                r@ == i@,
            { i.clone() };
        let admin = |s: &AdminSettings| -> (r: AdminSettings)
            ensures
                r@ == s@,
            { s.clone() };
        let settings = |s: &UserSettingsRow| -> (r: UserSettingsRow)
            ensures
                r@ == s@,
            { s.clone() };
        Tables {
            cases: copy_rows(&self.cases, case),
            next_case_id: self.next_case_id,
            user_accounts: copy_rows(&self.user_accounts, account),
            next_user_account_id: self.next_user_account_id,
            withdrawals: copy_rows(&self.withdrawals, withdrawal),
            next_withdrawal_id: self.next_withdrawal_id,
            users: copy_rows(&self.users, user),
            next_user_id: self.next_user_id,
            bounties: copy_rows(&self.bounties, bounty),
            next_bounty_id: self.next_bounty_id,
            bounty_images: copy_rows(&self.bounty_images, image),
            next_bounty_image_id: self.next_bounty_image_id,
            admin_settings: copy_rows(&self.admin_settings, admin),
            next_admin_settings_id: self.next_admin_settings_id,
            user_settings: copy_rows(&self.user_settings, settings),
            next_user_settings_id: self.next_user_settings_id,
        }
    }
}

} // verus!
