//! The market's settings and the users' settings.
//!
//! The market has one row of settings; until something is set, the defaults
//! hold. Setting a value first makes the row, with the defaults, if there is
//! none.

use crate::bounty::bounty_pending;
use crate::error::LedgerError;
use crate::models::{
    AdminInfo, AdminInfoView, AdminSettings, AdminSettingsView, Bounty, UserSettings,
    UserSettingsRow, UserSettingsRowView, UserSettingsView,
};
use crate::store::{MAX_STORED, Store, StoreModel};
use crate::table::{
    count, count_where, first, lemma_keyed_push, lemma_keyed_updated, position_where, update_where,
    updated, views,
};
use vstd::prelude::*;

verus! {

/// The settings of a market in which nothing has been set.
pub open spec fn default_admin_settings() -> AdminSettingsView {
    AdminSettingsView {
        id: None,
        market_name: "Sat Bounty"@,
        market_info: "About this market..."@,
        fee_rate_basis_points: 500,
        user_bond_price_sat: 1,
        pgp_key: ""@,
        max_allowed_users: 10000,
    }
}

/// The settings of a user who has set nothing.
pub open spec fn default_user_settings() -> UserSettingsView {
    UserSettingsView { id: None, pgp_key: ""@ }
}

/// Every row.
pub open spec fn any_settings() -> spec_fn(AdminSettingsView) -> bool {
    |s: AdminSettingsView| true
}

/// The settings of the user `user_id`.
pub open spec fn settings_of(user_id: i32) -> spec_fn(UserSettingsRowView) -> bool {
    |s: UserSettingsRowView| s.user_id == user_id
}

/// The market's settings: the first row, or the defaults.
pub open spec fn admin_settings_of(db: StoreModel) -> AdminSettingsView {
    if db.admin_settings.len() == 0 {
        default_admin_settings()
    } else {
        db.admin_settings[0]
    }
}

/// The market's fee rate.
pub open spec fn fee_rate_of(db: StoreModel) -> u32 {
    admin_settings_of(db).fee_rate_basis_points
}

/// The store with the market's row of settings made, if there was none.
pub open spec fn with_admin_row(db: StoreModel) -> StoreModel {
    if db.admin_settings.len() == 0 {
        StoreModel {
            admin_settings: seq![
                AdminSettingsView { id: Some(db.next_admin_settings_id), ..default_admin_settings() },
            ],
            next_admin_settings_id: (db.next_admin_settings_id + 1) as i32,
            ..db
        }
    } else {
        db
    }
}

/// The store with the settings row of the user `user_id` made, if there was
/// none.
pub open spec fn with_user_row(db: StoreModel, user_id: i32) -> StoreModel {
    if count(db.user_settings, settings_of(user_id)) == 0 {
        StoreModel {
            user_settings: db.user_settings.push(
                UserSettingsRowView { id: Some(db.next_user_settings_id), user_id, pgp_key: ""@ },
            ),
            next_user_settings_id: (db.next_user_settings_id + 1) as i32,
            ..db
        }
    } else {
        db
    }
}

/// What making the market's row of settings answers: it fails only where
/// there is no row and the table has handed out its last key.
pub open spec fn admin_row_result(db: StoreModel) -> Result<(), LedgerError> {
    if db.admin_settings.len() == 0 && db.next_admin_settings_id == i32::MAX {
        Err(LedgerError::StoreFull)
    } else {
        Ok(())
    }
}

/// What making the settings row of the user `user_id` answers: it fails only
/// where there is no row and the table has handed out its last key.
pub open spec fn user_row_result(db: StoreModel, user_id: i32) -> Result<(), LedgerError> {
    if count(db.user_settings, settings_of(user_id)) == 0 && db.next_user_settings_id
        == i32::MAX {
        Err(LedgerError::StoreFull)
    } else {
        Ok(())
    }
}

/// The store with `change` applied to the market's settings, the row made
/// first if there was none.
pub open spec fn with_admin_settings(
    db: StoreModel,
    change: spec_fn(AdminSettingsView) -> AdminSettingsView,
) -> StoreModel {
    StoreModel {
        admin_settings: updated(with_admin_row(db).admin_settings, any_settings(), change),
        ..with_admin_row(db)
    }
}

/// The market's fee rate.
pub fn fee_rate(db: &Store) -> (rate: u32)
    ensures
        rate == fee_rate_of(db@),
{
    assert(db.admin_settings@.len() == db@.admin_settings.len());
    if db.admin_settings.len() == 0 {
        500
    } else {
        db.admin_settings[0].fee_rate_basis_points
    }
}

impl Default for AdminSettings {
    fn default() -> (settings: AdminSettings)
        ensures
            settings@ == default_admin_settings(),
    {
        AdminSettings {
            id: None,
            market_name: "Sat Bounty".to_owned(),
            market_info: "About this market...".to_owned(),
            fee_rate_basis_points: 500,
            user_bond_price_sat: 1,
            pgp_key: "".to_owned(),
            max_allowed_users: 10000,
        }
    }
}

impl Default for UserSettings {
    fn default() -> (settings: UserSettings)
        ensures
            settings@ == default_user_settings(),
    {
        UserSettings { id: None, pgp_key: "".to_owned() }
    }
}

impl AdminSettings {
    /// The market's settings: the first row, or the defaults where nothing
    /// has been set.
    pub fn single(db: &Store) -> (settings: AdminSettings)
        ensures
            settings@ == admin_settings_of(db@),
    {
        assert(db.admin_settings@.len() == db@.admin_settings.len());
        if db.admin_settings.len() == 0 {
            AdminSettings::default()
        } else {
            db.admin_settings[0].clone()
        }
    }

    /// Makes the market's row of settings, with the defaults, if there is
    /// none. Fails only where the table has handed out its last key.
    pub(crate) fn insert_if_doesnt_exist(db: &mut Store) -> (r: Result<(), LedgerError>)
        requires
            old(db).wf(),
        ensures
            final(db).wf(),
            r == admin_row_result(old(db)@),
            match r {
                Ok(_) => final(db)@ == with_admin_row(old(db)@),
                Err(_) => final(db)@ == old(db)@,
            },
    {
        assert(db.admin_settings@.len() == db@.admin_settings.len());
        if db.admin_settings.len() > 0 {
            return Ok(());
        }
        if db.next_admin_settings_id == i32::MAX {
            return Err(LedgerError::StoreFull);
        }
        let id: i32 = db.next_admin_settings_id;
        let mut row = AdminSettings::default();
        row.id = Some(id);
        proof {
            lemma_keyed_push(
                db@.admin_settings,
                |s: AdminSettingsView| s.id,
                db@.next_admin_settings_id,
                row@,
            );
            assert(views(db.admin_settings@.push(row)) =~= db@.admin_settings.push(row@));
            assert(db@.admin_settings.push(row@) =~= seq![row@]);
        }
        db.admin_settings.push(row);
        db.next_admin_settings_id = id + 1;
        Ok(())
    }

    /// Sets the market's name.
    pub fn set_market_name(db: &mut Store, new_market_name: &str) -> (r: Result<(), LedgerError>)
        requires
            old(db).wf(),
        ensures
            final(db).wf(),
            r == admin_row_result(old(db)@),
            match r {
                Ok(_) => final(db)@ == with_admin_settings(
                    old(db)@,
                    |s: AdminSettingsView|
                        AdminSettingsView { market_name: new_market_name@, ..s },
                ),
                Err(_) => final(db)@ == old(db)@,
            },
    {
        match AdminSettings::insert_if_doesnt_exist(db) {
            Ok(_) => {},
            Err(e) => { return Err(e); },
        }
        let ghost to = |s: AdminSettingsView|
            AdminSettingsView { market_name: new_market_name@, ..s };
        let value = new_market_name.to_owned();
        let test = |s: &AdminSettings| -> (b: bool)
            ensures
                b == any_settings()(s@),
            { true };
        let change = |s: &AdminSettings| -> (r: AdminSettings)
            ensures
                r@ == (AdminSettingsView { market_name: new_market_name@, ..s@ }),
            {
                let mut row = s.clone();
                row.market_name = value.clone();
                row
            };
        proof {
            lemma_keyed_updated(
                db@.admin_settings,
                |s: AdminSettingsView| s.id,
                db@.next_admin_settings_id,
                any_settings(),
                to,
            );
        }
        update_where(&mut db.admin_settings, test, change, Ghost(any_settings()), Ghost(to));
        Ok(())
    }

    /// Sets the market's description.
    pub fn set_market_info(db: &mut Store, new_market_info: &str) -> (r: Result<(), LedgerError>)
        requires
            old(db).wf(),
        ensures
            final(db).wf(),
            r == admin_row_result(old(db)@),
            match r {
                Ok(_) => final(db)@ == with_admin_settings(
                    old(db)@,
                    |s: AdminSettingsView|
                        AdminSettingsView { market_info: new_market_info@, ..s },
                ),
                Err(_) => final(db)@ == old(db)@,
            },
    {
        match AdminSettings::insert_if_doesnt_exist(db) {
            Ok(_) => {},
            Err(e) => { return Err(e); },
        }
        let ghost to = |s: AdminSettingsView|
            AdminSettingsView { market_info: new_market_info@, ..s };
        let value = new_market_info.to_owned();
        let test = |s: &AdminSettings| -> (b: bool)
            ensures
                b == any_settings()(s@),
            { true };
        let change = |s: &AdminSettings| -> (r: AdminSettings)
            ensures
                r@ == (AdminSettingsView { market_info: new_market_info@, ..s@ }),
            {
                let mut row = s.clone();
                row.market_info = value.clone();
                row
            };
        proof {
            lemma_keyed_updated(
                db@.admin_settings,
                |s: AdminSettingsView| s.id,
                db@.next_admin_settings_id,
                any_settings(),
                to,
            );
        }
        update_where(&mut db.admin_settings, test, change, Ghost(any_settings()), Ghost(to));
        Ok(())
    }

    /// Sets the market's fee rate, in hundredths of a percent. A negative
    /// rate is refused.
    pub fn set_fee_rate(db: &mut Store, new_fee_rate_basis_points: i32) -> (r: Result<
        (),
        LedgerError,
    >)
        requires
            old(db).wf(),
        ensures
            final(db).wf(),
            r == (if new_fee_rate_basis_points < 0 {
                Err::<(), LedgerError>(LedgerError::NegativeFeeRate)
            } else {
                admin_row_result(old(db)@)
            }),
            match r {
                Ok(_) => final(db)@ == with_admin_settings(
                    old(db)@,
                    |s: AdminSettingsView|
                        AdminSettingsView {
                            fee_rate_basis_points: new_fee_rate_basis_points as u32,
                            ..s
                        },
                ),
                Err(_) => final(db)@ == old(db)@,
            },
    {
        if new_fee_rate_basis_points < 0 {
            return Err(LedgerError::NegativeFeeRate);
        }
        match AdminSettings::insert_if_doesnt_exist(db) {
            Ok(_) => {},
            Err(e) => { return Err(e); },
        }
        let value: u32 = new_fee_rate_basis_points as u32;
        let ghost to = |s: AdminSettingsView|
            AdminSettingsView { fee_rate_basis_points: new_fee_rate_basis_points as u32, ..s };
        let test = |s: &AdminSettings| -> (b: bool)
            ensures
                b == any_settings()(s@),
            { true };
        let change = |s: &AdminSettings| -> (r: AdminSettings)
            ensures
                r@ == (AdminSettingsView { fee_rate_basis_points: value, ..s@ }),
            {
                let mut row = s.clone();
                row.fee_rate_basis_points = value;
                row
            };
        proof {
            lemma_keyed_updated(
                db@.admin_settings,
                |s: AdminSettingsView| s.id,
                db@.next_admin_settings_id,
                any_settings(),
                to,
            );
        }
        update_where(&mut db.admin_settings, test, change, Ghost(any_settings()), Ghost(to));
        Ok(())
    }

    /// Sets the price of the bond that a user pays to become a seller.
    pub fn set_user_bond_price(db: &mut Store, new_user_bond_price_sat: u64) -> (r: Result<
        (),
        LedgerError,
    >)
        requires
            old(db).wf(),
            new_user_bond_price_sat <= MAX_STORED,
        ensures
            final(db).wf(),
            r == admin_row_result(old(db)@),
            match r {
                Ok(_) => final(db)@ == with_admin_settings(
                    old(db)@,
                    |s: AdminSettingsView|
                        AdminSettingsView { user_bond_price_sat: new_user_bond_price_sat, ..s },
                ),
                Err(_) => final(db)@ == old(db)@,
            },
    {
        match AdminSettings::insert_if_doesnt_exist(db) {
            Ok(_) => {},
            Err(e) => { return Err(e); },
        }
        let ghost to = |s: AdminSettingsView|
            AdminSettingsView { user_bond_price_sat: new_user_bond_price_sat, ..s };
        let test = |s: &AdminSettings| -> (b: bool)
            ensures
                b == any_settings()(s@),
            { true };
        let change = |s: &AdminSettings| -> (r: AdminSettings)
            ensures
                r@ == (AdminSettingsView { user_bond_price_sat: new_user_bond_price_sat, ..s@ }),
            {
                let mut row = s.clone();
                row.user_bond_price_sat = new_user_bond_price_sat;
                row
            };
        proof {
            lemma_keyed_updated(
                db@.admin_settings,
                |s: AdminSettingsView| s.id,
                db@.next_admin_settings_id,
                any_settings(),
                to,
            );
        }
        update_where(&mut db.admin_settings, test, change, Ghost(any_settings()), Ghost(to));
        Ok(())
    }

    /// Sets the market's PGP key.
    pub fn set_pgp_key(db: &mut Store, new_pgp_key: &str) -> (r: Result<(), LedgerError>)
        requires
            old(db).wf(),
        ensures
            final(db).wf(),
            r == admin_row_result(old(db)@),
            match r {
                Ok(_) => final(db)@ == with_admin_settings(
                    old(db)@,
                    |s: AdminSettingsView| AdminSettingsView { pgp_key: new_pgp_key@, ..s },
                ),
                Err(_) => final(db)@ == old(db)@,
            },
    {
        match AdminSettings::insert_if_doesnt_exist(db) {
            Ok(_) => {},
            Err(e) => { return Err(e); },
        }
        let ghost to = |s: AdminSettingsView| AdminSettingsView { pgp_key: new_pgp_key@, ..s };
        let value = new_pgp_key.to_owned();
        let test = |s: &AdminSettings| -> (b: bool)
            ensures
                b == any_settings()(s@),
            { true };
        let change = |s: &AdminSettings| -> (r: AdminSettings)
            ensures
                r@ == (AdminSettingsView { pgp_key: new_pgp_key@, ..s@ }),
            {
                let mut row = s.clone();
                row.pgp_key = value.clone();
                row
            };
        proof {
            lemma_keyed_updated(
                db@.admin_settings,
                |s: AdminSettingsView| s.id,
                db@.next_admin_settings_id,
                any_settings(),
                to,
            );
        }
        update_where(&mut db.admin_settings, test, change, Ghost(any_settings()), Ghost(to));
        Ok(())
    }

    /// Sets the largest number of users that the market admits.
    pub fn set_max_allowed_users(db: &mut Store, new_max_allowed_users: u64) -> (r: Result<
        (),
        LedgerError,
    >)
        requires
            old(db).wf(),
            new_max_allowed_users <= MAX_STORED,
        ensures
            final(db).wf(),
            r == admin_row_result(old(db)@),
            match r {
                Ok(_) => final(db)@ == with_admin_settings(
                    old(db)@,
                    |s: AdminSettingsView|
                        AdminSettingsView { max_allowed_users: new_max_allowed_users, ..s },
                ),
                Err(_) => final(db)@ == old(db)@,
            },
    {
        match AdminSettings::insert_if_doesnt_exist(db) {
            Ok(_) => {},
            Err(e) => { return Err(e); },
        }
        let ghost to = |s: AdminSettingsView|
            AdminSettingsView { max_allowed_users: new_max_allowed_users, ..s };
        let test = |s: &AdminSettings| -> (b: bool)
            ensures
                b == any_settings()(s@),
            { true };
        let change = |s: &AdminSettings| -> (r: AdminSettings)
            ensures
                r@ == (AdminSettingsView { max_allowed_users: new_max_allowed_users, ..s@ }),
            {
                let mut row = s.clone();
                row.max_allowed_users = new_max_allowed_users;
                row
            };
        proof {
            lemma_keyed_updated(
                db@.admin_settings,
                |s: AdminSettingsView| s.id,
                db@.next_admin_settings_id,
                any_settings(),
                to,
            );
        }
        update_where(&mut db.admin_settings, test, change, Ghost(any_settings()), Ghost(to));
        Ok(())
    }
}

impl UserSettings {
    /// The settings of the user `user_id`: the user's first row, or the
    /// defaults where the user has set nothing.
    pub fn single(db: &Store, user_id: i32) -> (settings: UserSettings)
        ensures
            settings@ == (match first(db@.user_settings, settings_of(user_id)) {
                Some(row) => UserSettingsView { id: row.id, pgp_key: row.pgp_key },
                None => default_user_settings(),
            }),
    {
        let test = |s: &UserSettingsRow| -> (b: bool)
            ensures
                b == settings_of(user_id)(s@),
            { s.user_id == user_id };
        match position_where(&db.user_settings, test, Ghost(settings_of(user_id))) {
            Some(i) => UserSettings {
                id: db.user_settings[i].id,
                pgp_key: db.user_settings[i].pgp_key.clone(),
            },
            None => UserSettings::default(),
        }
    }

    /// Makes the settings row of the user `user_id`, with the defaults, if
    /// there is none. Fails only where the table has handed out its last key.
    pub(crate) fn insert_if_doesnt_exist(db: &mut Store, user_id: i32) -> (r: Result<
        (),
        LedgerError,
    >)
        requires
            old(db).wf(),
        ensures
            final(db).wf(),
            r == user_row_result(old(db)@, user_id),
            match r {
                Ok(_) => final(db)@ == with_user_row(old(db)@, user_id),
                Err(_) => final(db)@ == old(db)@,
            },
    {
        let test = |s: &UserSettingsRow| -> (b: bool)
            ensures
                b == settings_of(user_id)(s@),
            { s.user_id == user_id };
        let n: usize = count_where(&db.user_settings, test, Ghost(settings_of(user_id)));
        if n > 0 {
            return Ok(());
        }
        if db.next_user_settings_id == i32::MAX {
            return Err(LedgerError::StoreFull);
        }
        let id: i32 = db.next_user_settings_id;
        let row = UserSettingsRow { id: Some(id), user_id, pgp_key: "".to_owned() };
        proof {
            lemma_keyed_push(
                db@.user_settings,
                |s: UserSettingsRowView| s.id,
                db@.next_user_settings_id,
                row@,
            );
            assert(views(db.user_settings@.push(row)) =~= db@.user_settings.push(row@));
        }
        db.user_settings.push(row);
        db.next_user_settings_id = id + 1;
        Ok(())
    }

    /// Sets the PGP key of the user `user_id`.
    pub fn set_pgp_key(db: &mut Store, user_id: i32, new_pgp_key: &str) -> (r: Result<
        (),
        LedgerError,
    >)
        requires
            old(db).wf(),
        ensures
            final(db).wf(),
            r == user_row_result(old(db)@, user_id),
            match r {
                Ok(_) => final(db)@ == (StoreModel {
                    user_settings: updated(
                        with_user_row(old(db)@, user_id).user_settings,
                        settings_of(user_id),
                        |s: UserSettingsRowView|
                            UserSettingsRowView { pgp_key: new_pgp_key@, ..s },
                    ),
                    ..with_user_row(old(db)@, user_id)
                }),
                Err(_) => final(db)@ == old(db)@,
            },
    {
        match UserSettings::insert_if_doesnt_exist(db, user_id) {
            Ok(_) => {},
            Err(e) => { return Err(e); },
        }
        let ghost to = |s: UserSettingsRowView| UserSettingsRowView { pgp_key: new_pgp_key@, ..s };
        let value = new_pgp_key.to_owned();
        let test = |s: &UserSettingsRow| -> (b: bool)
            ensures
                b == settings_of(user_id)(s@),
            { s.user_id == user_id };
        let change = |s: &UserSettingsRow| -> (r: UserSettingsRow)
            ensures
                r@ == (UserSettingsRowView { pgp_key: new_pgp_key@, ..s@ }),
            {
                let mut row = s.clone();
                row.pgp_key = value.clone();
                row
            };
        proof {
            lemma_keyed_updated(
                db@.user_settings,
                |s: UserSettingsRowView| s.id,
                db@.next_user_settings_id,
                settings_of(user_id),
                to,
            );
        }
        update_where(&mut db.user_settings, test, change, Ghost(settings_of(user_id)), Ghost(to));
        Ok(())
    }
}

impl AdminInfo {
    /// What the administrator has waiting: the number of bounties to inspect.
    pub fn admin_info(db: &Store) -> (info: AdminInfo)
        requires
            db.wf(),
        ensures
            info@ == (AdminInfoView {
                num_pending_bounties: count(db@.bounties, bounty_pending()) as u32,
            }),
    {
        let num_pending_bounties: u32 = Bounty::num_pending(db);
        AdminInfo { num_pending_bounties }
    }
}

/// Sets the market's description, which must not be empty.
pub fn change_market_info(new_market_info: String, db: &mut Store) -> (r: Result<(), LedgerError>)
    requires
        old(db).wf(),
    ensures
        final(db).wf(),
        r == (if new_market_info@.len() == 0 {
            Err::<(), LedgerError>(LedgerError::EmptyMarketInfo)
        } else {
            admin_row_result(old(db)@)
        }),
        match r {
            Ok(_) => final(db)@ == with_admin_settings(
                old(db)@,
                |s: AdminSettingsView| AdminSettingsView { market_info: new_market_info@, ..s },
            ),
            Err(_) => final(db)@ == old(db)@,
        },
{
    if new_market_info.as_str().is_empty() {
        return Err(LedgerError::EmptyMarketInfo);
    }
    AdminSettings::set_market_info(db, new_market_info.as_str())
}

} // verus!
