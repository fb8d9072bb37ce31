use satbounty::backend::SendResponse;
use satbounty::error::LedgerError;
use satbounty::models::{RocketAuthUser, User, UserAccount};
use satbounty::store::Store;
use satbounty::user_account_expiry::{remove_expired_user_accounts, USER_ACCOUNT_EXPIRY_INTERVAL_MS};

fn user(name: &str, is_admin: bool) -> User {
    User { id: None, username: name.to_string(), is_admin }
}

fn bond(public_id: &str, user: i32, amount: u64, created: u64, hash: &str) -> UserAccount {
    UserAccount {
        id: None,
        public_id: public_id.to_string(),
        user_id: user,
        amount_owed_sat: amount,
        paid: false,
        disabled: false,
        invoice_hash: hash.to_string(),
        invoice_payment_request: String::new(),
        created_time_ms: created,
        payment_time_ms: 0,
    }
}

#[test]
fn users_are_found_by_key_and_by_name() {
    let mut db = Store::new();
    assert_eq!(User::insert(user("root", true), &mut db), Ok(1));
    assert_eq!(User::insert(user("alice", false), &mut db), Ok(2));
    let u = RocketAuthUser::single(&db, 2).unwrap();
    assert_eq!(u.id, Some(2));
    assert_eq!(u.username, "alice");
    assert_eq!(RocketAuthUser::single_by_username(&db, "root".to_string()).unwrap().id, Some(1));
    assert_eq!(RocketAuthUser::single(&db, 3).err(), Some(LedgerError::RowNotFound));
    assert_eq!(
        RocketAuthUser::single_by_username(&db, "bob".to_string()).err(),
        Some(LedgerError::RowNotFound)
    );
    assert_eq!(UserAccount::number_of_users(&db), 1);
}

#[test]
fn an_activation_is_paid_once_and_switched_off_and_on() {
    let mut db = Store::new();
    User::insert(user("alice", false), &mut db).unwrap();
    assert_eq!(UserAccount::insert(bond("ua", 1, 500, 10, "aa"), &mut db), Ok(1));
    let a = UserAccount::single(&db, 1).unwrap();
    assert!(!a.paid && !a.disabled);
    assert_eq!(UserAccount::mark_as_paid(&mut db, 1, 77), 1);
    assert_eq!(UserAccount::mark_as_paid(&mut db, 1, 99), 0);
    let a = UserAccount::single_by_public_id(&db, "ua").unwrap();
    assert!(a.paid);
    assert_eq!(a.payment_time_ms, 77);
    assert_eq!(UserAccount::mark_as_disabled(&mut db, 1), 1);
    assert!(UserAccount::single_by_invoice_hash(&db, "aa").unwrap().disabled);
    assert_eq!(UserAccount::mark_as_enabled(&mut db, 1), 1);
    assert!(!UserAccount::single(&db, 1).unwrap().disabled);
    assert_eq!(UserAccount::mark_as_disabled(&mut db, 5), 0);
    assert_eq!(UserAccount::single(&db, 5).err(), Some(LedgerError::RowNotFound));
    assert_eq!(UserAccount::single_by_public_id(&db, "x").err(), Some(LedgerError::RowNotFound));
    assert_eq!(
        UserAccount::single_by_invoice_hash(&db, "x").err(),
        Some(LedgerError::RowNotFound)
    );
}

#[test]
fn an_expired_activation_goes_with_its_user() {
    let mut db = Store::new();
    User::insert(user("alice", false), &mut db).unwrap();
    User::insert(user("bob", false), &mut db).unwrap();
    UserAccount::insert(bond("a", 1, 500, 10, "aa"), &mut db).unwrap();
    UserAccount::insert(bond("b", 2, 500, 10, "bb"), &mut db).unwrap();
    UserAccount::mark_as_paid(&mut db, 2, 20);
    assert_eq!(UserAccount::all_older_than(&db, 11).len(), 1);
    assert_eq!(UserAccount::all_older_than(&db, 10).len(), 0);
    // bob has paid in the meantime: neither the activation nor bob is deleted
    assert_eq!(UserAccount::delete_expired_user_account(&mut db, 2), 0);
    assert!(UserAccount::single(&db, 2).is_ok());
    assert!(RocketAuthUser::single(&db, 2).is_ok());
    assert_eq!(UserAccount::delete_expired_user_account(&mut db, 1), 1);
    assert!(UserAccount::single(&db, 1).is_err());
    assert!(RocketAuthUser::single(&db, 1).is_err());
}

#[test]
fn the_sweep_reaps_unpaid_activations_past_the_window() {
    let window = USER_ACCOUNT_EXPIRY_INTERVAL_MS;
    let now = 10 * window;
    let mut db = Store::new();
    for name in ["old", "new", "paid"] {
        User::insert(user(name, false), &mut db).unwrap();
    }
    UserAccount::insert(bond("old", 1, 500, now - window - 1, "0a0b"), &mut db).unwrap();
    UserAccount::insert(bond("new", 2, 500, now - window + 1, "0c"), &mut db).unwrap();
    UserAccount::insert(bond("paid", 3, 500, now - window - 1, "0d"), &mut db).unwrap();
    UserAccount::mark_as_paid(&mut db, 3, now - window);
    let cancel = remove_expired_user_accounts(&mut db, now);
    assert_eq!(cancel, vec![vec![0x0a, 0x0b]]);
    assert!(UserAccount::single(&db, 1).is_err());
    assert!(RocketAuthUser::single(&db, 1).is_err());
    assert!(UserAccount::single(&db, 2).is_ok());
    assert!(RocketAuthUser::single(&db, 2).is_ok());
    assert!(UserAccount::single(&db, 3).is_ok());
    assert!(RocketAuthUser::single(&db, 3).is_ok());
    assert_eq!(remove_expired_user_accounts(&mut db, now), Vec::<Vec<u8>>::new());
}

#[test]
fn users_without_an_activation_are_deleted_but_not_administrators() {
    let mut db = Store::new();
    User::insert(user("root", true), &mut db).unwrap();
    User::insert(user("alice", false), &mut db).unwrap();
    User::insert(user("bob", false), &mut db).unwrap();
    UserAccount::insert(bond("a", 2, 500, 10, "aa"), &mut db).unwrap();
    assert_eq!(UserAccount::delete_users_with_no_account(&mut db), 1);
    assert!(RocketAuthUser::single(&db, 1).is_ok());
    assert!(RocketAuthUser::single(&db, 2).is_ok());
    assert!(RocketAuthUser::single(&db, 3).is_err());
    assert_eq!(UserAccount::delete_users_with_no_account(&mut db), 0);
}

#[test]
fn deactivation_returns_the_bond_less_the_fee() {
    let mut db = Store::new();
    User::insert(user("alice", false), &mut db).unwrap();
    UserAccount::insert(bond("a", 1, 500, 10, "aa"), &mut db).unwrap();
    let account = UserAccount::single(&db, 1).unwrap();
    // the bond is not paid yet
    assert_eq!(
        UserAccount::do_deactivation(20, account.clone(), &db),
        Err(LedgerError::NoUserBond)
    );
    UserAccount::mark_as_paid(&mut db, 1, 20);
    assert_eq!(UserAccount::do_deactivation(20, account.clone(), &db), Ok(480));
    assert_eq!(UserAccount::do_deactivation(500, account.clone(), &db), Ok(0));
    assert_eq!(
        UserAccount::do_deactivation(501, account.clone(), &db),
        Err(LedgerError::InsufficientBond)
    );
    // nothing has changed so far
    assert!(UserAccount::single(&db, 1).is_ok());
    assert_eq!(
        UserAccount::finish_deactivation(&mut db, 1, Err("no route".to_string())),
        Err(LedgerError::PaymentFailed)
    );
    assert!(UserAccount::single(&db, 1).is_ok());
    assert!(RocketAuthUser::single(&db, 1).is_ok());
    let sent = Ok(SendResponse { payment_hash: vec![1] });
    assert_eq!(UserAccount::finish_deactivation(&mut db, 1, sent), Ok(()));
    assert!(UserAccount::single(&db, 1).is_err());
    assert!(RocketAuthUser::single(&db, 1).is_err());
    // a second deactivation finds no bond
    assert_eq!(UserAccount::do_deactivation(20, account, &db), Err(LedgerError::NoUserBond));
}
