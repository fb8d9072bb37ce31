use satbounty::bounty::{
    add_image, approve_bounty, create_bounty, deactivate_bounty_as_admin,
    deactivate_bounty_as_seller, delete_bounty, delete_image_with_public_id, mark_as_primary,
    may_view_bounty, open_bounty, reject_bounty, submit_bounty, MAX_UNAPPROVED_BOUNTIES,
};
use satbounty::error::LedgerError;
use satbounty::models::{
    AdminInfo, AdminSettings, Bounty, BountyImage, InitialBountyInfo, UserSettings,
};
use satbounty::settings::change_market_info;
use satbounty::store::Store;

fn bounty(public_id: &str, user: i32, created: u64) -> Bounty {
    Bounty {
        id: None,
        public_id: public_id.to_string(),
        user_id: user,
        title: format!("title {}", public_id),
        description: "text".to_string(),
        price_sat: 1000,
        fee_rate_basis_points: 500,
        submitted: false,
        viewed: false,
        approved: false,
        deactivated_by_seller: false,
        deactivated_by_admin: false,
        created_time_ms: created,
    }
}

fn info(title: &str, description: &str, price: Option<u64>) -> InitialBountyInfo {
    InitialBountyInfo {
        title: title.to_string(),
        description: description.to_string(),
        price_sat: price,
    }
}

fn image(public_id: &str, bounty_id: i32, primary: bool) -> BountyImage {
    BountyImage {
        id: None,
        public_id: public_id.to_string(),
        bounty_id,
        image_data: vec![1, 2, 3],
        is_primary: primary,
    }
}

#[test]
fn a_seller_may_have_the_maximum_of_unapproved_bounties() {
    let mut db = Store::new();
    assert_eq!(Bounty::insert(bounty("a", 1, 1), 1, &mut db), Ok(1));
    assert_eq!(
        Bounty::insert(bounty("b", 1, 2), 1, &mut db),
        Err(LedgerError::TooManyUnapprovedBounties)
    );
    assert_eq!(Bounty::insert(bounty("b", 2, 2), 1, &mut db), Ok(2));
    Bounty::mark_as_approved(&mut db, "a");
    assert_eq!(Bounty::insert(bounty("c", 1, 3), 1, &mut db), Ok(3));
    assert_eq!(Bounty::single(&db, 3).unwrap().public_id, "c");
    assert_eq!(Bounty::single(&db, 9).err(), Some(LedgerError::RowNotFound));
    assert_eq!(Bounty::single_by_public_id(&db, "zz").err(), Some(LedgerError::RowNotFound));
}

#[test]
fn inspection_moves_a_bounty_from_submitted_to_approved_or_rejected() {
    let mut db = Store::new();
    Bounty::insert(bounty("a", 1, 1), 5, &mut db).unwrap();
    Bounty::insert(bounty("b", 1, 2), 5, &mut db).unwrap();
    assert_eq!(approve_bounty(&mut db, "a"), Err(LedgerError::NotSubmitted));
    assert_eq!(reject_bounty(&mut db, "a"), Err(LedgerError::NotSubmitted));
    assert_eq!(submit_bounty(&mut db, "a", 2), Err(LedgerError::NotOwner));
    assert_eq!(submit_bounty(&mut db, "x", 1), Err(LedgerError::RowNotFound));
    assert_eq!(submit_bounty(&mut db, "a", 1), Ok(()));
    assert_eq!(submit_bounty(&mut db, "a", 1), Err(LedgerError::AlreadySubmitted));
    assert_eq!(submit_bounty(&mut db, "b", 1), Ok(()));
    assert_eq!(Bounty::num_pending(&db), 2);
    assert_eq!(AdminInfo::admin_info(&db).num_pending_bounties, 2);
    assert_eq!(approve_bounty(&mut db, "a"), Ok(()));
    assert_eq!(reject_bounty(&mut db, "b"), Ok(()));
    assert_eq!(approve_bounty(&mut db, "a"), Err(LedgerError::AlreadyViewed));
    assert_eq!(reject_bounty(&mut db, "a"), Err(LedgerError::AlreadyViewed));
    assert_eq!(approve_bounty(&mut db, "x"), Err(LedgerError::RowNotFound));
    assert_eq!(Bounty::num_pending(&db), 0);
    let a = Bounty::single_by_public_id(&db, "a").unwrap();
    assert!(a.submitted && a.viewed && a.approved);
    let b = Bounty::single_by_public_id(&db, "b").unwrap();
    assert!(b.submitted && b.viewed && !b.approved);
}

#[test]
fn an_approved_bounty_is_not_submitted_again() {
    let mut db = Store::new();
    Bounty::insert(bounty("a", 1, 1), 5, &mut db).unwrap();
    Bounty::mark_as_approved(&mut db, "a");
    assert_eq!(submit_bounty(&mut db, "a", 1), Err(LedgerError::AlreadyApproved));
}

#[test]
fn only_an_approved_bounty_is_deactivated_and_only_once() {
    let mut db = Store::new();
    Bounty::insert(bounty("a", 1, 1), 5, &mut db).unwrap();
    Bounty::insert(bounty("b", 1, 2), 5, &mut db).unwrap();
    // not approved: accepted, and nothing changes
    assert_eq!(deactivate_bounty_as_seller(&mut db, "a", 1), Ok(()));
    assert!(!Bounty::single(&db, 1).unwrap().deactivated_by_seller);
    Bounty::mark_as_approved(&mut db, "a");
    Bounty::mark_as_approved(&mut db, "b");
    assert_eq!(deactivate_bounty_as_seller(&mut db, "a", 2), Err(LedgerError::NotOwner));
    assert_eq!(deactivate_bounty_as_seller(&mut db, "a", 1), Ok(()));
    assert_eq!(
        deactivate_bounty_as_seller(&mut db, "a", 1),
        Err(LedgerError::AlreadyDeactivated)
    );
    assert_eq!(deactivate_bounty_as_admin(&mut db, "a"), Err(LedgerError::AlreadyDeactivated));
    assert_eq!(deactivate_bounty_as_admin(&mut db, "b"), Ok(()));
    assert_eq!(deactivate_bounty_as_admin(&mut db, "x"), Err(LedgerError::RowNotFound));
    let a = Bounty::single(&db, 1).unwrap();
    assert!(a.deactivated_by_seller && !a.deactivated_by_admin);
    let b = Bounty::single(&db, 2).unwrap();
    assert!(!b.deactivated_by_seller && b.deactivated_by_admin);
    assert_eq!(Bounty::mark_as_deactivated_by_admin(&mut db, "a"), 0);
}

#[test]
fn an_unapproved_bounty_is_shown_to_its_seller_and_to_administrators() {
    let mut b = bounty("a", 1, 1);
    assert!(may_view_bounty(&b, Some(1), false));
    assert!(may_view_bounty(&b, Some(2), true));
    assert!(may_view_bounty(&b, None, true));
    assert!(!may_view_bounty(&b, Some(2), false));
    assert!(!may_view_bounty(&b, None, false));
    b.approved = true;
    assert!(may_view_bounty(&b, None, false));
}

#[test]
fn deleting_a_bounty_takes_its_pictures() {
    let mut db = Store::new();
    Bounty::insert(bounty("a", 1, 1), 5, &mut db).unwrap();
    Bounty::insert(bounty("b", 1, 2), 5, &mut db).unwrap();
    assert_eq!(BountyImage::insert(image("i1", 1, false), &mut db), Ok(1));
    assert_eq!(BountyImage::insert(image("i2", 2, false), &mut db), Ok(1));
    assert_eq!(delete_bounty("a", &mut db, 2, false), Err(LedgerError::NotOwner));
    assert_eq!(delete_bounty("x", &mut db, 1, false), Err(LedgerError::RowNotFound));
    assert_eq!(delete_bounty("a", &mut db, 2, true), Ok(()));
    assert!(Bounty::single(&db, 1).is_err());
    assert!(BountyImage::single_by_public_id(&db, "i1").is_err());
    assert!(BountyImage::single_by_public_id(&db, "i2").is_ok());
    assert_eq!(delete_bounty("b", &mut db, 1, false), Ok(()));
    assert_eq!(Bounty::delete(2, &mut db), 0);
    assert!(BountyImage::single_by_public_id(&db, "i2").is_err());
}

#[test]
fn a_new_bounty_is_checked_field_by_field() {
    let mut db = Store::new();
    let open = |db: &mut Store, i: InitialBountyInfo, admin: bool| {
        open_bounty(i, db, 1, admin, "pid".to_string(), 77)
    };
    assert_eq!(open(&mut db, info("", "d", Some(1)), false), Err(LedgerError::EmptyTitle));
    assert_eq!(open(&mut db, info("t", "", Some(1)), false), Err(LedgerError::EmptyDescription));
    assert_eq!(
        open(&mut db, info(&"t".repeat(65), "d", Some(1)), false),
        Err(LedgerError::TitleTooLong)
    );
    // the length is counted in bytes
    assert_eq!(
        open(&mut db, info(&"é".repeat(33), "d", Some(1)), false),
        Err(LedgerError::TitleTooLong)
    );
    assert_eq!(
        open(&mut db, info("t", &"d".repeat(4097), Some(1)), false),
        Err(LedgerError::DescriptionTooLong)
    );
    assert_eq!(open(&mut db, info("t", "d", None), false), Err(LedgerError::PriceNotPositive));
    assert_eq!(open(&mut db, info("t", "d", Some(0)), false), Err(LedgerError::PriceNotPositive));
    assert_eq!(open(&mut db, info("t", "d", Some(1)), true), Err(LedgerError::AdminNotAllowed));
    assert_eq!(
        open(&mut db, info(&"t".repeat(64), &"d".repeat(4096), Some(5)), false),
        Ok(1)
    );
    let b = Bounty::single(&db, 1).unwrap();
    assert_eq!(b.public_id, "pid");
    assert_eq!(b.user_id, 1);
    assert_eq!(b.price_sat, 5);
    assert_eq!(b.fee_rate_basis_points, 500);
    assert_eq!(b.created_time_ms, 77);
    assert!(!b.submitted && !b.viewed && !b.approved);
    assert!(!b.deactivated_by_seller && !b.deactivated_by_admin);
}

#[test]
fn a_new_bounty_takes_the_fee_rate_of_the_market() {
    let mut db = Store::new();
    AdminSettings::set_fee_rate(&mut db, 250).unwrap();
    open_bounty(info("t", "d", Some(5)), &mut db, 1, false, "p".to_string(), 1).unwrap();
    assert_eq!(Bounty::single(&db, 1).unwrap().fee_rate_basis_points, 250);
}

#[test]
fn the_sixth_unapproved_bounty_is_refused() {
    let mut db = Store::new();
    assert_eq!(MAX_UNAPPROVED_BOUNTIES, 5);
    for i in 0..5 {
        let id = create_bounty(info("t", "d", Some(5)), &mut db, 1, false).unwrap();
        assert_eq!(id.len(), 36);
        assert_eq!(Bounty::single_by_public_id(&db, &id).unwrap().id, Some(i + 1));
    }
    assert_eq!(
        create_bounty(info("t", "d", Some(5)), &mut db, 1, false),
        Err(LedgerError::TooManyUnapprovedBounties)
    );
    assert!(Bounty::single(&db, 6).is_err());
}

#[test]
fn pictures_change_until_the_bounty_is_submitted() {
    let mut db = Store::new();
    Bounty::insert(bounty("a", 1, 1), 5, &mut db).unwrap();
    Bounty::insert(bounty("b", 1, 2), 5, &mut db).unwrap();
    let add = |db: &mut Store, bounty: &str, bytes: Vec<u8>, user: i32, pid: &str| {
        add_image(bounty, bytes, db, user, pid.to_string())
    };
    assert_eq!(add(&mut db, "x", vec![1], 1, "i"), Err(LedgerError::RowNotFound));
    assert_eq!(add(&mut db, "a", vec![1], 2, "i"), Err(LedgerError::NotOwner));
    assert_eq!(add(&mut db, "a", vec![], 1, "i"), Err(LedgerError::EmptyFile));
    for i in 0..5 {
        assert_eq!(add(&mut db, "a", vec![i], 1, &format!("i{}", i)), Ok(()));
    }
    assert_eq!(add(&mut db, "a", vec![9], 1, "i9"), Err(LedgerError::TooManyImages));
    assert_eq!(add(&mut db, "b", vec![9], 1, "j0"), Ok(()));
    let images = BountyImage::all_for_bounty(&db, 1);
    assert_eq!(images.len(), 5);
    assert!(images.iter().all(|i| !i.is_primary && i.bounty_id == 1));
    assert_eq!(images[2].image_data, vec![2]);

    assert_eq!(mark_as_primary("a", "j0", &mut db, 1), Err(LedgerError::WrongBounty));
    assert_eq!(mark_as_primary("a", "zz", &mut db, 1), Err(LedgerError::RowNotFound));
    assert_eq!(mark_as_primary("x", "i3", &mut db, 1), Err(LedgerError::RowNotFound));
    assert_eq!(mark_as_primary("a", "i3", &mut db, 2), Err(LedgerError::NotOwner));
    assert_eq!(mark_as_primary("a", "i3", &mut db, 1), Ok(()));
    let ids: Vec<String> =
        BountyImage::all_for_bounty(&db, 1).iter().map(|i| i.public_id.clone()).collect();
    assert_eq!(ids, vec!["i3", "i0", "i1", "i2", "i4"]);
    assert_eq!(mark_as_primary("a", "i1", &mut db, 1), Ok(()));
    let primary: Vec<bool> =
        BountyImage::all_for_bounty(&db, 1).iter().map(|i| i.is_primary).collect();
    assert_eq!(primary, vec![true, false, false, false, false]);
    assert_eq!(BountyImage::all_for_bounty(&db, 1)[0].public_id, "i1");
    // the pictures of the other bounty are left alone
    assert!(!BountyImage::single_by_public_id(&db, "j0").unwrap().is_primary);

    assert_eq!(
        delete_image_with_public_id("a", "i9", &mut db, 1),
        Err(LedgerError::RowNotFound)
    );
    assert_eq!(
        delete_image_with_public_id("b", "i0", &mut db, 1),
        Err(LedgerError::WrongBounty)
    );
    assert_eq!(delete_image_with_public_id("a", "i0", &mut db, 2), Err(LedgerError::NotOwner));
    assert_eq!(delete_image_with_public_id("a", "i0", &mut db, 1), Ok(()));
    assert_eq!(BountyImage::all_for_bounty(&db, 1).len(), 4);
    assert_eq!(add(&mut db, "a", vec![9], 1, "i9"), Ok(()));

    submit_bounty(&mut db, "a", 1).unwrap();
    assert_eq!(add(&mut db, "a", vec![1], 1, "k"), Err(LedgerError::AlreadySubmitted));
    assert_eq!(mark_as_primary("a", "i2", &mut db, 1), Err(LedgerError::AlreadySubmitted));
    assert_eq!(
        delete_image_with_public_id("a", "i2", &mut db, 1),
        Err(LedgerError::AlreadySubmitted)
    );
    assert_eq!(BountyImage::delete_with_public_id("i2", &mut db), 1);
    assert_eq!(BountyImage::mark_image_as_primary_by_public_id(&mut db, 1, "i4"), 4);
}

#[test]
fn the_market_has_defaults_until_something_is_set() {
    let mut db = Store::new();
    let s = AdminSettings::single(&db);
    assert_eq!(s.id, None);
    assert_eq!(s.market_name, "Sat Bounty");
    assert_eq!(s.market_info, "About this market...");
    assert_eq!(s.fee_rate_basis_points, 500);
    assert_eq!(s.user_bond_price_sat, 1);
    assert_eq!(s.pgp_key, "");
    assert_eq!(s.max_allowed_users, 10000);
    assert_eq!(AdminSettings::default().market_name, "Sat Bounty");
    assert_eq!(AdminSettings::set_market_name(&mut db, "Agora"), Ok(()));
    let s = AdminSettings::single(&db);
    assert_eq!(s.id, Some(1));
    assert_eq!(s.market_name, "Agora");
    assert_eq!(s.fee_rate_basis_points, 500);
    assert_eq!(AdminSettings::set_market_info(&mut db, "info"), Ok(()));
    assert_eq!(AdminSettings::set_fee_rate(&mut db, 0), Ok(()));
    assert_eq!(AdminSettings::set_fee_rate(&mut db, -1), Err(LedgerError::NegativeFeeRate));
    assert_eq!(AdminSettings::set_user_bond_price(&mut db, 123), Ok(()));
    assert_eq!(AdminSettings::set_pgp_key(&mut db, "key"), Ok(()));
    assert_eq!(AdminSettings::set_max_allowed_users(&mut db, 7), Ok(()));
    let s = AdminSettings::single(&db);
    assert_eq!(s.id, Some(1));
    assert_eq!(s.market_name, "Agora");
    assert_eq!(s.market_info, "info");
    assert_eq!(s.fee_rate_basis_points, 0);
    assert_eq!(s.user_bond_price_sat, 123);
    assert_eq!(s.pgp_key, "key");
    assert_eq!(s.max_allowed_users, 7);
    assert_eq!(
        change_market_info(String::new(), &mut db),
        Err(LedgerError::EmptyMarketInfo)
    );
    assert_eq!(change_market_info("more".to_string(), &mut db), Ok(()));
    assert_eq!(AdminSettings::single(&db).market_info, "more");
}

#[test]
fn each_user_has_settings_of_their_own() {
    let mut db = Store::new();
    assert_eq!(UserSettings::single(&db, 1).id, None);
    assert_eq!(UserSettings::single(&db, 1).pgp_key, "");
    assert_eq!(UserSettings::default().pgp_key, "");
    assert_eq!(UserSettings::set_pgp_key(&mut db, 1, "k1"), Ok(()));
    assert_eq!(UserSettings::set_pgp_key(&mut db, 2, "k2"), Ok(()));
    assert_eq!(UserSettings::set_pgp_key(&mut db, 1, "k3"), Ok(()));
    assert_eq!(UserSettings::single(&db, 1).pgp_key, "k3");
    assert_eq!(UserSettings::single(&db, 1).id, Some(1));
    assert_eq!(UserSettings::single(&db, 2).pgp_key, "k2");
    assert_eq!(UserSettings::single(&db, 2).id, Some(2));
    assert_eq!(UserSettings::single(&db, 3).pgp_key, "");
}
