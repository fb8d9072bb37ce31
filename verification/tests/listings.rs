use satbounty::error::LedgerError;
use satbounty::models::{
    Bounty, BountyCard, BountyCardDisplay, BountyDisplay, BountyImage, Case, CaseCard,
    RocketAuthUser, User, UserAccount, UserCard,
};
use satbounty::search::{fits, like_match, pattern_holding, to_chars};
use satbounty::store::{Store, Tables};

fn user(name: &str) -> User {
    User { id: None, username: name.to_string(), is_admin: false }
}

fn account(user: i32, created: u64) -> UserAccount {
    UserAccount {
        id: None,
        public_id: format!("acc{}-{}", user, created),
        user_id: user,
        amount_owed_sat: 500,
        paid: false,
        disabled: false,
        invoice_hash: String::new(),
        invoice_payment_request: String::new(),
        created_time_ms: created,
        payment_time_ms: 0,
    }
}

fn bounty(public_id: &str, user: i32, title: &str, created: u64) -> Bounty {
    Bounty {
        id: None,
        public_id: public_id.to_string(),
        user_id: user,
        title: title.to_string(),
        description: format!("about {}", public_id),
        price_sat: 1000,
        fee_rate_basis_points: 500,
        submitted: true,
        viewed: true,
        approved: true,
        deactivated_by_seller: false,
        deactivated_by_admin: false,
        created_time_ms: created,
    }
}

fn image(public_id: &str, bounty_id: i32, primary: bool, data: &[u8]) -> BountyImage {
    BountyImage {
        id: None,
        public_id: public_id.to_string(),
        bounty_id,
        image_data: data.to_vec(),
        is_primary: primary,
    }
}

fn order(public_id: &str, buyer: i32, seller: i32, bounty: i32, owed: u64, created: u64) -> Case {
    Case {
        id: None,
        public_id: public_id.to_string(),
        quantity: 1,
        buyer_user_id: buyer,
        seller_user_id: seller,
        bounty_id: bounty,
        case_details: String::new(),
        amount_owed_sat: owed,
        seller_credit_sat: owed,
        paid: false,
        awarded: false,
        canceled_by_seller: false,
        canceled_by_buyer: false,
        invoice_hash: String::new(),
        invoice_payment_request: String::new(),
        created_time_ms: created,
        payment_time_ms: 0,
    }
}

/// Two sellers with accounts, three approved bounties of seller 1 and one of
/// seller 2, pictures on bounties 1 and 2.
fn market() -> Store {
    let mut db = Store::new();
    User::insert(user("alice"), &mut db).unwrap();
    User::insert(user("bob"), &mut db).unwrap();
    UserAccount::insert(account(1, 10), &mut db).unwrap();
    UserAccount::insert(account(2, 20), &mut db).unwrap();
    UserAccount::mark_as_paid(&mut db, 1, 11);
    UserAccount::mark_as_paid(&mut db, 2, 21);
    Bounty::insert(bounty("b1", 1, "Red Bicycle", 100), 9, &mut db).unwrap();
    Bounty::insert(bounty("b2", 1, "Blue kettle", 300), 9, &mut db).unwrap();
    Bounty::insert(bounty("b3", 2, "green lamp", 200), 9, &mut db).unwrap();
    Bounty::insert(bounty("b4", 1, "100% wool", 50), 9, &mut db).unwrap();
    BountyImage::insert(image("i1", 1, false, b"one"), &mut db).unwrap();
    BountyImage::insert(image("i2", 1, true, b"two"), &mut db).unwrap();
    BountyImage::insert(image("i3", 2, false, b"three"), &mut db).unwrap();
    BountyImage::insert(image("i4", 2, false, b"four"), &mut db).unwrap();
    db
}

fn ids(cards: &[BountyCard]) -> Vec<String> {
    cards.iter().map(|c| c.bounty.public_id.clone()).collect()
}

#[test]
fn bounties_on_offer_are_listed_newest_first_with_cover_and_seller() {
    let db = market();
    let cards = BountyCard::all_active(&db, 10, 1);
    assert_eq!(ids(&cards), vec!["b2", "b3", "b1", "b4"]);
    assert_eq!(cards[0].user.username, "alice");
    assert_eq!(cards[1].user.username, "bob");
    assert_eq!(cards[1].user.id, Some(2));
    // no primary picture: the first one
    assert_eq!(cards[0].image.as_ref().unwrap().public_id, "i3");
    // the primary picture
    assert_eq!(cards[2].image.as_ref().unwrap().public_id, "i2");
    assert!(cards[1].image.is_none());
    assert_eq!(ids(&BountyCard::all_active(&db, 3, 2)), vec!["b4"]);
    assert_eq!(ids(&BountyCard::all_active(&db, 3, 3)), Vec::<String>::new());
}

#[test]
fn a_disabled_seller_has_nothing_on_offer() {
    let mut db = market();
    UserAccount::mark_as_disabled(&mut db, 1);
    assert_eq!(ids(&BountyCard::all_active(&db, 10, 1)), vec!["b3"]);
    assert_eq!(ids(&BountyCard::all_active_for_search_text(&db, "e", 10, 1)), vec!["b3"]);
    // the seller's own list does not ask for the activation
    assert_eq!(ids(&BountyCard::all_active_for_user(&db, 1, 10, 1)), vec!["b2", "b1", "b4"]);
}

#[test]
fn a_bounty_without_a_user_is_not_listed() {
    let mut db = market();
    Bounty::insert(bounty("ghost", 9, "ghost", 999), 9, &mut db).unwrap();
    assert_eq!(ids(&BountyCard::all_deactivated(&db, 10, 1)), Vec::<String>::new());
    Bounty::mark_as_deactivated_by_admin(&mut db, "ghost");
    Bounty::mark_as_deactivated_by_seller(&mut db, "b1");
    assert_eq!(ids(&BountyCard::all_deactivated(&db, 10, 1)), vec!["b1"]);
    assert_eq!(ids(&BountyCard::all_deactivated_for_user(&db, 1, 10, 1)), vec!["b1"]);
    assert_eq!(ids(&BountyCard::all_deactivated_for_user(&db, 2, 10, 1)), Vec::<String>::new());
    assert_eq!(ids(&BountyCard::all_active(&db, 10, 1)), vec!["b2", "b3", "b4"]);
}

#[test]
fn a_seller_sees_bounties_by_their_state() {
    let mut db = market();
    let mut fresh = bounty("n1", 1, "new", 400);
    fresh.submitted = false;
    fresh.viewed = false;
    fresh.approved = false;
    Bounty::insert(fresh, 9, &mut db).unwrap();
    let mut waiting = bounty("n2", 1, "waiting", 500);
    waiting.viewed = false;
    waiting.approved = false;
    Bounty::insert(waiting, 9, &mut db).unwrap();
    assert_eq!(ids(&BountyCard::all_unsubmitted_for_user(&db, 1, 10, 1)), vec!["n1"]);
    assert_eq!(ids(&BountyCard::all_pending_for_user(&db, 1, 10, 1)), vec!["n2"]);
    assert_eq!(ids(&BountyCard::all_pending_for_user(&db, 2, 10, 1)), Vec::<String>::new());
    assert_eq!(ids(&BountyCard::all_pending(&db, 10, 1)), vec!["n2"]);
    assert_eq!(ids(&BountyCard::all_rejected_for_user(&db, 1, 10, 1)), vec!["n2", "n1"]);
    assert_eq!(ids(&BountyCard::all_active_for_user(&db, 2, 10, 1)), vec!["b3"]);
}

#[test]
fn search_ignores_case_and_takes_wildcards() {
    let db = market();
    let found = |text: &str| ids(&BountyCard::all_active_for_search_text(&db, text, 10, 1));
    assert_eq!(found("bicycle"), vec!["b1"]);
    assert_eq!(found("BLUE"), vec!["b2"]);
    assert_eq!(found("e"), vec!["b2", "b3", "b1"]);
    assert_eq!(found(""), vec!["b2", "b3", "b1", "b4"]);
    assert_eq!(found("nothing"), Vec::<String>::new());
    // in the description
    assert_eq!(found("about b3"), vec!["b3"]);
    // one character, any run
    assert_eq!(found("r_d"), vec!["b1"]);
    assert_eq!(found("b%e"), vec!["b2", "b1"]);
    assert_eq!(found("a%b"), vec!["b2", "b3", "b1", "b4"]);
    assert_eq!(found("green%lamp"), vec!["b3"]);
    assert_eq!(found("lamp%green"), Vec::<String>::new());
    assert_eq!(found("0% w"), vec!["b4"]);
}

#[test]
fn patterns_match_whole_texts() {
    let m = |p: &str, s: &str| like_match(&to_chars(p), &to_chars(s));
    assert!(m("", ""));
    assert!(!m("", "a"));
    assert!(m("%", ""));
    assert!(m("%", "anything"));
    assert!(m("a", "A"));
    assert!(m("A", "a"));
    assert!(!m("a", "b"));
    assert!(!m("a", "ab"));
    assert!(m("a%", "ab"));
    assert!(m("%b", "ab"));
    assert!(m("_", "x"));
    assert!(!m("_", ""));
    assert!(!m("_", "xy"));
    assert!(m("a_c", "abc"));
    assert!(m("a%c%e", "abcde"));
    assert!(m("a%c%e", "ace"));
    assert!(!m("a%c%e", "aec"));
    assert!(m("%%", ""));
    assert!(m("é", "é"));
    assert!(!m("é", "É"));
    assert_eq!(pattern_holding("ab"), vec!['%', 'a', 'b', '%']);
    assert!(fits(&pattern_holding("ell"), "Hello"));
    assert!(!fits(&pattern_holding("elo"), "Hello"));
    assert_eq!(to_chars("héllo"), vec!['h', 'é', 'l', 'l', 'o']);
}

#[test]
fn displays_carry_pictures_as_base64() {
    let db = market();
    let cards = BountyCardDisplay::all_active(&db, 10, 1);
    assert_eq!(cards.len(), 4);
    assert_eq!(cards[0].bounty.public_id, "b2");
    assert_eq!(cards[0].image.as_ref().unwrap().image_data_base64, "dGhyZWU=");
    assert_eq!(cards[2].image.as_ref().unwrap().image_data_base64, "dHdv");
    assert!(cards[2].image.as_ref().unwrap().is_primary);
    assert_eq!(cards[2].image.as_ref().unwrap().bounty_id, 1);
    assert_eq!(cards[2].user.username, "alice");
    assert!(cards[1].image.is_none());
    let card = BountyCard::all_active(&db, 1, 1).remove(0);
    let shown = BountyCardDisplay::bounty_card_to_display(&card);
    assert_eq!(shown.bounty.title, "Blue kettle");
    assert_eq!(shown.image.unwrap().public_id, "i3");
    assert_eq!(BountyCardDisplay::all_deactivated(&db, 10, 1).len(), 0);
    assert_eq!(BountyCardDisplay::all_pending(&db, 10, 1).len(), 0);
    assert_eq!(BountyCardDisplay::all_unsubmitted_for_user(&db, 1, 10, 1).len(), 0);
    assert_eq!(BountyCardDisplay::all_pending_for_user(&db, 1, 10, 1).len(), 0);
    assert_eq!(BountyCardDisplay::all_rejected_for_user(&db, 1, 10, 1).len(), 0);
    assert_eq!(BountyCardDisplay::all_deactivated_for_user(&db, 1, 10, 1).len(), 0);
    assert_eq!(BountyCardDisplay::all_active_for_user(&db, 1, 10, 1).len(), 3);
    assert_eq!(BountyCardDisplay::all_active_for_search_text(&db, "kettle", 10, 1).len(), 1);
}

#[test]
fn a_bounty_is_shown_with_all_its_pictures() {
    let db = market();
    let shown = BountyDisplay::single_by_public_id(&db, "b1").unwrap();
    assert_eq!(shown.bounty.id, Some(1));
    let pictures: Vec<(&str, &str, bool)> = shown
        .images
        .iter()
        .map(|i| (i.public_id.as_str(), i.image_data_base64.as_str(), i.is_primary))
        .collect();
    assert_eq!(pictures, vec![("i2", "dHdv", true), ("i1", "b25l", false)]);
    assert_eq!(shown.user.unwrap().username, "alice");
    assert_eq!(
        BountyDisplay::single_by_public_id(&db, "zz").err(),
        Some(LedgerError::RowNotFound)
    );
}

#[test]
fn orders_are_listed_with_their_bounty() {
    let mut db = market();
    Case::insert(order("o1", 2, 1, 1, 10, 1000), 9, &mut db).unwrap();
    Case::insert(order("o2", 2, 1, 2, 20, 2000), 9, &mut db).unwrap();
    Case::insert(order("o3", 2, 1, 77, 30, 3000), 9, &mut db).unwrap();
    Case::insert(order("o4", 1, 2, 3, 40, 4000), 9, &mut db).unwrap();
    let names = |cards: &[CaseCard]| -> Vec<String> {
        cards.iter().map(|c| c.case.public_id.clone()).collect()
    };
    let unpaid = CaseCard::all_unpaid_for_user(&db, 2, 10, 1);
    assert_eq!(names(&unpaid), vec!["o3", "o2", "o1"]);
    assert!(unpaid[0].bounty.is_none() && unpaid[0].image.is_none() && unpaid[0].user.is_none());
    assert_eq!(unpaid[1].bounty.as_ref().unwrap().public_id, "b2");
    assert_eq!(unpaid[1].image.as_ref().unwrap().public_id, "i3");
    assert_eq!(unpaid[1].user.as_ref().unwrap().username, "alice");
    assert_eq!(unpaid[2].image.as_ref().unwrap().public_id, "i2");
    assert_eq!(names(&CaseCard::all_unpaid_for_user(&db, 2, 2, 2)), vec!["o1"]);
    Case::mark_as_paid(&mut db, 1, 9000);
    Case::mark_as_paid(&mut db, 2, 8000);
    Case::mark_as_paid(&mut db, 3, 8500);
    assert_eq!(names(&CaseCard::all_paid_for_user(&db, 2, 10, 1)), vec!["o1", "o3", "o2"]);
    assert_eq!(names(&CaseCard::all_paid_for_user(&db, 1, 10, 1)), Vec::<String>::new());
    assert_eq!(names(&CaseCard::all_processing_for_user(&db, 1, 10, 1)), vec!["o1", "o3", "o2"]);
    Case::mark_as_awarded(&mut db, 2).unwrap();
    Case::mark_as_canceled_by_seller(&mut db, 3).unwrap();
    assert_eq!(names(&CaseCard::all_processing_for_user(&db, 1, 10, 1)), vec!["o1"]);
    assert_eq!(names(&CaseCard::all_received_for_user(&db, 1, 10, 1)), vec!["o2"]);
    assert_eq!(names(&CaseCard::all_unpaid_for_user(&db, 1, 10, 1)), vec!["o4"]);
}

#[test]
fn sellers_are_ranked_by_what_they_sold() {
    let mut db = market();
    User::insert(user("carol"), &mut db).unwrap();
    Case::insert(order("o1", 2, 1, 1, 10, 1), 9, &mut db).unwrap();
    Case::insert(order("o2", 1, 2, 3, 25, 2), 9, &mut db).unwrap();
    Case::insert(order("o3", 2, 1, 1, 5, 3), 9, &mut db).unwrap();
    Case::insert(order("o4", 2, 1, 1, 1000, 4), 9, &mut db).unwrap();
    for id in 1..=4 {
        Case::mark_as_paid(&mut db, id, 10);
    }
    for id in 1..=3 {
        Case::mark_as_awarded(&mut db, id).unwrap();
    }
    assert_eq!(Case::seller_info_for_user(&db, 1).unwrap().total_amount_sold_sat, 15);
    assert_eq!(Case::seller_info_for_user(&db, 1).unwrap().username, "");
    assert_eq!(Case::seller_info_for_user(&db, 3).unwrap().total_amount_sold_sat, 0);
    let top: Vec<(String, u64)> = Case::seller_info_for_all_users(&db, 10, 1)
        .unwrap()
        .iter()
        .map(|s| (s.username.clone(), s.total_amount_sold_sat))
        .collect();
    assert_eq!(top, vec![("bob".to_string(), 25), ("alice".to_string(), 15)]);
    assert_eq!(Case::seller_info_for_all_users(&db, 1, 2).unwrap()[0].username, "alice");
}

#[test]
fn a_total_sold_beyond_64_bits_is_an_error() {
    let mut db = market();
    let big = i64::MAX as u64;
    for i in 0..2 {
        Case::insert(order(&format!("o{}", i), 2, 1, 1, big, 1), 9, &mut db).unwrap();
        Case::mark_as_paid(&mut db, i + 1, 10);
        Case::mark_as_awarded(&mut db, i + 1).unwrap();
    }
    assert_eq!(Case::seller_info_for_user(&db, 1).err(), Some(LedgerError::BalanceOverflow));
    assert_eq!(
        Case::seller_info_for_all_users(&db, 10, 1).err(),
        Some(LedgerError::BalanceOverflow)
    );
    assert_eq!(Case::seller_info_for_user(&db, 2).unwrap().total_amount_sold_sat, 0);
}

#[test]
fn users_are_listed_by_the_state_of_their_activation() {
    let mut db = market();
    User::insert(user("carol"), &mut db).unwrap();
    UserAccount::insert(account(3, 30), &mut db).unwrap();
    let names = |cards: &[UserCard]| -> Vec<String> {
        cards.iter().map(|c| c.user.username.clone()).collect()
    };
    // carol has not paid
    assert_eq!(names(&UserCard::all_active(&db, 10, 1)), vec!["bob", "alice"]);
    assert_eq!(names(&UserCard::all_disabled(&db, 10, 1)), Vec::<String>::new());
    UserAccount::mark_as_disabled(&mut db, 2);
    let active = UserCard::all_active(&db, 10, 1);
    assert_eq!(names(&active), vec!["alice"]);
    assert_eq!(active[0].user_account.user_id, 1);
    assert_eq!(active[0].user_account.created_time_ms, 10);
    let disabled = UserCard::all_disabled(&db, 10, 1);
    assert_eq!(names(&disabled), vec!["bob"]);
    assert!(disabled[0].user_account.disabled && disabled[0].user_account.paid);
    assert_eq!(UserCard::all_active(&db, 10, 2).len(), 0);
}

#[test]
fn a_store_is_restored_from_what_it_exports() {
    let db = market();
    let tables = db.export();
    assert_eq!(tables.bounties.len(), 4);
    assert_eq!(tables.next_bounty_id, 5);
    assert_eq!(tables.users[1].username, "bob");
    let mut again = Store::restore(tables).unwrap();
    assert_eq!(ids(&BountyCard::all_active(&again, 10, 1)), vec!["b2", "b3", "b1", "b4"]);
    assert_eq!(RocketAuthUser::single(&again, 1).unwrap().username, "alice");
    assert_eq!(Bounty::insert(bounty("b5", 1, "t", 1), 9, &mut again), Ok(5));
}

#[test]
fn tables_that_no_store_can_hold_are_refused() {
    let db = market();
    let mut t = db.export();
    t.next_bounty_id = 4;
    assert!(Store::restore(t).is_none());
    let mut t = db.export();
    t.bounties.swap(0, 1);
    assert!(Store::restore(t).is_none());
    let mut t = db.export();
    t.users[0].id = None;
    assert!(Store::restore(t).is_none());
    let mut t = db.export();
    t.bounties[0].price_sat = u64::MAX;
    assert!(Store::restore(t).is_none());
    let mut t = db.export();
    t.next_case_id = 0;
    assert!(Store::restore(t).is_none());
    let mut t = db.export();
    let mut c = order("o", 1, 2, 1, 1, 1);
    c.id = Some(1);
    c.awarded = true;
    c.canceled_by_buyer = true;
    t.cases.push(c);
    t.next_case_id = 2;
    assert!(Store::restore(t).is_none());
    let mut t = db.export();
    let mut c = order("o", 1, 2, 1, 1, 1);
    c.id = Some(1);
    t.cases.push(c);
    t.next_case_id = 2;
    assert!(Store::restore(t).is_some());
}

#[test]
fn a_table_that_has_handed_out_its_last_key_is_full() {
    let db = market();
    let mut t = db.export();
    t.next_case_id = i32::MAX;
    t.next_user_account_id = i32::MAX;
    t.next_withdrawal_id = i32::MAX;
    t.next_user_id = i32::MAX;
    t.next_bounty_id = i32::MAX;
    t.next_bounty_image_id = i32::MAX;
    t.next_admin_settings_id = i32::MAX;
    t.next_user_settings_id = i32::MAX;
    t.bounties[0].submitted = false;
    let mut db = Store::restore(t).unwrap();
    let full = Some(LedgerError::StoreFull);
    assert_eq!(Case::insert(order("o", 1, 2, 1, 1, 1), 9, &mut db).err(), full);
    assert_eq!(UserAccount::insert(account(1, 1), &mut db).err(), full);
    assert_eq!(User::insert(user("dave"), &mut db).err(), full);
    assert_eq!(Bounty::insert(bounty("b9", 1, "t", 1), 9, &mut db).err(), full);
    assert_eq!(BountyImage::insert(image("i9", 1, false, b"x"), &mut db).err(), full);
    let w = satbounty::models::Withdrawal {
        id: None,
        public_id: "w".to_string(),
        user_id: 1,
        amount_sat: 0,
        invoice_hash: String::new(),
        invoice_payment_request: String::new(),
        created_time_ms: 1,
    };
    assert_eq!(satbounty::models::Withdrawal::do_withdrawal(w, &mut db, 9, 0).err(), full);
    assert_eq!(
        satbounty::models::AdminSettings::set_market_name(&mut db, "n").err(),
        full
    );
    assert_eq!(satbounty::models::UserSettings::set_pgp_key(&mut db, 1, "k").err(), full);
    assert_eq!(
        satbounty::settings::change_market_info("info".to_string(), &mut db).err(),
        full
    );
    assert_eq!(
        satbounty::bounty::add_image("b1", vec![1], &mut db, 1, "i".to_string()).err(),
        full
    );
    assert_eq!(RocketAuthUser::single(&db, 1).unwrap().username, "alice");
}
