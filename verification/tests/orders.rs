use satbounty::case::{
    mark_case_as_awarded, mark_case_as_canceled_by_buyer, mark_case_as_canceled_by_seller,
};
use satbounty::error::LedgerError;
use satbounty::models::Case;
use satbounty::store::Store;

fn order(public_id: &str, buyer: i32, seller: i32, created: u64) -> Case {
    Case {
        id: None,
        public_id: public_id.to_string(),
        quantity: 1,
        buyer_user_id: buyer,
        seller_user_id: seller,
        bounty_id: 1,
        case_details: "please deliver".to_string(),
        amount_owed_sat: 105,
        seller_credit_sat: 100,
        paid: false,
        awarded: false,
        canceled_by_seller: false,
        canceled_by_buyer: false,
        invoice_hash: format!("{:02x}{:02x}", buyer as u8, created as u8),
        invoice_payment_request: "lnbc1".to_string(),
        created_time_ms: created,
        payment_time_ms: 0,
    }
}

#[test]
fn insert_hands_out_keys_from_one() {
    let mut db = Store::new();
    assert_eq!(Case::insert(order("a", 1, 2, 10), 5, &mut db), Ok(1));
    assert_eq!(Case::insert(order("b", 1, 2, 11), 5, &mut db), Ok(2));
    let a = Case::single(&db, 1).unwrap();
    assert_eq!(a.id, Some(1));
    assert_eq!(a.public_id, "a");
    assert_eq!(a.case_details, "please deliver");
    assert!(!a.paid && !a.awarded && !a.canceled_by_seller && !a.canceled_by_buyer);
    assert_eq!(Case::single(&db, 2).unwrap().public_id, "b");
}

#[test]
fn insert_ignores_the_key_it_is_given() {
    let mut db = Store::new();
    let mut c = order("a", 1, 2, 10);
    c.id = Some(77);
    assert_eq!(Case::insert(c, 5, &mut db), Ok(1));
    assert!(Case::single(&db, 77).is_err());
}

#[test]
fn insert_allows_exactly_the_maximum_of_unpaid_orders() {
    let mut db = Store::new();
    assert_eq!(Case::insert(order("a", 1, 2, 10), 2, &mut db), Ok(1));
    assert_eq!(Case::insert(order("b", 1, 2, 11), 2, &mut db), Ok(2));
    assert_eq!(
        Case::insert(order("c", 1, 2, 12), 2, &mut db),
        Err(LedgerError::TooManyUnpaidCases)
    );
    assert_eq!(Case::single_by_public_id(&db, "c").err(), Some(LedgerError::RowNotFound));
    // another buyer is counted apart
    assert_eq!(Case::insert(order("d", 9, 2, 13), 2, &mut db), Ok(3));
    // a paid order is not counted
    assert_eq!(Case::mark_as_paid(&mut db, 1, 50), 1);
    assert_eq!(Case::insert(order("e", 1, 2, 14), 2, &mut db), Ok(4));
}

#[test]
fn insert_with_maximum_zero_refuses_the_first_unpaid_order() {
    let mut db = Store::new();
    assert_eq!(
        Case::insert(order("a", 1, 2, 10), 0, &mut db),
        Err(LedgerError::TooManyUnpaidCases)
    );
    assert_eq!(Case::insert(order("a", 1, 2, 10), 1, &mut db), Ok(1));
}

#[test]
fn lookups_find_the_first_match_or_nothing() {
    let mut db = Store::new();
    Case::insert(order("a", 1, 2, 10), 5, &mut db).unwrap();
    Case::insert(order("b", 3, 2, 11), 5, &mut db).unwrap();
    assert_eq!(Case::single_by_public_id(&db, "b").unwrap().id, Some(2));
    assert_eq!(Case::single_by_invoice_hash(&db, "010a").unwrap().id, Some(1));
    assert_eq!(Case::single(&db, 3).err(), Some(LedgerError::RowNotFound));
    assert_eq!(Case::single_by_public_id(&db, "zz").err(), Some(LedgerError::RowNotFound));
    assert_eq!(Case::single_by_invoice_hash(&db, "ffff").err(), Some(LedgerError::RowNotFound));
}

#[test]
fn paying_sets_the_flag_and_the_time_once() {
    let mut db = Store::new();
    Case::insert(order("a", 1, 2, 10), 5, &mut db).unwrap();
    assert_eq!(Case::mark_as_paid(&mut db, 1, 1000), 1);
    let a = Case::single(&db, 1).unwrap();
    assert!(a.paid);
    assert_eq!(a.payment_time_ms, 1000);
    assert_eq!(Case::mark_as_paid(&mut db, 1, 2000), 0);
    assert_eq!(Case::single(&db, 1).unwrap().payment_time_ms, 1000);
    assert_eq!(Case::mark_as_paid(&mut db, 9, 2000), 0);
}

#[test]
fn award_needs_a_paid_open_order() {
    let mut db = Store::new();
    Case::insert(order("a", 1, 2, 10), 5, &mut db).unwrap();
    assert_eq!(Case::mark_as_awarded(&mut db, 1), Err(LedgerError::TransitionRejected));
    assert!(!Case::single(&db, 1).unwrap().awarded);
    assert_eq!(Case::single(&db, 1).unwrap().case_details, "please deliver");
    Case::mark_as_paid(&mut db, 1, 1000);
    assert_eq!(Case::mark_as_awarded(&mut db, 1), Ok(()));
    let a = Case::single(&db, 1).unwrap();
    assert!(a.awarded && a.paid && !a.canceled_by_seller && !a.canceled_by_buyer);
    assert_eq!(a.case_details, "");
    assert_eq!(Case::mark_as_awarded(&mut db, 1), Err(LedgerError::TransitionRejected));
    assert_eq!(Case::mark_as_awarded(&mut db, 7), Err(LedgerError::TransitionRejected));
}

#[test]
fn closed_orders_reject_every_transition() {
    let mut db = Store::new();
    Case::insert(order("a", 1, 2, 10), 5, &mut db).unwrap();
    Case::mark_as_paid(&mut db, 1, 1000);
    assert_eq!(Case::mark_as_canceled_by_buyer(&mut db, 1), Ok(()));
    assert_eq!(Case::mark_as_awarded(&mut db, 1), Err(LedgerError::TransitionRejected));
    assert_eq!(
        Case::mark_as_canceled_by_seller(&mut db, 1),
        Err(LedgerError::TransitionRejected)
    );
    assert_eq!(
        Case::mark_as_canceled_by_buyer(&mut db, 1),
        Err(LedgerError::TransitionRejected)
    );
    let a = Case::single(&db, 1).unwrap();
    assert!(a.canceled_by_buyer && !a.canceled_by_seller && !a.awarded);
    assert_eq!(a.case_details, "");
}

#[test]
fn at_most_one_outcome_after_any_sequence() {
    let mut db = Store::new();
    for i in 0..6 {
        Case::insert(order(&format!("c{}", i), 1, 2, 10 + i), 10, &mut db).unwrap();
    }
    for id in 1..=6 {
        if id % 2 == 0 {
            Case::mark_as_paid(&mut db, id, 100);
        }
        let _ = Case::mark_as_awarded(&mut db, id);
        let _ = Case::mark_as_canceled_by_seller(&mut db, id);
        let _ = Case::mark_as_canceled_by_buyer(&mut db, id);
        let _ = Case::mark_as_awarded(&mut db, id);
    }
    for id in 1..=6 {
        let c = Case::single(&db, id).unwrap();
        let outcomes = [c.awarded, c.canceled_by_seller, c.canceled_by_buyer];
        assert_eq!(outcomes.iter().filter(|b| **b).count(), 1);
        if id % 2 == 0 {
            assert!(c.awarded && c.paid);
        } else {
            assert!(c.canceled_by_seller && !c.paid);
        }
    }
}

#[test]
fn an_order_can_be_canceled_before_it_is_paid() {
    let mut db = Store::new();
    Case::insert(order("a", 1, 2, 10), 5, &mut db).unwrap();
    assert_eq!(Case::mark_as_canceled_by_seller(&mut db, 1), Ok(()));
    let a = Case::single(&db, 1).unwrap();
    assert!(a.canceled_by_seller && !a.paid);
}

#[test]
fn delete_removes_only_an_unpaid_order() {
    let mut db = Store::new();
    Case::insert(order("a", 1, 2, 10), 5, &mut db).unwrap();
    Case::insert(order("b", 1, 2, 11), 5, &mut db).unwrap();
    Case::mark_as_paid(&mut db, 2, 1000);
    assert_eq!(Case::delete_expired_case(&mut db, 2), 0);
    assert_eq!(Case::delete_expired_case(&mut db, 1), 1);
    assert_eq!(Case::delete_expired_case(&mut db, 1), 0);
    assert!(Case::single(&db, 1).is_err());
    assert!(Case::single(&db, 2).is_ok());
    // keys are not handed out again
    assert_eq!(Case::insert(order("c", 1, 2, 12), 5, &mut db), Ok(3));
}

#[test]
fn older_than_selects_unpaid_orders_before_the_cutoff() {
    let mut db = Store::new();
    Case::insert(order("a", 1, 2, 10), 5, &mut db).unwrap();
    Case::insert(order("b", 1, 2, 20), 5, &mut db).unwrap();
    Case::insert(order("c", 1, 2, 5), 5, &mut db).unwrap();
    Case::mark_as_paid(&mut db, 3, 1000);
    let found = Case::all_older_than(&db, 20);
    assert_eq!(found.len(), 1);
    assert_eq!(found[0].public_id, "a");
    assert_eq!(Case::all_older_than(&db, 21).len(), 2);
    assert_eq!(Case::all_older_than(&db, 10).len(), 0);
}

#[test]
fn processing_counts_paid_open_orders_of_the_seller() {
    let mut db = Store::new();
    Case::insert(order("a", 1, 2, 10), 9, &mut db).unwrap();
    Case::insert(order("b", 1, 2, 11), 9, &mut db).unwrap();
    Case::insert(order("c", 1, 3, 12), 9, &mut db).unwrap();
    Case::insert(order("d", 1, 2, 13), 9, &mut db).unwrap();
    for id in 1..=3 {
        Case::mark_as_paid(&mut db, id, 100);
    }
    Case::mark_as_awarded(&mut db, 2).unwrap();
    assert_eq!(Case::num_processing_for_user(&db, 2), 1);
    assert_eq!(Case::num_processing_for_user(&db, 3), 1);
    assert_eq!(Case::num_processing_for_user(&db, 1), 0);
}

#[test]
fn only_the_seller_awards() {
    let mut db = Store::new();
    Case::insert(order("a", 1, 2, 10), 5, &mut db).unwrap();
    Case::mark_as_paid(&mut db, 1, 100);
    assert_eq!(mark_case_as_awarded("a", &mut db, 1), Err(LedgerError::NotOwner));
    assert_eq!(mark_case_as_awarded("x", &mut db, 2), Err(LedgerError::RowNotFound));
    assert_eq!(mark_case_as_awarded("a", &mut db, 2), Ok(()));
    assert_eq!(mark_case_as_awarded("a", &mut db, 2), Err(LedgerError::AlreadyAwarded));
    assert_eq!(
        mark_case_as_canceled_by_seller("a", &mut db, 2),
        Err(LedgerError::AlreadyAwarded)
    );
    assert_eq!(
        mark_case_as_canceled_by_buyer("a", &mut db, 1),
        Err(LedgerError::AlreadyAwarded)
    );
}

#[test]
fn award_of_an_unpaid_order_is_observed_as_a_failure() {
    let mut db = Store::new();
    Case::insert(order("a", 1, 2, 10), 5, &mut db).unwrap();
    assert_eq!(mark_case_as_awarded("a", &mut db, 2), Err(LedgerError::TransitionRejected));
    assert!(!Case::single(&db, 1).unwrap().awarded);
}

#[test]
fn each_side_cancels_its_own_orders() {
    let mut db = Store::new();
    Case::insert(order("a", 1, 2, 10), 5, &mut db).unwrap();
    Case::insert(order("b", 1, 2, 11), 5, &mut db).unwrap();
    assert_eq!(mark_case_as_canceled_by_seller("a", &mut db, 1), Err(LedgerError::NotOwner));
    assert_eq!(mark_case_as_canceled_by_buyer("a", &mut db, 2), Err(LedgerError::NotOwner));
    assert_eq!(mark_case_as_canceled_by_seller("a", &mut db, 2), Ok(()));
    assert_eq!(mark_case_as_canceled_by_buyer("b", &mut db, 1), Ok(()));
    assert_eq!(
        mark_case_as_canceled_by_buyer("a", &mut db, 1),
        Err(LedgerError::AlreadyCanceled)
    );
    assert_eq!(
        mark_case_as_canceled_by_seller("b", &mut db, 2),
        Err(LedgerError::AlreadyCanceled)
    );
    assert_eq!(mark_case_as_awarded("b", &mut db, 2), Err(LedgerError::AlreadyCanceled));
    assert!(Case::single(&db, 1).unwrap().canceled_by_seller);
    assert!(Case::single(&db, 2).unwrap().canceled_by_buyer);
}
