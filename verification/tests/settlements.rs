use satbounty::backend::Invoice;
use satbounty::case_expiry::{remove_case, remove_expired_cases, ORDER_EXPIRY_INTERVAL_MS};
use satbounty::models::{AccountInfo, Case, UserAccount};
use satbounty::payment_processor::{
    handle_payment, handle_received_payments, ConsumerAction, ConsumerEvent, ConsumerState,
    PAYMENT_PROCESSOR_TASK_INTERVAL_S,
};
use satbounty::store::Store;

fn order(public_id: &str, hash: &str, created: u64) -> Case {
    Case {
        id: None,
        public_id: public_id.to_string(),
        quantity: 1,
        buyer_user_id: 1,
        seller_user_id: 2,
        bounty_id: 1,
        case_details: String::new(),
        amount_owed_sat: 105,
        seller_credit_sat: 100,
        paid: false,
        awarded: false,
        canceled_by_seller: false,
        canceled_by_buyer: false,
        invoice_hash: hash.to_string(),
        invoice_payment_request: String::new(),
        created_time_ms: created,
        payment_time_ms: 0,
    }
}

fn bond(public_id: &str, hash: &str) -> UserAccount {
    UserAccount {
        id: None,
        public_id: public_id.to_string(),
        user_id: 7,
        amount_owed_sat: 500,
        paid: false,
        disabled: false,
        invoice_hash: hash.to_string(),
        invoice_payment_request: String::new(),
        created_time_ms: 1,
        payment_time_ms: 0,
    }
}

fn invoice(hash: &[u8], settled: bool, settle_index: u64) -> Invoice {
    Invoice { r_hash: hash.to_vec(), settled, settle_index }
}

fn action(a: &ConsumerAction) -> String {
    format!("{:?}", a)
}

#[test]
fn a_settlement_pays_the_order_with_that_invoice() {
    let mut db = Store::new();
    Case::insert(order("a", "0a", 1), 9, &mut db).unwrap();
    Case::insert(order("b", "0b", 2), 9, &mut db).unwrap();
    UserAccount::insert(bond("u", "0c"), &mut db).unwrap();
    handle_payment(&mut db, "0b", 500);
    assert!(!Case::single(&db, 1).unwrap().paid);
    let b = Case::single(&db, 2).unwrap();
    assert!(b.paid);
    assert_eq!(b.payment_time_ms, 500);
    assert!(!UserAccount::single(&db, 7).unwrap().paid);
    handle_payment(&mut db, "0c", 600);
    let u = UserAccount::single(&db, 7).unwrap();
    assert!(u.paid);
    assert_eq!(u.payment_time_ms, 600);
    // an invoice of other traffic changes nothing
    handle_payment(&mut db, "ff", 700);
    assert!(!Case::single(&db, 1).unwrap().paid);
}

#[test]
fn the_same_settlement_twice_pays_once() {
    let mut db = Store::new();
    Case::insert(order("a", "0a", 1), 9, &mut db).unwrap();
    handle_payment(&mut db, "0a", 500);
    Case::mark_as_awarded(&mut db, 1).unwrap();
    let balance = AccountInfo::total_account_balance_for_user(&db, 2);
    assert_eq!(balance, Ok(100));
    handle_payment(&mut db, "0a", 900);
    let a = Case::single(&db, 1).unwrap();
    assert!(a.paid && a.awarded);
    assert_eq!(a.payment_time_ms, 500);
    assert_eq!(AccountInfo::total_account_balance_for_user(&db, 2), balance);
    assert_eq!(AccountInfo::all_account_balance_changes_for_user(&db, 2, 10, 1).len(), 1);
}

#[test]
fn a_consumer_without_paid_records_starts_at_zero() {
    let mut db = Store::new();
    Case::insert(order("a", "0a", 1), 9, &mut db).unwrap();
    let (state, act) =
        handle_received_payments(ConsumerState::Idle, ConsumerEvent::Wake, &mut db, 1);
    assert_eq!(state, ConsumerState::Listening);
    assert_eq!(action(&act), action(&ConsumerAction::Subscribe(0)));
}

#[test]
fn a_resuming_consumer_subscribes_from_the_last_paid_position() {
    let mut db = Store::new();
    Case::insert(order("a", "0a0a", 1), 9, &mut db).unwrap();
    Case::insert(order("b", "0b0b", 2), 9, &mut db).unwrap();
    UserAccount::insert(bond("u", "0c0c"), &mut db).unwrap();
    handle_payment(&mut db, "0c0c", 100);
    handle_payment(&mut db, "0b0b", 300);
    handle_payment(&mut db, "0a0a", 200);
    assert_eq!(Case::most_recent_paid_case(&db), Some("0b0b".to_string()));
    let (state, act) =
        handle_received_payments(ConsumerState::Idle, ConsumerEvent::Wake, &mut db, 400);
    assert_eq!(state, ConsumerState::LookingUp);
    assert_eq!(action(&act), action(&ConsumerAction::Lookup(vec![0x0b, 0x0b])));
    let found = ConsumerEvent::Found(invoice(&[0x0b, 0x0b], true, 42));
    let (state, act) = handle_received_payments(state, found, &mut db, 400);
    assert_eq!(state, ConsumerState::Listening);
    assert_eq!(action(&act), action(&ConsumerAction::Subscribe(42)));
    // were the invoice delivered again, nothing would change
    let again = ConsumerEvent::Update(invoice(&[0x0b, 0x0b], true, 42));
    let (state, act) = handle_received_payments(state, again, &mut db, 999);
    assert_eq!(state, ConsumerState::Listening);
    assert_eq!(action(&act), action(&ConsumerAction::Listen));
    assert_eq!(Case::single(&db, 2).unwrap().payment_time_ms, 300);
}

#[test]
fn of_records_paid_at_one_time_the_first_counts() {
    let mut db = Store::new();
    assert_eq!(Case::most_recent_paid_case(&db), None);
    Case::insert(order("a", "0a", 1), 9, &mut db).unwrap();
    Case::insert(order("b", "0b", 2), 9, &mut db).unwrap();
    UserAccount::insert(bond("u", "0c"), &mut db).unwrap();
    assert_eq!(Case::most_recent_paid_case(&db), None);
    handle_payment(&mut db, "0b", 100);
    assert_eq!(Case::most_recent_paid_case(&db), Some("0b".to_string()));
    handle_payment(&mut db, "0a", 100);
    assert_eq!(Case::most_recent_paid_case(&db), Some("0a".to_string()));
    handle_payment(&mut db, "0c", 100);
    assert_eq!(Case::most_recent_paid_case(&db), Some("0c".to_string()));
}

#[test]
fn a_listening_consumer_applies_settled_invoices_only() {
    let mut db = Store::new();
    Case::insert(order("a", "0a", 1), 9, &mut db).unwrap();
    let open = ConsumerEvent::Update(invoice(&[0x0a], false, 0));
    let (state, act) = handle_received_payments(ConsumerState::Listening, open, &mut db, 50);
    assert_eq!(state, ConsumerState::Listening);
    assert_eq!(action(&act), action(&ConsumerAction::Listen));
    assert!(!Case::single(&db, 1).unwrap().paid);
    let paid = ConsumerEvent::Update(invoice(&[0x0a], true, 1));
    let (state, _) = handle_received_payments(state, paid, &mut db, 60);
    assert_eq!(state, ConsumerState::Listening);
    let a = Case::single(&db, 1).unwrap();
    assert!(a.paid);
    assert_eq!(a.payment_time_ms, 60);
}

#[test]
fn a_failure_sends_the_consumer_back_to_the_start_after_a_delay() {
    let mut db = Store::new();
    let retry = action(&ConsumerAction::RetryAfter(PAYMENT_PROCESSOR_TASK_INTERVAL_S));
    assert_eq!(PAYMENT_PROCESSOR_TASK_INTERVAL_S, 10);
    for state in [ConsumerState::Idle, ConsumerState::LookingUp, ConsumerState::Listening] {
        let (next, act) = handle_received_payments(state, ConsumerEvent::Failed, &mut db, 1);
        assert_eq!(next, ConsumerState::Idle);
        assert_eq!(action(&act), retry);
    }
    // events that do not fit the state
    let (next, act) = handle_received_payments(
        ConsumerState::Idle,
        ConsumerEvent::Update(invoice(&[1], true, 1)),
        &mut db,
        1,
    );
    assert_eq!(next, ConsumerState::Idle);
    assert_eq!(action(&act), retry);
    let (next, act) =
        handle_received_payments(ConsumerState::Listening, ConsumerEvent::Wake, &mut db, 1);
    assert_eq!(next, ConsumerState::Idle);
    assert_eq!(action(&act), retry);
}

#[test]
fn a_paid_record_with_a_foreign_hash_makes_the_consumer_wait() {
    let mut db = Store::new();
    Case::insert(order("a", "not hex", 1), 9, &mut db).unwrap();
    handle_payment(&mut db, "not hex", 5);
    let (next, act) =
        handle_received_payments(ConsumerState::Idle, ConsumerEvent::Wake, &mut db, 1);
    assert_eq!(next, ConsumerState::Idle);
    assert_eq!(action(&act), action(&ConsumerAction::RetryAfter(10)));
}

#[test]
fn the_reaper_deletes_unpaid_orders_strictly_older_than_the_cutoff() {
    let window = ORDER_EXPIRY_INTERVAL_MS;
    assert_eq!(window, 86_400_000);
    let now = 5 * window;
    let mut db = Store::new();
    Case::insert(order("old", "0a0b", now - window - 1), 9, &mut db).unwrap();
    Case::insert(order("young", "0c", now - window + 1), 9, &mut db).unwrap();
    Case::insert(order("edge", "0d", now - window), 9, &mut db).unwrap();
    Case::insert(order("paid", "0e", now - window - 1), 9, &mut db).unwrap();
    Case::insert(order("odd", "xyz", now - window - 2), 9, &mut db).unwrap();
    Case::mark_as_paid(&mut db, 4, now - window);
    let cancel = remove_expired_cases(&mut db, now);
    assert_eq!(cancel, vec![vec![0x0a, 0x0b]]);
    assert!(Case::single_by_public_id(&db, "old").is_err());
    assert!(Case::single_by_public_id(&db, "odd").is_err());
    let young = Case::single_by_public_id(&db, "young").unwrap();
    assert_eq!(young.id, Some(2));
    assert_eq!(young.created_time_ms, now - window + 1);
    assert!(!young.paid);
    assert!(Case::single_by_public_id(&db, "edge").is_ok());
    assert!(Case::single_by_public_id(&db, "paid").is_ok());
    assert_eq!(remove_expired_cases(&mut db, now), Vec::<Vec<u8>>::new());
}

#[test]
fn removing_one_order_hands_back_its_invoice() {
    let mut db = Store::new();
    Case::insert(order("a", "0a0b", 1), 9, &mut db).unwrap();
    Case::insert(order("b", "zz", 1), 9, &mut db).unwrap();
    Case::insert(order("c", "0c", 1), 9, &mut db).unwrap();
    Case::mark_as_paid(&mut db, 3, 5);
    let a = Case::single(&db, 1).unwrap();
    let b = Case::single(&db, 2).unwrap();
    let c = Case::single(&db, 3).unwrap();
    assert_eq!(remove_case(&mut db, &a), Some(vec![0x0a, 0x0b]));
    assert_eq!(remove_case(&mut db, &b), None);
    assert_eq!(remove_case(&mut db, &c), Some(vec![0x0c]));
    assert!(Case::single(&db, 1).is_err());
    assert!(Case::single(&db, 2).is_err());
    assert!(Case::single(&db, 3).is_ok());
}
