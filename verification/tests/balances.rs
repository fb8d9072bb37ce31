use satbounty::backend::SendResponse;
use satbounty::error::LedgerError;
use satbounty::models::{AccountInfo, Case, UserAccount, Withdrawal};
use satbounty::store::Store;

fn order(public_id: &str, buyer: i32, seller: i32, owed: u64, credit: u64, created: u64) -> Case {
    Case {
        id: None,
        public_id: public_id.to_string(),
        quantity: 1,
        buyer_user_id: buyer,
        seller_user_id: seller,
        bounty_id: 1,
        case_details: String::new(),
        amount_owed_sat: owed,
        seller_credit_sat: credit,
        paid: false,
        awarded: false,
        canceled_by_seller: false,
        canceled_by_buyer: false,
        invoice_hash: format!("aa{:02x}", created as u8),
        invoice_payment_request: String::new(),
        created_time_ms: created,
        payment_time_ms: 0,
    }
}

fn bond(public_id: &str, user: i32, amount: u64, created: u64) -> UserAccount {
    UserAccount {
        id: None,
        public_id: public_id.to_string(),
        user_id: user,
        amount_owed_sat: amount,
        paid: false,
        disabled: false,
        invoice_hash: format!("bb{:02x}", created as u8),
        invoice_payment_request: String::new(),
        created_time_ms: created,
        payment_time_ms: 0,
    }
}

fn withdrawal(public_id: &str, user: i32, amount: u64, created: u64) -> Withdrawal {
    Withdrawal {
        id: None,
        public_id: public_id.to_string(),
        user_id: user,
        amount_sat: amount,
        invoice_hash: String::new(),
        invoice_payment_request: "lnbc1dest".to_string(),
        created_time_ms: created,
    }
}

/// Seller 2 with one awarded order (credit 100), buyer 1 with one refund (105).
fn market() -> Store {
    let mut db = Store::new();
    Case::insert(order("won", 1, 2, 105, 100, 10), 9, &mut db).unwrap();
    Case::insert(order("back", 1, 2, 105, 100, 20), 9, &mut db).unwrap();
    Case::insert(order("wait", 1, 2, 210, 200, 30), 9, &mut db).unwrap();
    Case::insert(order("open", 1, 2, 55, 50, 40), 9, &mut db).unwrap();
    Case::mark_as_paid(&mut db, 1, 11);
    Case::mark_as_paid(&mut db, 2, 21);
    Case::mark_as_paid(&mut db, 3, 31);
    Case::mark_as_awarded(&mut db, 1).unwrap();
    Case::mark_as_canceled_by_seller(&mut db, 2).unwrap();
    db
}

#[test]
fn balance_of_a_user_without_records_is_zero() {
    let db = Store::new();
    assert_eq!(AccountInfo::total_account_balance_for_user(&db, 1), Ok(0));
    assert_eq!(AccountInfo::total_market_liabilities_sat(&db), Ok(0));
}

#[test]
fn balance_is_credits_and_refunds_and_bond_less_withdrawals() {
    let mut db = market();
    assert_eq!(AccountInfo::total_account_balance_for_user(&db, 2), Ok(100));
    assert_eq!(AccountInfo::total_account_balance_for_user(&db, 1), Ok(105));
    assert_eq!(AccountInfo::total_account_balance_for_user(&db, 3), Ok(0));
    UserAccount::insert(bond("ua", 2, 1000, 5), &mut db).unwrap();
    assert_eq!(AccountInfo::total_account_balance_for_user(&db, 2), Ok(100));
    UserAccount::mark_as_paid(&mut db, 1, 6);
    assert_eq!(AccountInfo::total_account_balance_for_user(&db, 2), Ok(1100));
    assert_eq!(Withdrawal::do_withdrawal(withdrawal("w1", 2, 300, 50), &mut db, 3, 0), Ok(1));
    assert_eq!(AccountInfo::total_account_balance_for_user(&db, 2), Ok(800));
    assert_eq!(AccountInfo::total_account_balance_for_user(&db, 1), Ok(105));
}

#[test]
fn an_unpaid_or_open_order_credits_nobody() {
    let mut db = Store::new();
    Case::insert(order("a", 1, 2, 105, 100, 10), 9, &mut db).unwrap();
    assert_eq!(Case::mark_as_canceled_by_buyer(&mut db, 1), Ok(()));
    assert_eq!(AccountInfo::total_account_balance_for_user(&db, 1), Ok(0));
    // the buyer pays the canceled order after all: the payment is refunded
    Case::mark_as_paid(&mut db, 1, 11);
    assert_eq!(AccountInfo::total_account_balance_for_user(&db, 1), Ok(105));
    assert_eq!(AccountInfo::total_account_balance_for_user(&db, 2), Ok(0));
}

#[test]
fn market_liabilities_count_escrow_and_bonds() {
    let mut db = market();
    // awarded 100 + refunded 105 + in escrow 210
    assert_eq!(AccountInfo::total_market_liabilities_sat(&db), Ok(415));
    UserAccount::insert(bond("ua", 2, 1000, 5), &mut db).unwrap();
    UserAccount::mark_as_paid(&mut db, 1, 6);
    assert_eq!(AccountInfo::total_market_liabilities_sat(&db), Ok(1415));
    Withdrawal::do_withdrawal(withdrawal("w1", 1, 5, 50), &mut db, 3, 0).unwrap();
    assert_eq!(AccountInfo::total_market_liabilities_sat(&db), Ok(1410));
}

#[test]
fn a_balance_beyond_64_bits_is_an_error() {
    let mut db = Store::new();
    let big = i64::MAX as u64;
    for i in 0..2u64 {
        Case::insert(order(&format!("c{}", i), 1, 2, big, big, i), 9, &mut db).unwrap();
        Case::mark_as_paid(&mut db, i as i32 + 1, 1);
        Case::mark_as_awarded(&mut db, i as i32 + 1).unwrap();
    }
    assert_eq!(
        AccountInfo::total_account_balance_for_user(&db, 2),
        Err(LedgerError::BalanceOverflow)
    );
    assert_eq!(AccountInfo::total_market_liabilities_sat(&db), Err(LedgerError::BalanceOverflow));
    assert_eq!(
        AccountInfo::account_info_for_user(&db, 2).err(),
        Some(LedgerError::BalanceOverflow)
    );
    assert_eq!(AccountInfo::total_account_balance_for_user(&db, 1), Ok(0));
}

#[test]
fn account_info_holds_balance_and_waiting_orders() {
    let db = market();
    let info = AccountInfo::account_info_for_user(&db, 2).unwrap();
    assert_eq!(info.account_balance_sat, 100);
    assert_eq!(info.num_unawarded_cases, 1);
    let info = AccountInfo::account_info_for_user(&db, 1).unwrap();
    assert_eq!(info.account_balance_sat, 105);
    assert_eq!(info.num_unawarded_cases, 0);
}

#[test]
fn events_are_listed_newest_first_and_sum_to_the_balance() {
    let mut db = market();
    UserAccount::insert(bond("ua", 2, 1000, 5), &mut db).unwrap();
    UserAccount::mark_as_paid(&mut db, 1, 6);
    Withdrawal::do_withdrawal(withdrawal("w1", 2, 300, 50), &mut db, 3, 0).unwrap();
    Withdrawal::do_withdrawal(withdrawal("w2", 2, 25, 7), &mut db, 3, 0).unwrap();
    let events = AccountInfo::all_account_balance_changes_for_user(&db, 2, 10, 1);
    let seen: Vec<(i64, &str, &str, u64)> = events
        .iter()
        .map(|e| (e.amount_change_sat, e.event_type.as_str(), e.event_id.as_str(), e.event_time_ms))
        .collect();
    assert_eq!(
        seen,
        vec![
            (-300, "withdrawal", "w1", 50),
            (100, "received_case", "won", 10),
            (-25, "withdrawal", "w2", 7),
            (1000, "user_activation", "ua", 5),
        ]
    );
    let total: i64 = events.iter().map(|e| e.amount_change_sat).sum();
    assert_eq!(AccountInfo::total_account_balance_for_user(&db, 2), Ok(total));
    let events = AccountInfo::all_account_balance_changes_for_user(&db, 1, 10, 1);
    assert_eq!(events.len(), 1);
    assert_eq!(events[0].event_type, "refunded_case");
    assert_eq!(events[0].amount_change_sat, 105);
    assert_eq!(events[0].event_id, "back");
    assert_eq!(events[0].event_time_ms, 20);
}

#[test]
fn events_of_one_time_keep_the_order_of_kinds() {
    let mut db = Store::new();
    Case::insert(order("r", 1, 2, 105, 100, 10), 9, &mut db).unwrap();
    Case::insert(order("a", 2, 3, 70, 60, 10), 9, &mut db).unwrap();
    Case::mark_as_paid(&mut db, 1, 11);
    Case::mark_as_paid(&mut db, 2, 11);
    Case::mark_as_awarded(&mut db, 1).unwrap();
    Case::mark_as_canceled_by_buyer(&mut db, 2).unwrap();
    Withdrawal::do_withdrawal(withdrawal("w", 2, 1, 10), &mut db, 3, 0).unwrap();
    let events = AccountInfo::all_account_balance_changes_for_user(&db, 2, 10, 1);
    let kinds: Vec<&str> = events.iter().map(|e| e.event_type.as_str()).collect();
    assert_eq!(kinds, vec!["received_case", "refunded_case", "withdrawal"]);
}

#[test]
fn pages_are_counted_from_one() {
    let mut db = Store::new();
    for i in 0..5u64 {
        Case::insert(order(&format!("c{}", i), 1, 2, 10, 10, 100 + i), 9, &mut db).unwrap();
        Case::mark_as_paid(&mut db, i as i32 + 1, 1);
        Case::mark_as_awarded(&mut db, i as i32 + 1).unwrap();
    }
    let ids = |page: u32| -> Vec<String> {
        AccountInfo::all_account_balance_changes_for_user(&db, 2, 2, page)
            .iter()
            .map(|e| e.event_id.clone())
            .collect()
    };
    assert_eq!(ids(1), vec!["c4", "c3"]);
    assert_eq!(ids(2), vec!["c2", "c1"]);
    assert_eq!(ids(3), vec!["c0"]);
    assert_eq!(ids(4), Vec::<String>::new());
    assert_eq!(ids(u32::MAX), Vec::<String>::new());
    assert_eq!(AccountInfo::all_account_balance_changes_for_user(&db, 2, 0, 1).len(), 0);
    assert_eq!(AccountInfo::all_account_balance_changes_for_user(&db, 2, u32::MAX, 1).len(), 5);
}

#[test]
fn market_events_include_payments_in_escrow() {
    let db = market();
    let events = AccountInfo::all_account_balance_changes(&db, 10, 1);
    let seen: Vec<(i64, &str, &str)> = events
        .iter()
        .map(|e| (e.amount_change_sat, e.event_type.as_str(), e.event_id.as_str()))
        .collect();
    assert_eq!(
        seen,
        vec![
            (210, "processing_case", "wait"),
            (105, "refunded_case", "back"),
            (100, "received_case", "won"),
        ]
    );
}

#[test]
fn withdrawal_beyond_the_balance_is_rejected_and_changes_nothing() {
    let mut db = market();
    // the balance of seller 2 is 100
    assert_eq!(
        Withdrawal::do_withdrawal(withdrawal("w", 2, 150, 50), &mut db, 3, 0),
        Err(LedgerError::InsufficientFunds)
    );
    assert_eq!(AccountInfo::total_account_balance_for_user(&db, 2), Ok(100));
    assert_eq!(Withdrawal::single_by_public_id(&db, "w").err(), Some(LedgerError::RowNotFound));
    assert_eq!(AccountInfo::all_account_balance_changes_for_user(&db, 2, 10, 1).len(), 1);
    // the whole balance may be withdrawn, and the key was not used up
    assert_eq!(Withdrawal::do_withdrawal(withdrawal("w", 2, 100, 50), &mut db, 3, 0), Ok(1));
    assert_eq!(AccountInfo::total_account_balance_for_user(&db, 2), Ok(0));
    assert_eq!(
        Withdrawal::do_withdrawal(withdrawal("x", 2, 1, 51), &mut db, 3, 0),
        Err(LedgerError::InsufficientFunds)
    );
}

#[test]
fn the_fourth_withdrawal_in_an_interval_is_rejected() {
    let mut db = market();
    for i in 0..3u64 {
        assert_eq!(
            Withdrawal::do_withdrawal(
                withdrawal(&format!("w{}", i), 2, 10, 1000 + i),
                &mut db,
                3,
                999
            ),
            Ok(i as i32 + 1)
        );
    }
    assert_eq!(
        Withdrawal::do_withdrawal(withdrawal("w3", 2, 10, 1003), &mut db, 3, 999),
        Err(LedgerError::TooManyWithdrawals)
    );
    assert_eq!(AccountInfo::total_account_balance_for_user(&db, 2), Ok(70));
    // a later interval starts the count anew
    assert_eq!(
        Withdrawal::do_withdrawal(withdrawal("w3", 2, 10, 2000), &mut db, 3, 1002),
        Ok(4)
    );
    // a withdrawal at the very start of the interval is not in it
    assert_eq!(
        Withdrawal::do_withdrawal(withdrawal("w4", 2, 10, 2000), &mut db, 1, 2000),
        Ok(5)
    );
    // the limit is checked before the balance
    assert_eq!(
        Withdrawal::do_withdrawal(withdrawal("w5", 2, 100000, 2001), &mut db, 0, 0),
        Err(LedgerError::TooManyWithdrawals)
    );
}

#[test]
fn a_sent_withdrawal_records_the_payment_hash() {
    let mut db = market();
    let id = Withdrawal::do_withdrawal(withdrawal("w", 2, 40, 50), &mut db, 3, 0).unwrap();
    assert_eq!(Withdrawal::single_by_public_id(&db, "w").unwrap().invoice_hash, "");
    let sent = Ok(SendResponse { payment_hash: vec![0xab, 0x01, 0xff] });
    assert_eq!(Withdrawal::finish_withdrawal(&mut db, id, sent), Ok(id));
    let w = Withdrawal::single_by_public_id(&db, "w").unwrap();
    assert_eq!(w.invoice_hash, "ab01ff");
    assert_eq!(w.amount_sat, 40);
    assert_eq!(w.id, Some(id));
    assert_eq!(AccountInfo::total_account_balance_for_user(&db, 2), Ok(60));
}

#[test]
fn a_failed_payment_undoes_the_reservation() {
    let mut db = market();
    let id = Withdrawal::do_withdrawal(withdrawal("w", 2, 40, 50), &mut db, 3, 0).unwrap();
    assert_eq!(AccountInfo::total_account_balance_for_user(&db, 2), Ok(60));
    assert_eq!(
        Withdrawal::finish_withdrawal(&mut db, id, Err("no route".to_string())),
        Err(LedgerError::PaymentFailed)
    );
    assert_eq!(AccountInfo::total_account_balance_for_user(&db, 2), Ok(100));
    assert!(Withdrawal::single_by_public_id(&db, "w").is_err());
}
