//! The settlement consumer: it applies the payment backend's stream of
//! settled invoices to the orders and activations that wait for them.
//!
//! The consumer talks to the backend through whoever runs it. Its decisions
//! are one function, [`handle_received_payments`], from the consumer's state
//! and the latest event to the next state and the action to perform. A
//! consumer that starts, or starts again after a failure, does not read the
//! stream from its beginning: it finds the record that was paid last, asks the
//! backend for that invoice's position in the stream, and subscribes from
//! there. Applying a settlement twice changes nothing the second time.

use crate::activation::{account_unpaid_with_id, account_with_invoice};
use crate::backend::{Invoice, InvoiceView};
use crate::escrow::{case_unpaid_with_id, case_with_invoice};
use crate::models::{Case, CaseView, UserAccount, UserAccountView};
use crate::store::{MAX_STORED, Store, StoreModel};
use crate::table::{first, updated};
use crate::util::{hex_bytes, hex_text, is_hex_text, to_hex, try_from_hex};
use vstd::prelude::*;

verus! {

/// The seconds that the consumer waits after a failure before it starts again.
pub const PAYMENT_PROCESSOR_TASK_INTERVAL_S: u64 = 10;

/// What the consumer reads of a record to find the one that was paid last:
/// whether it is paid, its invoice's hash, and when it was paid.
pub struct Payment {
    pub paid: bool,
    pub invoice_hash: Seq<char>,
    pub payment_time_ms: u64,
}

/// The activations and then the orders of the store, as payments.
pub open spec fn payments(db: StoreModel) -> Seq<Payment> {
    db.user_accounts.map_values(
        |a: UserAccountView|
            Payment {
                paid: a.paid,
                invoice_hash: a.invoice_hash,
                payment_time_ms: a.payment_time_ms,
            },
    ) + db.cases.map_values(
        |c: CaseView|
            Payment {
                paid: c.paid,
                invoice_hash: c.invoice_hash,
                payment_time_ms: c.payment_time_ms,
            },
    )
}

/// The later of the payment `best` and the payment `next`; `best` where
/// `next` is not paid or not later.
pub open spec fn later(best: Option<Payment>, next: Payment) -> Option<Payment> {
    if !next.paid {
        best
    } else {
        match best {
            Some(b) => if b.payment_time_ms >= next.payment_time_ms {
                best
            } else {
                Some(next)
            },
            None => Some(next),
        }
    }
}

/// The paid record of `records` that was paid last; of several that were paid
/// at that time, the first.
pub open spec fn latest(records: Seq<Payment>) -> Option<Payment>
    decreases records.len(),
{
    if records.len() == 0 {
        None
    } else {
        later(latest(records.drop_last()), records.last())
    }
}

/// The store once the invoice with the hash `invoice_hash` is settled at
/// `now`: the first order with that invoice is paid, and the first activation
/// with that invoice is paid. A record that is paid already stays as it is,
/// and an invoice that no record has changes nothing.
pub open spec fn settled(db: StoreModel, invoice_hash: Seq<char>, now: u64) -> StoreModel {
    StoreModel {
        cases: match first(db.cases, case_with_invoice(invoice_hash)) {
            Some(c) => match c.id {
                Some(id) => updated(
                    db.cases,
                    case_unpaid_with_id(id),
                    |c: CaseView| c.settled(now),
                ),
                None => db.cases,
            },
            None => db.cases,
        },
        user_accounts: match first(db.user_accounts, account_with_invoice(invoice_hash)) {
            Some(a) => match a.id {
                Some(id) => updated(
                    db.user_accounts,
                    account_unpaid_with_id(id),
                    |a: UserAccountView| a.settled(now),
                ),
                None => db.user_accounts,
            },
            None => db.user_accounts,
        },
        ..db
    }
}

impl Case {
    /// The hash of the invoice of the record, activation or order, that was
    /// paid last; `None` where no record is paid. Of several records that
    /// were paid at that time, the first counts, activations before orders.
    pub fn most_recent_paid_case(db: &Store) -> (r: Option<String>)
        ensures
            match latest(payments(db@)) {
                Some(p) => r is Some && r->Some_0@ == p.invoice_hash,
                None => r is None,
            },
    {
        let ghost all = payments(db@);
        let mut best: Option<(String, u64)> = None;
        let mut i: usize = 0;
        proof {
            assert(all.subrange(0, 0) =~= Seq::<Payment>::empty());
            assert(db.user_accounts@.len() == db@.user_accounts.len());
            assert(db.cases@.len() == db@.cases.len());
        }
        while i < db.user_accounts.len()
            invariant
                i <= db.user_accounts.len(),
                all == payments(db@),
                db.user_accounts@.len() == db@.user_accounts.len(),
                match latest(all.subrange(0, i as int)) {
                    Some(p) => best is Some && best->Some_0.0@ == p.invoice_hash
                        && best->Some_0.1 == p.payment_time_ms,
                    None => best is None,
                },
            decreases db.user_accounts.len() - i,
        {
            let a = &db.user_accounts[i];
            proof {
                assert(all.subrange(0, i + 1).drop_last() =~= all.subrange(0, i as int));
                assert(all[i as int].invoice_hash == a@.invoice_hash);
            }
            if a.paid {
                let newer: bool = match &best {
                    Some(b) => b.1 < a.payment_time_ms,
                    None => true,
                };
                if newer {
                    best = Some((a.invoice_hash.clone(), a.payment_time_ms));
                }
            }
            i = i + 1;
        }
        let n: usize = db.user_accounts.len();
        let mut j: usize = 0;
        while j < db.cases.len()
            invariant
                j <= db.cases.len(),
                n == db.user_accounts.len(),
                all == payments(db@),
                db.user_accounts@.len() == db@.user_accounts.len(),
                db.cases@.len() == db@.cases.len(),
                match latest(all.subrange(0, n + j)) {
                    Some(p) => best is Some && best->Some_0.0@ == p.invoice_hash
                        && best->Some_0.1 == p.payment_time_ms,
                    None => best is None,
                },
            decreases db.cases.len() - j,
        {
            let c = &db.cases[j];
            proof {
                assert(all.subrange(0, n + j + 1).drop_last() =~= all.subrange(0, n + j));
                assert(all[n + j].invoice_hash == c@.invoice_hash);
            }
            if c.paid {
                let newer: bool = match &best {
                    Some(b) => b.1 < c.payment_time_ms,
                    None => true,
                };
                if newer {
                    best = Some((c.invoice_hash.clone(), c.payment_time_ms));
                }
            }
            j = j + 1;
        }
        proof {
            assert(all.subrange(0, n + j) =~= all);
        }
        match best {
            Some(b) => Some(b.0),
            None => None,
        }
    }
}

/// Applies the settlement of the invoice with the hash `invoice_hash` at
/// `now`: marks the first order with that invoice as paid, then the first
/// activation with that invoice. An invoice that no record has is not an
/// error: it belongs to other traffic of the backend.
pub fn handle_payment(db: &mut Store, invoice_hash: &str, now: u64)
    requires
        old(db).wf(),
        now <= MAX_STORED,
    ensures
        final(db).wf(),
        final(db)@ == settled(old(db)@, invoice_hash@, now),
        old(db)@.closed_cases_paid() ==> final(db)@.closed_cases_paid(),
{
    match Case::single_by_invoice_hash(db, invoice_hash) {
        Ok(case) => match case.id {
            Some(id) => {
                Case::mark_as_paid(db, id, now);
            },
            None => {},
        },
        Err(_) => {},
    }
    match UserAccount::single_by_invoice_hash(db, invoice_hash) {
        Ok(user_account) => match user_account.id {
            Some(id) => {
                UserAccount::mark_as_paid(db, id, now);
            },
            None => {},
        },
        Err(_) => {},
    }
}

/// Where the consumer stands.
#[derive(Debug, Clone, Copy, PartialEq, Eq, Structural)]
pub enum ConsumerState {
    /// Not connected: the consumer has not started yet, or waits to start
    /// again.
    Idle,
    /// The backend has been asked for the invoice that was paid last.
    LookingUp,
    /// The subscription is open.
    Listening,
}

/// What the consumer is told.
#[derive(Debug)]
pub enum ConsumerEvent {
    /// It is time to start, or to start again.
    Wake,
    /// The backend has found the invoice that it was asked for.
    Found(Invoice),
    /// The stream has delivered an invoice.
    Update(Invoice),
    /// The backend has failed: the lookup or the subscription was refused, or
    /// the stream has ended.
    Failed,
}

/// The view of a [`ConsumerEvent`].
pub enum ConsumerEventView {
    Wake,
    Found(InvoiceView),
    Update(InvoiceView),
    Failed,
}

impl View for ConsumerEvent {
    type V = ConsumerEventView;

    open spec fn view(&self) -> ConsumerEventView {
        match self {
            ConsumerEvent::Wake => ConsumerEventView::Wake,
            ConsumerEvent::Found(i) => ConsumerEventView::Found(i@),
            ConsumerEvent::Update(i) => ConsumerEventView::Update(i@),
            ConsumerEvent::Failed => ConsumerEventView::Failed,
        }
    }
}

/// What the consumer asks for.
#[derive(Debug)]
pub enum ConsumerAction {
    /// Ask the backend for the invoice with this hash.
    Lookup(Vec<u8>),
    /// Open the subscription from this position of the stream.
    Subscribe(u64),
    /// Read the next invoice from the stream.
    Listen,
    /// Drop the connection and wake the consumer after this many seconds.
    RetryAfter(u64),
}

/// The view of a [`ConsumerAction`].
pub enum ConsumerActionView {
    Lookup(Seq<u8>),
    Subscribe(u64),
    Listen,
    RetryAfter(u64),
}

impl View for ConsumerAction {
    type V = ConsumerActionView;

    open spec fn view(&self) -> ConsumerActionView {
        match self {
            ConsumerAction::Lookup(h) => ConsumerActionView::Lookup(h@),
            ConsumerAction::Subscribe(n) => ConsumerActionView::Subscribe(*n),
            ConsumerAction::Listen => ConsumerActionView::Listen,
            ConsumerAction::RetryAfter(s) => ConsumerActionView::RetryAfter(*s),
        }
    }
}

/// The consumer's next state and action.
///
/// - Waking, it subscribes from the start of the stream where no record is
///   paid; else it asks for the invoice of the record that was paid last; if
///   that record's hash is no hexadecimal text, it waits and starts again.
/// - With the invoice found, it subscribes from the invoice's position.
/// - On an invoice from the stream it goes on listening.
/// - On a failure, and on an event that does not fit the state, it waits and
///   starts again.
pub open spec fn next_step(state: ConsumerState, event: ConsumerEventView, db: StoreModel) -> (
    ConsumerState,
    ConsumerActionView,
) {
    match (state, event) {
        (ConsumerState::Idle, ConsumerEventView::Wake) => match latest(payments(db)) {
            None => (ConsumerState::Listening, ConsumerActionView::Subscribe(0)),
            Some(p) => if is_hex_text(p.invoice_hash) {
                (ConsumerState::LookingUp, ConsumerActionView::Lookup(hex_bytes(p.invoice_hash)))
            } else {
                (
                    ConsumerState::Idle,
                    ConsumerActionView::RetryAfter(PAYMENT_PROCESSOR_TASK_INTERVAL_S),
                )
            },
        },
        (ConsumerState::LookingUp, ConsumerEventView::Found(invoice)) => (
            ConsumerState::Listening,
            ConsumerActionView::Subscribe(invoice.settle_index),
        ),
        (ConsumerState::Listening, ConsumerEventView::Update(_)) => (
            ConsumerState::Listening,
            ConsumerActionView::Listen,
        ),
        _ => (ConsumerState::Idle, ConsumerActionView::RetryAfter(PAYMENT_PROCESSOR_TASK_INTERVAL_S)),
    }
}

/// The store after the consumer's step: a settled invoice that the stream
/// delivers to a listening consumer is applied at `now`; nothing else changes
/// the store.
pub open spec fn after_step(
    state: ConsumerState,
    event: ConsumerEventView,
    db: StoreModel,
    now: u64,
) -> StoreModel {
    match (state, event) {
        (ConsumerState::Listening, ConsumerEventView::Update(invoice)) => if invoice.settled {
            settled(db, hex_text(invoice.r_hash), now)
        } else {
            db
        },
        _ => db,
    }
}

/// One step of the settlement consumer: what it does with `event` in `state`
/// at the time `now`, and what it asks for next.
pub fn handle_received_payments(
    state: ConsumerState,
    event: ConsumerEvent,
    db: &mut Store,
    now: u64,
) -> (r: (ConsumerState, ConsumerAction))
    requires
        old(db).wf(),
        now <= MAX_STORED,
    ensures
        final(db).wf(),
        (r.0, r.1@) == next_step(state, event@, old(db)@),
        final(db)@ == after_step(state, event@, old(db)@, now),
        old(db)@.closed_cases_paid() ==> final(db)@.closed_cases_paid(),
{
    match (state, event) {
        (ConsumerState::Idle, ConsumerEvent::Wake) => match Case::most_recent_paid_case(db) {
            None => (ConsumerState::Listening, ConsumerAction::Subscribe(0)),
            Some(latest_invoice_hash) => match try_from_hex(latest_invoice_hash.as_str()) {
                Some(r_hash) => (ConsumerState::LookingUp, ConsumerAction::Lookup(r_hash)),
                None => (
                    ConsumerState::Idle,
                    ConsumerAction::RetryAfter(PAYMENT_PROCESSOR_TASK_INTERVAL_S),
                ),
            },
        },
        (ConsumerState::LookingUp, ConsumerEvent::Found(invoice)) => (
            ConsumerState::Listening,
            ConsumerAction::Subscribe(invoice.settle_index),
        ),
        (ConsumerState::Listening, ConsumerEvent::Update(invoice)) => {
            if invoice.settled {
                let invoice_hash = to_hex(&invoice.r_hash);
                handle_payment(db, invoice_hash.as_str(), now);
            }
            (ConsumerState::Listening, ConsumerAction::Listen)
        },
        _ => (ConsumerState::Idle, ConsumerAction::RetryAfter(PAYMENT_PROCESSOR_TASK_INTERVAL_S)),
    }
}

} // verus!
