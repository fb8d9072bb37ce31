//! What the ledger reads of the payment backend's answers.
//!
//! The backend itself is not part of this crate. Whoever talks to it hands the
//! ledger these plain values and performs the actions that the ledger asks for.

use crate::models::clone_bytes;
use vstd::prelude::*;

verus! {

/// An invoice as the backend reports it, on a lookup or in the stream of
/// settlements.
#[derive(Debug)]
pub struct Invoice {
    /// The invoice's identifier: the hash of its payment.
    pub r_hash: Vec<u8>,
    /// Whether the invoice has been paid.
    pub settled: bool,
    /// The invoice's position in the stream of settlements.
    pub settle_index: u64,
}

/// The view of an [`Invoice`].
pub struct InvoiceView {
    pub r_hash: Seq<u8>,
    pub settled: bool,
    pub settle_index: u64,
}

impl View for Invoice {
    type V = InvoiceView;

    open spec fn view(&self) -> InvoiceView {
        InvoiceView { r_hash: self.r_hash@, settled: self.settled, settle_index: self.settle_index }
    }
}

impl Clone for Invoice {
    fn clone(&self) -> (copy: Self)
        ensures
            copy@ == self@,
    {
        Invoice {
            r_hash: clone_bytes(&self.r_hash),
            settled: self.settled,
            settle_index: self.settle_index,
        }
    }
}

/// The backend's answer to a payment that it has sent.
#[derive(Debug)]
pub struct SendResponse {
    /// The hash of the payment.
    pub payment_hash: Vec<u8>,
}

/// The view of a [`SendResponse`].
pub struct SendResponseView {
    pub payment_hash: Seq<u8>,
}

impl View for SendResponse {
    type V = SendResponseView;

    open spec fn view(&self) -> SendResponseView {
        SendResponseView { payment_hash: self.payment_hash@ }
    }
}

impl Clone for SendResponse {
    fn clone(&self) -> (copy: Self)
        ensures
            copy@ == self@,
    {
        SendResponse { payment_hash: clone_bytes(&self.payment_hash) }
    }
}

} // verus!
