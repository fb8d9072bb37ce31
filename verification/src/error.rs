//! Why an operation on the store fails.

use vstd::prelude::*;

verus! {

/// The reasons for which an operation on the store fails. An operation that
/// is refused leaves the store as it was; one that reports a failed payment
/// has undone what was reserved for the payment.
#[derive(Debug, Clone, Copy, PartialEq, Eq, Structural)]
pub enum LedgerError {
    /// No row matches the key that was given.
    RowNotFound,
    /// The table has handed out its last key.
    StoreFull,
    /// The buyer would have more unpaid orders than is allowed.
    TooManyUnpaidCases,
    /// The seller would have more unapproved bounties than is allowed.
    TooManyUnapprovedBounties,
    /// The user would have more withdrawals in the interval than is allowed.
    TooManyWithdrawals,
    /// The withdrawal would leave the user's balance negative.
    InsufficientFunds,
    /// The deactivation fee is more than the bond.
    InsufficientBond,
    /// The user has no paid bond.
    NoUserBond,
    /// The record is not in a state from which the transition is allowed.
    TransitionRejected,
    /// The record belongs to another user.
    NotOwner,
    /// The order has been awarded already.
    AlreadyAwarded,
    /// The order has been canceled already.
    AlreadyCanceled,
    /// A sum of amounts does not fit in 64 bits.
    BalanceOverflow,
    /// The payment backend did not send the funds.
    PaymentFailed,
    /// The bounty has been submitted already.
    AlreadySubmitted,
    /// The bounty has been approved already.
    AlreadyApproved,
    /// The bounty has not been submitted.
    NotSubmitted,
    /// The bounty has been inspected already.
    AlreadyViewed,
    /// The bounty has been deactivated already.
    AlreadyDeactivated,
    /// The picture belongs to another bounty.
    WrongBounty,
    /// The bounty has all the pictures that it may have.
    TooManyImages,
    /// The picture has no bytes.
    EmptyFile,
    /// The title is empty.
    EmptyTitle,
    /// The description is empty.
    EmptyDescription,
    /// The title is longer than is allowed.
    TitleTooLong,
    /// The description is longer than is allowed.
    DescriptionTooLong,
    /// The price is zero.
    PriceNotPositive,
    /// An administrator cannot open a bounty.
    AdminNotAllowed,
    /// The market's description is empty.
    EmptyMarketInfo,
    /// The fee rate is negative.
    NegativeFeeRate,
}

} // verus!
