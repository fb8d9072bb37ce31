//! The market's records and the values that its queries return.
//!
//! Each type has a view: the same fields as mathematical values, with texts as
//! sequences of characters and byte strings as sequences of bytes. The
//! contracts of the crate speak of views.

use crate::table::views;
use vstd::prelude::*;

verus! {

/// A copy of `bytes`.
pub fn clone_bytes(bytes: &Vec<u8>) -> (copy: Vec<u8>)
    ensures
        copy@ == bytes@,
{
    let mut copy: Vec<u8> = Vec::new();
    let mut i: usize = 0;
    while i < bytes.len()
        invariant
            i <= bytes.len(),
            copy@ == bytes@.subrange(0, i as int),
        decreases bytes.len() - i,
    {
        copy.push(bytes[i]);
        proof {
            assert(copy@ =~= bytes@.subrange(0, i + 1));
        }
        i = i + 1;
    }
    proof {
        assert(bytes@.subrange(0, i as int) =~= bytes@);
    }
    copy
}

/// A task that a seller offers, with its price and the state of its approval.
#[derive(Debug)]
pub struct Bounty {
    pub id: Option<i32>,
    pub public_id: String,
    pub user_id: i32,
    pub title: String,
    pub description: String,
    pub price_sat: u64,
    pub fee_rate_basis_points: u32,
    pub submitted: bool,
    pub viewed: bool,
    pub approved: bool,
    pub deactivated_by_seller: bool,
    pub deactivated_by_admin: bool,
    pub created_time_ms: u64,
}

/// The view of a [`Bounty`].
pub struct BountyView {
    pub id: Option<i32>,
    pub public_id: Seq<char>,
    pub user_id: i32,
    pub title: Seq<char>,
    pub description: Seq<char>,
    pub price_sat: u64,
    pub fee_rate_basis_points: u32,
    pub submitted: bool,
    pub viewed: bool,
    pub approved: bool,
    pub deactivated_by_seller: bool,
    pub deactivated_by_admin: bool,
    pub created_time_ms: u64,
}

impl View for Bounty {
    type V = BountyView;

    open spec fn view(&self) -> BountyView {
        BountyView {
            id: self.id,
            public_id: self.public_id@,
            user_id: self.user_id,
            title: self.title@,
            description: self.description@,
            price_sat: self.price_sat,
            fee_rate_basis_points: self.fee_rate_basis_points,
            submitted: self.submitted,
            viewed: self.viewed,
            approved: self.approved,
            deactivated_by_seller: self.deactivated_by_seller,
            deactivated_by_admin: self.deactivated_by_admin,
            created_time_ms: self.created_time_ms,
        }
    }
}

impl Clone for Bounty {
    fn clone(&self) -> (copy: Self)
        ensures
            copy@ == self@,
    {
        Bounty {
            id: self.id,
            public_id: self.public_id.clone(),
            user_id: self.user_id,
            title: self.title.clone(),
            description: self.description.clone(),
            price_sat: self.price_sat,
            fee_rate_basis_points: self.fee_rate_basis_points,
            submitted: self.submitted,
            viewed: self.viewed,
            approved: self.approved,
            deactivated_by_seller: self.deactivated_by_seller,
            deactivated_by_admin: self.deactivated_by_admin,
            created_time_ms: self.created_time_ms,
        }
    }
}

/// What a seller enters to open a bounty.
#[derive(Debug)]
pub struct InitialBountyInfo {
    pub title: String,
    pub description: String,
    pub price_sat: Option<u64>,
}

/// The view of a [`InitialBountyInfo`].
pub struct InitialBountyInfoView {
    pub title: Seq<char>,
    pub description: Seq<char>,
    pub price_sat: Option<u64>,
}

impl View for InitialBountyInfo {
    type V = InitialBountyInfoView;

    open spec fn view(&self) -> InitialBountyInfoView {
        InitialBountyInfoView {
            title: self.title@,
            description: self.description@,
            price_sat: self.price_sat,
        }
    }
}

impl Clone for InitialBountyInfo {
    fn clone(&self) -> (copy: Self)
        ensures
            copy@ == self@,
    {
        InitialBountyInfo {
            title: self.title.clone(),
            description: self.description.clone(),
            price_sat: self.price_sat,
        }
    }
}

/// A picture attached to a bounty.
#[derive(Debug)]
pub struct BountyImage {
    pub id: Option<i32>,
    pub public_id: String,
    pub bounty_id: i32,
    pub image_data: Vec<u8>,
    pub is_primary: bool,
}

/// The view of a [`BountyImage`].
pub struct BountyImageView {
    pub id: Option<i32>,
    pub public_id: Seq<char>,
    pub bounty_id: i32,
    pub image_data: Seq<u8>,
    pub is_primary: bool,
}

impl View for BountyImage {
    type V = BountyImageView;

    open spec fn view(&self) -> BountyImageView {
        BountyImageView {
            id: self.id,
            public_id: self.public_id@,
            bounty_id: self.bounty_id,
            image_data: self.image_data@,
            is_primary: self.is_primary,
        }
    }
}

impl Clone for BountyImage {
    fn clone(&self) -> (copy: Self)
        ensures
            copy@ == self@,
    {
        BountyImage {
            id: self.id,
            public_id: self.public_id.clone(),
            bounty_id: self.bounty_id,
            image_data: clone_bytes(&self.image_data),
            is_primary: self.is_primary,
        }
    }
}

/// A bounty's picture with its bytes as base64 text.
#[derive(Debug)]
pub struct BountyImageDisplay {
    pub id: Option<i32>,
    pub public_id: String,
    pub bounty_id: i32,
    pub image_data_base64: String,
    pub is_primary: bool,
}

/// The view of a [`BountyImageDisplay`].
pub struct BountyImageDisplayView {
    pub id: Option<i32>,
    pub public_id: Seq<char>,
    pub bounty_id: i32,
    pub image_data_base64: Seq<char>,
    pub is_primary: bool,
}

impl View for BountyImageDisplay {
    type V = BountyImageDisplayView;

    open spec fn view(&self) -> BountyImageDisplayView {
        BountyImageDisplayView {
            id: self.id,
            public_id: self.public_id@,
            bounty_id: self.bounty_id,
            image_data_base64: self.image_data_base64@,
            is_primary: self.is_primary,
        }
    }
}

impl Clone for BountyImageDisplay {
    fn clone(&self) -> (copy: Self)
        ensures
            copy@ == self@,
    {
        BountyImageDisplay {
            id: self.id,
            public_id: self.public_id.clone(),
            bounty_id: self.bounty_id,
            image_data_base64: self.image_data_base64.clone(),
            is_primary: self.is_primary,
        }
    }
}

/// A registered user, by id and name.
#[derive(Debug)]
pub struct RocketAuthUser {
    pub id: Option<i32>,
    pub username: String,
}

/// The view of a [`RocketAuthUser`].
pub struct RocketAuthUserView {
    pub id: Option<i32>,
    pub username: Seq<char>,
}

impl View for RocketAuthUser {
    type V = RocketAuthUserView;

    open spec fn view(&self) -> RocketAuthUserView {
        RocketAuthUserView {
            id: self.id,
            username: self.username@,
        }
    }
}

impl Clone for RocketAuthUser {
    fn clone(&self) -> (copy: Self)
        ensures
            copy@ == self@,
    {
        RocketAuthUser {
            id: self.id,
            username: self.username.clone(),
        }
    }
}

/// A bounty with all its pictures and its seller.
#[derive(Debug)]
pub struct BountyDisplay {
    pub bounty: Bounty,
    pub images: Vec<BountyImageDisplay>,
    pub user: Option<RocketAuthUser>,
}

/// The view of a [`BountyDisplay`].
pub struct BountyDisplayView {
    pub bounty: BountyView,
    pub images: Seq<BountyImageDisplayView>,
    pub user: Option<RocketAuthUserView>,
}

impl View for BountyDisplay {
    type V = BountyDisplayView;

    open spec fn view(&self) -> BountyDisplayView {
        BountyDisplayView {
            bounty: self.bounty@,
            images: views(self.images@),
            user: match self.user {
                Some(x) => Some(x@),
                None => None,
            },
        }
    }
}

impl Clone for BountyDisplay {
    fn clone(&self) -> (copy: Self)
        ensures
            copy@ == self@,
    {
        BountyDisplay {
            bounty: self.bounty.clone(),
            images: clone_image_displays(&self.images),
            user: match &self.user {
                Some(x) => Some(x.clone()),
                None => None,
            },
        }
    }
}

/// A bounty with its first picture, as base64 text, and its seller.
#[derive(Debug)]
pub struct BountyCardDisplay {
    pub bounty: Bounty,
    pub image: Option<BountyImageDisplay>,
    pub user: RocketAuthUser,
}

/// The view of a [`BountyCardDisplay`].
pub struct BountyCardDisplayView {
    pub bounty: BountyView,
    pub image: Option<BountyImageDisplayView>,
    pub user: RocketAuthUserView,
}

impl View for BountyCardDisplay {
    type V = BountyCardDisplayView;

    open spec fn view(&self) -> BountyCardDisplayView {
        BountyCardDisplayView {
            bounty: self.bounty@,
            image: match self.image {
                Some(x) => Some(x@),
                None => None,
            },
            user: self.user@,
        }
    }
}

impl Clone for BountyCardDisplay {
    fn clone(&self) -> (copy: Self)
        ensures
            copy@ == self@,
    {
        BountyCardDisplay {
            bounty: self.bounty.clone(),
            image: match &self.image {
                Some(x) => Some(x.clone()),
                None => None,
            },
            user: self.user.clone(),
        }
    }
}

/// A bounty with its first picture and its seller.
#[derive(Debug)]
pub struct BountyCard {
    pub bounty: Bounty,
    pub image: Option<BountyImage>,
    pub user: RocketAuthUser,
}

/// The view of a [`BountyCard`].
pub struct BountyCardView {
    pub bounty: BountyView,
    pub image: Option<BountyImageView>,
    pub user: RocketAuthUserView,
}

impl View for BountyCard {
    type V = BountyCardView;

    open spec fn view(&self) -> BountyCardView {
        BountyCardView {
            bounty: self.bounty@,
            image: match self.image {
                Some(x) => Some(x@),
                None => None,
            },
            user: self.user@,
        }
    }
}

impl Clone for BountyCard {
    fn clone(&self) -> (copy: Self)
        ensures
            copy@ == self@,
    {
        BountyCard {
            bounty: self.bounty.clone(),
            image: match &self.image {
                Some(x) => Some(x.clone()),
                None => None,
            },
            user: self.user.clone(),
        }
    }
}

/// The market's settings.
#[derive(Debug)]
pub struct AdminSettings {
    pub id: Option<i32>,
    pub market_name: String,
    pub market_info: String,
    pub fee_rate_basis_points: u32,
    pub user_bond_price_sat: u64,
    pub pgp_key: String,
    pub max_allowed_users: u64,
}

/// The view of a [`AdminSettings`].
pub struct AdminSettingsView {
    pub id: Option<i32>,
    pub market_name: Seq<char>,
    pub market_info: Seq<char>,
    pub fee_rate_basis_points: u32,
    pub user_bond_price_sat: u64,
    pub pgp_key: Seq<char>,
    pub max_allowed_users: u64,
}

impl View for AdminSettings {
    type V = AdminSettingsView;

    open spec fn view(&self) -> AdminSettingsView {
        AdminSettingsView {
            id: self.id,
            market_name: self.market_name@,
            market_info: self.market_info@,
            fee_rate_basis_points: self.fee_rate_basis_points,
            user_bond_price_sat: self.user_bond_price_sat,
            pgp_key: self.pgp_key@,
            max_allowed_users: self.max_allowed_users,
        }
    }
}

impl Clone for AdminSettings {
    fn clone(&self) -> (copy: Self)
        ensures
            copy@ == self@,
    {
        AdminSettings {
            id: self.id,
            market_name: self.market_name.clone(),
            market_info: self.market_info.clone(),
            fee_rate_basis_points: self.fee_rate_basis_points,
            user_bond_price_sat: self.user_bond_price_sat,
            pgp_key: self.pgp_key.clone(),
            max_allowed_users: self.max_allowed_users,
        }
    }
}

/// One user's settings.
#[derive(Debug)]
pub struct UserSettings {
    pub id: Option<i32>,
    pub pgp_key: String,
}

/// The view of a [`UserSettings`].
pub struct UserSettingsView {
    pub id: Option<i32>,
    pub pgp_key: Seq<char>,
}

impl View for UserSettings {
    type V = UserSettingsView;

    open spec fn view(&self) -> UserSettingsView {
        UserSettingsView {
            id: self.id,
            pgp_key: self.pgp_key@,
        }
    }
}

impl Clone for UserSettings {
    fn clone(&self) -> (copy: Self)
        ensures
            copy@ == self@,
    {
        UserSettings {
            id: self.id,
            pgp_key: self.pgp_key.clone(),
        }
    }
}

/// A new market name, as entered.
#[derive(Debug)]
pub struct MarketNameInput {
    pub market_name: String,
}

/// The view of a [`MarketNameInput`].
pub struct MarketNameInputView {
    pub market_name: Seq<char>,
}

impl View for MarketNameInput {
    type V = MarketNameInputView;

    open spec fn view(&self) -> MarketNameInputView {
        MarketNameInputView {
            market_name: self.market_name@,
        }
    }
}

impl Clone for MarketNameInput {
    fn clone(&self) -> (copy: Self)
        ensures
            copy@ == self@,
    {
        MarketNameInput {
            market_name: self.market_name.clone(),
        }
    }
}

/// A new market description, as entered.
#[derive(Debug)]
pub struct MarketInfoInput {
    pub market_info: String,
}

/// The view of a [`MarketInfoInput`].
pub struct MarketInfoInputView {
    pub market_info: Seq<char>,
}

impl View for MarketInfoInput {
    type V = MarketInfoInputView;

    open spec fn view(&self) -> MarketInfoInputView {
        MarketInfoInputView {
            market_info: self.market_info@,
        }
    }
}

impl Clone for MarketInfoInput {
    fn clone(&self) -> (copy: Self)
        ensures
            copy@ == self@,
    {
        MarketInfoInput {
            market_info: self.market_info.clone(),
        }
    }
}

/// A new PGP key, as entered.
#[derive(Debug)]
pub struct PGPInfoInput {
    pub pgp_key: String,
}

/// The view of a [`PGPInfoInput`].
pub struct PGPInfoInputView {
    pub pgp_key: Seq<char>,
}

impl View for PGPInfoInput {
    type V = PGPInfoInputView;

    open spec fn view(&self) -> PGPInfoInputView {
        PGPInfoInputView {
            pgp_key: self.pgp_key@,
        }
    }
}

impl Clone for PGPInfoInput {
    fn clone(&self) -> (copy: Self)
        ensures
            copy@ == self@,
    {
        PGPInfoInput {
            pgp_key: self.pgp_key.clone(),
        }
    }
}

/// A new fee rate, as entered.
#[derive(Debug)]
pub struct FeeRateInput {
    pub fee_rate_basis_points: Option<i32>,
}

/// The view of a [`FeeRateInput`].
pub struct FeeRateInputView {
    pub fee_rate_basis_points: Option<i32>,
}

impl View for FeeRateInput {
    type V = FeeRateInputView;

    open spec fn view(&self) -> FeeRateInputView {
        FeeRateInputView {
            fee_rate_basis_points: self.fee_rate_basis_points,
        }
    }
}

impl Clone for FeeRateInput {
    fn clone(&self) -> (copy: Self)
        ensures
            copy@ == self@,
    {
        FeeRateInput {
            fee_rate_basis_points: self.fee_rate_basis_points,
        }
    }
}

/// A new bond price, as entered.
#[derive(Debug)]
pub struct UserBondPriceInput {
    pub user_bond_price_sat: Option<u64>,
}

/// The view of a [`UserBondPriceInput`].
pub struct UserBondPriceInputView {
    pub user_bond_price_sat: Option<u64>,
}

impl View for UserBondPriceInput {
    type V = UserBondPriceInputView;

    open spec fn view(&self) -> UserBondPriceInputView {
        UserBondPriceInputView {
            user_bond_price_sat: self.user_bond_price_sat,
        }
    }
}

impl Clone for UserBondPriceInput {
    fn clone(&self) -> (copy: Self)
        ensures
            copy@ == self@,
    {
        UserBondPriceInput {
            user_bond_price_sat: self.user_bond_price_sat,
        }
    }
}

/// A new limit on the number of users, as entered.
#[derive(Debug)]
pub struct MaxAllowedUsersInput {
    pub max_allowed_users: Option<u64>,
}

/// The view of a [`MaxAllowedUsersInput`].
pub struct MaxAllowedUsersInputView {
    pub max_allowed_users: Option<u64>,
}

impl View for MaxAllowedUsersInput {
    type V = MaxAllowedUsersInputView;

    open spec fn view(&self) -> MaxAllowedUsersInputView {
        MaxAllowedUsersInputView {
            max_allowed_users: self.max_allowed_users,
        }
    }
}

impl Clone for MaxAllowedUsersInput {
    fn clone(&self) -> (copy: Self)
        ensures
            copy@ == self@,
    {
        MaxAllowedUsersInput {
            max_allowed_users: self.max_allowed_users,
        }
    }
}

/// An order: a buyer's claim against a bounty, opened by paying an invoice.
#[derive(Debug)]
pub struct Case {
    pub id: Option<i32>,
    pub public_id: String,
    pub quantity: u32,
    pub buyer_user_id: i32,
    pub seller_user_id: i32,
    pub bounty_id: i32,
    pub case_details: String,
    pub amount_owed_sat: u64,
    pub seller_credit_sat: u64,
    pub paid: bool,
    pub awarded: bool,
    pub canceled_by_seller: bool,
    pub canceled_by_buyer: bool,
    pub invoice_hash: String,
    pub invoice_payment_request: String,
    pub created_time_ms: u64,
    pub payment_time_ms: u64,
}

/// The view of a [`Case`].
pub struct CaseView {
    pub id: Option<i32>,
    pub public_id: Seq<char>,
    pub quantity: u32,
    pub buyer_user_id: i32,
    pub seller_user_id: i32,
    pub bounty_id: i32,
    pub case_details: Seq<char>,
    pub amount_owed_sat: u64,
    pub seller_credit_sat: u64,
    pub paid: bool,
    pub awarded: bool,
    pub canceled_by_seller: bool,
    pub canceled_by_buyer: bool,
    pub invoice_hash: Seq<char>,
    pub invoice_payment_request: Seq<char>,
    pub created_time_ms: u64,
    pub payment_time_ms: u64,
}

impl View for Case {
    type V = CaseView;

    open spec fn view(&self) -> CaseView {
        CaseView {
            id: self.id,
            public_id: self.public_id@,
            quantity: self.quantity,
            buyer_user_id: self.buyer_user_id,
            seller_user_id: self.seller_user_id,
            bounty_id: self.bounty_id,
            case_details: self.case_details@,
            amount_owed_sat: self.amount_owed_sat,
            seller_credit_sat: self.seller_credit_sat,
            paid: self.paid,
            awarded: self.awarded,
            canceled_by_seller: self.canceled_by_seller,
            canceled_by_buyer: self.canceled_by_buyer,
            invoice_hash: self.invoice_hash@,
            invoice_payment_request: self.invoice_payment_request@,
            created_time_ms: self.created_time_ms,
            payment_time_ms: self.payment_time_ms,
        }
    }
}

impl Clone for Case {
    fn clone(&self) -> (copy: Self)
        ensures
            copy@ == self@,
    {
        Case {
            id: self.id,
            public_id: self.public_id.clone(),
            quantity: self.quantity,
            buyer_user_id: self.buyer_user_id,
            seller_user_id: self.seller_user_id,
            bounty_id: self.bounty_id,
            case_details: self.case_details.clone(),
            amount_owed_sat: self.amount_owed_sat,
            seller_credit_sat: self.seller_credit_sat,
            paid: self.paid,
            awarded: self.awarded,
            canceled_by_seller: self.canceled_by_seller,
            canceled_by_buyer: self.canceled_by_buyer,
            invoice_hash: self.invoice_hash.clone(),
            invoice_payment_request: self.invoice_payment_request.clone(),
            created_time_ms: self.created_time_ms,
            payment_time_ms: self.payment_time_ms,
        }
    }
}

/// What a buyer enters to open an order.
#[derive(Debug)]
pub struct CaseInfo {
    pub quantity: Option<u32>,
    pub case_details: String,
}

/// The view of a [`CaseInfo`].
pub struct CaseInfoView {
    pub quantity: Option<u32>,
    pub case_details: Seq<char>,
}

impl View for CaseInfo {
    type V = CaseInfoView;

    open spec fn view(&self) -> CaseInfoView {
        CaseInfoView {
            quantity: self.quantity,
            case_details: self.case_details@,
        }
    }
}

impl Clone for CaseInfo {
    fn clone(&self) -> (copy: Self)
        ensures
            copy@ == self@,
    {
        CaseInfo {
            quantity: self.quantity,
            case_details: self.case_details.clone(),
        }
    }
}

/// An order with its bounty, the bounty's first picture and a user.
#[derive(Debug)]
pub struct CaseCard {
    pub case: Case,
    pub bounty: Option<Bounty>,
    pub image: Option<BountyImage>,
    pub user: Option<RocketAuthUser>,
}

/// The view of a [`CaseCard`].
pub struct CaseCardView {
    pub case: CaseView,
    pub bounty: Option<BountyView>,
    pub image: Option<BountyImageView>,
    pub user: Option<RocketAuthUserView>,
}

impl View for CaseCard {
    type V = CaseCardView;

    open spec fn view(&self) -> CaseCardView {
        CaseCardView {
            case: self.case@,
            bounty: match self.bounty {
                Some(x) => Some(x@),
                None => None,
            },
            image: match self.image {
                Some(x) => Some(x@),
                None => None,
            },
            user: match self.user {
                Some(x) => Some(x@),
                None => None,
            },
        }
    }
}

impl Clone for CaseCard {
    fn clone(&self) -> (copy: Self)
        ensures
            copy@ == self@,
    {
        CaseCard {
            case: self.case.clone(),
            bounty: match &self.bounty {
                Some(x) => Some(x.clone()),
                None => None,
            },
            image: match &self.image {
                Some(x) => Some(x.clone()),
                None => None,
            },
            user: match &self.user {
                Some(x) => Some(x.clone()),
                None => None,
            },
        }
    }
}

/// A user's balance and the number of orders waiting for the user's decision.
#[derive(Debug)]
pub struct AccountInfo {
    pub account_balance_sat: i64,
    pub num_unawarded_cases: u32,
}

/// The view of a [`AccountInfo`].
pub struct AccountInfoView {
    pub account_balance_sat: i64,
    pub num_unawarded_cases: u32,
}

impl View for AccountInfo {
    type V = AccountInfoView;

    open spec fn view(&self) -> AccountInfoView {
        AccountInfoView {
            account_balance_sat: self.account_balance_sat,
            num_unawarded_cases: self.num_unawarded_cases,
        }
    }
}

impl Clone for AccountInfo {
    fn clone(&self) -> (copy: Self)
        ensures
            copy@ == self@,
    {
        AccountInfo {
            account_balance_sat: self.account_balance_sat,
            num_unawarded_cases: self.num_unawarded_cases,
        }
    }
}

/// What the administrator has waiting.
#[derive(Debug)]
pub struct AdminInfo {
    pub num_pending_bounties: u32,
}

/// The view of a [`AdminInfo`].
pub struct AdminInfoView {
    pub num_pending_bounties: u32,
}

impl View for AdminInfo {
    type V = AdminInfoView;

    open spec fn view(&self) -> AdminInfoView {
        AdminInfoView {
            num_pending_bounties: self.num_pending_bounties,
        }
    }
}

impl Clone for AdminInfo {
    fn clone(&self) -> (copy: Self)
        ensures
            copy@ == self@,
    {
        AdminInfo {
            num_pending_bounties: self.num_pending_bounties,
        }
    }
}

/// A ledger event: one signed change of a balance, derived from a record.
#[derive(Debug)]
pub struct AccountBalanceChange {
    pub amount_change_sat: i64,
    pub event_type: String,
    pub event_id: String,
    pub event_time_ms: u64,
}

/// The view of a [`AccountBalanceChange`].
pub struct AccountBalanceChangeView {
    pub amount_change_sat: i64,
    pub event_type: Seq<char>,
    pub event_id: Seq<char>,
    pub event_time_ms: u64,
}

impl View for AccountBalanceChange {
    type V = AccountBalanceChangeView;

    open spec fn view(&self) -> AccountBalanceChangeView {
        AccountBalanceChangeView {
            amount_change_sat: self.amount_change_sat,
            event_type: self.event_type@,
            event_id: self.event_id@,
            event_time_ms: self.event_time_ms,
        }
    }
}

impl Clone for AccountBalanceChange {
    fn clone(&self) -> (copy: Self)
        ensures
            copy@ == self@,
    {
        AccountBalanceChange {
            amount_change_sat: self.amount_change_sat,
            event_type: self.event_type.clone(),
            event_id: self.event_id.clone(),
            event_time_ms: self.event_time_ms,
        }
    }
}

/// Funds that a user takes out of the market.
#[derive(Debug)]
pub struct Withdrawal {
    pub id: Option<i32>,
    pub public_id: String,
    pub user_id: i32,
    pub amount_sat: u64,
    pub invoice_hash: String,
    pub invoice_payment_request: String,
    pub created_time_ms: u64,
}

/// The view of a [`Withdrawal`].
pub struct WithdrawalView {
    pub id: Option<i32>,
    pub public_id: Seq<char>,
    pub user_id: i32,
    pub amount_sat: u64,
    pub invoice_hash: Seq<char>,
    pub invoice_payment_request: Seq<char>,
    pub created_time_ms: u64,
}

impl View for Withdrawal {
    type V = WithdrawalView;

    open spec fn view(&self) -> WithdrawalView {
        WithdrawalView {
            id: self.id,
            public_id: self.public_id@,
            user_id: self.user_id,
            amount_sat: self.amount_sat,
            invoice_hash: self.invoice_hash@,
            invoice_payment_request: self.invoice_payment_request@,
            created_time_ms: self.created_time_ms,
        }
    }
}

impl Clone for Withdrawal {
    fn clone(&self) -> (copy: Self)
        ensures
            copy@ == self@,
    {
        Withdrawal {
            id: self.id,
            public_id: self.public_id.clone(),
            user_id: self.user_id,
            amount_sat: self.amount_sat,
            invoice_hash: self.invoice_hash.clone(),
            invoice_payment_request: self.invoice_payment_request.clone(),
            created_time_ms: self.created_time_ms,
        }
    }
}

/// The invoice that a user enters to withdraw.
#[derive(Debug)]
pub struct WithdrawalInfo {
    pub invoice_payment_request: String,
}

/// The view of a [`WithdrawalInfo`].
pub struct WithdrawalInfoView {
    pub invoice_payment_request: Seq<char>,
}

impl View for WithdrawalInfo {
    type V = WithdrawalInfoView;

    open spec fn view(&self) -> WithdrawalInfoView {
        WithdrawalInfoView {
            invoice_payment_request: self.invoice_payment_request@,
        }
    }
}

impl Clone for WithdrawalInfo {
    fn clone(&self) -> (copy: Self)
        ensures
            copy@ == self@,
    {
        WithdrawalInfo {
            invoice_payment_request: self.invoice_payment_request.clone(),
        }
    }
}

/// What a seller has sold in total.
#[derive(Debug)]
pub struct SellerInfo {
    pub username: String,
    pub total_amount_sold_sat: u64,
}

/// The view of a [`SellerInfo`].
pub struct SellerInfoView {
    pub username: Seq<char>,
    pub total_amount_sold_sat: u64,
}

impl View for SellerInfo {
    type V = SellerInfoView;

    open spec fn view(&self) -> SellerInfoView {
        SellerInfoView {
            username: self.username@,
            total_amount_sold_sat: self.total_amount_sold_sat,
        }
    }
}

impl Clone for SellerInfo {
    fn clone(&self) -> (copy: Self)
        ensures
            copy@ == self@,
    {
        SellerInfo {
            username: self.username.clone(),
            total_amount_sold_sat: self.total_amount_sold_sat,
        }
    }
}

/// An account activation: the bond that makes a user a seller.
#[derive(Debug)]
pub struct UserAccount {
    pub id: Option<i32>,
    pub public_id: String,
    pub user_id: i32,
    pub amount_owed_sat: u64,
    pub paid: bool,
    pub disabled: bool,
    pub invoice_hash: String,
    pub invoice_payment_request: String,
    pub created_time_ms: u64,
    pub payment_time_ms: u64,
}

/// The view of a [`UserAccount`].
pub struct UserAccountView {
    pub id: Option<i32>,
    pub public_id: Seq<char>,
    pub user_id: i32,
    pub amount_owed_sat: u64,
    pub paid: bool,
    pub disabled: bool,
    pub invoice_hash: Seq<char>,
    pub invoice_payment_request: Seq<char>,
    pub created_time_ms: u64,
    pub payment_time_ms: u64,
}

impl View for UserAccount {
    type V = UserAccountView;

    open spec fn view(&self) -> UserAccountView {
        UserAccountView {
            id: self.id,
            public_id: self.public_id@,
            user_id: self.user_id,
            amount_owed_sat: self.amount_owed_sat,
            paid: self.paid,
            disabled: self.disabled,
            invoice_hash: self.invoice_hash@,
            invoice_payment_request: self.invoice_payment_request@,
            created_time_ms: self.created_time_ms,
            payment_time_ms: self.payment_time_ms,
        }
    }
}

impl Clone for UserAccount {
    fn clone(&self) -> (copy: Self)
        ensures
            copy@ == self@,
    {
        UserAccount {
            id: self.id,
            public_id: self.public_id.clone(),
            user_id: self.user_id,
            amount_owed_sat: self.amount_owed_sat,
            paid: self.paid,
            disabled: self.disabled,
            invoice_hash: self.invoice_hash.clone(),
            invoice_payment_request: self.invoice_payment_request.clone(),
            created_time_ms: self.created_time_ms,
            payment_time_ms: self.payment_time_ms,
        }
    }
}

/// A user with the user's account activation.
#[derive(Debug)]
pub struct UserCard {
    pub user: RocketAuthUser,
    pub user_account: UserAccount,
}

/// The view of a [`UserCard`].
pub struct UserCardView {
    pub user: RocketAuthUserView,
    pub user_account: UserAccountView,
}

impl View for UserCard {
    type V = UserCardView;

    open spec fn view(&self) -> UserCardView {
        UserCardView {
            user: self.user@,
            user_account: self.user_account@,
        }
    }
}

impl Clone for UserCard {
    fn clone(&self) -> (copy: Self)
        ensures
            copy@ == self@,
    {
        UserCard {
            user: self.user.clone(),
            user_account: self.user_account.clone(),
        }
    }
}

/// A row of the users table: what the market reads of a registered user.
#[derive(Debug)]
pub struct User {
    pub id: Option<i32>,
    pub username: String,
    pub is_admin: bool,
}

/// The view of a [`User`].
pub struct UserView {
    pub id: Option<i32>,
    pub username: Seq<char>,
    pub is_admin: bool,
}

impl View for User {
    type V = UserView;

    open spec fn view(&self) -> UserView {
        UserView {
            id: self.id,
            username: self.username@,
            is_admin: self.is_admin,
        }
    }
}

impl Clone for User {
    fn clone(&self) -> (copy: Self)
        ensures
            copy@ == self@,
    {
        User {
            id: self.id,
            username: self.username.clone(),
            is_admin: self.is_admin,
        }
    }
}

/// A row of the table of users' settings.
#[derive(Debug)]
pub struct UserSettingsRow {
    pub id: Option<i32>,
    pub user_id: i32,
    pub pgp_key: String,
}

/// The view of a [`UserSettingsRow`].
pub struct UserSettingsRowView {
    pub id: Option<i32>,
    pub user_id: i32,
    pub pgp_key: Seq<char>,
}

impl View for UserSettingsRow {
    type V = UserSettingsRowView;

    open spec fn view(&self) -> UserSettingsRowView {
        UserSettingsRowView {
            id: self.id,
            user_id: self.user_id,
            pgp_key: self.pgp_key@,
        }
    }
}

impl Clone for UserSettingsRow {
    fn clone(&self) -> (copy: Self)
        ensures
            copy@ == self@,
    {
        UserSettingsRow {
            id: self.id,
            user_id: self.user_id,
            pgp_key: self.pgp_key.clone(),
        }
    }
}

/// A copy of `rows`, row by row.
pub fn clone_image_displays(rows: &Vec<BountyImageDisplay>) -> (copy: Vec<BountyImageDisplay>)
    ensures
        views(copy@) == views(rows@),
{
    let mut copy: Vec<BountyImageDisplay> = Vec::new();
    let mut i: usize = 0;
    while i < rows.len()
        invariant
            i <= rows.len(),
            views(copy@) == views(rows@).subrange(0, i as int),
        decreases rows.len() - i,
    {
        let row = rows[i].clone();
        assert(views(copy@).len() == copy@.len());
        copy.push(row);
        proof {
            assert(views(copy@) =~= views(rows@).subrange(0, i + 1));
        }
        i = i + 1;
    }
    proof {
        assert(views(rows@).subrange(0, i as int) =~= views(rows@));
    }
    copy
}

} // verus!
