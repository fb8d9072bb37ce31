//! Listings: bounties, orders and users with what belongs to them, sorted and
//! cut into pages.
//!
//! A listing selects rows, joins to each what the other tables hold for it,
//! sorts the result by falling time and keeps one page. Rows of one time keep
//! the order of the table. Pages are counted from 1.

use crate::activation::{as_auth_user, user_with_id};
use crate::bounty::{
    bounty_pending, bounty_with_id, bounty_with_public_id, image_of, image_rank, is_deactivated,
};
use crate::error::LedgerError;
use crate::escrow::is_closed;
use crate::ledger::as_amount;
use crate::models::{
    Bounty, BountyCard, BountyCardDisplay, BountyCardDisplayView, BountyCardView, BountyDisplay,
    BountyDisplayView, BountyImage, BountyImageDisplay, BountyImageDisplayView, BountyImageView,
    BountyView, Case, CaseCard, CaseCardView, CaseView, RocketAuthUser, RocketAuthUserView,
    SellerInfo, SellerInfoView, User, UserAccount, UserAccountView, UserCard, UserCardView,
    UserView,
};
use crate::search::{fits, holds, pattern_holding};
use crate::store::{Store, StoreModel};
use crate::table::{
    append_where, count, count_where, first, lemma_filter_all, lemma_keyed_len, page,
    position_where, sort_desc, sorted_desc, sum, sum_where, take_page, views,
};
use crate::util::{base64_text, to_base64};
use vstd::prelude::*;

verus! {

/// The pictures of the bounty `bounty_id` that are primary.
pub open spec fn image_primary_of(bounty_id: i32) -> spec_fn(BountyImageView) -> bool {
    |i: BountyImageView| i.bounty_id == bounty_id && i.is_primary
}

/// The picture that stands for the bounty with the key `bounty_id`: its first
/// primary picture; its first picture where none is primary; none where it
/// has no picture.
pub open spec fn cover(images: Seq<BountyImageView>, bounty_id: Option<i32>) -> Option<
    BountyImageView,
> {
    match bounty_id {
        None => None,
        Some(id) => match first(images, image_primary_of(id)) {
            Some(i) => Some(i),
            None => first(images, image_of(id)),
        },
    }
}

/// A user that no row stands for.
pub open spec fn nobody() -> RocketAuthUserView {
    RocketAuthUserView { id: None, username: Seq::empty() }
}

/// The user with the key `user_id`, as the market shows a user.
pub open spec fn shown_user(users: Seq<UserView>, user_id: i32) -> Option<RocketAuthUserView> {
    match first(users, user_with_id(user_id)) {
        Some(u) => Some(as_auth_user(u)),
        None => None,
    }
}

/// The picture `i` with its bytes as base64 text.
pub open spec fn image_display(i: BountyImageView) -> BountyImageDisplayView {
    BountyImageDisplayView {
        id: i.id,
        public_id: i.public_id,
        bounty_id: i.bounty_id,
        image_data_base64: base64_text(i.image_data),
        is_primary: i.is_primary,
    }
}

/// The card `card` with its picture's bytes as base64 text.
pub open spec fn card_display(card: BountyCardView) -> BountyCardDisplayView {
    BountyCardDisplayView {
        bounty: card.bounty,
        image: match card.image {
            Some(i) => Some(image_display(i)),
            None => None,
        },
        user: card.user,
    }
}

/// The card of the bounty `b`: the bounty, its cover and its seller.
pub open spec fn bounty_card(db: StoreModel, b: BountyView) -> BountyCardView {
    BountyCardView {
        bounty: b,
        image: cover(db.bounty_images, b.id),
        user: match shown_user(db.users, b.user_id) {
            Some(u) => u,
            None => nobody(),
        },
    }
}

/// The card of the order `c`: the order, its bounty, the bounty's cover and
/// the bounty's seller, each as far as there is one.
pub open spec fn case_card(db: StoreModel, c: CaseView) -> CaseCardView {
    let bounty = first(db.bounties, bounty_with_id(c.bounty_id));
    CaseCardView {
        case: c,
        bounty,
        image: match bounty {
            Some(b) => cover(db.bounty_images, b.id),
            None => None,
        },
        user: match bounty {
            Some(b) => shown_user(db.users, b.user_id),
            None => None,
        },
    }
}

/// The time by which bounties are listed.
pub open spec fn bounty_card_time() -> spec_fn(BountyCardView) -> int {
    |c: BountyCardView| c.bounty.created_time_ms as int
}

/// The bounties that `wanted` selects and whose seller is a user.
pub open spec fn listed(db: StoreModel, wanted: spec_fn(BountyView) -> bool) -> spec_fn(
    BountyView,
) -> bool {
    |b: BountyView| wanted(b) && shown_user(db.users, b.user_id) is Some
}

/// The page `page_num` of the cards of the bounties that `wanted` selects
/// and whose seller is a user, the newest first.
pub open spec fn bounty_cards(
    db: StoreModel,
    wanted: spec_fn(BountyView) -> bool,
    page_size: u32,
    page_num: u32,
) -> Seq<BountyCardView> {
    page(
        sorted_desc(
            db.bounties.filter(listed(db, wanted)).map_values(|b: BountyView| bounty_card(db, b)),
            bounty_card_time(),
        ),
        page_size,
        page_num,
    )
}

/// The picture that stands for the bounty.
fn cover_of(db: &Store, bounty_id: Option<i32>) -> (image: Option<BountyImage>)
    ensures
        match cover(db@.bounty_images, bounty_id) {
            Some(i) => image is Some && image->Some_0@ == i,
            None => image is None,
        },
{
    match bounty_id {
        None => None,
        Some(id) => {
            let primary = |i: &BountyImage| -> (b: bool)
                ensures
                    b == image_primary_of(id)(i@),
                { i.bounty_id == id && i.is_primary };
            match position_where(&db.bounty_images, primary, Ghost(image_primary_of(id))) {
                Some(k) => Some(db.bounty_images[k].clone()),
                None => {
                    let any = |i: &BountyImage| -> (b: bool)
                        ensures
                            b == image_of(id)(i@),
                        { i.bounty_id == id };
                    match position_where(&db.bounty_images, any, Ghost(image_of(id))) {
                        Some(k) => Some(db.bounty_images[k].clone()),
                        None => None,
                    }
                },
            }
        },
    }
}

/// The user with the key `user_id`, as the market shows a user.
fn user_shown(db: &Store, user_id: i32) -> (user: Option<RocketAuthUser>)
    ensures
        match shown_user(db@.users, user_id) {
            Some(u) => user is Some && user->Some_0@ == u,
            None => user is None,
        },
{
    match RocketAuthUser::single(db, user_id) {
        Ok(u) => Some(u),
        Err(_) => None,
    }
}

/// The card of the bounty.
fn card_of(db: &Store, bounty: &Bounty) -> (card: BountyCard)
    ensures
        card@ == bounty_card(db@, bounty@),
{
    BountyCard {
        bounty: bounty.clone(),
        image: cover_of(db, bounty.id),
        user: match user_shown(db, bounty.user_id) {
            Some(u) => u,
            None => RocketAuthUser { id: None, username: String::new() },
        },
    }
}

/// The page of cards of the bounties that `test` accepts.
fn list_bounties<F: Fn(&Bounty) -> bool>(
    db: &Store,
    test: F,
    Ghost(hit): Ghost<spec_fn(BountyView) -> bool>,
    page_size: u32,
    page_num: u32,
) -> (cards: Vec<BountyCard>)
    requires
        page_num >= 1,
        forall|b: &Bounty| #[trigger] test.requires((b,)),
        forall|b: &Bounty, r: bool| #[trigger] test.ensures((b,), r) ==> r == hit(b@),
    ensures
        views(cards@) == page(
            sorted_desc(
                db@.bounties.filter(hit).map_values(|b: BountyView| bounty_card(db@, b)),
                bounty_card_time(),
            ),
            page_size,
            page_num,
        ),
{
    let mut cards: Vec<BountyCard> = Vec::new();
    assert(views(cards@) =~= Seq::<BountyCardView>::empty());
    let make = |b: &Bounty| -> (c: BountyCard)
        ensures
            c@ == bounty_card(db@, b@),
        { card_of(db, b) };
    append_where(
        &mut cards,
        &db.bounties,
        test,
        make,
        Ghost(hit),
        Ghost(|b: BountyView| bounty_card(db@, b)),
        Ghost(|b: BountyView| true),
    );
    let time = |c: &BountyCard| -> (t: u64)
        ensures
            t == bounty_card_time()(c@),
        { c.bounty.created_time_ms };
    let sorted = sort_desc(cards, time, Ghost(bounty_card_time()));
    take_page(sorted, page_size, page_num)
}

/// Whether the bounty's seller is a user.
fn has_seller(db: &Store, bounty: &Bounty) -> (b: bool)
    ensures
        b == (shown_user(db@.users, bounty@.user_id) is Some),
{
    user_shown(db, bounty.user_id).is_some()
}

/// The activations of the user `user_id` that are not disabled.
pub open spec fn account_enabled_of(user_id: i32) -> spec_fn(UserAccountView) -> bool {
    |a: UserAccountView| a.user_id == user_id && !a.disabled
}

/// Whether the seller `user_id` has an activation that is not disabled.
pub open spec fn seller_enabled(db: StoreModel, user_id: i32) -> bool {
    count(db.user_accounts, account_enabled_of(user_id)) > 0
}

/// Whether the seller has an activation that is not disabled.
fn is_seller_enabled(db: &Store, user_id: i32) -> (b: bool)
    ensures
        b == seller_enabled(db@, user_id),
{
    let test = |a: &UserAccount| -> (r: bool)
        ensures
            r == account_enabled_of(user_id)(a@),
        { a.user_id == user_id && !a.disabled };
    let n: usize = count_where(&db.user_accounts, test, Ghost(account_enabled_of(user_id)));
    n > 0
}

/// The bounties on offer: approved, not deactivated, of a seller with an
/// activation that is not disabled.
pub open spec fn bounty_active(db: StoreModel) -> spec_fn(BountyView) -> bool {
    |b: BountyView| b.approved && !b.deactivated() && seller_enabled(db, b.user_id)
}

/// The approved bounties that are deactivated.
pub open spec fn bounty_deactivated() -> spec_fn(BountyView) -> bool {
    |b: BountyView| b.approved && b.deactivated()
}

/// The bounties of the seller `user_id` that are not submitted.
pub open spec fn bounty_unsubmitted_for(user_id: i32) -> spec_fn(BountyView) -> bool {
    |b: BountyView| !b.submitted && b.user_id == user_id
}

/// The bounties of the seller `user_id` that wait for inspection.
pub open spec fn bounty_pending_for(user_id: i32) -> spec_fn(BountyView) -> bool {
    |b: BountyView| b.submitted && !b.viewed && b.user_id == user_id
}

/// The bounties of the seller `user_id` that are neither approved nor
/// inspected.
pub open spec fn bounty_rejected_for(user_id: i32) -> spec_fn(BountyView) -> bool {
    |b: BountyView| !b.approved && !b.viewed && b.user_id == user_id
}

/// The approved bounties of the seller `user_id` that are deactivated.
pub open spec fn bounty_deactivated_for(user_id: i32) -> spec_fn(BountyView) -> bool {
    |b: BountyView| b.approved && b.deactivated() && b.user_id == user_id
}

/// The bounties of the seller `user_id` that are inspected, approved and not
/// deactivated.
pub open spec fn bounty_active_for(user_id: i32) -> spec_fn(BountyView) -> bool {
    |b: BountyView| b.approved && b.viewed && !b.deactivated() && b.user_id == user_id
}

/// The bounties on offer, inspected, whose title or description holds
/// `search_text`.
pub open spec fn bounty_found(db: StoreModel, search_text: Seq<char>) -> spec_fn(BountyView) -> bool {
    |b: BountyView|
        b.approved && b.viewed && !b.deactivated() && seller_enabled(db, b.user_id) && (holds(
            b.title,
            search_text,
        ) || holds(b.description, search_text))
}

impl BountyCard {
    /// One page of the bounties on offer whose title or description holds
    /// `search_text`, the newest first. Letters of either case count alike;
    /// in the text, `%` stands for any run of characters and `_` for any one
    /// character.
    pub fn all_active_for_search_text(
        db: &Store,
        search_text: &str,
        page_size: u32,
        page_num: u32,
    ) -> (cards: Vec<BountyCard>)
        requires
            page_num >= 1,
        ensures
            views(cards@) == bounty_cards(
                db@,
                bounty_found(db@, search_text@),
                page_size,
                page_num,
            ),
    {
        let pattern = pattern_holding(search_text);
        let wanted = |b: &Bounty| -> (r: bool)
            ensures
                r == listed(db@, bounty_found(db@, search_text@))(b@),
            {
                b.approved && b.viewed && !is_deactivated(b) && is_seller_enabled(db, b.user_id)
                    && (fits(&pattern, b.title.as_str()) || fits(
                    &pattern,
                    b.description.as_str(),
                )) && has_seller(db, b)
            };
        list_bounties(
            db,
            wanted,
            Ghost(listed(db@, bounty_found(db@, search_text@))),
            page_size,
            page_num,
        )
    }

    /// One page of the bounties on offer, the newest first.
    pub fn all_active(db: &Store, page_size: u32, page_num: u32) -> (cards: Vec<BountyCard>)
        requires
            page_num >= 1,
        ensures
            views(cards@) == bounty_cards(db@, bounty_active(db@), page_size, page_num),
    {
        let wanted = |b: &Bounty| -> (r: bool)
            ensures
                r == listed(db@, bounty_active(db@))(b@),
            { b.approved && !is_deactivated(b) && is_seller_enabled(db, b.user_id) && has_seller(db, b) };
        list_bounties(db, wanted, Ghost(listed(db@, bounty_active(db@))), page_size, page_num)
    }

    /// One page of the deactivated bounties, the newest first.
    pub fn all_deactivated(db: &Store, page_size: u32, page_num: u32) -> (cards: Vec<BountyCard>)
        requires
            page_num >= 1,
        ensures
            views(cards@) == bounty_cards(db@, bounty_deactivated(), page_size, page_num),
    {
        let wanted = |b: &Bounty| -> (r: bool)
            ensures
                r == listed(db@, bounty_deactivated())(b@),
            { b.approved && is_deactivated(b) && has_seller(db, b) };
        list_bounties(db, wanted, Ghost(listed(db@, bounty_deactivated())), page_size, page_num)
    }

    /// One page of the bounties that wait for inspection, the newest first.
    pub fn all_pending(db: &Store, page_size: u32, page_num: u32) -> (cards: Vec<BountyCard>)
        requires
            page_num >= 1,
        ensures
            views(cards@) == bounty_cards(db@, bounty_pending(), page_size, page_num),
    {
        let wanted = |b: &Bounty| -> (r: bool)
            ensures
                r == listed(db@, bounty_pending())(b@),
            { b.submitted && !b.viewed && has_seller(db, b) };
        list_bounties(db, wanted, Ghost(listed(db@, bounty_pending())), page_size, page_num)
    }

    /// One page of the seller's bounties that are not submitted, the newest
    /// first.
    pub fn all_unsubmitted_for_user(db: &Store, user_id: i32, page_size: u32, page_num: u32) -> (cards:
        Vec<BountyCard>)
        requires
            page_num >= 1,
        ensures
            views(cards@) == bounty_cards(
                db@,
                bounty_unsubmitted_for(user_id),
                page_size,
                page_num,
            ),
    {
        let wanted = |b: &Bounty| -> (r: bool)
            ensures
                r == listed(db@, bounty_unsubmitted_for(user_id))(b@),
            { !b.submitted && b.user_id == user_id && has_seller(db, b) };
        list_bounties(db, wanted, Ghost(listed(db@, bounty_unsubmitted_for(user_id))), page_size, page_num)
    }

    /// One page of the seller's bounties that wait for inspection, the newest
    /// first.
    pub fn all_pending_for_user(db: &Store, user_id: i32, page_size: u32, page_num: u32) -> (cards:
        Vec<BountyCard>)
        requires
            page_num >= 1,
        ensures
            views(cards@) == bounty_cards(db@, bounty_pending_for(user_id), page_size, page_num),
    {
        let wanted = |b: &Bounty| -> (r: bool)
            ensures
                r == listed(db@, bounty_pending_for(user_id))(b@),
            { b.submitted && !b.viewed && b.user_id == user_id && has_seller(db, b) };
        list_bounties(db, wanted, Ghost(listed(db@, bounty_pending_for(user_id))), page_size, page_num)
    }

    /// One page of the seller's bounties that are neither approved nor
    /// inspected, the newest first.
    pub fn all_rejected_for_user(db: &Store, user_id: i32, page_size: u32, page_num: u32) -> (cards:
        Vec<BountyCard>)
        requires
            page_num >= 1,
        ensures
            views(cards@) == bounty_cards(db@, bounty_rejected_for(user_id), page_size, page_num),
    {
        let wanted = |b: &Bounty| -> (r: bool)
            ensures
                r == listed(db@, bounty_rejected_for(user_id))(b@),
            { !b.approved && !b.viewed && b.user_id == user_id && has_seller(db, b) };
        list_bounties(db, wanted, Ghost(listed(db@, bounty_rejected_for(user_id))), page_size, page_num)
    }

    /// One page of the seller's deactivated bounties, the newest first.
    pub fn all_deactivated_for_user(db: &Store, user_id: i32, page_size: u32, page_num: u32) -> (cards:
        Vec<BountyCard>)
        requires
            page_num >= 1,
        ensures
            views(cards@) == bounty_cards(
                db@,
                bounty_deactivated_for(user_id),
                page_size,
                page_num,
            ),
    {
        let wanted = |b: &Bounty| -> (r: bool)
            ensures
                r == listed(db@, bounty_deactivated_for(user_id))(b@),
            { b.approved && is_deactivated(b) && b.user_id == user_id && has_seller(db, b) };
        list_bounties(db, wanted, Ghost(listed(db@, bounty_deactivated_for(user_id))), page_size, page_num)
    }

    /// One page of the seller's bounties on offer, the newest first.
    pub fn all_active_for_user(db: &Store, user_id: i32, page_size: u32, page_num: u32) -> (cards:
        Vec<BountyCard>)
        requires
            page_num >= 1,
        ensures
            views(cards@) == bounty_cards(db@, bounty_active_for(user_id), page_size, page_num),
    {
        let wanted = |b: &Bounty| -> (r: bool)
            ensures
                r == listed(db@, bounty_active_for(user_id))(b@),
            { b.approved && b.viewed && !is_deactivated(b) && b.user_id == user_id && has_seller(db, b) };
        list_bounties(db, wanted, Ghost(listed(db@, bounty_active_for(user_id))), page_size, page_num)
    }
}

/// The picture with its bytes as base64 text.
pub fn image_to_display(image: &BountyImage) -> (shown: BountyImageDisplay)
    ensures
        shown@ == image_display(image@),
{
    BountyImageDisplay {
        id: image.id,
        public_id: image.public_id.clone(),
        bounty_id: image.bounty_id,
        image_data_base64: to_base64(&image.image_data),
        is_primary: image.is_primary,
    }
}

/// The cards with their pictures' bytes as base64 text.
fn cards_to_display(cards: &Vec<BountyCard>) -> (shown: Vec<BountyCardDisplay>)
    ensures
        views(shown@) == views(cards@).map_values(|c: BountyCardView| card_display(c)),
{
    let mut shown: Vec<BountyCardDisplay> = Vec::new();
    assert(views(shown@) =~= Seq::<BountyCardDisplayView>::empty());
    let all = |c: &BountyCard| -> (b: bool)
        ensures
            b == true,
        { true };
    let make = |c: &BountyCard| -> (d: BountyCardDisplay)
        ensures
            d@ == card_display(c@),
        { BountyCardDisplay::bounty_card_to_display(c) };
    append_where(
        &mut shown,
        cards,
        all,
        make,
        Ghost(|c: BountyCardView| true),
        Ghost(|c: BountyCardView| card_display(c)),
        Ghost(|c: BountyCardView| true),
    );
    proof {
        lemma_filter_all(views(cards@));
    }
    shown
}

impl BountyCardDisplay {
    /// The card with its picture's bytes as base64 text.
    pub fn bounty_card_to_display(card: &BountyCard) -> (shown: BountyCardDisplay)
        ensures
            shown@ == card_display(card@),
    {
        BountyCardDisplay {
            bounty: card.bounty.clone(),
            image: match &card.image {
                Some(image) => Some(image_to_display(image)),
                None => None,
            },
            user: card.user.clone(),
        }
    }

    /// One page of the bounties on offer, the newest first, with the
    /// pictures as base64 text.
    pub fn all_active(db: &Store, page_size: u32, page_num: u32) -> (cards: Vec<
        BountyCardDisplay,
    >)
        requires
            page_num >= 1,
        ensures
            views(cards@) == bounty_cards(db@, bounty_active(db@), page_size, page_num).map_values(
                |c: BountyCardView| card_display(c),
            ),
    {
        cards_to_display(&BountyCard::all_active(db, page_size, page_num))
    }

    /// One page of the deactivated bounties, the newest first, with the
    /// pictures as base64 text.
    pub fn all_deactivated(db: &Store, page_size: u32, page_num: u32) -> (cards: Vec<
        BountyCardDisplay,
    >)
        requires
            page_num >= 1,
        ensures
            views(cards@) == bounty_cards(db@, bounty_deactivated(), page_size, page_num).map_values(
                |c: BountyCardView| card_display(c),
            ),
    {
        cards_to_display(&BountyCard::all_deactivated(db, page_size, page_num))
    }

    /// One page of the bounties that wait for inspection, the newest first, with
    /// the pictures as base64 text.
    pub fn all_pending(db: &Store, page_size: u32, page_num: u32) -> (cards: Vec<
        BountyCardDisplay,
    >)
        requires
            page_num >= 1,
        ensures
            views(cards@) == bounty_cards(db@, bounty_pending(), page_size, page_num).map_values(
                |c: BountyCardView| card_display(c),
            ),
    {
        cards_to_display(&BountyCard::all_pending(db, page_size, page_num))
    }

    /// One page of the seller's bounties that are not submitted, the newest
    /// first, with the pictures as base64 text.
    pub fn all_unsubmitted_for_user(db: &Store, user_id: i32, page_size: u32, page_num: u32) -> (cards:
        Vec<BountyCardDisplay>)
        requires
            page_num >= 1,
        ensures
            views(cards@) == bounty_cards(
                db@,
                bounty_unsubmitted_for(user_id),
                page_size,
                page_num,
            ).map_values(|c: BountyCardView| card_display(c)),
    {
        cards_to_display(&BountyCard::all_unsubmitted_for_user(db, user_id, page_size, page_num))
    }

    /// One page of the seller's bounties that wait for inspection, the newest
    /// first, with the pictures as base64 text.
    pub fn all_pending_for_user(db: &Store, user_id: i32, page_size: u32, page_num: u32) -> (cards:
        Vec<BountyCardDisplay>)
        requires
            page_num >= 1,
        ensures
            views(cards@) == bounty_cards(
                db@,
                bounty_pending_for(user_id),
                page_size,
                page_num,
            ).map_values(|c: BountyCardView| card_display(c)),
    {
        cards_to_display(&BountyCard::all_pending_for_user(db, user_id, page_size, page_num))
    }

    /// One page of the seller's bounties that are neither approved nor
    /// inspected, the newest first, with the pictures as base64 text.
    pub fn all_rejected_for_user(db: &Store, user_id: i32, page_size: u32, page_num: u32) -> (cards:
        Vec<BountyCardDisplay>)
        requires
            page_num >= 1,
        ensures
            views(cards@) == bounty_cards(
                db@,
                bounty_rejected_for(user_id),
                page_size,
                page_num,
            ).map_values(|c: BountyCardView| card_display(c)),
    {
        cards_to_display(&BountyCard::all_rejected_for_user(db, user_id, page_size, page_num))
    }

    /// One page of the seller's deactivated bounties, the newest first, with
    /// the pictures as base64 text.
    pub fn all_deactivated_for_user(db: &Store, user_id: i32, page_size: u32, page_num: u32) -> (cards:
        Vec<BountyCardDisplay>)
        requires
            page_num >= 1,
        ensures
            views(cards@) == bounty_cards(
                db@,
                bounty_deactivated_for(user_id),
                page_size,
                page_num,
            ).map_values(|c: BountyCardView| card_display(c)),
    {
        cards_to_display(&BountyCard::all_deactivated_for_user(db, user_id, page_size, page_num))
    }

    /// One page of the seller's bounties on offer, the newest first, with the
    /// pictures as base64 text.
    pub fn all_active_for_user(db: &Store, user_id: i32, page_size: u32, page_num: u32) -> (cards:
        Vec<BountyCardDisplay>)
        requires
            page_num >= 1,
        ensures
            views(cards@) == bounty_cards(
                db@,
                bounty_active_for(user_id),
                page_size,
                page_num,
            ).map_values(|c: BountyCardView| card_display(c)),
    {
        cards_to_display(&BountyCard::all_active_for_user(db, user_id, page_size, page_num))
    }
}

impl BountyCardDisplay {
    /// One page of the bounties on offer whose title or description holds
    /// `search_text`, the newest first, with the pictures as base64 text.
    pub fn all_active_for_search_text(
        db: &Store,
        search_text: &str,
        page_size: u32,
        page_num: u32,
    ) -> (cards: Vec<BountyCardDisplay>)
        requires
            page_num >= 1,
        ensures
            views(cards@) == bounty_cards(
                db@,
                bounty_found(db@, search_text@),
                page_size,
                page_num,
            ).map_values(|c: BountyCardView| card_display(c)),
    {
        cards_to_display(
            &BountyCard::all_active_for_search_text(db, search_text, page_size, page_num),
        )
    }
}

impl BountyDisplay {
    /// The first bounty with the public identifier `public_id`, with all its
    /// pictures as base64 text, the primary ones first, and its seller if
    /// there is one.
    pub fn single_by_public_id(db: &Store, public_id: &str) -> (r: Result<
        BountyDisplay,
        LedgerError,
    >)
        ensures
            match first(db@.bounties, bounty_with_public_id(public_id@)) {
                Some(b) => match b.id {
                    Some(id) => r is Ok && r->Ok_0@ == (BountyDisplayView {
                        bounty: b,
                        images: sorted_desc(
                            db@.bounty_images.filter(image_of(id)),
                            image_rank(),
                        ).map_values(|i: BountyImageView| image_display(i)),
                        user: shown_user(db@.users, b.user_id),
                    }),
                    None => r == Err::<BountyDisplay, LedgerError>(LedgerError::RowNotFound),
                },
                None => r == Err::<BountyDisplay, LedgerError>(LedgerError::RowNotFound),
            },
    {
        let bounty = match Bounty::single_by_public_id(db, public_id) {
            Ok(bounty) => bounty,
            Err(_) => { return Err(LedgerError::RowNotFound); },
        };
        let bounty_id: i32 = match bounty.id {
            Some(id) => id,
            None => { return Err(LedgerError::RowNotFound); },
        };
        let images = BountyImage::all_for_bounty(db, bounty_id);
        let mut image_displays: Vec<BountyImageDisplay> = Vec::new();
        assert(views(image_displays@) =~= Seq::<BountyImageDisplayView>::empty());
        let all = |i: &BountyImage| -> (b: bool)
            ensures
                b == true,
            { true };
        let make = |i: &BountyImage| -> (d: BountyImageDisplay)
            ensures
                d@ == image_display(i@),
            { image_to_display(i) };
        append_where(
            &mut image_displays,
            &images,
            all,
            make,
            Ghost(|i: BountyImageView| true),
            Ghost(|i: BountyImageView| image_display(i)),
            Ghost(|i: BountyImageView| true),
        );
        proof {
            lemma_filter_all(views(images@));
        }
        let rocket_auth_user = user_shown(db, bounty.user_id);
        Ok(BountyDisplay { bounty, images: image_displays, user: rocket_auth_user })
    }
}

/// The unpaid orders of the buyer `user_id`.
pub open spec fn case_unpaid_for(user_id: i32) -> spec_fn(CaseView) -> bool {
    |c: CaseView| !c.paid && c.buyer_user_id == user_id
}

/// The paid orders of the buyer `user_id`.
pub open spec fn case_paid_for(user_id: i32) -> spec_fn(CaseView) -> bool {
    |c: CaseView| c.paid && c.buyer_user_id == user_id
}

/// The awarded orders of the seller `user_id`.
pub open spec fn case_received_for(user_id: i32) -> spec_fn(CaseView) -> bool {
    |c: CaseView| c.awarded && c.seller_user_id == user_id
}

/// The paid orders of the seller `user_id` that are not yet closed.
pub open spec fn case_waiting_for(user_id: i32) -> spec_fn(CaseView) -> bool {
    |c: CaseView| c.paid && !c.closed() && c.seller_user_id == user_id
}

/// The time at which an order was opened.
pub open spec fn case_card_created() -> spec_fn(CaseCardView) -> int {
    |c: CaseCardView| c.case.created_time_ms as int
}

/// The time at which an order was paid.
pub open spec fn case_card_paid() -> spec_fn(CaseCardView) -> int {
    |c: CaseCardView| c.case.payment_time_ms as int
}

/// The page `page_num` of the cards of the orders that `wanted` selects, by
/// falling `time`.
pub open spec fn case_cards(
    db: StoreModel,
    wanted: spec_fn(CaseView) -> bool,
    time: spec_fn(CaseCardView) -> int,
    page_size: u32,
    page_num: u32,
) -> Seq<CaseCardView> {
    page(
        sorted_desc(
            db.cases.filter(wanted).map_values(|c: CaseView| case_card(db, c)),
            time,
        ),
        page_size,
        page_num,
    )
}

/// The card of the order.
fn case_card_of(db: &Store, case: &Case) -> (card: CaseCard)
    ensures
        card@ == case_card(db@, case@),
{
    let bounty = match Bounty::single(db, case.bounty_id) {
        Ok(b) => Some(b),
        Err(_) => None,
    };
    let image = match &bounty {
        Some(b) => cover_of(db, b.id),
        None => None,
    };
    let user = match &bounty {
        Some(b) => user_shown(db, b.user_id),
        None => None,
    };
    CaseCard { case: case.clone(), bounty, image, user }
}

/// The page of cards of the orders that `wanted` accepts, by falling `time`.
fn list_cases<F: Fn(&Case) -> bool, K: Fn(&CaseCard) -> u64>(
    db: &Store,
    wanted: F,
    time: K,
    Ghost(hit): Ghost<spec_fn(CaseView) -> bool>,
    Ghost(rank): Ghost<spec_fn(CaseCardView) -> int>,
    page_size: u32,
    page_num: u32,
) -> (cards: Vec<CaseCard>)
    requires
        page_num >= 1,
        forall|c: &Case| #[trigger] wanted.requires((c,)),
        forall|c: &Case, r: bool| #[trigger] wanted.ensures((c,), r) ==> r == hit(c@),
        forall|c: &CaseCard| #[trigger] time.requires((c,)),
        forall|c: &CaseCard, k: u64| #[trigger] time.ensures((c,), k) ==> k == rank(c@),
    ensures
        views(cards@) == case_cards(db@, hit, rank, page_size, page_num),
{
    let mut cards: Vec<CaseCard> = Vec::new();
    assert(views(cards@) =~= Seq::<CaseCardView>::empty());
    let make = |c: &Case| -> (card: CaseCard)
        ensures
            card@ == case_card(db@, c@),
        { case_card_of(db, c) };
    append_where(
        &mut cards,
        &db.cases,
        wanted,
        make,
        Ghost(hit),
        Ghost(|c: CaseView| case_card(db@, c)),
        Ghost(|c: CaseView| true),
    );
    let sorted = sort_desc(cards, time, Ghost(rank));
    take_page(sorted, page_size, page_num)
}

impl CaseCard {
    /// One page of the buyer's unpaid orders, the newest first.
    pub fn all_unpaid_for_user(db: &Store, user_id: i32, page_size: u32, page_num: u32) -> (cards:
        Vec<CaseCard>)
        requires
            page_num >= 1,
        ensures
            views(cards@) == case_cards(
                db@,
                case_unpaid_for(user_id),
                case_card_created(),
                page_size,
                page_num,
            ),
    {
        let wanted = |c: &Case| -> (r: bool)
            ensures
                r == case_unpaid_for(user_id)(c@),
            { !c.paid && c.buyer_user_id == user_id };
        let time = |c: &CaseCard| -> (t: u64)
            ensures
                t == case_card_created()(c@),
            { c.case.created_time_ms };
        list_cases(
            db,
            wanted,
            time,
            Ghost(case_unpaid_for(user_id)),
            Ghost(case_card_created()),
            page_size,
            page_num,
        )
    }

    /// One page of the buyer's paid orders, the last paid first.
    pub fn all_paid_for_user(db: &Store, user_id: i32, page_size: u32, page_num: u32) -> (cards:
        Vec<CaseCard>)
        requires
            page_num >= 1,
        ensures
            views(cards@) == case_cards(
                db@,
                case_paid_for(user_id),
                case_card_paid(),
                page_size,
                page_num,
            ),
    {
        let wanted = |c: &Case| -> (r: bool)
            ensures
                r == case_paid_for(user_id)(c@),
            { c.paid && c.buyer_user_id == user_id };
        let time = |c: &CaseCard| -> (t: u64)
            ensures
                t == case_card_paid()(c@),
            { c.case.payment_time_ms };
        list_cases(
            db,
            wanted,
            time,
            Ghost(case_paid_for(user_id)),
            Ghost(case_card_paid()),
            page_size,
            page_num,
        )
    }

    /// One page of the orders awarded to the seller, the last paid first.
    pub fn all_received_for_user(db: &Store, user_id: i32, page_size: u32, page_num: u32) -> (cards:
        Vec<CaseCard>)
        requires
            page_num >= 1,
        ensures
            views(cards@) == case_cards(
                db@,
                case_received_for(user_id),
                case_card_paid(),
                page_size,
                page_num,
            ),
    {
        let wanted = |c: &Case| -> (r: bool)
            ensures
                r == case_received_for(user_id)(c@),
            { c.awarded && c.seller_user_id == user_id };
        let time = |c: &CaseCard| -> (t: u64)
            ensures
                t == case_card_paid()(c@),
            { c.case.payment_time_ms };
        list_cases(
            db,
            wanted,
            time,
            Ghost(case_received_for(user_id)),
            Ghost(case_card_paid()),
            page_size,
            page_num,
        )
    }

    /// One page of the paid orders that wait for the seller to award or
    /// cancel them, the last paid first.
    pub fn all_processing_for_user(db: &Store, user_id: i32, page_size: u32, page_num: u32) -> (cards:
        Vec<CaseCard>)
        requires
            page_num >= 1,
        ensures
            views(cards@) == case_cards(
                db@,
                case_waiting_for(user_id),
                case_card_paid(),
                page_size,
                page_num,
            ),
    {
        let wanted = |c: &Case| -> (r: bool)
            ensures
                r == case_waiting_for(user_id)(c@),
            { c.paid && !is_closed(c) && c.seller_user_id == user_id };
        let time = |c: &CaseCard| -> (t: u64)
            ensures
                t == case_card_paid()(c@),
            { c.case.payment_time_ms };
        list_cases(
            db,
            wanted,
            time,
            Ghost(case_waiting_for(user_id)),
            Ghost(case_card_paid()),
            page_size,
            page_num,
        )
    }
}

/// The paid activations of the user `user_id` that are disabled, or not, as
/// `disabled` says.
pub open spec fn account_shown_of(user_id: i32, disabled: bool) -> spec_fn(UserAccountView) -> bool {
    |a: UserAccountView| a.user_id == user_id && a.paid && a.disabled == disabled
}

/// The users with a paid activation that is disabled, or not, as `disabled`
/// says.
pub open spec fn user_shown_with(db: StoreModel, disabled: bool) -> spec_fn(UserView) -> bool {
    |u: UserView|
        u.id is Some && first(db.user_accounts, account_shown_of(u.id.unwrap(), disabled))
            is Some
}

/// An activation that no row stands for.
pub open spec fn no_account() -> UserAccountView {
    UserAccountView {
        id: None,
        public_id: Seq::empty(),
        user_id: 0,
        amount_owed_sat: 0,
        paid: false,
        disabled: false,
        invoice_hash: Seq::empty(),
        invoice_payment_request: Seq::empty(),
        created_time_ms: 0,
        payment_time_ms: 0,
    }
}

/// The card of the user `u`: the user with the user's first paid activation
/// that is disabled, or not, as `disabled` says.
pub open spec fn user_card(db: StoreModel, u: UserView, disabled: bool) -> UserCardView {
    UserCardView {
        user: as_auth_user(u),
        user_account: match u.id {
            Some(id) => match first(db.user_accounts, account_shown_of(id, disabled)) {
                Some(a) => a,
                None => no_account(),
            },
            None => no_account(),
        },
    }
}

/// The time by which users are listed: when the activation was opened.
pub open spec fn user_card_time() -> spec_fn(UserCardView) -> int {
    |c: UserCardView| c.user_account.created_time_ms as int
}

/// The page `page_num` of the cards of the users with a paid activation that
/// is disabled, or not, as `disabled` says; the newest activation first.
pub open spec fn user_cards(db: StoreModel, disabled: bool, page_size: u32, page_num: u32) -> Seq<
    UserCardView,
> {
    page(
        sorted_desc(
            db.users.filter(user_shown_with(db, disabled)).map_values(
                |u: UserView| user_card(db, u, disabled),
            ),
            user_card_time(),
        ),
        page_size,
        page_num,
    )
}

/// The user's first paid activation that is disabled, or not.
fn account_shown(db: &Store, user_id: Option<i32>, disabled: bool) -> (account: Option<
    UserAccount,
>)
    ensures
        match user_id {
            Some(id) => match first(db@.user_accounts, account_shown_of(id, disabled)) {
                Some(a) => account is Some && account->Some_0@ == a,
                None => account is None,
            },
            None => account is None,
        },
{
    match user_id {
        Some(id) => {
            let test = |a: &UserAccount| -> (b: bool)
                ensures
                    b == account_shown_of(id, disabled)(a@),
                { a.user_id == id && a.paid && a.disabled == disabled };
            match position_where(&db.user_accounts, test, Ghost(account_shown_of(id, disabled))) {
                Some(i) => Some(db.user_accounts[i].clone()),
                None => None,
            }
        },
        None => None,
    }
}

/// The page of cards of the users with a paid activation that is disabled,
/// or not.
fn list_users(db: &Store, disabled: bool, page_size: u32, page_num: u32) -> (cards: Vec<UserCard>)
    requires
        page_num >= 1,
    ensures
        views(cards@) == user_cards(db@, disabled, page_size, page_num),
{
    let mut cards: Vec<UserCard> = Vec::new();
    assert(views(cards@) =~= Seq::<UserCardView>::empty());
    let test = |u: &User| -> (b: bool)
        ensures
            b == user_shown_with(db@, disabled)(u@),
        { account_shown(db, u.id, disabled).is_some() };
    let make = |u: &User| -> (c: UserCard)
        ensures
            c@ == user_card(db@, u@, disabled),
        {
            UserCard {
                user: RocketAuthUser { id: u.id, username: u.username.clone() },
                user_account: match account_shown(db, u.id, disabled) {
                    Some(a) => a,
                    None => UserAccount {
                        id: None,
                        public_id: String::new(),
                        user_id: 0,
                        amount_owed_sat: 0,
                        paid: false,
                        disabled: false,
                        invoice_hash: String::new(),
                        invoice_payment_request: String::new(),
                        created_time_ms: 0,
                        payment_time_ms: 0,
                    },
                },
            }
        };
    append_where(
        &mut cards,
        &db.users,
        test,
        make,
        Ghost(user_shown_with(db@, disabled)),
        Ghost(|u: UserView| user_card(db@, u, disabled)),
        Ghost(|u: UserView| true),
    );
    let time = |c: &UserCard| -> (t: u64)
        ensures
            t == user_card_time()(c@),
        { c.user_account.created_time_ms };
    let sorted = sort_desc(cards, time, Ghost(user_card_time()));
    take_page(sorted, page_size, page_num)
}

impl UserCard {
    /// One page of the users whose paid activation is not disabled, the
    /// newest activation first.
    pub fn all_active(db: &Store, page_size: u32, page_num: u32) -> (cards: Vec<UserCard>)
        requires
            page_num >= 1,
        ensures
            views(cards@) == user_cards(db@, false, page_size, page_num),
    {
        list_users(db, false, page_size, page_num)
    }

    /// One page of the users whose paid activation is disabled, the newest
    /// activation first.
    pub fn all_disabled(db: &Store, page_size: u32, page_num: u32) -> (cards: Vec<UserCard>)
        requires
            page_num >= 1,
        ensures
            views(cards@) == user_cards(db@, true, page_size, page_num),
    {
        list_users(db, true, page_size, page_num)
    }
}

/// What the order `c` adds to what the seller `user_id` has sold: the amount
/// that the buyer owed, once the order is awarded.
pub open spec fn sold(c: CaseView, user_id: i32) -> int {
    if c.awarded && c.seller_user_id == user_id {
        c.amount_owed_sat as int
    } else {
        0
    }
}

/// What the seller `user_id` has sold in all.
pub open spec fn total_sold(db: StoreModel, user_id: i32) -> int {
    sum(db.cases, |c: CaseView| sold(c, user_id))
}

/// What the seller has sold in all, computed.
fn total_sold_of(db: &Store, user_id: i32) -> (total: i128)
    requires
        db.wf(),
    ensures
        total == total_sold(db@, user_id),
        total >= 0,
{
    proof {
        lemma_keyed_len(db@.cases, |c: CaseView| c.id, db@.next_case_id);
        assert(db.cases@.len() == db@.cases.len());
        lemma_sum_nonnegative(db@.cases, |c: CaseView| sold(c, user_id));
    }
    let of_case = |c: &Case| -> (a: i128)
        ensures
            a == sold(c@, user_id),
        {
            if c.awarded && c.seller_user_id == user_id {
                c.amount_owed_sat as i128
            } else {
                0
            }
        };
    sum_where(&db.cases, of_case, Ghost(|c: CaseView| sold(c, user_id)))
}

/// A sum of amounts that are not negative is not negative.
pub proof fn lemma_sum_nonnegative<V>(rows: Seq<V>, amount: spec_fn(V) -> int)
    requires
        forall|v: V| #[trigger] amount(v) >= 0,
    ensures
        sum(rows, amount) >= 0,
    decreases rows.len(),
{
    if rows.len() > 0 {
        lemma_sum_nonnegative(rows.drop_last(), amount);
    }
}

/// The users who have sold something, where every seller's total fits in 64
/// bits.
pub open spec fn user_has_sold(db: StoreModel) -> spec_fn(UserView) -> bool {
    |u: UserView| u.id is Some && total_sold(db, u.id.unwrap()) > 0
}

/// What the user `u` has sold, with the user's name.
pub open spec fn seller_info(db: StoreModel, u: UserView) -> SellerInfoView {
    SellerInfoView {
        username: u.username,
        total_amount_sold_sat: match u.id {
            Some(id) => total_sold(db, id) as u64,
            None => 0,
        },
    }
}

/// The total by which sellers are listed.
pub open spec fn seller_rank() -> spec_fn(SellerInfoView) -> int {
    |s: SellerInfoView| s.total_amount_sold_sat as int
}

/// Whether what each user has sold fits in a table.
pub open spec fn totals_fit(db: StoreModel) -> bool {
    forall|i: int|
        0 <= i < db.users.len() && (#[trigger] db.users[i]).id is Some ==> total_sold(
            db,
            db.users[i].id.unwrap(),
        ) <= i64::MAX
}

impl Case {
    /// What the seller `user_id` has sold in all: the amounts that the buyers
    /// owed for the orders awarded to the seller. The name is left empty. An
    /// error where the total does not fit in 64 bits.
    pub fn seller_info_for_user(db: &Store, user_id: i32) -> (r: Result<SellerInfo, LedgerError>)
        requires
            db.wf(),
        ensures
            match as_amount(total_sold(db@, user_id)) {
                Ok(total) => r is Ok && r->Ok_0@ == (SellerInfoView {
                    username: Seq::empty(),
                    total_amount_sold_sat: total as u64,
                }),
                Err(e) => r == Err::<SellerInfo, LedgerError>(e),
            },
    {
        let total: i128 = total_sold_of(db, user_id);
        if total > i64::MAX as i128 {
            Err(LedgerError::BalanceOverflow)
        } else {
            Ok(SellerInfo { username: String::new(), total_amount_sold_sat: total as u64 })
        }
    }

    /// One page of the users who have sold something, with what each has
    /// sold, the largest total first. An error where a user's total does not
    /// fit in 64 bits.
    pub fn seller_info_for_all_users(db: &Store, page_size: u32, page_num: u32) -> (r: Result<
        Vec<SellerInfo>,
        LedgerError,
    >)
        requires
            db.wf(),
            page_num >= 1,
        ensures
            match r {
                Ok(sellers) => totals_fit(db@) && views(sellers@) == page(
                    sorted_desc(
                        db@.users.filter(user_has_sold(db@)).map_values(
                            |u: UserView| seller_info(db@, u),
                        ),
                        seller_rank(),
                    ),
                    page_size,
                    page_num,
                ),
                Err(e) => e == LedgerError::BalanceOverflow && !totals_fit(db@),
            },
    {
        let mut i: usize = 0;
        assert(db.users@.len() == db@.users.len());
        while i < db.users.len()
            invariant
                i <= db.users.len(),
                db.wf(),
                db.users@.len() == db@.users.len(),
                forall|k: int|
                    0 <= k < i && (#[trigger] db@.users[k]).id is Some ==> total_sold(
                        db@,
                        db@.users[k].id.unwrap(),
                    ) <= i64::MAX,
            decreases db.users.len() - i,
        {
            match db.users[i].id {
                Some(id) => {
                    if total_sold_of(db, id) > i64::MAX as i128 {
                        proof {
                            let u = db@.users[i as int];
                            assert(u.id == Some(id));
                            assert(total_sold(db@, u.id.unwrap()) > i64::MAX);
                        }
                        return Err(LedgerError::BalanceOverflow);
                    }
                },
                None => {},
            }
            i = i + 1;
        }
        let mut sellers: Vec<SellerInfo> = Vec::new();
        assert(views(sellers@) =~= Seq::<SellerInfoView>::empty());
        let test = |u: &User| -> (b: bool)
            requires
                db.wf(),
            ensures
                b == user_has_sold(db@)(u@),
            {
                match u.id {
                    Some(id) => total_sold_of(db, id) > 0,
                    None => false,
                }
            };
        let make = |u: &User| -> (s: SellerInfo)
            requires
                db.wf(),
                u@.id is Some ==> total_sold(db@, u@.id.unwrap()) <= i64::MAX,
            ensures
                s@ == seller_info(db@, u@),
            {
                SellerInfo {
                    username: u.username.clone(),
                    total_amount_sold_sat: match u.id {
                        Some(id) => total_sold_of(db, id) as u64,
                        None => 0,
                    },
                }
            };
        append_where(
            &mut sellers,
            &db.users,
            test,
            make,
            Ghost(user_has_sold(db@)),
            Ghost(|u: UserView| seller_info(db@, u)),
            Ghost(|u: UserView| u.id is Some ==> total_sold(db@, u.id.unwrap()) <= i64::MAX),
        );
        let rank = |s: &SellerInfo| -> (k: u64)
            ensures
                k == seller_rank()(s@),
            { s.total_amount_sold_sat };
        let sorted = sort_desc(sellers, rank, Ghost(seller_rank()));
        Ok(take_page(sorted, page_size, page_num))
    }
}

} // verus!
