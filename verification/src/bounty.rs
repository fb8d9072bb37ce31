//! Bounties and their pictures: the tables, and what sellers and
//! administrators may do with a bounty.
//!
//! A bounty is opened by its seller, submitted for inspection, and approved or
//! rejected by an administrator. An approved bounty can be deactivated by its
//! seller or by an administrator. Pictures can be changed until the bounty is
//! submitted.

use crate::error::LedgerError;
use crate::models::{
    Bounty, BountyImage, BountyImageView, BountyView, InitialBountyInfo, InitialBountyInfoView,
};
use crate::settings::fee_rate_of;
use crate::store::{MAX_STORED, Store, StoreModel};
use crate::table::{
    count, count_where, first, is_key, lemma_filter_embeds, lemma_keyed_len, lemma_keyed_push,
    lemma_keyed_updated, lemma_keyed_without, position_where, remove_where, select_where, sort_desc,
    sorted_desc, update_where, updated, views, without,
};
use crate::util::{create_uuid, current_time_millis, is_uuid_text};
use vstd::prelude::*;
use vstd::utf8::encode_utf8;

verus! {

/// How many bounties a seller may have that are not approved.
pub const MAX_UNAPPROVED_BOUNTIES: u32 = 5;

/// How many pictures a bounty may have.
pub const MAX_IMAGES: usize = 5;

/// The longest title, in bytes.
pub const MAX_TITLE_LENGTH: usize = 64;

/// The longest description, in bytes.
pub const MAX_DESCRIPTION_LENGTH: usize = 4096;

impl BountyView {
    /// The bounty with the key `id`.
    pub open spec fn with_id(self, id: i32) -> BountyView {
        BountyView { id: Some(id), ..self }
    }

    /// Whether the bounty is deactivated, by its seller or an administrator.
    pub open spec fn deactivated(self) -> bool {
        self.deactivated_by_seller || self.deactivated_by_admin
    }
}

impl BountyImageView {
    /// The picture with the key `id`.
    pub open spec fn with_id(self, id: i32) -> BountyImageView {
        BountyImageView { id: Some(id), ..self }
    }
}

/// The bounty with the key `id`.
pub open spec fn bounty_with_id(id: i32) -> spec_fn(BountyView) -> bool {
    |b: BountyView| b.id == Some(id)
}

/// The bounties with the public identifier `public_id`.
pub open spec fn bounty_with_public_id(public_id: Seq<char>) -> spec_fn(BountyView) -> bool {
    |b: BountyView| b.public_id == public_id
}

/// The bounties of the seller `user_id` that are not approved.
pub open spec fn bounty_unapproved_of(user_id: i32) -> spec_fn(BountyView) -> bool {
    |b: BountyView| b.user_id == user_id && !b.approved
}

/// The bounties that wait for inspection.
pub open spec fn bounty_pending() -> spec_fn(BountyView) -> bool {
    |b: BountyView| b.submitted && !b.viewed
}

/// The bounties with the public identifier `public_id` that can be
/// deactivated: approved and not yet deactivated.
pub open spec fn bounty_live_with_public_id(public_id: Seq<char>) -> spec_fn(BountyView) -> bool {
    |b: BountyView| b.public_id == public_id && b.approved && !b.deactivated()
}

/// The pictures of the bounty `bounty_id`.
pub open spec fn image_of(bounty_id: i32) -> spec_fn(BountyImageView) -> bool {
    |i: BountyImageView| i.bounty_id == bounty_id
}

/// The pictures with the public identifier `public_id`.
pub open spec fn image_with_public_id(public_id: Seq<char>) -> spec_fn(BountyImageView) -> bool {
    |i: BountyImageView| i.public_id == public_id
}

/// The rank by which a bounty's pictures are listed: the primary one first.
pub open spec fn image_rank() -> spec_fn(BountyImageView) -> int {
    |i: BountyImageView|
        if i.is_primary {
            1
        } else {
            0
        }
}

/// Whether a bounty is deactivated.
pub fn is_deactivated(bounty: &Bounty) -> (b: bool)
    ensures
        b == bounty@.deactivated(),
{
    bounty.deactivated_by_seller || bounty.deactivated_by_admin
}

impl Bounty {
    /// What [`Bounty::insert`] answers: the key of the new row, unless the
    /// table is full or the seller, the new bounty counted, would have more
    /// than `max_unapproved_bounties` bounties that are not approved.
    pub open spec fn insert_result(
        db: StoreModel,
        bounty: BountyView,
        max_unapproved_bounties: u32,
    ) -> Result<i32, LedgerError> {
        if db.next_bounty_id == i32::MAX {
            Err(LedgerError::StoreFull)
        } else if count(
            db.bounties.push(bounty.with_id(db.next_bounty_id)),
            bounty_unapproved_of(bounty.user_id),
        ) > max_unapproved_bounties {
            Err(LedgerError::TooManyUnapprovedBounties)
        } else {
            Ok(db.next_bounty_id)
        }
    }

    /// Opens a bounty. The row gets the table's next key, whatever
    /// `bounty.id` holds. The seller's bounties that are not approved are
    /// counted with the new row among them, and the bounty is refused if they
    /// are more than `max_unapproved_bounties`.
    pub fn insert(bounty: Bounty, max_unapproved_bounties: u32, db: &mut Store) -> (r: Result<
        i32,
        LedgerError,
    >)
        requires
            old(db).wf(),
            bounty@.wf(),
        ensures
            final(db).wf(),
            r == Bounty::insert_result(old(db)@, bounty@, max_unapproved_bounties),
            match r {
                Ok(id) => final(db)@ == (StoreModel {
                    bounties: old(db)@.bounties.push(bounty@.with_id(id)),
                    next_bounty_id: (id + 1) as i32,
                    ..old(db)@
                }),
                Err(_) => final(db)@ == old(db)@,
            },
    {
        if db.next_bounty_id == i32::MAX {
            return Err(LedgerError::StoreFull);
        }
        let id: i32 = db.next_bounty_id;
        let user_id: i32 = bounty.user_id;
        let mut row = bounty;
        row.id = Some(id);
        let test = |b: &Bounty| -> (r: bool)
            ensures
                r == bounty_unapproved_of(user_id)(b@),
            { b.user_id == user_id && !b.approved };
        let others: usize = count_where(&db.bounties, test, Ghost(bounty_unapproved_of(user_id)));
        let own: usize = if row.approved {
            0
        } else {
            1
        };
        proof {
            db@.bounties.lemma_filter_push(row@, bounty_unapproved_of(user_id));
        }
        if others as u128 + own as u128 > max_unapproved_bounties as u128 {
            return Err(LedgerError::TooManyUnapprovedBounties);
        }
        proof {
            lemma_keyed_push(db@.bounties, |b: BountyView| b.id, db@.next_bounty_id, row@);
            assert(views(db.bounties@.push(row)) =~= db@.bounties.push(row@));
        }
        db.bounties.push(row);
        db.next_bounty_id = id + 1;
        Ok(id)
    }

    /// The bounty with the key `id`.
    pub fn single(db: &Store, id: i32) -> (r: Result<Bounty, LedgerError>)
        ensures
            match first(db@.bounties, bounty_with_id(id)) {
                Some(row) => r is Ok && r->Ok_0@ == row,
                None => r == Err::<Bounty, LedgerError>(LedgerError::RowNotFound),
            },
    {
        let test = |b: &Bounty| -> (r: bool)
            ensures
                r == bounty_with_id(id)(b@),
            { is_key(b.id, id) };
        match position_where(&db.bounties, test, Ghost(bounty_with_id(id))) {
            Some(i) => Ok(db.bounties[i].clone()),
            None => Err(LedgerError::RowNotFound),
        }
    }

    /// The first bounty with the public identifier `public_id`.
    pub fn single_by_public_id(db: &Store, public_id: &str) -> (r: Result<Bounty, LedgerError>)
        ensures
            match first(db@.bounties, bounty_with_public_id(public_id@)) {
                Some(row) => r is Ok && r->Ok_0@ == row,
                None => r == Err::<Bounty, LedgerError>(LedgerError::RowNotFound),
            },
    {
        let key = public_id.to_owned();
        let test = |b: &Bounty| -> (r: bool)
            ensures
                r == bounty_with_public_id(public_id@)(b@),
            { b.public_id == key };
        match position_where(&db.bounties, test, Ghost(bounty_with_public_id(public_id@))) {
            Some(i) => Ok(db.bounties[i].clone()),
            None => Err(LedgerError::RowNotFound),
        }
    }

    /// Marks the bounties with the public identifier `public_id` as submitted
    /// for inspection, and says how many they are.
    pub fn mark_as_submitted(db: &mut Store, public_id: &str) -> (changed: usize)
        requires
            old(db).wf(),
        ensures
            final(db).wf(),
            final(db)@ == (StoreModel {
                bounties: updated(
                    old(db)@.bounties,
                    bounty_with_public_id(public_id@),
                    |b: BountyView| BountyView { submitted: true, ..b },
                ),
                ..old(db)@
            }),
            changed == count(old(db)@.bounties, bounty_with_public_id(public_id@)),
    {
        let ghost hit = bounty_with_public_id(public_id@);
        let ghost to = |b: BountyView| BountyView { submitted: true, ..b };
        let key = public_id.to_owned();
        let test = |b: &Bounty| -> (r: bool)
            ensures
                r == bounty_with_public_id(public_id@)(b@),
            { b.public_id == key };
        let change = |b: &Bounty| -> (r: Bounty)
            ensures
                r@ == (BountyView { submitted: true, ..b@ }),
            {
                let mut row = b.clone();
                row.submitted = true;
                row
            };
        proof {
            lemma_keyed_updated(db@.bounties, |b: BountyView| b.id, db@.next_bounty_id, hit, to);
        }
        update_where(&mut db.bounties, test, change, Ghost(hit), Ghost(to))
    }

    /// Marks the bounties with the public identifier `public_id` as inspected
    /// and approved, and says how many they are.
    pub fn mark_as_approved(db: &mut Store, public_id: &str) -> (changed: usize)
        requires
            old(db).wf(),
        ensures
            final(db).wf(),
            final(db)@ == (StoreModel {
                bounties: updated(
                    old(db)@.bounties,
                    bounty_with_public_id(public_id@),
                    |b: BountyView| BountyView { viewed: true, approved: true, ..b },
                ),
                ..old(db)@
            }),
            changed == count(old(db)@.bounties, bounty_with_public_id(public_id@)),
    {
        let ghost hit = bounty_with_public_id(public_id@);
        let ghost to = |b: BountyView| BountyView { viewed: true, approved: true, ..b };
        let key = public_id.to_owned();
        let test = |b: &Bounty| -> (r: bool)
            ensures
                r == bounty_with_public_id(public_id@)(b@),
            { b.public_id == key };
        let change = |b: &Bounty| -> (r: Bounty)
            ensures
                r@ == (BountyView { viewed: true, approved: true, ..b@ }),
            {
                let mut row = b.clone();
                row.viewed = true;
                row.approved = true;
                row
            };
        proof {
            lemma_keyed_updated(db@.bounties, |b: BountyView| b.id, db@.next_bounty_id, hit, to);
        }
        update_where(&mut db.bounties, test, change, Ghost(hit), Ghost(to))
    }

    /// Marks the bounties with the public identifier `public_id` as inspected
    /// and not approved, and says how many they are.
    pub fn mark_as_rejected(db: &mut Store, public_id: &str) -> (changed: usize)
        requires
            old(db).wf(),
        ensures
            final(db).wf(),
            final(db)@ == (StoreModel {
                bounties: updated(
                    old(db)@.bounties,
                    bounty_with_public_id(public_id@),
                    |b: BountyView| BountyView { viewed: true, approved: false, ..b },
                ),
                ..old(db)@
            }),
            changed == count(old(db)@.bounties, bounty_with_public_id(public_id@)),
    {
        let ghost hit = bounty_with_public_id(public_id@);
        let ghost to = |b: BountyView| BountyView { viewed: true, approved: false, ..b };
        let key = public_id.to_owned();
        let test = |b: &Bounty| -> (r: bool)
            ensures
                r == bounty_with_public_id(public_id@)(b@),
            { b.public_id == key };
        let change = |b: &Bounty| -> (r: Bounty)
            ensures
                r@ == (BountyView { viewed: true, approved: false, ..b@ }),
            {
                let mut row = b.clone();
                row.viewed = true;
                row.approved = false;
                row
            };
        proof {
            lemma_keyed_updated(db@.bounties, |b: BountyView| b.id, db@.next_bounty_id, hit, to);
        }
        update_where(&mut db.bounties, test, change, Ghost(hit), Ghost(to))
    }

    /// Deactivates, for the seller, the bounties with the public identifier
    /// `public_id` that are approved and not yet deactivated, and says how
    /// many they are.
    pub fn mark_as_deactivated_by_seller(db: &mut Store, public_id: &str) -> (changed: usize)
        requires
            old(db).wf(),
        ensures
            final(db).wf(),
            final(db)@ == (StoreModel {
                bounties: updated(
                    old(db)@.bounties,
                    bounty_live_with_public_id(public_id@),
                    |b: BountyView| BountyView { deactivated_by_seller: true, ..b },
                ),
                ..old(db)@
            }),
            changed == count(old(db)@.bounties, bounty_live_with_public_id(public_id@)),
    {
        let ghost hit = bounty_live_with_public_id(public_id@);
        let ghost to = |b: BountyView| BountyView { deactivated_by_seller: true, ..b };
        let key = public_id.to_owned();
        let test = |b: &Bounty| -> (r: bool)
            ensures
                r == bounty_live_with_public_id(public_id@)(b@),
            { b.public_id == key && b.approved && !is_deactivated(b) };
        let change = |b: &Bounty| -> (r: Bounty)
            ensures
                r@ == (BountyView { deactivated_by_seller: true, ..b@ }),
            {
                let mut row = b.clone();
                row.deactivated_by_seller = true;
                row
            };
        proof {
            lemma_keyed_updated(db@.bounties, |b: BountyView| b.id, db@.next_bounty_id, hit, to);
        }
        update_where(&mut db.bounties, test, change, Ghost(hit), Ghost(to))
    }

    /// Deactivates, for an administrator, the bounties with the public
    /// identifier `public_id` that are approved and not yet deactivated, and
    /// says how many they are.
    pub fn mark_as_deactivated_by_admin(db: &mut Store, public_id: &str) -> (changed: usize)
        requires
            old(db).wf(),
        ensures
            final(db).wf(),
            final(db)@ == (StoreModel {
                bounties: updated(
                    old(db)@.bounties,
                    bounty_live_with_public_id(public_id@),
                    |b: BountyView| BountyView { deactivated_by_admin: true, ..b },
                ),
                ..old(db)@
            }),
            changed == count(old(db)@.bounties, bounty_live_with_public_id(public_id@)),
    {
        let ghost hit = bounty_live_with_public_id(public_id@);
        let ghost to = |b: BountyView| BountyView { deactivated_by_admin: true, ..b };
        let key = public_id.to_owned();
        let test = |b: &Bounty| -> (r: bool)
            ensures
                r == bounty_live_with_public_id(public_id@)(b@),
            { b.public_id == key && b.approved && !is_deactivated(b) };
        let change = |b: &Bounty| -> (r: Bounty)
            ensures
                r@ == (BountyView { deactivated_by_admin: true, ..b@ }),
            {
                let mut row = b.clone();
                row.deactivated_by_admin = true;
                row
            };
        proof {
            lemma_keyed_updated(db@.bounties, |b: BountyView| b.id, db@.next_bounty_id, hit, to);
        }
        update_where(&mut db.bounties, test, change, Ghost(hit), Ghost(to))
    }

    /// How many bounties wait for inspection.
    pub fn num_pending(db: &Store) -> (n: u32)
        requires
            db.wf(),
        ensures
            n == count(db@.bounties, bounty_pending()),
    {
        let test = |b: &Bounty| -> (r: bool)
            ensures
                r == bounty_pending()(b@),
            { b.submitted && !b.viewed };
        proof {
            lemma_keyed_len(db@.bounties, |b: BountyView| b.id, db@.next_bounty_id);
            db@.bounties.lemma_filter_len(bounty_pending());
        }
        let n: usize = count_where(&db.bounties, test, Ghost(bounty_pending()));
        n as u32
    }

    /// Deletes the bounty with the key `bounty_id` and its pictures, and says
    /// how many bounties it deleted.
    pub fn delete(bounty_id: i32, db: &mut Store) -> (deleted: usize)
        requires
            old(db).wf(),
        ensures
            final(db).wf(),
            final(db)@ == (StoreModel {
                bounties: without(old(db)@.bounties, bounty_with_id(bounty_id)),
                bounty_images: without(old(db)@.bounty_images, image_of(bounty_id)),
                ..old(db)@
            }),
            deleted == count(old(db)@.bounties, bounty_with_id(bounty_id)),
    {
        let ghost doomed = bounty_with_id(bounty_id);
        let test = |b: &Bounty| -> (r: bool)
            ensures
                r == bounty_with_id(bounty_id)(b@),
            { is_key(b.id, bounty_id) };
        let of_bounty = |i: &BountyImage| -> (r: bool)
            ensures
                r == image_of(bounty_id)(i@),
            { i.bounty_id == bounty_id };
        proof {
            lemma_keyed_without(db@.bounties, |b: BountyView| b.id, db@.next_bounty_id, doomed);
            lemma_filter_embeds(db@.bounties, |b: BountyView| !doomed(b));
            lemma_keyed_without(
                db@.bounty_images,
                |i: BountyImageView| i.id,
                db@.next_bounty_image_id,
                image_of(bounty_id),
            );
        }
        let deleted: usize = remove_where(&mut db.bounties, test, Ghost(doomed));
        remove_where(&mut db.bounty_images, of_bounty, Ghost(image_of(bounty_id)));
        deleted
    }
}

impl BountyImage {
    /// Adds a picture. The row gets the table's next key, whatever
    /// `bountyimage.id` holds. The answer is the number of rows added: 1.
    pub fn insert(bountyimage: BountyImage, db: &mut Store) -> (r: Result<usize, LedgerError>)
        requires
            old(db).wf(),
        ensures
            final(db).wf(),
            match r {
                Ok(n) => n == 1 && old(db)@.next_bounty_image_id < i32::MAX && final(db)@
                    == (StoreModel {
                    bounty_images: old(db)@.bounty_images.push(
                        bountyimage@.with_id(old(db)@.next_bounty_image_id),
                    ),
                    next_bounty_image_id: (old(db)@.next_bounty_image_id + 1) as i32,
                    ..old(db)@
                }),
                Err(e) => e == LedgerError::StoreFull && old(db)@.next_bounty_image_id
                    == i32::MAX && final(db)@ == old(db)@,
            },
    {
        if db.next_bounty_image_id == i32::MAX {
            return Err(LedgerError::StoreFull);
        }
        let id: i32 = db.next_bounty_image_id;
        let mut row = bountyimage;
        row.id = Some(id);
        proof {
            lemma_keyed_push(
                db@.bounty_images,
                |i: BountyImageView| i.id,
                db@.next_bounty_image_id,
                row@,
            );
            assert(views(db.bounty_images@.push(row)) =~= db@.bounty_images.push(row@));
        }
        db.bounty_images.push(row);
        db.next_bounty_image_id = id + 1;
        Ok(1)
    }

    /// The pictures of the bounty `bounty_id`, the primary ones first; else
    /// in the order of the table.
    pub fn all_for_bounty(db: &Store, bounty_id: i32) -> (found: Vec<BountyImage>)
        ensures
            views(found@) == sorted_desc(
                db@.bounty_images.filter(image_of(bounty_id)),
                image_rank(),
            ),
    {
        let test = |i: &BountyImage| -> (r: bool)
            ensures
                r == image_of(bounty_id)(i@),
            { i.bounty_id == bounty_id };
        let copy = |i: &BountyImage| -> (r: BountyImage)
            ensures
                r@ == i@,
            { i.clone() };
        let found = select_where(&db.bounty_images, test, copy, Ghost(image_of(bounty_id)));
        let rank = |i: &BountyImage| -> (k: u64)
            ensures
                k == image_rank()(i@),
            {
                if i.is_primary {
                    1
                } else {
                    0
                }
            };
        sort_desc(found, rank, Ghost(image_rank()))
    }

    /// The first picture with the public identifier `public_id`.
    pub fn single_by_public_id(db: &Store, public_id: &str) -> (r: Result<
        BountyImage,
        LedgerError,
    >)
        ensures
            match first(db@.bounty_images, image_with_public_id(public_id@)) {
                Some(row) => r is Ok && r->Ok_0@ == row,
                None => r == Err::<BountyImage, LedgerError>(LedgerError::RowNotFound),
            },
    {
        let key = public_id.to_owned();
        let test = |i: &BountyImage| -> (r: bool)
            ensures
                r == image_with_public_id(public_id@)(i@),
            { i.public_id == key };
        match position_where(&db.bounty_images, test, Ghost(image_with_public_id(public_id@))) {
            Some(i) => Ok(db.bounty_images[i].clone()),
            None => Err(LedgerError::RowNotFound),
        }
    }

    /// Makes, among the pictures of the bounty `bounty_id`, those with the
    /// public identifier `image_id` primary and all others not. Says how many
    /// pictures the bounty has.
    pub fn mark_image_as_primary_by_public_id(db: &mut Store, bounty_id: i32, image_id: &str) -> (changed:
        usize)
        requires
            old(db).wf(),
        ensures
            final(db).wf(),
            final(db)@ == (StoreModel {
                bounty_images: updated(
                    old(db)@.bounty_images,
                    image_of(bounty_id),
                    |i: BountyImageView|
                        BountyImageView { is_primary: i.public_id == image_id@, ..i },
                ),
                ..old(db)@
            }),
            changed == count(old(db)@.bounty_images, image_of(bounty_id)),
    {
        let ghost hit = image_of(bounty_id);
        let ghost to = |i: BountyImageView|
            BountyImageView { is_primary: i.public_id == image_id@, ..i };
        let key = image_id.to_owned();
        let test = |i: &BountyImage| -> (r: bool)
            ensures
                r == image_of(bounty_id)(i@),
            { i.bounty_id == bounty_id };
        let change = |i: &BountyImage| -> (r: BountyImage)
            ensures
                r@ == (BountyImageView { is_primary: i@.public_id == image_id@, ..i@ }),
            {
                let mut row = i.clone();
                row.is_primary = i.public_id == key;
                row
            };
        proof {
            lemma_keyed_updated(
                db@.bounty_images,
                |i: BountyImageView| i.id,
                db@.next_bounty_image_id,
                hit,
                to,
            );
        }
        update_where(&mut db.bounty_images, test, change, Ghost(hit), Ghost(to))
    }

    /// Deletes the pictures with the public identifier `public_id`, and says
    /// how many they were.
    pub fn delete_with_public_id(public_id: &str, db: &mut Store) -> (deleted: usize)
        requires
            old(db).wf(),
        ensures
            final(db).wf(),
            final(db)@ == (StoreModel {
                bounty_images: without(
                    old(db)@.bounty_images,
                    image_with_public_id(public_id@),
                ),
                ..old(db)@
            }),
            deleted == count(old(db)@.bounty_images, image_with_public_id(public_id@)),
    {
        let key = public_id.to_owned();
        let test = |i: &BountyImage| -> (r: bool)
            ensures
                r == image_with_public_id(public_id@)(i@),
            { i.public_id == key };
        proof {
            lemma_keyed_without(
                db@.bounty_images,
                |i: BountyImageView| i.id,
                db@.next_bounty_image_id,
                image_with_public_id(public_id@),
            );
        }
        remove_where(&mut db.bounty_images, test, Ghost(image_with_public_id(public_id@)))
    }
}

/// Whether the user may see the bounty: an approved bounty is open to all,
/// any other to its seller and to administrators.
pub open spec fn visible_to(bounty: BountyView, user_id: Option<i32>, is_admin: bool) -> bool {
    user_id == Some(bounty.user_id) || is_admin || bounty.approved
}

/// Whether the user may see the bounty.
pub fn may_view_bounty(bounty: &Bounty, user_id: Option<i32>, is_admin: bool) -> (b: bool)
    ensures
        b == visible_to(bounty@, user_id, is_admin),
{
    is_key(user_id, bounty.user_id) || is_admin || bounty.approved
}

/// Why the seller `user_id` may not submit the bounty `b`, if there is a
/// reason.
pub open spec fn submit_refusal(b: BountyView, user_id: i32) -> Option<LedgerError> {
    if b.user_id != user_id {
        Some(LedgerError::NotOwner)
    } else if b.submitted {
        Some(LedgerError::AlreadySubmitted)
    } else if b.approved {
        Some(LedgerError::AlreadyApproved)
    } else {
        None
    }
}

/// The seller `user_id` submits the bounty with the public identifier `id`
/// for inspection. The request is refused where there is no such bounty, where
/// it is another seller's, and where it is submitted or approved already. A
/// refused request changes nothing.
pub fn submit_bounty(db: &mut Store, id: &str, user_id: i32) -> (r: Result<(), LedgerError>)
    requires
        old(db).wf(),
    ensures
        final(db).wf(),
        r == (match first(old(db)@.bounties, bounty_with_public_id(id@)) {
            None => Err::<(), LedgerError>(LedgerError::RowNotFound),
            Some(b) => match submit_refusal(b, user_id) {
                Some(e) => Err(e),
                None => Ok(()),
            },
        }),
        match r {
            Ok(_) => final(db)@ == (StoreModel {
                bounties: updated(
                    old(db)@.bounties,
                    bounty_with_public_id(id@),
                    |b: BountyView| BountyView { submitted: true, ..b },
                ),
                ..old(db)@
            }),
            Err(_) => final(db)@ == old(db)@,
        },
{
    let bounty = match Bounty::single_by_public_id(db, id) {
        Ok(bounty) => bounty,
        Err(_) => { return Err(LedgerError::RowNotFound); },
    };
    if bounty.user_id != user_id {
        return Err(LedgerError::NotOwner);
    }
    if bounty.submitted {
        return Err(LedgerError::AlreadySubmitted);
    }
    if bounty.approved {
        return Err(LedgerError::AlreadyApproved);
    }
    Bounty::mark_as_submitted(db, id);
    Ok(())
}

/// Why the bounty `b` cannot be inspected, if there is a reason.
pub open spec fn inspection_refusal(b: BountyView) -> Option<LedgerError> {
    if !b.submitted {
        Some(LedgerError::NotSubmitted)
    } else if b.viewed {
        Some(LedgerError::AlreadyViewed)
    } else {
        None
    }
}

/// An administrator approves the bounty with the public identifier `id`.
/// The request is refused where there is no such bounty, where it is not
/// submitted, and where it is inspected already. A refused request changes
/// nothing.
pub fn approve_bounty(db: &mut Store, id: &str) -> (r: Result<(), LedgerError>)
    requires
        old(db).wf(),
    ensures
        final(db).wf(),
        r == (match first(old(db)@.bounties, bounty_with_public_id(id@)) {
            None => Err::<(), LedgerError>(LedgerError::RowNotFound),
            Some(b) => match inspection_refusal(b) {
                Some(e) => Err(e),
                None => Ok(()),
            },
        }),
        match r {
            Ok(_) => final(db)@ == (StoreModel {
                bounties: updated(
                    old(db)@.bounties,
                    bounty_with_public_id(id@),
                    |b: BountyView| BountyView { viewed: true, approved: true, ..b },
                ),
                ..old(db)@
            }),
            Err(_) => final(db)@ == old(db)@,
        },
{
    let bounty = match Bounty::single_by_public_id(db, id) {
        Ok(bounty) => bounty,
        Err(_) => { return Err(LedgerError::RowNotFound); },
    };
    if !bounty.submitted {
        return Err(LedgerError::NotSubmitted);
    }
    if bounty.viewed {
        return Err(LedgerError::AlreadyViewed);
    }
    Bounty::mark_as_approved(db, id);
    Ok(())
}

/// An administrator rejects the bounty with the public identifier `id`. The
/// request is refused where there is no such bounty, where it is not
/// submitted, and where it is inspected already. A refused request changes
/// nothing.
pub fn reject_bounty(db: &mut Store, id: &str) -> (r: Result<(), LedgerError>)
    requires
        old(db).wf(),
    ensures
        final(db).wf(),
        r == (match first(old(db)@.bounties, bounty_with_public_id(id@)) {
            None => Err::<(), LedgerError>(LedgerError::RowNotFound),
            Some(b) => match inspection_refusal(b) {
                Some(e) => Err(e),
                None => Ok(()),
            },
        }),
        match r {
            Ok(_) => final(db)@ == (StoreModel {
                bounties: updated(
                    old(db)@.bounties,
                    bounty_with_public_id(id@),
                    |b: BountyView| BountyView { viewed: true, approved: false, ..b },
                ),
                ..old(db)@
            }),
            Err(_) => final(db)@ == old(db)@,
        },
{
    let bounty = match Bounty::single_by_public_id(db, id) {
        Ok(bounty) => bounty,
        Err(_) => { return Err(LedgerError::RowNotFound); },
    };
    if !bounty.submitted {
        return Err(LedgerError::NotSubmitted);
    }
    if bounty.viewed {
        return Err(LedgerError::AlreadyViewed);
    }
    Bounty::mark_as_rejected(db, id);
    Ok(())
}

/// The seller `user_id` deactivates the bounty with the public identifier
/// `id`. The request is refused where there is no such bounty, where it is
/// another seller's, and where it is deactivated already. A bounty that is
/// not approved stays as it is.
pub fn deactivate_bounty_as_seller(db: &mut Store, id: &str, user_id: i32) -> (r: Result<
    (),
    LedgerError,
>)
    requires
        old(db).wf(),
    ensures
        final(db).wf(),
        r == (match first(old(db)@.bounties, bounty_with_public_id(id@)) {
            None => Err::<(), LedgerError>(LedgerError::RowNotFound),
            Some(b) => if b.user_id != user_id {
                Err(LedgerError::NotOwner)
            } else if b.deactivated() {
                Err(LedgerError::AlreadyDeactivated)
            } else {
                Ok(())
            },
        }),
        match r {
            Ok(_) => final(db)@ == (StoreModel {
                bounties: updated(
                    old(db)@.bounties,
                    bounty_live_with_public_id(id@),
                    |b: BountyView| BountyView { deactivated_by_seller: true, ..b },
                ),
                ..old(db)@
            }),
            Err(_) => final(db)@ == old(db)@,
        },
{
    let bounty = match Bounty::single_by_public_id(db, id) {
        Ok(bounty) => bounty,
        Err(_) => { return Err(LedgerError::RowNotFound); },
    };
    if bounty.user_id != user_id {
        return Err(LedgerError::NotOwner);
    }
    if is_deactivated(&bounty) {
        return Err(LedgerError::AlreadyDeactivated);
    }
    Bounty::mark_as_deactivated_by_seller(db, id);
    Ok(())
}

/// An administrator deactivates the bounty with the public identifier `id`.
/// The request is refused where there is no such bounty and where it is
/// deactivated already. A bounty that is not approved stays as it is.
pub fn deactivate_bounty_as_admin(db: &mut Store, id: &str) -> (r: Result<(), LedgerError>)
    requires
        old(db).wf(),
    ensures
        final(db).wf(),
        r == (match first(old(db)@.bounties, bounty_with_public_id(id@)) {
            None => Err::<(), LedgerError>(LedgerError::RowNotFound),
            Some(b) => if b.deactivated() {
                Err(LedgerError::AlreadyDeactivated)
            } else {
                Ok(())
            },
        }),
        match r {
            Ok(_) => final(db)@ == (StoreModel {
                bounties: updated(
                    old(db)@.bounties,
                    bounty_live_with_public_id(id@),
                    |b: BountyView| BountyView { deactivated_by_admin: true, ..b },
                ),
                ..old(db)@
            }),
            Err(_) => final(db)@ == old(db)@,
        },
{
    let bounty = match Bounty::single_by_public_id(db, id) {
        Ok(bounty) => bounty,
        Err(_) => { return Err(LedgerError::RowNotFound); },
    };
    if is_deactivated(&bounty) {
        return Err(LedgerError::AlreadyDeactivated);
    }
    Bounty::mark_as_deactivated_by_admin(db, id);
    Ok(())
}

/// Whether the user may delete the bounty: its seller may, and so may
/// administrators.
pub open spec fn deletable_by(bounty: BountyView, user_id: i32, is_admin: bool) -> bool {
    bounty.user_id == user_id || is_admin
}

/// Whether the user may delete the bounty.
pub fn may_delete_bounty(bounty: &Bounty, user_id: i32, is_admin: bool) -> (b: bool)
    ensures
        b == deletable_by(bounty@, user_id, is_admin),
{
    bounty.user_id == user_id || is_admin
}

/// The user `user_id` deletes the bounty with the public identifier
/// `bounty_id`, with its pictures. Only the bounty's seller and
/// administrators may.
pub fn delete_bounty(bounty_id: &str, db: &mut Store, user_id: i32, is_admin: bool) -> (r: Result<
    (),
    LedgerError,
>)
    requires
        old(db).wf(),
    ensures
        final(db).wf(),
        r == (match first(old(db)@.bounties, bounty_with_public_id(bounty_id@)) {
            None => Err::<(), LedgerError>(LedgerError::RowNotFound),
            Some(b) => if !deletable_by(b, user_id, is_admin) {
                Err(LedgerError::NotOwner)
            } else if b.id is None {
                Err(LedgerError::RowNotFound)
            } else {
                Ok(())
            },
        }),
        match r {
            Ok(_) => {
                let key = first(old(db)@.bounties, bounty_with_public_id(bounty_id@)).unwrap().id.unwrap();
                final(db)@ == (StoreModel {
                    bounties: without(old(db)@.bounties, bounty_with_id(key)),
                    bounty_images: without(old(db)@.bounty_images, image_of(key)),
                    ..old(db)@
                })
            },
            Err(_) => final(db)@ == old(db)@,
        },
{
    let bounty = match Bounty::single_by_public_id(db, bounty_id) {
        Ok(bounty) => bounty,
        Err(_) => { return Err(LedgerError::RowNotFound); },
    };
    if !may_delete_bounty(&bounty, user_id, is_admin) {
        return Err(LedgerError::NotOwner);
    }
    match bounty.id {
        Some(id) => {
            Bounty::delete(id, db);
            Ok(())
        },
        None => Err(LedgerError::RowNotFound),
    }
}

/// The length of `text` in bytes, as UTF-8.
pub open spec fn byte_len(text: Seq<char>) -> usize {
    encode_utf8(text).len() as usize
}

/// Why the bounty that `info` describes cannot be opened by this user, if
/// there is a reason. Lengths are counted in bytes.
pub open spec fn create_refusal(info: InitialBountyInfoView, is_admin: bool) -> Option<
    LedgerError,
> {
    if info.title.len() == 0 {
        Some(LedgerError::EmptyTitle)
    } else if info.description.len() == 0 {
        Some(LedgerError::EmptyDescription)
    } else if byte_len(info.title) > MAX_TITLE_LENGTH {
        Some(LedgerError::TitleTooLong)
    } else if byte_len(info.description) > MAX_DESCRIPTION_LENGTH {
        Some(LedgerError::DescriptionTooLong)
    } else if info.price_sat is None || info.price_sat == Some(0u64) {
        Some(LedgerError::PriceNotPositive)
    } else if is_admin {
        Some(LedgerError::AdminNotAllowed)
    } else {
        None
    }
}

/// The bounty that the seller `user_id` opens from `info`, as it is handed to
/// the table: not yet submitted, inspected, approved or deactivated, at the
/// market's fee rate.
pub open spec fn new_bounty(
    db: StoreModel,
    info: InitialBountyInfoView,
    user_id: i32,
    public_id: Seq<char>,
    now: u64,
) -> BountyView {
    BountyView {
        id: None,
        public_id,
        user_id,
        title: info.title,
        description: info.description,
        price_sat: info.price_sat.unwrap(),
        fee_rate_basis_points: fee_rate_of(db),
        submitted: false,
        viewed: false,
        approved: false,
        deactivated_by_seller: false,
        deactivated_by_admin: false,
        created_time_ms: now,
    }
}

/// What [`open_bounty`] answers.
pub open spec fn open_bounty_result(
    db: StoreModel,
    info: InitialBountyInfoView,
    user_id: i32,
    is_admin: bool,
    public_id: Seq<char>,
    now: u64,
) -> Result<i32, LedgerError> {
    match create_refusal(info, is_admin) {
        Some(e) => Err(e),
        None => Bounty::insert_result(
            db,
            new_bounty(db, info, user_id, public_id, now),
            MAX_UNAPPROVED_BOUNTIES,
        ),
    }
}

/// Opens the bounty that `bounty_info` describes for the seller `user_id`,
/// under the public identifier `public_id`, at the time `now`. The title and
/// the description must not be empty nor longer than [`MAX_TITLE_LENGTH`] and
/// [`MAX_DESCRIPTION_LENGTH`] bytes, the price must be positive and fit in a
/// table, the user must not be an administrator, and the seller may have at
/// most [`MAX_UNAPPROVED_BOUNTIES`] bounties that are not approved. The
/// answer is the key of the new bounty.
pub fn open_bounty(
    bounty_info: InitialBountyInfo,
    db: &mut Store,
    user_id: i32,
    is_admin: bool,
    public_id: String,
    now: u64,
) -> (r: Result<i32, LedgerError>)
    requires
        old(db).wf(),
        now <= MAX_STORED,
        bounty_info@.price_sat is Some ==> bounty_info@.price_sat.unwrap() <= MAX_STORED,
    ensures
        final(db).wf(),
        r == open_bounty_result(old(db)@, bounty_info@, user_id, is_admin, public_id@, now),
        match r {
            Ok(id) => final(db)@ == (StoreModel {
                bounties: old(db)@.bounties.push(
                    new_bounty(old(db)@, bounty_info@, user_id, public_id@, now).with_id(id),
                ),
                next_bounty_id: (id + 1) as i32,
                ..old(db)@
            }),
            Err(_) => final(db)@ == old(db)@,
        },
{
    let price_sat: u64 = match bounty_info.price_sat {
        Some(p) => p,
        None => 0,
    };
    if bounty_info.title.as_str().is_empty() {
        return Err(LedgerError::EmptyTitle);
    }
    if bounty_info.description.as_str().is_empty() {
        return Err(LedgerError::EmptyDescription);
    }
    if bounty_info.title.as_str().len() > MAX_TITLE_LENGTH {
        return Err(LedgerError::TitleTooLong);
    }
    if bounty_info.description.as_str().len() > MAX_DESCRIPTION_LENGTH {
        return Err(LedgerError::DescriptionTooLong);
    }
    if price_sat == 0 {
        return Err(LedgerError::PriceNotPositive);
    }
    if is_admin {
        return Err(LedgerError::AdminNotAllowed);
    }
    let fee_rate_basis_points: u32 = crate::settings::fee_rate(db);
    let bounty = Bounty {
        id: None,
        public_id,
        user_id,
        title: bounty_info.title,
        description: bounty_info.description,
        price_sat,
        fee_rate_basis_points,
        submitted: false,
        viewed: false,
        approved: false,
        deactivated_by_seller: false,
        deactivated_by_admin: false,
        created_time_ms: now,
    };
    Bounty::insert(bounty, MAX_UNAPPROVED_BOUNTIES, db)
}

/// Opens the bounty that `bounty_info` describes for the seller `user_id`,
/// under a fresh public identifier and at the time of the system clock, as
/// [`open_bounty`] does with that identifier and that time. The answer is
/// the new bounty's public identifier. A clock beyond what a table can hold
/// is read as the largest time that it can.
pub fn create_bounty(bounty_info: InitialBountyInfo, db: &mut Store, user_id: i32, is_admin: bool) -> (r:
    Result<String, LedgerError>)
    requires
        old(db).wf(),
        bounty_info@.price_sat is Some ==> bounty_info@.price_sat.unwrap() <= MAX_STORED,
    ensures
        final(db).wf(),
        exists|public_id: Seq<char>, now: u64|
            {
                &&& is_uuid_text(public_id)
                &&& now <= MAX_STORED
                &&& match #[trigger] open_bounty_result(
                    old(db)@,
                    bounty_info@,
                    user_id,
                    is_admin,
                    public_id,
                    now,
                ) {
                    Ok(id) => r is Ok && r->Ok_0@ == public_id && final(db)@ == (StoreModel {
                        bounties: old(db)@.bounties.push(
                            new_bounty(old(db)@, bounty_info@, user_id, public_id, now).with_id(
                                id,
                            ),
                        ),
                        next_bounty_id: (id + 1) as i32,
                        ..old(db)@
                    }),
                    Err(e) => r == Err::<String, LedgerError>(e) && final(db)@ == old(db)@,
                }
            },
{
    let clock: u64 = current_time_millis();
    let now: u64 = if clock > MAX_STORED {
        MAX_STORED
    } else {
        clock
    };
    let public_id = create_uuid();
    let answer = public_id.clone();
    match open_bounty(bounty_info, db, user_id, is_admin, public_id, now) {
        Ok(_) => Ok(answer),
        Err(e) => Err(e),
    }
}

/// Why the seller `user_id` may not change the pictures of the bounty `b`,
/// if there is a reason.
pub open spec fn image_refusal(b: BountyView, user_id: i32) -> Option<LedgerError> {
    if b.submitted {
        Some(LedgerError::AlreadySubmitted)
    } else if b.user_id != user_id {
        Some(LedgerError::NotOwner)
    } else {
        None
    }
}

/// What [`add_image`] answers.
pub open spec fn add_image_result(
    db: StoreModel,
    id: Seq<char>,
    image_data: Seq<u8>,
    user_id: i32,
) -> Result<(), LedgerError> {
    match first(db.bounties, bounty_with_public_id(id)) {
        None => Err(LedgerError::RowNotFound),
        Some(b) => match b.id {
            None => Err(LedgerError::RowNotFound),
            Some(key) => if b.user_id != user_id {
                Err(LedgerError::NotOwner)
            } else if b.submitted {
                Err(LedgerError::AlreadySubmitted)
            } else if count(db.bounty_images, image_of(key)) >= MAX_IMAGES {
                Err(LedgerError::TooManyImages)
            } else if image_data.len() == 0 {
                Err(LedgerError::EmptyFile)
            } else if db.next_bounty_image_id == i32::MAX {
                Err(LedgerError::StoreFull)
            } else {
                Ok(())
            },
        },
    }
}

/// The seller `user_id` adds the picture `image_data`, under the public
/// identifier `public_id`, to the bounty with the public identifier `id`.
/// The request is refused where there is no such bounty, where it is another
/// seller's, where it is submitted already, where it has [`MAX_IMAGES`]
/// pictures, and where the picture has no bytes. The new picture is not
/// primary.
pub fn add_image(id: &str, image_data: Vec<u8>, db: &mut Store, user_id: i32, public_id: String) -> (r:
    Result<(), LedgerError>)
    requires
        old(db).wf(),
    ensures
        final(db).wf(),
        r == add_image_result(old(db)@, id@, image_data@, user_id),
        match r {
            Ok(_) => final(db)@ == (StoreModel {
                bounty_images: old(db)@.bounty_images.push(
                    BountyImageView {
                        id: Some(old(db)@.next_bounty_image_id),
                        public_id: public_id@,
                        bounty_id: first(
                            old(db)@.bounties,
                            bounty_with_public_id(id@),
                        ).unwrap().id.unwrap(),
                        image_data: image_data@,
                        is_primary: false,
                    },
                ),
                next_bounty_image_id: (old(db)@.next_bounty_image_id + 1) as i32,
                ..old(db)@
            }),
            Err(_) => final(db)@ == old(db)@,
        },
{
    let bounty = match Bounty::single_by_public_id(db, id) {
        Ok(bounty) => bounty,
        Err(_) => { return Err(LedgerError::RowNotFound); },
    };
    let bounty_id: i32 = match bounty.id {
        Some(key) => key,
        None => { return Err(LedgerError::RowNotFound); },
    };
    let of_bounty = |i: &BountyImage| -> (r: bool)
        ensures
            r == image_of(bounty_id)(i@),
        { i.bounty_id == bounty_id };
    let images: usize = count_where(&db.bounty_images, of_bounty, Ghost(image_of(bounty_id)));
    if bounty.user_id != user_id {
        return Err(LedgerError::NotOwner);
    }
    if bounty.submitted {
        return Err(LedgerError::AlreadySubmitted);
    }
    if images >= MAX_IMAGES {
        return Err(LedgerError::TooManyImages);
    }
    if image_data.len() == 0 {
        return Err(LedgerError::EmptyFile);
    }
    let bounty_image = BountyImage { id: None, public_id, bounty_id, image_data, is_primary: false };
    match BountyImage::insert(bounty_image, db) {
        Ok(_) => Ok(()),
        Err(e) => Err(e),
    }
}

/// What [`delete_image_with_public_id`] and [`mark_as_primary`] answer.
pub open spec fn change_image_result(
    db: StoreModel,
    bounty_id: Seq<char>,
    image_id: Seq<char>,
    user_id: i32,
) -> Result<(), LedgerError> {
    match first(db.bounties, bounty_with_public_id(bounty_id)) {
        None => Err(LedgerError::RowNotFound),
        Some(b) => match first(db.bounty_images, image_with_public_id(image_id)) {
            None => Err(LedgerError::RowNotFound),
            Some(i) => if b.id != Some(i.bounty_id) {
                Err(LedgerError::WrongBounty)
            } else {
                match image_refusal(b, user_id) {
                    Some(e) => Err(e),
                    None => Ok(()),
                }
            },
        },
    }
}

/// Whether the seller may change the picture of the bounty.
fn check_image(db: &Store, bounty_id: &str, image_id: &str, user_id: i32) -> (r: Result<
    i32,
    LedgerError,
>)
    ensures
        match r {
            Ok(key) => change_image_result(db@, bounty_id@, image_id@, user_id) is Ok && first(
                db@.bounties,
                bounty_with_public_id(bounty_id@),
            ).unwrap().id == Some(key),
            Err(e) => change_image_result(db@, bounty_id@, image_id@, user_id) == Err::<
                (),
                LedgerError,
            >(e),
        },
{
    let bounty = match Bounty::single_by_public_id(db, bounty_id) {
        Ok(bounty) => bounty,
        Err(_) => { return Err(LedgerError::RowNotFound); },
    };
    let bounty_image = match BountyImage::single_by_public_id(db, image_id) {
        Ok(bounty_image) => bounty_image,
        Err(_) => { return Err(LedgerError::RowNotFound); },
    };
    if !is_key(bounty.id, bounty_image.bounty_id) {
        return Err(LedgerError::WrongBounty);
    }
    if bounty.submitted {
        return Err(LedgerError::AlreadySubmitted);
    }
    if bounty.user_id != user_id {
        return Err(LedgerError::NotOwner);
    }
    Ok(bounty_image.bounty_id)
}

/// The seller `user_id` deletes the picture with the public identifier
/// `image_id` from the bounty with the public identifier `bounty_id`. The
/// request is refused where there is no such bounty or picture, where the
/// picture is another bounty's, where the bounty is submitted already, and
/// where it is another seller's.
pub fn delete_image_with_public_id(bounty_id: &str, image_id: &str, db: &mut Store, user_id: i32) -> (r:
    Result<(), LedgerError>)
    requires
        old(db).wf(),
    ensures
        final(db).wf(),
        r == change_image_result(old(db)@, bounty_id@, image_id@, user_id),
        match r {
            Ok(_) => final(db)@ == (StoreModel {
                bounty_images: without(old(db)@.bounty_images, image_with_public_id(image_id@)),
                ..old(db)@
            }),
            Err(_) => final(db)@ == old(db)@,
        },
{
    match check_image(db, bounty_id, image_id, user_id) {
        Ok(_) => {
            BountyImage::delete_with_public_id(image_id, db);
            Ok(())
        },
        Err(e) => Err(e),
    }
}

/// The seller `user_id` makes the picture with the public identifier
/// `image_id` the primary picture of the bounty with the public identifier
/// `bounty_id`. The request is refused as in
/// [`delete_image_with_public_id`].
pub fn mark_as_primary(bounty_id: &str, image_id: &str, db: &mut Store, user_id: i32) -> (r: Result<
    (),
    LedgerError,
>)
    requires
        old(db).wf(),
    ensures
        final(db).wf(),
        r == change_image_result(old(db)@, bounty_id@, image_id@, user_id),
        match r {
            Ok(_) => final(db)@ == (StoreModel {
                bounty_images: updated(
                    old(db)@.bounty_images,
                    image_of(
                        first(old(db)@.bounties, bounty_with_public_id(bounty_id@)).unwrap().id.unwrap(),
                    ),
                    |i: BountyImageView|
                        BountyImageView { is_primary: i.public_id == image_id@, ..i },
                ),
                ..old(db)@
            }),
            Err(_) => final(db)@ == old(db)@,
        },
{
    match check_image(db, bounty_id, image_id, user_id) {
        Ok(key) => {
            BountyImage::mark_image_as_primary_by_public_id(db, key, image_id);
            Ok(())
        },
        Err(e) => Err(e),
    }
}

} // verus!
