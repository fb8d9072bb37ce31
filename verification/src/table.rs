//! Tables: sequences of rows, and the selections, counts, updates and
//! deletions that the store's operations are made of.
//!
//! A table is a `Vec` of rows. Its model is the sequence of the rows' views,
//! in the order in which the rows were inserted.

use vstd::prelude::*;

verus! {

/// The views of `rows`, in order.
pub open spec fn views<T: View>(rows: Seq<T>) -> Seq<T::V> {
    rows.map_values(|t: T| t@)
}

/// The rows of `rows` with `change` applied to those that `hit` selects.
pub open spec fn updated<V>(rows: Seq<V>, hit: spec_fn(V) -> bool, change: spec_fn(V) -> V) -> Seq<
    V,
> {
    rows.map_values(
        |v: V|
            if hit(v) {
                change(v)
            } else {
                v
            },
    )
}

/// The rows of `rows` that `doomed` does not select.
pub open spec fn without<V>(rows: Seq<V>, doomed: spec_fn(V) -> bool) -> Seq<V> {
    rows.filter(|v: V| !doomed(v))
}

/// How many rows of `rows` `hit` selects.
pub open spec fn count<V>(rows: Seq<V>, hit: spec_fn(V) -> bool) -> nat {
    rows.filter(hit).len()
}

/// Counts the rows that `test` accepts.
pub(crate) fn count_where<T: View, F: Fn(&T) -> bool>(
    rows: &Vec<T>,
    test: F,
    Ghost(hit): Ghost<spec_fn(T::V) -> bool>,
) -> (n: usize)
    requires
        forall|t: &T| #[trigger] test.requires((t,)),
        forall|t: &T, b: bool| #[trigger] test.ensures((t,), b) ==> b == hit(t@),
    ensures
        n == count(views(rows@), hit),
{
    let mut n: usize = 0;
    let mut i: usize = 0;
    proof {
        reveal(Seq::filter);
        assert(views(rows@).subrange(0, 0) =~= Seq::<T::V>::empty());
    }
    while i < rows.len()
        invariant
            i <= rows.len(),
            n <= i,
            n == count(views(rows@).subrange(0, i as int), hit),
            forall|t: &T| #[trigger] test.requires((t,)),
            forall|t: &T, b: bool| #[trigger] test.ensures((t,), b) ==> b == hit(t@),
        decreases rows.len() - i,
    {
        let b = test(&rows[i]);
        proof {
            let all = views(rows@);
            assert(all.subrange(0, i + 1) =~= all.subrange(0, i as int).push(all[i as int]));
            all.subrange(0, i as int).lemma_filter_push(all[i as int], hit);
        }
        if b {
            n = n + 1;
        }
        i = i + 1;
    }
    proof {
        assert(views(rows@).subrange(0, i as int) =~= views(rows@));
    }
    n
}

/// The first row of `rows` that `hit` selects, if there is one.
pub open spec fn first<V>(rows: Seq<V>, hit: spec_fn(V) -> bool) -> Option<V> {
    if rows.filter(hit).len() == 0 {
        None
    } else {
        Some(rows.filter(hit)[0])
    }
}

/// Where a table's first `i` rows hold no row that `hit` selects and row `i`
/// is one, row `i` is the first such row.
pub proof fn lemma_first_at<V>(rows: Seq<V>, hit: spec_fn(V) -> bool, i: int)
    requires
        0 <= i < rows.len(),
        rows.subrange(0, i).filter(hit).len() == 0,
        hit(rows[i]),
    ensures
        first(rows, hit) == Some(rows[i]),
{
    let head = rows.subrange(0, i);
    let tail = rows.subrange(i + 1, rows.len() as int);
    assert(rows =~= head.push(rows[i]) + tail);
    head.lemma_filter_push(rows[i], hit);
    Seq::filter_distributes_over_add(head.push(rows[i]), tail, hit);
    assert(head.filter(hit).push(rows[i])[0] == rows[i]);
}

/// The index of the first row that `test` accepts, if there is one.
pub(crate) fn position_where<T: View, F: Fn(&T) -> bool>(
    rows: &Vec<T>,
    test: F,
    Ghost(hit): Ghost<spec_fn(T::V) -> bool>,
) -> (found: Option<usize>)
    requires
        forall|t: &T| #[trigger] test.requires((t,)),
        forall|t: &T, b: bool| #[trigger] test.ensures((t,), b) ==> b == hit(t@),
    ensures
        match found {
            Some(i) => i < rows.len() && first(views(rows@), hit) == Some(rows[i as int]@),
            None => first(views(rows@), hit) is None,
        },
{
    let mut i: usize = 0;
    proof {
        reveal(Seq::filter);
        assert(views(rows@).subrange(0, 0) =~= Seq::<T::V>::empty());
    }
    while i < rows.len()
        invariant
            i <= rows.len(),
            count(views(rows@).subrange(0, i as int), hit) == 0,
            forall|t: &T| #[trigger] test.requires((t,)),
            forall|t: &T, b: bool| #[trigger] test.ensures((t,), b) ==> b == hit(t@),
        decreases rows.len() - i,
    {
        if test(&rows[i]) {
            proof {
                lemma_first_at(views(rows@), hit, i as int);
            }
            return Some(i);
        }
        proof {
            let all = views(rows@);
            assert(all.subrange(0, i + 1) =~= all.subrange(0, i as int).push(all[i as int]));
            all.subrange(0, i as int).lemma_filter_push(all[i as int], hit);
        }
        i = i + 1;
    }
    proof {
        assert(views(rows@).subrange(0, i as int) =~= views(rows@));
    }
    None
}

/// Removes the rows that `test` accepts, and says how many they were.
pub(crate) fn remove_where<T: View, F: Fn(&T) -> bool>(
    rows: &mut Vec<T>,
    test: F,
    Ghost(doomed): Ghost<spec_fn(T::V) -> bool>,
) -> (removed: usize)
    requires
        forall|t: &T| #[trigger] test.requires((t,)),
        forall|t: &T, b: bool| #[trigger] test.ensures((t,), b) ==> b == doomed(t@),
    ensures
        views(final(rows)@) == without(views(old(rows)@), doomed),
        removed == count(views(old(rows)@), doomed),
        removed + final(rows)@.len() == old(rows)@.len(),
{
    let ghost before = views(rows@);
    let ghost kept = |v: T::V| !doomed(v);
    let total: usize = rows.len();
    let mut removed: usize = 0;
    let mut i: usize = 0;
    proof {
        reveal(Seq::filter);
        assert(before.subrange(0, 0) =~= Seq::<T::V>::empty());
        assert(views(rows@) =~= Seq::<T::V>::empty() + before.subrange(0, before.len() as int));
        assert(before.len() == total);
    }
    while i < rows.len()
        invariant
            i <= rows.len(),
            before.len() == rows.len() + removed,
            before.len() <= usize::MAX,
            kept == (|v: T::V| !doomed(v)),
            views(rows@) == before.subrange(0, i + removed).filter(kept) + before.subrange(
                i + removed,
                before.len() as int,
            ),
            i == before.subrange(0, i + removed).filter(kept).len(),
            removed == count(before.subrange(0, i + removed), doomed),
            forall|t: &T| #[trigger] test.requires((t,)),
            forall|t: &T, b: bool| #[trigger] test.ensures((t,), b) ==> b == doomed(t@),
        decreases rows.len() - i,
    {
        let ghost k = i + removed;
        let ghost head = before.subrange(0, k);
        proof {
            assert(views(rows@)[i as int] == before[k]);
            assert(before.subrange(0, k + 1) =~= head.push(before[k]));
            head.lemma_filter_push(before[k], kept);
            head.lemma_filter_push(before[k], doomed);
        }
        if test(&rows[i]) {
            let ghost was = views(rows@);
            rows.remove(i);
            removed = removed + 1;
            proof {
                assert(views(rows@) =~= was.remove(i as int));
                assert(was.remove(i as int) =~= head.filter(kept) + before.subrange(
                    k + 1,
                    before.len() as int,
                ));
            }
        } else {
            i = i + 1;
            proof {
                assert(views(rows@) =~= head.filter(kept).push(before[k]) + before.subrange(
                    k + 1,
                    before.len() as int,
                ));
            }
        }
    }
    proof {
        assert(before.subrange(0, before.len() as int) =~= before);
        assert(views(rows@) =~= before.filter(kept));
    }
    removed
}

/// Replaces each row that `test` accepts by what `change` makes of it, and
/// says how many they were.
pub(crate) fn update_where<T: View, P: Fn(&T) -> bool, C: Fn(&T) -> T>(
    rows: &mut Vec<T>,
    test: P,
    change: C,
    Ghost(hit): Ghost<spec_fn(T::V) -> bool>,
    Ghost(to): Ghost<spec_fn(T::V) -> T::V>,
) -> (changed: usize)
    requires
        forall|t: &T| #[trigger] test.requires((t,)),
        forall|t: &T, b: bool| #[trigger] test.ensures((t,), b) ==> b == hit(t@),
        forall|t: &T| hit(t@) ==> #[trigger] change.requires((t,)),
        forall|t: &T, r: T| #[trigger] change.ensures((t,), r) ==> r@ == to(t@),
    ensures
        views(final(rows)@) == updated(views(old(rows)@), hit, to),
        changed == count(views(old(rows)@), hit),
        final(rows)@.len() == old(rows)@.len(),
{
    let ghost before = views(rows@);
    let ghost after = updated(before, hit, to);
    let total: usize = rows.len();
    let mut changed: usize = 0;
    let mut i: usize = 0;
    proof {
        reveal(Seq::filter);
        assert(before.subrange(0, 0) =~= Seq::<T::V>::empty());
    }
    while i < total
        invariant
            i <= total,
            total == rows.len(),
            total == before.len(),
            changed <= i,
            after == updated(before, hit, to),
            changed == count(before.subrange(0, i as int), hit),
            forall|k: int| 0 <= k < i ==> #[trigger] views(rows@)[k] == after[k],
            forall|k: int| i <= k < total ==> #[trigger] views(rows@)[k] == before[k],
            forall|t: &T| #[trigger] test.requires((t,)),
            forall|t: &T, b: bool| #[trigger] test.ensures((t,), b) ==> b == hit(t@),
            forall|t: &T| hit(t@) ==> #[trigger] change.requires((t,)),
            forall|t: &T, r: T| #[trigger] change.ensures((t,), r) ==> r@ == to(t@),
        decreases total - i,
    {
        proof {
            assert(views(rows@)[i as int] == before[i as int]);
            assert(before.subrange(0, i + 1) =~= before.subrange(0, i as int).push(
                before[i as int],
            ));
            before.subrange(0, i as int).lemma_filter_push(before[i as int], hit);
        }
        if test(&rows[i]) {
            let row = change(&rows[i]);
            let ghost was = views(rows@);
            rows.set(i, row);
            changed = changed + 1;
            proof {
                assert(views(rows@) =~= was.update(i as int, row@));
            }
        }
        i = i + 1;
    }
    proof {
        assert(before.subrange(0, total as int) =~= before);
        assert(views(rows@) =~= after);
    }
    changed
}

/// Whether `id` is the key `key`.
pub fn is_key(id: Option<i32>, key: i32) -> (b: bool)
    ensures
        b == (id == Some(key)),
{
    match id {
        Some(k) => k == key,
        None => false,
    }
}

/// Whether the rows of a table carry the keys that the table's counter has
/// handed out: each row has a key from 1 up to, but not including, `next`, and
/// along the table the keys strictly increase.
pub open spec fn keyed<V>(rows: Seq<V>, key: spec_fn(V) -> Option<i32>, next: i32) -> bool {
    &&& 1 <= next
    &&& forall|i: int|
        0 <= i < rows.len() ==> (#[trigger] key(rows[i])) is Some && 1 <= key(rows[i]).unwrap()
            < next
    &&& forall|i: int, j: int|
        0 <= i < j < rows.len() ==> (#[trigger] key(rows[i])).unwrap() < (#[trigger] key(
            rows[j],
        )).unwrap()
}

/// A keyed table stays keyed when a row with the next key is appended.
pub proof fn lemma_keyed_push<V>(rows: Seq<V>, key: spec_fn(V) -> Option<i32>, next: i32, row: V)
    requires
        keyed(rows, key, next),
        key(row) == Some(next),
        next < i32::MAX,
    ensures
        keyed(rows.push(row), key, (next + 1) as i32),
{
    let longer = rows.push(row);
    assert forall|i: int| 0 <= i < longer.len() implies (#[trigger] key(longer[i])) is Some && 1
        <= key(longer[i]).unwrap() < next + 1 by {
        if i < rows.len() {
            assert(longer[i] == rows[i]);
        }
    }
    assert forall|i: int, j: int| 0 <= i < j < longer.len() implies (#[trigger] key(
        longer[i],
    )).unwrap() < (#[trigger] key(longer[j])).unwrap() by {
        assert(longer[i] == rows[i]);
        if j < rows.len() {
            assert(longer[j] == rows[j]);
        }
    }
}

/// A keyed table stays keyed under an update that keeps every row's key.
pub proof fn lemma_keyed_updated<V>(
    rows: Seq<V>,
    key: spec_fn(V) -> Option<i32>,
    next: i32,
    hit: spec_fn(V) -> bool,
    change: spec_fn(V) -> V,
)
    requires
        keyed(rows, key, next),
        forall|v: V| hit(v) ==> key(#[trigger] change(v)) == key(v),
    ensures
        keyed(updated(rows, hit, change), key, next),
{
    let after = updated(rows, hit, change);
    assert forall|i: int| 0 <= i < after.len() implies key(#[trigger] after[i]) == key(
        rows[i],
    ) by {}
    assert forall|i: int| 0 <= i < after.len() implies (#[trigger] key(after[i])) is Some && 1
        <= key(after[i]).unwrap() < next by {
        assert(key(after[i]) == key(rows[i]));
    }
    assert forall|i: int, j: int| 0 <= i < j < after.len() implies (#[trigger] key(
        after[i],
    )).unwrap() < (#[trigger] key(after[j])).unwrap() by {
        assert(key(after[i]) == key(rows[i]));
        assert(key(after[j]) == key(rows[j]));
    }
}

/// Every row that a selection keeps is a row of the table, and the rows it
/// keeps stand in the table's order.
pub proof fn lemma_filter_embeds<V>(rows: Seq<V>, keep: spec_fn(V) -> bool)
    ensures
        forall|i: int|
            0 <= i < rows.filter(keep).len() ==> keep(#[trigger] rows.filter(keep)[i])
                && exists|k: int| i <= k < rows.len() && rows[k] == rows.filter(keep)[i],
        forall|i: int, j: int|
            0 <= i < j < rows.filter(keep).len() ==> exists|k: int, l: int|
                0 <= k < l < rows.len() && rows[k] == #[trigger] rows.filter(keep)[i] && rows[l]
                    == #[trigger] rows.filter(keep)[j],
    decreases rows.len(),
{
    reveal(Seq::filter);
    if rows.len() > 0 {
        let head = rows.drop_last();
        let last = rows.last();
        lemma_filter_embeds(head, keep);
        let kept = rows.filter(keep);
        let before = head.filter(keep);
        head.lemma_filter_len(keep);
        assert forall|i: int| 0 <= i < kept.len() implies keep(#[trigger] kept[i]) && exists|
            k: int,
        | i <= k < rows.len() && rows[k] == kept[i] by {
            if i < before.len() {
                assert(kept[i] == before[i]);
                let k = choose|k: int| i <= k < head.len() && head[k] == before[i];
                assert(rows[k] == kept[i]);
            } else {
                assert(rows[rows.len() - 1] == kept[i]);
            }
        }
        assert forall|i: int, j: int| 0 <= i < j < kept.len() implies exists|k: int, l: int|
            0 <= k < l < rows.len() && rows[k] == #[trigger] kept[i] && rows[l]
                == #[trigger] kept[j] by {
            if j < before.len() {
                assert(kept[i] == before[i]);
                assert(kept[j] == before[j]);
                let (k, l) = choose|k: int, l: int|
                    0 <= k < l < head.len() && head[k] == before[i] && head[l] == before[j];
                assert(rows[k] == kept[i] && rows[l] == kept[j]);
            } else {
                assert(kept[i] == before[i]);
                let k = choose|k: int| i <= k < head.len() && head[k] == before[i];
                assert(rows[k] == kept[i] && rows[rows.len() - 1] == kept[j]);
            }
        }
    }
}

/// A keyed table stays keyed when rows are deleted.
pub proof fn lemma_keyed_without<V>(
    rows: Seq<V>,
    key: spec_fn(V) -> Option<i32>,
    next: i32,
    doomed: spec_fn(V) -> bool,
)
    requires
        keyed(rows, key, next),
    ensures
        keyed(without(rows, doomed), key, next),
{
    let keep = |v: V| !doomed(v);
    let left = rows.filter(keep);
    lemma_filter_embeds(rows, keep);
    assert forall|i: int| 0 <= i < left.len() implies (#[trigger] key(left[i])) is Some && 1
        <= key(left[i]).unwrap() < next by {
        let k = choose|k: int| i <= k < rows.len() && rows[k] == left[i];
        assert(key(rows[k]) is Some);
    }
    assert forall|i: int, j: int| 0 <= i < j < left.len() implies (#[trigger] key(
        left[i],
    )).unwrap() < (#[trigger] key(left[j])).unwrap() by {
        let (k, l) = choose|k: int, l: int|
            0 <= k < l < rows.len() && rows[k] == left[i] && rows[l] == left[j];
        assert(key(rows[k]).unwrap() < key(rows[l]).unwrap());
    }
}

/// In a keyed table at most one row has a given key.
pub proof fn lemma_keyed_unique<V>(
    rows: Seq<V>,
    key: spec_fn(V) -> Option<i32>,
    next: i32,
    id: i32,
)
    requires
        keyed(rows, key, next),
    ensures
        count(rows, |v: V| key(v) == Some(id)) <= 1,
{
    let hit = |v: V| key(v) == Some(id);
    lemma_filter_embeds(rows, hit);
    let found = rows.filter(hit);
    if found.len() >= 2 {
        let (k, l) = choose|k: int, l: int|
            0 <= k < l < rows.len() && rows[k] == found[0] && rows[l] == found[1];
        assert(hit(found[0]) && hit(found[1]));
        assert(key(rows[k]).unwrap() < key(rows[l]).unwrap());
    }
}

/// An update that selects no row changes nothing.
pub proof fn lemma_updated_none<V>(rows: Seq<V>, hit: spec_fn(V) -> bool, change: spec_fn(V) -> V)
    requires
        count(rows, hit) == 0,
    ensures
        updated(rows, hit, change) == rows,
{
    assert forall|i: int| 0 <= i < rows.len() implies !hit(#[trigger] rows[i]) by {
        if hit(rows[i]) {
            rows.lemma_filter_contains(hit, i);
        }
    }
    assert(updated(rows, hit, change) =~= rows);
}

/// A keyed table has fewer rows than its counter says.
pub proof fn lemma_keyed_len<V>(rows: Seq<V>, key: spec_fn(V) -> Option<i32>, next: i32)
    requires
        keyed(rows, key, next),
    ensures
        rows.len() < next,
        forall|i: int| 0 <= i < rows.len() ==> i < (#[trigger] key(rows[i])).unwrap(),
    decreases rows.len(),
{
    if rows.len() > 0 {
        let head = rows.drop_last();
        assert forall|i: int| 0 <= i < head.len() implies (#[trigger] key(head[i])) is Some && 1
            <= key(head[i]).unwrap() < next by {
            assert(head[i] == rows[i]);
        }
        assert forall|i: int, j: int| 0 <= i < j < head.len() implies (#[trigger] key(
            head[i],
        )).unwrap() < (#[trigger] key(head[j])).unwrap() by {
            assert(head[i] == rows[i] && head[j] == rows[j]);
        }
        lemma_keyed_len(head, key, next);
        assert forall|i: int| 0 <= i < rows.len() implies i < (#[trigger] key(
            rows[i],
        )).unwrap() by {
            if i < head.len() {
                assert(head[i] == rows[i]);
            } else if head.len() > 0 {
                assert(head[head.len() - 1] == rows[head.len() - 1]);
                assert(key(rows[head.len() - 1]).unwrap() < key(rows[i]).unwrap());
            }
        }
        assert(key(rows[rows.len() - 1]).unwrap() < next);
    }
}

/// The sum of `amount` over the rows of `rows`.
pub open spec fn sum<V>(rows: Seq<V>, amount: spec_fn(V) -> int) -> int
    decreases rows.len(),
{
    if rows.len() == 0 {
        0
    } else {
        sum(rows.drop_last(), amount) + amount(rows.last())
    }
}

/// The sum over a table with one more row.
pub proof fn lemma_sum_push<V>(rows: Seq<V>, row: V, amount: spec_fn(V) -> int)
    ensures
        sum(rows.push(row), amount) == sum(rows, amount) + amount(row),
{
    assert(rows.push(row).drop_last() =~= rows);
}

/// The sum over two tables, one after the other.
pub proof fn lemma_sum_add<V>(a: Seq<V>, b: Seq<V>, amount: spec_fn(V) -> int)
    ensures
        sum(a + b, amount) == sum(a, amount) + sum(b, amount),
    decreases b.len(),
{
    if b.len() == 0 {
        assert(a + b =~= a);
    } else {
        lemma_sum_add(a, b.drop_last(), amount);
        assert((a + b).drop_last() =~= a + b.drop_last());
    }
}

/// The largest number of rows, and the bound on each amount, for which
/// [`sum_where`] adds without overflow.
pub const MAX_ROWS: usize = 0x7fff_ffff;

/// The bound on the size of one amount in [`sum_where`].
pub open spec fn amount_bound() -> int {
    0x100_0000_0000_0000_0000
}

/// Adds up what `amount` gives for each row.
pub(crate) fn sum_where<T: View, F: Fn(&T) -> i128>(
    rows: &Vec<T>,
    amount: F,
    Ghost(of): Ghost<spec_fn(T::V) -> int>,
) -> (total: i128)
    requires
        rows@.len() <= MAX_ROWS,
        forall|t: &T| #[trigger] amount.requires((t,)),
        forall|t: &T, a: i128| #[trigger] amount.ensures((t,), a) ==> a == of(t@),
        forall|v: T::V| -amount_bound() <= #[trigger] of(v) <= amount_bound(),
    ensures
        total == sum(views(rows@), of),
        -0x100_0000_0000_0000_0000 * rows@.len() <= total <= 0x100_0000_0000_0000_0000
            * rows@.len(),
{
    let mut total: i128 = 0;
    let mut i: usize = 0;
    proof {
        assert(views(rows@).subrange(0, 0) =~= Seq::<T::V>::empty());
    }
    while i < rows.len()
        invariant
            i <= rows.len(),
            rows@.len() <= MAX_ROWS,
            total == sum(views(rows@).subrange(0, i as int), of),
            -0x100_0000_0000_0000_0000 * i <= total <= 0x100_0000_0000_0000_0000 * i,
            forall|t: &T| #[trigger] amount.requires((t,)),
            forall|t: &T, a: i128| #[trigger] amount.ensures((t,), a) ==> a == of(t@),
            forall|v: T::V| -amount_bound() <= #[trigger] of(v) <= amount_bound(),
        decreases rows.len() - i,
    {
        let a: i128 = amount(&rows[i]);
        proof {
            let all = views(rows@);
            assert(all.subrange(0, i + 1) =~= all.subrange(0, i as int).push(all[i as int]));
            lemma_sum_push(all.subrange(0, i as int), all[i as int], of);
            assert(a == of(all[i as int]));
        }
        total = total + a;
        i = i + 1;
    }
    proof {
        assert(views(rows@).subrange(0, i as int) =~= views(rows@));
    }
    total
}

/// Copies, in order, the rows that `test` accepts.
pub(crate) fn select_where<T: View, F: Fn(&T) -> bool, C: Fn(&T) -> T>(
    rows: &Vec<T>,
    test: F,
    copy: C,
    Ghost(hit): Ghost<spec_fn(T::V) -> bool>,
) -> (found: Vec<T>)
    requires
        forall|t: &T| #[trigger] test.requires((t,)),
        forall|t: &T, b: bool| #[trigger] test.ensures((t,), b) ==> b == hit(t@),
        forall|t: &T| #[trigger] copy.requires((t,)),
        forall|t: &T, r: T| #[trigger] copy.ensures((t,), r) ==> r@ == t@,
    ensures
        views(found@) == views(rows@).filter(hit),
{
    let mut found: Vec<T> = Vec::new();
    let mut i: usize = 0;
    proof {
        reveal(Seq::filter);
        assert(views(rows@).subrange(0, 0) =~= Seq::<T::V>::empty());
        assert(views(found@) =~= Seq::<T::V>::empty());
    }
    while i < rows.len()
        invariant
            i <= rows.len(),
            views(found@) == views(rows@).subrange(0, i as int).filter(hit),
            forall|t: &T| #[trigger] test.requires((t,)),
            forall|t: &T, b: bool| #[trigger] test.ensures((t,), b) ==> b == hit(t@),
            forall|t: &T| #[trigger] copy.requires((t,)),
            forall|t: &T, r: T| #[trigger] copy.ensures((t,), r) ==> r@ == t@,
        decreases rows.len() - i,
    {
        proof {
            let all = views(rows@);
            assert(all.subrange(0, i + 1) =~= all.subrange(0, i as int).push(all[i as int]));
            all.subrange(0, i as int).lemma_filter_push(all[i as int], hit);
        }
        if test(&rows[i]) {
            let row = copy(&rows[i]);
            let ghost was = views(found@);
            found.push(row);
            proof {
                assert(views(found@) =~= was.push(row@));
            }
        }
        i = i + 1;
    }
    proof {
        assert(views(rows@).subrange(0, i as int) =~= views(rows@));
    }
    found
}

/// A narrower selection selects no more rows.
pub proof fn lemma_count_le<V>(rows: Seq<V>, narrow: spec_fn(V) -> bool, wide: spec_fn(V) -> bool)
    requires
        forall|v: V| #[trigger] narrow(v) ==> wide(v),
    ensures
        count(rows, narrow) <= count(rows, wide),
    decreases rows.len(),
{
    reveal(Seq::filter);
    if rows.len() > 0 {
        lemma_count_le(rows.drop_last(), narrow, wide);
    }
}

/// Appends to `out`, in order, what `make` makes of each row that `test`
/// accepts. Every row of the table satisfies `ok`, which is all that `make`
/// asks of a row.
pub(crate) fn append_where<T: View, U: View, F: Fn(&T) -> bool, M: Fn(&T) -> U>(
    out: &mut Vec<U>,
    rows: &Vec<T>,
    test: F,
    make: M,
    Ghost(hit): Ghost<spec_fn(T::V) -> bool>,
    Ghost(to): Ghost<spec_fn(T::V) -> U::V>,
    Ghost(ok): Ghost<spec_fn(T::V) -> bool>,
)
    requires
        forall|i: int| 0 <= i < rows@.len() ==> ok(#[trigger] views(rows@)[i]),
        forall|t: &T| #[trigger] test.requires((t,)),
        forall|t: &T, b: bool| #[trigger] test.ensures((t,), b) ==> b == hit(t@),
        forall|t: &T| ok(t@) ==> #[trigger] make.requires((t,)),
        forall|t: &T, r: U| #[trigger] make.ensures((t,), r) ==> r@ == to(t@),
    ensures
        views(final(out)@) == views(old(out)@) + views(rows@).filter(hit).map_values(to),
{
    let ghost start = views(out@);
    let mut i: usize = 0;
    proof {
        reveal(Seq::filter);
        assert(views(rows@).subrange(0, 0) =~= Seq::<T::V>::empty());
        assert(views(out@) =~= start + Seq::<T::V>::empty().filter(hit).map_values(to));
    }
    while i < rows.len()
        invariant
            i <= rows.len(),
            views(out@) == start + views(rows@).subrange(0, i as int).filter(hit).map_values(to),
            forall|i: int| 0 <= i < rows@.len() ==> ok(#[trigger] views(rows@)[i]),
            forall|t: &T| #[trigger] test.requires((t,)),
            forall|t: &T, b: bool| #[trigger] test.ensures((t,), b) ==> b == hit(t@),
            forall|t: &T| ok(t@) ==> #[trigger] make.requires((t,)),
            forall|t: &T, r: U| #[trigger] make.ensures((t,), r) ==> r@ == to(t@),
        decreases rows.len() - i,
    {
        let ghost all = views(rows@);
        let ghost head = all.subrange(0, i as int);
        proof {
            assert(all.subrange(0, i + 1) =~= head.push(all[i as int]));
            head.lemma_filter_push(all[i as int], hit);
            assert(ok(all[i as int]));
        }
        if test(&rows[i]) {
            let made = make(&rows[i]);
            let ghost was = views(out@);
            out.push(made);
            proof {
                assert(views(out@) =~= was.push(made@));
                assert(head.filter(hit).push(all[i as int]).map_values(to) =~= head.filter(
                    hit,
                ).map_values(to).push(to(all[i as int])));
                assert(views(out@) =~= start + all.subrange(0, i + 1).filter(hit).map_values(to));
            }
        }
        i = i + 1;
    }
    proof {
        assert(views(rows@).subrange(0, i as int) =~= views(rows@));
    }
}

/// `sorted` with `row` put behind the last row whose rank is at least its
/// own.
pub open spec fn insert_desc<V>(sorted: Seq<V>, row: V, rank: spec_fn(V) -> int) -> Seq<V>
    decreases sorted.len(),
{
    if sorted.len() == 0 || rank(sorted.last()) >= rank(row) {
        sorted.push(row)
    } else {
        insert_desc(sorted.drop_last(), row, rank).push(sorted.last())
    }
}

/// The rows of `rows` by falling rank; rows of equal rank keep their order.
pub open spec fn sorted_desc<V>(rows: Seq<V>, rank: spec_fn(V) -> int) -> Seq<V>
    decreases rows.len(),
{
    if rows.len() == 0 {
        rows
    } else {
        insert_desc(sorted_desc(rows.drop_last(), rank), rows.last(), rank)
    }
}

/// Whether the ranks of `rows` never rise along the sequence.
pub open spec fn falling<V>(rows: Seq<V>, rank: spec_fn(V) -> int) -> bool {
    forall|i: int, j: int| 0 <= i < j < rows.len() ==> rank(#[trigger] rows[i]) >= rank(#[trigger] rows[j])
}

/// Where the rows from `at` on rank below `row` and the row before `at`, if
/// there is one, does not, `row` is put at `at`.
pub proof fn lemma_insert_desc_at<V>(sorted: Seq<V>, row: V, rank: spec_fn(V) -> int, at: int)
    requires
        0 <= at <= sorted.len(),
        forall|m: int| at <= m < sorted.len() ==> rank(#[trigger] sorted[m]) < rank(row),
        at == 0 || rank(sorted[at - 1]) >= rank(row),
    ensures
        insert_desc(sorted, row, rank) == sorted.insert(at, row),
    decreases sorted.len(),
{
    if at == sorted.len() {
        assert(sorted.push(row) =~= sorted.insert(at, row));
    } else {
        assert(rank(sorted[sorted.len() - 1]) < rank(row));
        let head = sorted.drop_last();
        lemma_insert_desc_at(head, row, rank, at);
        assert(head.insert(at, row).push(sorted.last()) =~= sorted.insert(at, row));
    }
}

/// Putting a row into a falling sequence leaves it falling, one row longer,
/// and holding the same rows and the new one.
pub proof fn lemma_insert_desc<V>(sorted: Seq<V>, row: V, rank: spec_fn(V) -> int)
    requires
        falling(sorted, rank),
    ensures
        falling(insert_desc(sorted, row, rank), rank),
        insert_desc(sorted, row, rank).len() == sorted.len() + 1,
        insert_desc(sorted, row, rank).to_multiset() == sorted.to_multiset().insert(row),
        forall|i: int|
            0 <= i < insert_desc(sorted, row, rank).len() ==> #[trigger] insert_desc(
                sorted,
                row,
                rank,
            )[i] == row || sorted.contains(insert_desc(sorted, row, rank)[i]),
    decreases sorted.len(),
{
    broadcast use vstd::seq_lib::group_to_multiset_ensures;

    let after = insert_desc(sorted, row, rank);
    if sorted.len() == 0 || rank(sorted.last()) >= rank(row) {
        assert forall|i: int, j: int| 0 <= i < j < after.len() implies rank(#[trigger] after[i])
            >= rank(#[trigger] after[j]) by {
            if j == sorted.len() {
                assert(after[i] == sorted[i]);
                if i < sorted.len() - 1 {
                    assert(rank(sorted[i]) >= rank(sorted[sorted.len() - 1]));
                }
            } else {
                assert(after[i] == sorted[i] && after[j] == sorted[j]);
            }
        }
        assert forall|i: int| 0 <= i < after.len() implies #[trigger] after[i] == row
            || sorted.contains(after[i]) by {
            if i < sorted.len() {
                assert(after[i] == sorted[i]);
            }
        }
    } else {
        let head = sorted.drop_last();
        let last = sorted.last();
        assert forall|i: int, j: int| 0 <= i < j < head.len() implies rank(#[trigger] head[i])
            >= rank(#[trigger] head[j]) by {
            assert(head[i] == sorted[i] && head[j] == sorted[j]);
        }
        lemma_insert_desc(head, row, rank);
        let inner = insert_desc(head, row, rank);
        assert(sorted =~= head.push(last));
        assert forall|i: int, j: int| 0 <= i < j < after.len() implies rank(#[trigger] after[i])
            >= rank(#[trigger] after[j]) by {
            if j == inner.len() {
                assert(after[i] == inner[i]);
                if inner[i] != row {
                    let k = choose|k: int| 0 <= k < head.len() && head[k] == inner[i];
                    assert(head[k] == sorted[k]);
                    assert(rank(sorted[k]) >= rank(sorted[sorted.len() - 1]));
                }
            } else {
                assert(after[i] == inner[i] && after[j] == inner[j]);
            }
        }
        assert forall|i: int| 0 <= i < after.len() implies #[trigger] after[i] == row
            || sorted.contains(after[i]) by {
            if i < inner.len() {
                assert(after[i] == inner[i]);
                if inner[i] != row {
                    let k = choose|k: int| 0 <= k < head.len() && head[k] == inner[i];
                    assert(sorted[k] == inner[i]);
                }
            } else {
                assert(sorted[sorted.len() - 1] == after[i]);
            }
        }
        assert(after.to_multiset() =~= sorted.to_multiset().insert(row));
    }
}

/// Sorting by falling rank gives a falling sequence of the same rows.
pub proof fn lemma_sorted_desc<V>(rows: Seq<V>, rank: spec_fn(V) -> int)
    ensures
        falling(sorted_desc(rows, rank), rank),
        sorted_desc(rows, rank).len() == rows.len(),
        sorted_desc(rows, rank).to_multiset() == rows.to_multiset(),
    decreases rows.len(),
{
    broadcast use vstd::seq_lib::group_to_multiset_ensures;

    if rows.len() > 0 {
        let head = rows.drop_last();
        lemma_sorted_desc(head, rank);
        lemma_insert_desc(sorted_desc(head, rank), rows.last(), rank);
        assert(rows =~= head.push(rows.last()));
    }
}

/// The page `page_num` of `rows`, counted from 1, at `page_size` rows a page.
pub open spec fn page<V>(rows: Seq<V>, page_size: u32, page_num: u32) -> Seq<V> {
    let offset = (page_num - 1) * page_size;
    let from = if offset < rows.len() {
        offset
    } else {
        rows.len() as int
    };
    let to = if offset + page_size < rows.len() {
        offset + page_size
    } else {
        rows.len() as int
    };
    rows.subrange(from, to)
}

/// Keeps of `rows` the page `page_num`, counted from 1, at `page_size` rows a
/// page.
pub(crate) fn take_page<T: View>(rows: Vec<T>, page_size: u32, page_num: u32) -> (kept: Vec<T>)
    requires
        page_num >= 1,
    ensures
        views(kept@) == page(views(rows@), page_size, page_num),
{
    let mut rows = rows;
    let ghost all = views(rows@);
    let len: u128 = rows.len() as u128;
    assert(0 <= (page_num - 1) * page_size <= 0xffff_ffff * 0xffff_ffff) by (nonlinear_arith)
        requires
            1 <= page_num <= 0xffff_ffff,
            0 <= page_size <= 0xffff_ffff,
    ;
    let offset: u128 = (page_num as u128 - 1) * (page_size as u128);
    let from: usize = if offset < len {
        offset as usize
    } else {
        rows.len()
    };
    let to: usize = if offset + (page_size as u128) < len {
        (offset + page_size as u128) as usize
    } else {
        rows.len()
    };
    rows.truncate(to);
    let kept = rows.split_off(from);
    proof {
        assert(views(kept@) =~= all.subrange(from as int, to as int));
    }
    kept
}

/// Sorts `rows` by falling rank; rows of equal rank keep their order.
pub(crate) fn sort_desc<T: View, K: Fn(&T) -> u64>(
    rows: Vec<T>,
    key: K,
    Ghost(rank): Ghost<spec_fn(T::V) -> int>,
) -> (sorted: Vec<T>)
    requires
        forall|t: &T| #[trigger] key.requires((t,)),
        forall|t: &T, k: u64| #[trigger] key.ensures((t,), k) ==> k == rank(t@),
    ensures
        views(sorted@) == sorted_desc(views(rows@), rank),
{
    let mut rows = rows;
    let ghost all = views(rows@);
    let mut sorted: Vec<T> = Vec::new();
    proof {
        assert(all.subrange(0, 0) =~= Seq::<T::V>::empty());
        assert(views(sorted@) =~= Seq::<T::V>::empty());
        assert(views(rows@) =~= all.subrange(0, all.len() as int));
    }
    while rows.len() > 0
        invariant
            sorted@.len() + rows@.len() == all.len(),
            views(sorted@) == sorted_desc(all.subrange(0, sorted@.len() as int), rank),
            views(rows@) == all.subrange(sorted@.len() as int, all.len() as int),
            forall|t: &T| #[trigger] key.requires((t,)),
            forall|t: &T, k: u64| #[trigger] key.ensures((t,), k) ==> k == rank(t@),
        decreases rows.len(),
    {
        let ghost done = sorted@.len() as int;
        let ghost left = views(rows@);
        let row = rows.remove(0);
        let k: u64 = key(&row);
        let mut at: usize = sorted.len();
        while at > 0 && key(&sorted[at - 1]) < k
            invariant
                at <= sorted.len(),
                k == rank(row@),
                forall|m: int| at <= m < sorted@.len() ==> rank(#[trigger] views(sorted@)[m]) < k,
                forall|t: &T| #[trigger] key.requires((t,)),
                forall|t: &T, k: u64| #[trigger] key.ensures((t,), k) ==> k == rank(t@),
            decreases at,
        {
            at = at - 1;
        }
        proof {
            let before = views(sorted@);
            assert(at == 0 || rank(before[at - 1]) >= k);
            lemma_insert_desc_at(before, row@, rank, at as int);
            assert(row@ == left[0]);
            assert(left[0] == all[done]);
            assert(all.subrange(0, done + 1).drop_last() =~= all.subrange(0, done));
            assert(views(rows@) =~= left.remove(0));
            assert(left.remove(0) =~= all.subrange(done + 1, all.len() as int));
        }
        let ghost before = views(sorted@);
        sorted.insert(at, row);
        proof {
            assert(views(sorted@) =~= before.insert(at as int, row@));
        }
    }
    proof {
        assert(all.subrange(0, all.len() as int) =~= all);
    }
    sorted
}

/// Amounts that agree on every row of a table have the same sum over it.
pub proof fn lemma_sum_agree<V>(rows: Seq<V>, f: spec_fn(V) -> int, g: spec_fn(V) -> int)
    requires
        forall|i: int| 0 <= i < rows.len() ==> f(#[trigger] rows[i]) == g(rows[i]),
    ensures
        sum(rows, f) == sum(rows, g),
    decreases rows.len(),
{
    if rows.len() > 0 {
        let head = rows.drop_last();
        assert forall|i: int| 0 <= i < head.len() implies f(#[trigger] head[i]) == g(head[i]) by {
            assert(head[i] == rows[i]);
        }
        lemma_sum_agree(head, f, g);
        assert(rows.last() == rows[rows.len() - 1]);
    }
}

/// The sum of an amount that is two amounts together is the sum of their sums.
pub proof fn lemma_sum_split<V>(
    rows: Seq<V>,
    both: spec_fn(V) -> int,
    f: spec_fn(V) -> int,
    g: spec_fn(V) -> int,
)
    requires
        forall|v: V| #[trigger] both(v) == f(v) + g(v),
    ensures
        sum(rows, both) == sum(rows, f) + sum(rows, g),
    decreases rows.len(),
{
    if rows.len() > 0 {
        lemma_sum_split(rows.drop_last(), both, f, g);
    }
}

/// The sum over what a selection makes is the sum, over the whole table, of
/// what the selected rows make: of `part`, which is the amount of what a
/// selected row makes and 0 for any other row.
pub proof fn lemma_sum_selected<V, U>(
    rows: Seq<V>,
    hit: spec_fn(V) -> bool,
    to: spec_fn(V) -> U,
    amount: spec_fn(U) -> int,
    part: spec_fn(V) -> int,
)
    requires
        forall|v: V|
            #[trigger] part(v) == if hit(v) {
                amount(to(v))
            } else {
                0
            },
    ensures
        sum(rows.filter(hit).map_values(to), amount) == sum(rows, part),
    decreases rows.len(),
{
    reveal(Seq::filter);
    if rows.len() > 0 {
        let head = rows.drop_last();
        let last = rows.last();
        lemma_sum_selected(head, hit, to, amount, part);
        if hit(last) {
            assert(rows.filter(hit).map_values(to) =~= head.filter(hit).map_values(to).push(
                to(last),
            ));
            lemma_sum_push(head.filter(hit).map_values(to), to(last), amount);
        }
    } else {
        assert(rows.filter(hit).map_values(to) =~= Seq::<U>::empty());
    }
}

/// Sorting does not change a sum.
pub proof fn lemma_sum_sorted<V>(rows: Seq<V>, rank: spec_fn(V) -> int, amount: spec_fn(V) -> int)
    ensures
        sum(sorted_desc(rows, rank), amount) == sum(rows, amount),
    decreases rows.len(),
{
    if rows.len() > 0 {
        lemma_sum_sorted(rows.drop_last(), rank, amount);
        lemma_sum_inserted(sorted_desc(rows.drop_last(), rank), rows.last(), rank, amount);
    }
}

/// Putting a row into a sequence adds the row's amount to the sum.
pub proof fn lemma_sum_inserted<V>(
    sorted: Seq<V>,
    row: V,
    rank: spec_fn(V) -> int,
    amount: spec_fn(V) -> int,
)
    ensures
        sum(insert_desc(sorted, row, rank), amount) == sum(sorted, amount) + amount(row),
    decreases sorted.len(),
{
    if sorted.len() == 0 || rank(sorted.last()) >= rank(row) {
        lemma_sum_push(sorted, row, amount);
    } else {
        lemma_sum_inserted(sorted.drop_last(), row, rank, amount);
        lemma_sum_push(insert_desc(sorted.drop_last(), row, rank), sorted.last(), amount);
    }
}

/// Where an update does not change whether a row is selected, selecting
/// after the update gives the update of the selection.
pub proof fn lemma_filter_updated<V>(
    rows: Seq<V>,
    keep: spec_fn(V) -> bool,
    hit: spec_fn(V) -> bool,
    change: spec_fn(V) -> V,
)
    requires
        forall|v: V| hit(v) ==> keep(#[trigger] change(v)) == keep(v),
    ensures
        updated(rows, hit, change).filter(keep) == updated(rows.filter(keep), hit, change),
    decreases rows.len(),
{
    reveal(Seq::filter);
    if rows.len() > 0 {
        let head = rows.drop_last();
        let last = rows.last();
        lemma_filter_updated(head, keep, hit, change);
        assert(updated(rows, hit, change).drop_last() =~= updated(head, hit, change));
        let new_last = if hit(last) {
            change(last)
        } else {
            last
        };
        assert(updated(rows, hit, change).last() == new_last);
        assert(keep(new_last) == keep(last));
        if keep(last) {
            assert(updated(rows.filter(keep), hit, change) =~= updated(
                head.filter(keep),
                hit,
                change,
            ).push(new_last));
        }
    } else {
        assert(updated(rows, hit, change) =~= rows);
        assert(updated(rows.filter(keep), hit, change) =~= rows.filter(keep));
    }
}

/// Where an update does not change whether a row is selected, the first
/// selected row after the update is the update of the first selected row.
pub proof fn lemma_first_updated<V>(
    rows: Seq<V>,
    keep: spec_fn(V) -> bool,
    hit: spec_fn(V) -> bool,
    change: spec_fn(V) -> V,
)
    requires
        forall|v: V| hit(v) ==> keep(#[trigger] change(v)) == keep(v),
    ensures
        first(updated(rows, hit, change), keep) == match first(rows, keep) {
            Some(v) => Some(
                if hit(v) {
                    change(v)
                } else {
                    v
                },
            ),
            None => None,
        },
{
    lemma_filter_updated(rows, keep, hit, change);
}

/// An update whose rows are not selected after it is done changes nothing
/// when it is repeated with another change.
pub proof fn lemma_updated_once<V>(
    rows: Seq<V>,
    hit: spec_fn(V) -> bool,
    change: spec_fn(V) -> V,
    again: spec_fn(V) -> V,
)
    requires
        forall|v: V| hit(v) ==> !hit(#[trigger] change(v)),
    ensures
        updated(updated(rows, hit, change), hit, again) == updated(rows, hit, change),
{
    assert(updated(updated(rows, hit, change), hit, again) =~= updated(rows, hit, change));
}

/// Whether every row of `rows` satisfies `ok`.
pub open spec fn all<V>(rows: Seq<V>, ok: spec_fn(V) -> bool) -> bool {
    forall|i: int| 0 <= i < rows.len() ==> ok(#[trigger] rows[i])
}

/// Whether `test` accepts every row.
pub(crate) fn all_where<T: View, F: Fn(&T) -> bool>(
    rows: &Vec<T>,
    test: F,
    Ghost(ok): Ghost<spec_fn(T::V) -> bool>,
) -> (b: bool)
    requires
        forall|t: &T| #[trigger] test.requires((t,)),
        forall|t: &T, b: bool| #[trigger] test.ensures((t,), b) ==> b == ok(t@),
    ensures
        b == all(views(rows@), ok),
{
    let mut i: usize = 0;
    while i < rows.len()
        invariant
            i <= rows.len(),
            forall|k: int| 0 <= k < i ==> ok(#[trigger] views(rows@)[k]),
            forall|t: &T| #[trigger] test.requires((t,)),
            forall|t: &T, b: bool| #[trigger] test.ensures((t,), b) ==> b == ok(t@),
        decreases rows.len() - i,
    {
        if !test(&rows[i]) {
            assert(!ok(views(rows@)[i as int]));
            return false;
        }
        i = i + 1;
    }
    assert(views(rows@).len() == rows@.len());
    true
}

/// Whether the rows carry the keys that a counter at `next` has handed out.
pub(crate) fn is_keyed<T: View, K: Fn(&T) -> Option<i32>>(
    rows: &Vec<T>,
    key_of: K,
    next: i32,
    Ghost(key): Ghost<spec_fn(T::V) -> Option<i32>>,
) -> (b: bool)
    requires
        forall|t: &T| #[trigger] key_of.requires((t,)),
        forall|t: &T, k: Option<i32>| #[trigger] key_of.ensures((t,), k) ==> k == key(t@),
    ensures
        b == keyed(views(rows@), key, next),
{
    if next < 1 {
        return false;
    }
    let ghost all = views(rows@);
    assert(all.len() == rows@.len());
    let mut last: i32 = 0;
    let mut i: usize = 0;
    while i < rows.len()
        invariant
            i <= rows.len(),
            all == views(rows@),
            1 <= next,
            0 <= last < next,
            i > 0 ==> key(all[i - 1]) == Some(last),
            i == 0 ==> last == 0,
            forall|k: int|
                0 <= k < i ==> (#[trigger] key(all[k])) is Some && 1 <= key(all[k]).unwrap()
                    <= last,
            forall|k: int, l: int|
                0 <= k < l < i ==> (#[trigger] key(all[k])).unwrap() < (#[trigger] key(
                    all[l],
                )).unwrap(),
            forall|t: &T| #[trigger] key_of.requires((t,)),
            forall|t: &T, k: Option<i32>| #[trigger] key_of.ensures((t,), k) ==> k == key(t@),
        decreases rows.len() - i,
    {
        match key_of(&rows[i]) {
            Some(id) => {
                if id <= last || id >= next {
                    proof {
                        assert(key(all[i as int]) == Some(id));
                        if keyed(all, key, next) {
                            assert(1 <= key(all[i as int]).unwrap() < next);
                            if i > 0 {
                                assert(key(all[i - 1]).unwrap() < key(all[i as int]).unwrap());
                            }
                            assert(false);
                        }
                    }
                    return false;
                }
                last = id;
            },
            None => {
                assert(key(all[i as int]) is None);
                return false;
            },
        }
        i = i + 1;
    }
    true
}

/// Selecting every row selects the table.
pub proof fn lemma_filter_all<V>(rows: Seq<V>)
    ensures
        rows.filter(|v: V| true) == rows,
    decreases rows.len(),
{
    reveal(Seq::filter);
    if rows.len() > 0 {
        lemma_filter_all(rows.drop_last());
        assert(rows =~= rows.drop_last().push(rows.last()));
    }
}

/// A copy of the table, row by row.
pub(crate) fn copy_rows<T: View, C: Fn(&T) -> T>(rows: &Vec<T>, copy: C) -> (copied: Vec<T>)
    requires
        forall|t: &T| #[trigger] copy.requires((t,)),
        forall|t: &T, r: T| #[trigger] copy.ensures((t,), r) ==> r@ == t@,
    ensures
        views(copied@) == views(rows@),
{
    let every = |t: &T| -> (b: bool)
        ensures
            b == true,
        { true };
    proof {
        lemma_filter_all(views(rows@));
    }
    select_where(rows, every, copy, Ghost(|v: T::V| true))
}

/// A deletion that selects no row changes nothing.
pub proof fn lemma_without_none<V>(rows: Seq<V>, doomed: spec_fn(V) -> bool)
    requires
        forall|i: int| 0 <= i < rows.len() ==> !doomed(#[trigger] rows[i]),
    ensures
        without(rows, doomed) == rows,
    decreases rows.len(),
{
    reveal(Seq::filter);
    if rows.len() > 0 {
        let head = rows.drop_last();
        assert forall|i: int| 0 <= i < head.len() implies !doomed(#[trigger] head[i]) by {
            assert(head[i] == rows[i]);
        }
        lemma_without_none(head, doomed);
        assert(!doomed(rows[rows.len() - 1]));
        assert(rows =~= head.push(rows.last()));
    }
}

/// After a deletion no row is left that the deletion selects.
pub proof fn lemma_without_leaves_none<V>(rows: Seq<V>, doomed: spec_fn(V) -> bool)
    ensures
        count(without(rows, doomed), doomed) == 0,
{
    let keep = |v: V| !doomed(v);
    let left = rows.filter(keep);
    lemma_filter_embeds(rows, keep);
    lemma_filter_embeds(left, doomed);
    if left.filter(doomed).len() > 0 {
        let k = choose|k: int| 0 <= k < left.len() && left[k] == left.filter(doomed)[0];
        assert(keep(left[k]));
        assert(doomed(left.filter(doomed)[0]));
    }
}

/// A selection that no row satisfies selects nothing.
pub proof fn lemma_none_selected<V>(rows: Seq<V>, hit: spec_fn(V) -> bool)
    requires
        forall|i: int| 0 <= i < rows.len() ==> !hit(#[trigger] rows[i]),
    ensures
        count(rows, hit) == 0,
{
    lemma_filter_embeds(rows, hit);
    if rows.filter(hit).len() > 0 {
        let k = choose|k: int| 0 <= k < rows.len() && rows[k] == rows.filter(hit)[0];
        assert(hit(rows[k]));
    }
}

} // verus!
