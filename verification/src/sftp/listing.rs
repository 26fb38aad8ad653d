//! The order of a directory listing.

use core::cmp::Ordering;

use vstd::prelude::*;

use crate::app::host_list::{lemma_text_order, order_texts, text_order};
use crate::sftp::model::{FileEntry, FileEntryView};
use crate::text::{lowercase, views};

verus! {

broadcast use crate::text::group_views;

/// Whether a row stands below another: directories come first, then names
/// without regard to case.
pub open spec fn below(a: FileEntryView, b: FileEntryView) -> bool {
    if a.is_dir != b.is_dir {
        b.is_dir
    } else {
        text_order(lowercase(a.name), lowercase(b.name)) is Greater
    }
}

fn is_below(a: &FileEntry, b: &FileEntry) -> (r: bool)
    ensures
        r == below(a@, b@),
{
    if a.is_dir != b.is_dir {
        return b.is_dir;
    }
    let x = a.name.as_str().to_lowercase();
    let y = b.name.as_str().to_lowercase();
    match order_texts(x.as_str(), y.as_str()) {
        Ordering::Greater => true,
        _ => false,
    }
}

/// The rows with one more, which stands after all those that need not stand
/// below it.
pub open spec fn placed(rows: Seq<FileEntryView>, row: FileEntryView) -> Seq<FileEntryView>
    decreases rows.len(),
{
    if rows.len() > 0 && below(rows.last(), row) {
        placed(rows.drop_last(), row).push(rows.last())
    } else {
        rows.push(row)
    }
}

/// The rows in order; rows that tie stand as they came.
pub open spec fn arranged(rows: Seq<FileEntryView>) -> Seq<FileEntryView>
    decreases rows.len(),
{
    if rows.len() == 0 {
        rows
    } else {
        placed(arranged(rows.drop_last()), rows.last())
    }
}

fn place(rows: &mut Vec<FileEntry>, row: FileEntry)
    ensures
        views(final(rows)@) == placed(views(old(rows)@), row@),
{
    let ghost before = views(rows@);
    let n: usize = rows.len();
    let mut at: usize = n;
    assert(before.take(n as int) =~= before);
    assert(before.skip(n as int) =~= Seq::empty());
    assert(placed(before, row@) + Seq::empty() =~= placed(before, row@));
    while at > 0 && is_below(&rows[at - 1], &row)
        invariant
            at <= n,
            n == rows@.len(),
            before == views(rows@),
            placed(before, row@) == placed(before.take(at as int), row@) + before.skip(at as int),
        decreases at,
    {
        let ghost head = before.take(at as int);
        assert(head.last() == rows@[at - 1]@);
        assert(head.drop_last() =~= before.take(at - 1));
        assert(placed(head.drop_last(), row@).push(head.last()) + before.skip(at as int)
            =~= placed(head.drop_last(), row@) + before.skip(at - 1));
        at = at - 1;
    }
    assert(at > 0 ==> before.take(at as int).last() == rows@[at - 1]@);
    assert(before.take(at as int).push(row@) + before.skip(at as int) =~= before.insert(
        at as int,
        row@,
    ));
    rows.insert(at, row);
}

/// Put a directory's entries in the order in which they are listed.
pub fn sort_listing(entries: Vec<FileEntry>) -> (r: Vec<FileEntry>)
    ensures
        views(r@) == arranged(views(entries@)),
{
    let ghost all = views(entries@);
    let mut rows: Vec<FileEntry> = Vec::new();
    let mut i: usize = 0;
    while i < entries.len()
        invariant
            i <= entries@.len(),
            all == views(entries@),
            views(rows@) == arranged(all.take(i as int)),
        decreases entries@.len() - i,
    {
        place(&mut rows, entries[i].clone());
        assert(all.take(i + 1).drop_last() =~= all.take(i as int));
        assert(all.take(i + 1).last() == entries@[i as int]@);
        i = i + 1;
    }
    assert(all.take(i as int) =~= all);
    rows
}

/// Whether no row stands above one that it should stand below.
pub open spec fn in_order(rows: Seq<FileEntryView>) -> bool {
    forall|i: int, j: int|
        0 <= i < j < rows.len() ==> !below(#[trigger] rows[i], #[trigger] rows[j])
}

/// Standing below is a strict order: of two rows not both stand below the other,
/// and rows that need not stand below each other can be chained.
proof fn lemma_below(a: FileEntryView, b: FileEntryView, c: FileEntryView)
    ensures
        below(a, b) ==> !below(b, a),
        !below(a, b) && !below(b, c) ==> !below(a, c),
{
    let (x, y, z) = (lowercase(a.name), lowercase(b.name), lowercase(c.name));
    lemma_text_order(x, y, z);
    lemma_text_order(y, z, x);
}

proof fn lemma_placed(rows: Seq<FileEntryView>, row: FileEntryView)
    requires
        in_order(rows),
    ensures
        in_order(placed(rows, row)),
        placed(rows, row).to_multiset() == rows.push(row).to_multiset(),
    decreases rows.len(),
{
    broadcast use vstd::seq_lib::group_to_multiset_ensures;

    let after = placed(rows, row);
    if rows.len() > 0 && below(rows.last(), row) {
        let fewer = rows.drop_last();
        lemma_placed(fewer, row);
        let inner = placed(fewer, row);
        assert(rows =~= fewer.push(rows.last()));
        assert(fewer.push(row).push(rows.last()).to_multiset() =~= rows.push(row).to_multiset());
        assert forall|i: int, j: int| 0 <= i < j < after.len() implies !below(
            #[trigger] after[i],
            #[trigger] after[j],
        ) by {
            if j == after.len() - 1 {
                assert(inner.contains(inner[i]));
                assert(inner.to_multiset().contains(inner[i]));
                assert(fewer.push(row).to_multiset().contains(inner[i]));
                assert(fewer.push(row).contains(inner[i]));
                let k = choose|k: int|
                    0 <= k < fewer.push(row).len() && fewer.push(row)[k] == inner[i];
                if k < fewer.len() {
                    assert(rows[k] == inner[i]);
                    assert(!below(rows[k], rows[rows.len() - 1]));
                } else {
                    lemma_below(rows.last(), row, row);
                }
            } else {
                assert(after[i] == inner[i] && after[j] == inner[j]);
            }
        }
    } else {
        assert forall|i: int, j: int| 0 <= i < j < after.len() implies !below(
            #[trigger] after[i],
            #[trigger] after[j],
        ) by {
            if j == rows.len() {
                if i < rows.len() - 1 {
                    assert(!below(rows[i], rows[rows.len() - 1]));
                    lemma_below(rows[i], rows.last(), row);
                }
            } else {
                assert(after[i] == rows[i] && after[j] == rows[j]);
            }
        }
    }
}

/// A listing holds what it was given, each row as often, and is in order.
pub proof fn listing_is_sorted(rows: Seq<FileEntryView>)
    ensures
        in_order(arranged(rows)),
        arranged(rows).to_multiset() == rows.to_multiset(),
    decreases rows.len(),
{
    broadcast use vstd::seq_lib::group_to_multiset_ensures;

    if rows.len() > 0 {
        let fewer = rows.drop_last();
        listing_is_sorted(fewer);
        lemma_placed(arranged(fewer), rows.last());
        assert(rows =~= fewer.push(rows.last()));
        assert(arranged(fewer).push(rows.last()).to_multiset() =~= rows.to_multiset());
    }
}

} // verus!
