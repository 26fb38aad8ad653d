//! What holds of the panes and of the queue, whatever was done to them.

use vstd::prelude::*;

use crate::sftp::browser::{drop_named, without_all, without_transfer, PaneView, SftpView};
use crate::sftp::listing::{arranged, listing_is_sorted};
use crate::sftp::model::{FileEntryView, Side, TransferView};
use crate::text::{lowercase, occurs_in};

verus! {

proof fn lemma_visible(pane: PaneView, n: nat)
    requires
        n <= pane.entries.len(),
    ensures
        pane.visible_to(n).len() <= n,
        forall|i: int|
            0 <= i < pane.visible_to(n).len() ==> pane.shows(#[trigger] pane.visible_to(n)[i])
                && pane.entries.contains(pane.visible_to(n)[i]),
        forall|k: int|
            0 <= k < n && pane.shows(#[trigger] pane.entries[k]) ==> pane.visible_to(n).contains(
                pane.entries[k],
            ),
    decreases n,
{
    if n > 0 {
        let m = (n - 1) as nat;
        lemma_visible(pane, m);
        let before = pane.visible_to(m);
        let all = pane.visible_to(n);
        assert forall|k: int| 0 <= k < n && pane.shows(#[trigger] pane.entries[k]) implies
            all.contains(pane.entries[k]) by {
            if k == m {
                assert(all[all.len() - 1] == pane.entries[k]);
            } else {
                assert(before.contains(pane.entries[k]));
                let i = choose|i: int| 0 <= i < before.len() && before[i] == pane.entries[k];
                assert(all[i] == pane.entries[k]);
            }
        }
        assert forall|i: int| 0 <= i < all.len() implies pane.shows(#[trigger] all[i])
            && pane.entries.contains(all[i]) by {
            if i < before.len() {
                assert(all[i] == before[i]);
            } else {
                assert(all[i] == pane.entries[m as int]);
            }
        }
    }
}

/// A pane shows the rows that the filter and the dotfile setting let through,
/// all of them and no others.
pub proof fn panes_show_what_passes(pane: PaneView, entry: FileEntryView)
    ensures
        pane.visible().contains(entry) <==> pane.entries.contains(entry) && pane.shows(entry),
{
    lemma_visible(pane, pane.entries.len());
    if pane.entries.contains(entry) && pane.shows(entry) {
        let k = choose|k: int| 0 <= k < pane.entries.len() && pane.entries[k] == entry;
        assert(pane.shows(pane.entries[k]));
    }
}

/// Whether the selection of a pane is on one of its rows.
pub open spec fn on_a_row(pane: PaneView) -> bool {
    pane.selected < pane.visible().len()
}

/// However a directory is listed, filtered or shown, there is a row that leads
/// up and the selection is on a row; moving the selection keeps it on one.
pub proof fn the_selection_is_on_a_row(
    pane: PaneView,
    entries: Seq<FileEntryView>,
    filter: Seq<char>,
    down: bool,
)
    ensures
        ({
            let listed = pane.with_entries(entries);
            &&& listed.visible().contains(FileEntryView::parent())
            &&& on_a_row(listed)
            &&& on_a_row(listed.with_filter(filter))
        }),
        on_a_row(pane) ==> on_a_row(pane.selection_moved(down)),
{
    let listed = pane.with_entries(entries);
    assert(listed.entries[0] == FileEntryView::parent());
    panes_show_what_passes(listed, FileEntryView::parent());
    let raw = PaneView { entries: seq![FileEntryView::parent()] + entries, ..pane };
    lemma_same_rows(raw, listed, raw.entries.len());
    let filtered = listed.with_filter(filter);
    assert(filtered.entries[0] == FileEntryView::parent());
    panes_show_what_passes(filtered, FileEntryView::parent());
    lemma_same_rows(pane, pane.selection_moved(down), pane.entries.len());
}

/// Which rows are shown does not depend on which one is selected.
proof fn lemma_same_rows(one: PaneView, other: PaneView, n: nat)
    requires
        one.entries == other.entries,
        one.filter == other.filter,
        one.show_hidden == other.show_hidden,
    ensures
        one.visible_to(n) == other.visible_to(n),
    decreases n,
{
    if n > 0 && n <= one.entries.len() {
        lemma_same_rows(one, other, (n - 1) as nat);
    }
}

proof fn lemma_without(queue: Seq<TransferView>, done: TransferView, item: TransferView)
    ensures
        without_transfer(queue, done).contains(item) <==> queue.contains(item) && item != done,
    decreases queue.len(),
{
    if queue.len() > 0 {
        let fewer = queue.drop_last();
        let before = without_transfer(fewer, done);
        let after = without_transfer(queue, done);
        lemma_without(fewer, done, item);
        assert(queue =~= fewer.push(queue.last()));
        if queue.contains(item) && item != done {
            if fewer.contains(item) {
                let i = choose|i: int| 0 <= i < before.len() && before[i] == item;
                assert(after[i] == item);
            } else {
                let i = choose|i: int| 0 <= i < queue.len() && queue[i] == item;
                assert(i == fewer.len()) by {
                    if i < fewer.len() {
                        assert(fewer[i] == item);
                    }
                }
                assert(after[after.len() - 1] == item);
            }
        }
        if after.contains(item) {
            let i = choose|i: int| 0 <= i < after.len() && after[i] == item;
            if i < before.len() {
                assert(before[i] == item);
                let k = choose|k: int| 0 <= k < fewer.len() && fewer[k] == item;
                assert(queue[k] == item);
            } else {
                assert(queue[queue.len() - 1] == item);
            }
        }
    }
}

/// When a run ends, what was sent leaves the queue, and nothing else does.
pub proof fn a_run_takes_what_was_sent(
    queue: Seq<TransferView>,
    sent: Seq<TransferView>,
    item: TransferView,
)
    ensures
        without_all(queue, sent).contains(item) <==> queue.contains(item) && !sent.contains(item),
    decreases sent.len(),
{
    if sent.len() > 0 {
        let fewer = sent.drop_last();
        a_run_takes_what_was_sent(queue, fewer, item);
        lemma_without(without_all(queue, fewer), sent.last(), item);
        assert(sent =~= fewer.push(sent.last()));
        if sent.contains(item) && item != sent.last() {
            let i = choose|i: int| 0 <= i < sent.len() && sent[i] == item;
            assert(fewer[i] == item);
        }
        if fewer.contains(item) {
            let i = choose|i: int| 0 <= i < fewer.len() && fewer[i] == item;
            assert(sent[i] == item);
        }
        assert(sent[sent.len() - 1] == sent.last());
    }
}

/// Unstaging takes back what was staged last, and nothing else.
pub proof fn unstaging_undoes_staging(browser: SftpView, toward: Side)
    requires
        browser.staged(toward) is Ok,
    ensures
        browser.staged(toward)->Ok_0.last_unstaged() == browser,
{
    let staged = browser.staged(toward)->Ok_0;
    assert(staged.queue.drop_last() =~= browser.queue);
}

/// Showing dotfiles and hiding them again changes nothing but, where a row went
/// missing, the selection.
pub proof fn toggling_dotfiles_twice_restores_them(browser: SftpView)
    requires
        browser.local.show_hidden == browser.remote.show_hidden,
    ensures
        ({
            let twice = browser.hidden_toggled().hidden_toggled();
            &&& twice == (SftpView {
                remote: PaneView { selected: twice.remote.selected, ..browser.remote },
                local: PaneView { selected: twice.local.selected, ..browser.local },
                ..browser
            })
        }),
{
}

proof fn lemma_drop_named(entries: Seq<FileEntryView>, name: Seq<char>)
    ensures
        drop_named(entries, name) == entries.filter(|entry: FileEntryView| entry.name != name),
    decreases entries.len(),
{
    reveal(Seq::filter);
    if entries.len() > 0 {
        lemma_drop_named(entries.drop_last(), name);
    } else {
        assert(entries =~= Seq::empty());
    }
}

/// A row that is dropped from a pane goes, the others stay in their order, and
/// nothing else of the pane changes but for a selection that would be off its
/// rows.
pub proof fn dropping_a_row_spares_the_others(pane: PaneView, name: Seq<char>)
    ensures
        pane.without_named(name).entries == pane.entries.filter(
            |entry: FileEntryView| entry.name != name,
        ),
        pane.without_named(name) == (PaneView {
            entries: pane.without_named(name).entries,
            selected: pane.without_named(name).selected,
            ..pane
        }),
        pane.without_named(name).selected <= pane.selected,
{
    lemma_drop_named(pane.entries, name);
}

/// A listing shows directories before files.
pub proof fn directories_are_listed_first(rows: Seq<FileEntryView>, i: int, j: int)
    requires
        0 <= i < j < arranged(rows).len(),
        arranged(rows)[j].is_dir,
    ensures
        arranged(rows)[i].is_dir,
{
    listing_is_sorted(rows);
}

/// The selection of a pane moves by one row, down to the last and up to the
/// first, and nothing else moves with it.
pub proof fn the_selection_moves_by_a_row(pane: PaneView)
    requires
        pane.selected < pane.visible().len(),
    ensures
        pane.selection_moved(true).selected == if pane.selected + 1 < pane.visible().len() {
            pane.selected + 1
        } else {
            pane.selected
        },
        pane.selection_moved(false).selected == if pane.selected > 0 {
            (pane.selected - 1) as nat
        } else {
            0
        },
        pane.selection_moved(true) == (PaneView {
            selected: pane.selection_moved(true).selected,
            ..pane
        }),
        pane.selection_moved(false) == (PaneView {
            selected: pane.selection_moved(false).selected,
            ..pane
        }),
{
}

proof fn lemma_visible_rows(pane: PaneView, n: nat)
    requires
        n <= pane.entries.len(),
    ensures
        pane.visible_to(n) == pane.entries.take(n as int).filter(
            |entry: FileEntryView|
                entry.name == seq!['.', '.'] || ((pane.show_hidden || !(entry.name.len() > 0
                    && entry.name[0] == '.')) && (pane.filter.len() == 0 || occurs_in(
                    lowercase(entry.name),
                    lowercase(pane.filter),
                ))),
        ),
    decreases n,
{
    reveal(Seq::filter);
    reveal_strlit("..");
    assert(".."@ =~= seq!['.', '.']);
    let rows = pane.entries.take(n as int);
    if n > 0 {
        lemma_visible_rows(pane, (n - 1) as nat);
        assert(rows.drop_last() =~= pane.entries.take(n - 1));
        assert(rows.last() == pane.entries[n - 1]);
    } else {
        assert(rows =~= Seq::empty());
    }
}

/// A pane shows its rows in the order of the listing: the one that leads up
/// always; of the others the dotfiles only where they are asked for; and, while
/// a filter is typed, only those whose names hold it, whatever the case.
pub proof fn dotfiles_and_filters_hide_rows(pane: PaneView)
    ensures
        pane.visible() == pane.entries.filter(
            |entry: FileEntryView|
                entry.name == seq!['.', '.'] || ((pane.show_hidden || !(entry.name.len() > 0
                    && entry.name[0] == '.')) && (pane.filter.len() == 0 || occurs_in(
                    lowercase(entry.name),
                    lowercase(pane.filter),
                ))),
        ),
{
    lemma_visible_rows(pane, pane.entries.len());
    assert(pane.entries.take(pane.entries.len() as int) =~= pane.entries);
}

} // verus!
