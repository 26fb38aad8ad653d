//! What a staged transfer reads and where it writes.

use vstd::prelude::*;

use crate::paths::joined;
use crate::sftp::browser::{PaneView, SftpView};
use crate::sftp::model::{FileEntryView, Side};

verus! {

/// The pane that has the keyboard.
pub open spec fn watched(browser: SftpView) -> PaneView {
    if browser.focus is Local {
        browser.local
    } else {
        browser.remote
    }
}

/// The other pane.
pub open spec fn across(browser: SftpView) -> PaneView {
    if browser.focus is Local {
        browser.remote
    } else {
        browser.local
    }
}

/// Whether a row is the one that is selected in a pane.
pub open spec fn is_on(pane: PaneView, entry: FileEntryView) -> bool {
    0 <= pane.selected < pane.visible().len() && pane.visible()[pane.selected as int] == entry
}

/// Whether a row is one that something can be done to: not the one that leads
/// up.
pub open spec fn names_something(entry: FileEntryView) -> bool {
    entry.name != seq!['.', '.']
}

/// A staged transfer reads from the pane with the keyboard and writes below the
/// directory of the other: from the local pane it is an upload, from the remote
/// one a download, under the name of the selected row on both sides. It is put
/// behind what is queued, and nothing else changes.
pub proof fn transfers_leave_the_pane_with_the_keyboard(browser: SftpView, toward: Side)
    ensures
        browser.staged(toward) matches Ok(after) ==> {
            let item = after.queue.last();
            &&& after.queue.len() == browser.queue.len() + 1
            &&& after.queue.drop_last() == browser.queue
            &&& after == SftpView { queue: after.queue, ..browser }
            &&& browser.focus is Local ==> item.direction is Upload && toward is Remote
            &&& browser.focus is Remote ==> item.direction is Download && toward is Local
            &&& item.src == joined(watched(browser).cwd, item.name)
            &&& item.dst == joined(across(browser).cwd, item.name)
            &&& exists|entry: FileEntryView| #[trigger]
                is_on(watched(browser), entry) && names_something(entry) && entry.name == item.name
                    && entry.is_dir == item.is_dir
        },
{
    reveal_strlit("..");
    assert(".."@ =~= seq!['.', '.']);
    if let Ok(after) = browser.staged(toward) {
        assert(after.queue.drop_last() =~= browser.queue);
        let pane = watched(browser);
        assert(is_on(pane, pane.visible()[pane.selected as int]));
    }
}

/// Every selected file or directory can be staged toward the other pane, and
/// nothing can be staged toward its own.
pub proof fn rows_can_be_staged_across(browser: SftpView, entry: FileEntryView, toward: Side)
    ensures
        browser.staged(toward) is Ok <==> (browser.focus is Local <==> toward is Remote) && (
        exists|entry: FileEntryView| #[trigger]
            is_on(watched(browser), entry) && names_something(entry)),
        is_on(watched(browser), entry) && names_something(entry) && (browser.focus is Local
            <==> toward is Remote) ==> (browser.staged(toward) matches Ok(after)
            && after.queue.last().name == entry.name && after.queue.last().is_dir == entry.is_dir),
{
    reveal_strlit("..");
    assert(".."@ =~= seq!['.', '.']);
    let pane = watched(browser);
    if browser.staged(toward) is Ok {
        assert(is_on(pane, pane.visible()[pane.selected as int]));
    }
}

/// Switching the pane turns a transfer round: what is staged then goes the other
/// way.
pub proof fn switching_panes_turns_transfers_round(browser: SftpView)
    ensures
        ({
            let switched = browser.pane_switched();
            &&& watched(switched) == across(browser)
            &&& across(switched) == watched(browser)
            &&& switched == SftpView { focus: switched.focus, ..browser }
            &&& switched.pane_switched() == browser
            &&& browser.staged(Side::Local) is Ok ==> switched.staged(Side::Local) is Err
            &&& browser.staged(Side::Remote) is Ok ==> switched.staged(Side::Remote) is Err
        }),
{
}

} // verus!
