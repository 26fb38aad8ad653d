//! The dual-pane file browser: two directory listings, a queue of transfers to
//! run between them, and where the run stands.

use vstd::prelude::*;

use crate::paths::{above, directory_above, join, joined};
use crate::sftp::model::{Direction, FileEntry, FileEntryView, QueuedTransfer, Side, TransferView};
use crate::text::{
    contains_text, group_views, len, lowercase, occurs_in, opt_view, same, starts_with_char, views,
};

verus! {

broadcast use crate::text::group_views;

/// Which pane has the keyboard.
#[derive(Debug, Clone, Copy, PartialEq, Eq, Structural)]
pub enum Focus {
    Local,
    Remote,
}

/// Whether transfers are running.
#[derive(Debug, Clone, Copy, PartialEq, Eq, Structural)]
pub enum Phase {
    Browsing,
    Running,
}

/// How far the running transfers are.
#[derive(Debug, Clone, Copy, PartialEq, Eq, Structural)]
pub struct Progress {
    pub index: usize,
    pub total: usize,
    pub transferred: u64,
    pub size: u64,
}

impl FileEntryView {
    /// The row that leads to the parent directory.
    pub open spec fn parent() -> FileEntryView {
        FileEntryView { name: ".."@, is_dir: true, size: 0, is_symlink: false, perm: None }
    }

    pub open spec fn is_parent(self) -> bool {
        self.name == ".."@
    }
}

impl FileEntry {
    /// The row that leads to the parent directory.
    pub fn parent_row() -> (r: FileEntry)
        ensures
            r@ == FileEntryView::parent(),
    {
        FileEntry { name: "..".to_owned(), is_dir: true, size: 0, is_symlink: false, perm: None }
    }

    pub fn is_parent(&self) -> (r: bool)
        ensures
            r == self@.is_parent(),
    {
        same(self.name.as_str(), "..")
    }
}

/// One directory listing. The first row leads to the parent directory.
#[derive(Debug, PartialEq, Eq)]
pub struct Pane {
    pub cwd: String,
    pub entries: Vec<FileEntry>,
    /// The selected row among those that are visible.
    pub selected: usize,
    pub filter: String,
    pub show_hidden: bool,
}

#[verifier::ext_equal]
pub struct PaneView {
    pub cwd: Seq<char>,
    pub entries: Seq<FileEntryView>,
    pub selected: nat,
    pub filter: Seq<char>,
    pub show_hidden: bool,
}

impl View for Pane {
    type V = PaneView;

    open spec fn view(&self) -> PaneView {
        PaneView {
            cwd: self.cwd@,
            entries: views(self.entries@),
            selected: self.selected as nat,
            filter: self.filter@,
            show_hidden: self.show_hidden,
        }
    }
}

impl PaneView {
    pub open spec fn new(cwd: Seq<char>) -> PaneView {
        PaneView {
            cwd,
            entries: Seq::empty(),
            selected: 0,
            filter: Seq::empty(),
            show_hidden: false,
        }
    }

    /// Whether a row is shown: the parent row always, the others as the filter
    /// and the dotfile setting let them.
    pub open spec fn shows(self, entry: FileEntryView) -> bool {
        entry.is_parent() || {
            &&& self.show_hidden || !(entry.name.len() > 0 && entry.name[0] == '.')
            &&& self.filter.len() == 0 || occurs_in(lowercase(entry.name), lowercase(self.filter))
        }
    }

    /// The rows that are shown among the first `n`.
    pub open spec fn visible_to(self, n: nat) -> Seq<FileEntryView>
        decreases n,
    {
        if n == 0 || n > self.entries.len() {
            Seq::empty()
        } else {
            let before = self.visible_to((n - 1) as nat);
            if self.shows(self.entries[n - 1]) {
                before.push(self.entries[n - 1])
            } else {
                before
            }
        }
    }

    pub open spec fn visible(self) -> Seq<FileEntryView> {
        self.visible_to(self.entries.len())
    }

    pub open spec fn selected_entry_spec(self) -> Option<FileEntryView> {
        if self.selected < self.visible().len() {
            Some(self.visible()[self.selected as int])
        } else {
            None
        }
    }

    /// The selection pulled back onto the last visible row.
    pub open spec fn clamped(self) -> PaneView {
        let n = self.visible().len();
        PaneView {
            selected: if n == 0 {
                0
            } else if self.selected >= n {
                (n - 1) as nat
            } else {
                self.selected
            },
            ..self
        }
    }

    /// The pane with a fresh listing.
    pub open spec fn with_entries(self, entries: Seq<FileEntryView>) -> PaneView {
        PaneView { entries: seq![FileEntryView::parent()] + entries, ..self }.clamped()
    }

    pub open spec fn moved_to(self, cwd: Seq<char>, entries: Seq<FileEntryView>) -> PaneView {
        PaneView { cwd, ..self }.with_entries(entries)
    }

    /// The pane after the selection moved, held at both ends.
    pub open spec fn selection_moved(self, down: bool) -> PaneView {
        PaneView {
            selected: if down {
                if self.selected + 1 < self.visible().len() {
                    self.selected + 1
                } else {
                    self.selected
                }
            } else if self.selected > 0 {
                (self.selected - 1) as nat
            } else {
                0
            },
            ..self
        }
    }

    /// The pane without the rows of this name.
    pub open spec fn without_named(self, name: Seq<char>) -> PaneView {
        PaneView { entries: drop_named(self.entries, name), ..self }.clamped()
    }

    pub open spec fn with_filter(self, filter: Seq<char>) -> PaneView {
        PaneView { filter, selected: 0, ..self }
    }
}

/// The rows that do not have this name.
pub open spec fn drop_named(entries: Seq<FileEntryView>, name: Seq<char>) -> Seq<FileEntryView>
    decreases entries.len(),
{
    if entries.len() == 0 {
        Seq::empty()
    } else {
        let before = drop_named(entries.drop_last(), name);
        if entries.last().name == name {
            before
        } else {
            before.push(entries.last())
        }
    }
}

impl Pane {
    pub fn new(cwd: &str) -> (r: Pane)
        ensures
            r@ == PaneView::new(cwd@),
    {
        let r = Pane {
            cwd: cwd.to_owned(),
            entries: Vec::new(),
            selected: 0,
            filter: String::new(),
            show_hidden: false,
        };
        assert(r@.filter =~= Seq::empty());
        r
    }

    fn shows(&self, entry: &FileEntry) -> (r: bool)
        ensures
            r == self@.shows(entry@),
    {
        if entry.is_parent() {
            return true;
        }
        if !self.show_hidden && starts_with_char(entry.name.as_str(), '.') {
            return false;
        }
        if len(self.filter.as_str()) == 0 {
            return true;
        }
        let name = entry.name.as_str().to_lowercase();
        let filter = self.filter.as_str().to_lowercase();
        contains_text(name.as_str(), filter.as_str())
    }

    /// The rows that are shown, top to bottom.
    pub fn visible_entries(&self) -> (r: Vec<FileEntry>)
        ensures
            views(r@) == self@.visible(),
    {
        let mut out: Vec<FileEntry> = Vec::new();
        let mut i: usize = 0;
        assert(self@.entries.len() == self.entries@.len());
        while i < self.entries.len()
            invariant
                i <= self.entries@.len(),
                self@.entries.len() == self.entries@.len(),
                views(out@) == self@.visible_to(i as nat),
            decreases self.entries@.len() - i,
        {
            assert(self@.entries[i as int] == self.entries@[i as int]@);
            if self.shows(&self.entries[i]) {
                out.push(self.entries[i].clone());
            }
            i = i + 1;
        }
        out
    }

    pub fn visible_count(&self) -> (r: usize)
        ensures
            r == self@.visible().len(),
    {
        let rows = self.visible_entries();
        assert(views(rows@).len() == rows@.len());
        rows.len()
    }

    /// The selected row.
    pub fn selected_entry(&self) -> (r: Option<FileEntry>)
        ensures
            opt_view(r) == self@.selected_entry_spec(),
    {
        let rows = self.visible_entries();
        assert(views(rows@).len() == rows@.len());
        if self.selected < rows.len() {
            assert(views(rows@)[self.selected as int] == rows@[self.selected as int]@);
            Some(rows[self.selected].clone())
        } else {
            None
        }
    }

    fn clamp(&mut self)
        ensures
            final(self)@ == old(self)@.clamped(),
    {
        let count: usize = self.visible_count();
        if count == 0 {
            self.selected = 0;
        } else if self.selected >= count {
            self.selected = count - 1;
        }
    }

    /// Show a fresh listing.
    pub fn set_entries(&mut self, entries: Vec<FileEntry>)
        ensures
            final(self)@ == old(self)@.with_entries(views(entries@)),
    {
        let mut rows: Vec<FileEntry> = Vec::new();
        rows.push(FileEntry::parent_row());
        assert(views(rows@) =~= seq![FileEntryView::parent()]);
        let ghost listed = views(entries@);
        let mut entries = entries;
        rows.append(&mut entries);
        assert(views(rows@) =~= seq![FileEntryView::parent()] + listed);
        self.entries = rows;
        self.clamp();
    }

    pub fn move_selection(&mut self, down: bool)
        ensures
            final(self)@ == old(self)@.selection_moved(down),
    {
        let count: usize = self.visible_count();
        if down {
            if self.selected < count && self.selected + 1 < count {
                self.selected = self.selected + 1;
            }
        } else if self.selected > 0 {
            self.selected = self.selected - 1;
        }
    }

    /// Take the rows of this name out.
    pub fn remove_named(&mut self, name: &str)
        ensures
            final(self)@ == old(self)@.without_named(name@),
    {
        let ghost all = views(self.entries@);
        let mut rows: Vec<FileEntry> = Vec::new();
        let mut i: usize = 0;
        assert(all.take(0) =~= Seq::empty());
        while i < self.entries.len()
            invariant
                i <= self.entries@.len(),
                all == views(self.entries@),
                views(rows@) == drop_named(all.take(i as int), name@),
            decreases self.entries@.len() - i,
        {
            assert(all.take(i + 1).drop_last() =~= all.take(i as int));
            assert(all.take(i + 1).last() == self.entries@[i as int]@);
            if !same(self.entries[i].name.as_str(), name) {
                rows.push(self.entries[i].clone());
            }
            i = i + 1;
        }
        assert(all.take(self.entries@.len() as int) =~= all);
        self.entries = rows;
        self.clamp();
    }
}

/// Why a row was not staged for transfer.
#[derive(Debug, Clone, Copy, PartialEq, Eq, Structural)]
pub enum StageError {
    /// The pane it would go to has the keyboard.
    WrongPane,
    /// No file or directory is selected.
    NothingSelected,
}

/// The state of the browser. The left pane shows the local file system, or a
/// second server.
#[derive(Debug, PartialEq, Eq)]
pub struct SftpState {
    pub remote: Pane,
    pub local: Pane,
    pub focus: Focus,
    pub queue: Vec<QueuedTransfer>,
    /// What was sent to the worker and has not been reported done.
    pub running: Vec<QueuedTransfer>,
    pub phase: Phase,
    pub progress: Option<Progress>,
    pub notice: Option<String>,
    pub connecting: bool,
    pub left_host: Option<String>,
    pub left_connecting: bool,
    pub searching: bool,
}

#[verifier::ext_equal]
pub struct SftpView {
    pub remote: PaneView,
    pub local: PaneView,
    pub focus: Focus,
    pub queue: Seq<TransferView>,
    pub running: Seq<TransferView>,
    pub phase: Phase,
    pub progress: Option<Progress>,
    pub notice: Option<Seq<char>>,
    pub connecting: bool,
    pub left_host: Option<Seq<char>>,
    pub left_connecting: bool,
    pub searching: bool,
}

impl View for SftpState {
    type V = SftpView;

    open spec fn view(&self) -> SftpView {
        SftpView {
            remote: self.remote@,
            local: self.local@,
            focus: self.focus,
            queue: views(self.queue@),
            running: views(self.running@),
            phase: self.phase,
            progress: self.progress,
            notice: opt_view(self.notice),
            connecting: self.connecting,
            left_host: opt_view(self.left_host),
            left_connecting: self.left_connecting,
            searching: self.searching,
        }
    }
}

/// The transfers that are not `done`.
pub open spec fn without_transfer(
    queue: Seq<TransferView>,
    done: TransferView,
) -> Seq<TransferView>
    decreases queue.len(),
{
    if queue.len() == 0 {
        Seq::empty()
    } else {
        let before = without_transfer(queue.drop_last(), done);
        if queue.last() == done {
            before
        } else {
            before.push(queue.last())
        }
    }
}

/// The transfers that are not among `done`.
pub open spec fn without_all(
    queue: Seq<TransferView>,
    done: Seq<TransferView>,
) -> Seq<TransferView>
    decreases done.len(),
{
    if done.len() == 0 {
        queue
    } else {
        without_transfer(without_all(queue, done.drop_last()), done.last())
    }
}

fn same_transfer(a: &QueuedTransfer, b: &QueuedTransfer) -> (r: bool)
    ensures
        r == (a@ == b@),
{
    a.direction == b.direction && a.is_dir == b.is_dir && same(a.src.as_str(), b.src.as_str())
        && same(a.dst.as_str(), b.dst.as_str()) && same(a.name.as_str(), b.name.as_str())
}

/// Take every transfer equal to `done` out of a queue.
pub fn drop_transfer(queue: &mut Vec<QueuedTransfer>, done: &QueuedTransfer)
    ensures
        views(final(queue)@) == without_transfer(views(old(queue)@), done@),
{
    let ghost all = views(queue@);
    let mut rest: Vec<QueuedTransfer> = Vec::new();
    let mut i: usize = 0;
    assert(all.take(0) =~= Seq::empty());
    while i < queue.len()
        invariant
            i <= queue@.len(),
            all == views(queue@),
            views(rest@) == without_transfer(all.take(i as int), done@),
        decreases queue@.len() - i,
    {
        assert(all.take(i + 1).drop_last() =~= all.take(i as int));
        assert(all.take(i + 1).last() == queue@[i as int]@);
        if !same_transfer(&queue[i], done) {
            rest.push(queue[i].clone());
        }
        i = i + 1;
    }
    assert(all.take(queue@.len() as int) =~= all);
    *queue = rest;
}

impl SftpView {
    pub open spec fn new(remote_cwd: Seq<char>, local_cwd: Seq<char>) -> SftpView {
        SftpView {
            remote: PaneView::new(remote_cwd),
            local: PaneView::new(local_cwd),
            focus: Focus::Remote,
            queue: Seq::empty(),
            running: Seq::empty(),
            phase: Phase::Browsing,
            progress: None,
            notice: None,
            connecting: false,
            left_host: None,
            left_connecting: false,
            searching: false,
        }
    }

    /// Whether the left pane shows a second server.
    pub open spec fn left_is_remote_spec(self) -> bool {
        self.left_host is Some
    }

    pub open spec fn side(self) -> Side {
        match self.focus {
            Focus::Local => Side::Local,
            Focus::Remote => Side::Remote,
        }
    }

    /// The pane with the keyboard.
    pub open spec fn pane(self) -> PaneView {
        match self.focus {
            Focus::Local => self.local,
            Focus::Remote => self.remote,
        }
    }

    pub open spec fn with_pane(self, pane: PaneView) -> SftpView {
        match self.focus {
            Focus::Local => SftpView { local: pane, ..self },
            Focus::Remote => SftpView { remote: pane, ..self },
        }
    }

    pub open spec fn noting(self, notice: Seq<char>) -> SftpView {
        SftpView { notice: Some(notice), ..self }
    }

    /// No transfer runs, with what is to be said of it.
    pub open spec fn settled(self, notice: Option<Seq<char>>) -> SftpView {
        SftpView { phase: Phase::Browsing, progress: None, notice, ..self }
    }

    /// The directory that Enter opens.
    pub open spec fn entered(self) -> Option<Seq<char>> {
        match self.pane().selected_entry_spec() {
            Some(entry) => if entry.is_parent() {
                above(self.pane().cwd)
            } else if entry.is_dir {
                Some(joined(self.pane().cwd, entry.name))
            } else {
                None
            },
            None => None,
        }
    }

    /// What staging the selection toward a side comes to.
    pub open spec fn staged(self, toward: Side) -> Result<SftpView, StageError> {
        if self.side() == toward {
            Err(StageError::WrongPane)
        } else {
            let from = self.pane();
            let to = match toward {
                Side::Local => self.local,
                Side::Remote => self.remote,
            };
            match from.selected_entry_spec() {
                Some(entry) => if entry.is_parent() {
                    Err(StageError::NothingSelected)
                } else {
                    Ok(
                        SftpView {
                            queue: self.queue.push(
                                TransferView {
                                    direction: match toward {
                                        Side::Local => Direction::Download,
                                        Side::Remote => Direction::Upload,
                                    },
                                    src: joined(from.cwd, entry.name),
                                    dst: joined(to.cwd, entry.name),
                                    name: entry.name,
                                    is_dir: entry.is_dir,
                                },
                            ),
                            ..self
                        },
                    )
                },
                None => Err(StageError::NothingSelected),
            }
        }
    }

    /// The browser after a run: what was sent leaves the queue.
    pub open spec fn run_over(self) -> SftpView {
        SftpView {
            queue: without_all(self.queue, self.running),
            running: Seq::empty(),
            ..self
        }
    }

    /// The browser after one transfer is across.
    pub open spec fn transfer_over(self, done: TransferView) -> SftpView {
        SftpView {
            queue: without_transfer(self.queue, done),
            running: without_transfer(self.running, done),
            ..self
        }
    }

    pub open spec fn hidden_toggled(self) -> SftpView {
        let show = !self.remote.show_hidden;
        SftpView {
            remote: (PaneView { show_hidden: show, ..self.remote }).clamped(),
            local: (PaneView { show_hidden: show, ..self.local }).clamped(),
            ..self
        }
    }

    pub open spec fn search_started(self) -> SftpView {
        SftpView { searching: true, ..self.with_pane(self.pane().with_filter(Seq::empty())) }
    }

    pub open spec fn search_cancelled(self) -> SftpView {
        SftpView { searching: false, ..self.with_pane(self.pane().with_filter(Seq::empty())) }
    }
}

impl SftpState {
    pub fn new(remote_cwd: &str, local_cwd: &str) -> (r: SftpState)
        ensures
            r@ == SftpView::new(remote_cwd@, local_cwd@),
    {
        SftpState {
            remote: Pane::new(remote_cwd),
            local: Pane::new(local_cwd),
            focus: Focus::Remote,
            queue: Vec::new(),
            running: Vec::new(),
            phase: Phase::Browsing,
            progress: None,
            notice: None,
            connecting: false,
            left_host: None,
            left_connecting: false,
            searching: false,
        }
    }

    pub fn left_is_remote(&self) -> (r: bool)
        ensures
            r == self@.left_is_remote_spec(),
    {
        self.left_host.is_some()
    }

    pub fn focused_side(&self) -> (r: Side)
        ensures
            r == self@.side(),
    {
        match self.focus {
            Focus::Local => Side::Local,
            Focus::Remote => Side::Remote,
        }
    }

    pub fn focused_pane(&self) -> (r: &Pane)
        ensures
            r@ == self@.pane(),
    {
        match self.focus {
            Focus::Local => &self.local,
            Focus::Remote => &self.remote,
        }
    }

    fn focused_pane_mut(&mut self) -> (r: &mut Pane)
        ensures
            r@ == old(self)@.pane(),
            final(self)@ == old(self)@.with_pane(final(r)@),
    {
        match self.focus {
            Focus::Local => &mut self.local,
            Focus::Remote => &mut self.remote,
        }
    }

    pub fn set_notice(&mut self, notice: String)
        ensures
            final(self)@ == old(self)@.noting(notice@),
    {
        self.notice = Some(notice);
    }

    pub fn settle(&mut self, notice: Option<String>)
        ensures
            final(self)@ == old(self)@.settled(opt_view(notice)),
    {
        self.phase = Phase::Browsing;
        self.progress = None;
        self.notice = notice;
    }

    /// The directory that Enter opens, with its side.
    pub fn enter_dir(&self) -> (r: Option<(Side, String)>)
        ensures
            match r {
                Some((side, path)) => side == self@.side() && self@.entered() == Some(path@),
                None => self@.entered() is None,
            },
    {
        let pane = self.focused_pane();
        match pane.selected_entry() {
            Some(entry) => {
                if entry.is_parent() {
                    match directory_above(pane.cwd.as_str()) {
                        Some(path) => Some((self.focused_side(), path)),
                        None => None,
                    }
                } else if entry.is_dir {
                    Some((self.focused_side(), join(pane.cwd.as_str(), entry.name.as_str())))
                } else {
                    None
                }
            },
            None => None,
        }
    }

    /// The directory above the one that is shown, with its side.
    pub fn parent_dir(&self) -> (r: Option<(Side, String)>)
        ensures
            match r {
                Some((side, path)) => side == self@.side() && above(self@.pane().cwd) == Some(
                    path@,
                ),
                None => above(self@.pane().cwd) is None,
            },
    {
        match directory_above(self.focused_pane().cwd.as_str()) {
            Some(path) => Some((self.focused_side(), path)),
            None => None,
        }
    }

    pub fn move_selection(&mut self, down: bool)
        ensures
            final(self)@ == old(self)@.with_pane(old(self)@.pane().selection_moved(down)),
    {
        self.focused_pane_mut().move_selection(down);
    }

    pub fn toggle_focus(&mut self)
        ensures
            final(self)@ == (SftpView {
                focus: match old(self)@.focus {
                    Focus::Local => Focus::Remote,
                    Focus::Remote => Focus::Local,
                },
                ..old(self)@
            }),
    {
        self.focus = match self.focus {
            Focus::Local => Focus::Remote,
            Focus::Remote => Focus::Local,
        };
    }

    /// Queue the selection of the pane with the keyboard for transfer to the
    /// other side, which must be `toward`.
    pub fn stage_toward(&mut self, toward: Side) -> (r: Result<(), StageError>)
        ensures
            match r {
                Ok(_) => old(self)@.staged(toward) == Ok::<SftpView, StageError>(final(self)@),
                Err(e) => old(self)@.staged(toward) == Err::<SftpView, StageError>(e)
                    && final(self)@ == old(self)@,
            },
    {
        let here = self.focused_side();
        if here == toward {
            return Err(StageError::WrongPane);
        }
        let from = self.focused_pane();
        let entry = match from.selected_entry() {
            Some(entry) => entry,
            None => {
                return Err(StageError::NothingSelected);
            },
        };
        if entry.is_parent() {
            return Err(StageError::NothingSelected);
        }
        let src = join(from.cwd.as_str(), entry.name.as_str());
        let dst = match toward {
            Side::Local => join(self.local.cwd.as_str(), entry.name.as_str()),
            Side::Remote => join(self.remote.cwd.as_str(), entry.name.as_str()),
        };
        let direction = match toward {
            Side::Local => Direction::Download,
            Side::Remote => Direction::Upload,
        };
        self.queue.push(
            QueuedTransfer { direction, src, dst, name: entry.name, is_dir: entry.is_dir },
        );
        Ok(())
    }

    /// Take the transfer staged last back out of the queue.
    pub fn unstage_last(&mut self)
        ensures
            final(self)@ == if old(self)@.queue.len() > 0 {
                SftpView { queue: old(self)@.queue.drop_last(), ..old(self)@ }
            } else {
                old(self)@
            },
    {
        let ghost before = self.queue@;
        assert(views(before).len() == before.len());
        if self.queue.len() > 0 {
            let _ = self.queue.pop();
            assert(views(self.queue@) =~= views(before).drop_last());
        }
    }

    /// A run is over. Returns whether something was staged meanwhile.
    pub fn finish_run(&mut self) -> (r: bool)
        ensures
            final(self)@ == old(self)@.run_over(),
            r == (final(self)@.queue.len() > 0),
    {
        let ghost all = views(self.running@);
        let ghost queue = views(self.queue@);
        let mut i: usize = 0;
        assert(all.take(0) =~= Seq::empty());
        while i < self.running.len()
            invariant
                i <= self.running@.len(),
                all == views(self.running@),
                views(self.queue@) == without_all(queue, all.take(i as int)),
                self@ == (SftpView { queue: self@.queue, ..old(self)@ }),
            decreases self.running@.len() - i,
        {
            assert(all.take(i + 1).drop_last() =~= all.take(i as int));
            assert(all.take(i + 1).last() == self.running@[i as int]@);
            drop_transfer(&mut self.queue, &self.running[i]);
            i = i + 1;
        }
        assert(all.take(self.running@.len() as int) =~= all);
        self.running = Vec::new();
        assert(views(self.queue@).len() == self.queue@.len());
        self.queue.len() > 0
    }

    /// One transfer is across.
    pub fn finish_transfer(&mut self, done: &QueuedTransfer)
        ensures
            final(self)@ == old(self)@.transfer_over(done@),
    {
        drop_transfer(&mut self.queue, done);
        drop_transfer(&mut self.running, done);
    }

    /// Show or hide dotfiles in both panes. Returns whether they are shown.
    pub fn toggle_hidden(&mut self) -> (r: bool)
        ensures
            final(self)@ == old(self)@.hidden_toggled(),
            r == !old(self)@.remote.show_hidden,
    {
        let show = !self.remote.show_hidden;
        self.remote.show_hidden = show;
        self.remote.clamp();
        self.local.show_hidden = show;
        self.local.clamp();
        show
    }

    pub fn start_search(&mut self)
        ensures
            final(self)@ == old(self)@.search_started(),
    {
        self.searching = true;
        let pane = self.focused_pane_mut();
        pane.filter = String::new();
        pane.selected = 0;
        assert(pane@.filter =~= Seq::empty());
    }

    pub fn search_cancel(&mut self)
        ensures
            final(self)@ == old(self)@.search_cancelled(),
    {
        self.searching = false;
        let pane = self.focused_pane_mut();
        pane.filter = String::new();
        pane.selected = 0;
        assert(pane@.filter =~= Seq::empty());
    }

    pub fn search_confirm(&mut self)
        ensures
            final(self)@ == (SftpView { searching: false, ..old(self)@ }),
    {
        self.searching = false;
    }

    pub fn search_push(&mut self, c: char)
        ensures
            final(self)@ == old(self)@.with_pane(
                old(self)@.pane().with_filter(old(self)@.pane().filter.push(c)),
            ),
    {
        let pane = self.focused_pane_mut();
        pane.filter.push(c);
        pane.selected = 0;
    }

    pub fn search_backspace(&mut self)
        ensures
            final(self)@ == old(self)@.with_pane(
                old(self)@.pane().with_filter(
                    if old(self)@.pane().filter.len() > 0 {
                        old(self)@.pane().filter.drop_last()
                    } else {
                        old(self)@.pane().filter
                    },
                ),
            ),
    {
        let pane = self.focused_pane_mut();
        let _ = pane.filter.pop();
        pane.selected = 0;
    }
}

} // verus!
