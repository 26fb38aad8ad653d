//! The known-hosts overlay.

use vstd::prelude::*;

use crate::app::effects::{Effect, EffectView, Task};
use crate::app::state::{AppMode, KnownHost, KnownHostView, KnownHostsState, KnownHostsView};
use crate::app::{App, AppView};
use crate::hosts::clone_text;
use crate::keybinds::{KeyAction, KeyCode, KeyEvent};
use crate::text::{cat2, cat4, contains_text, len, lowercase, occurs_in, views};

verus! {

broadcast use crate::text::group_views;

impl KnownHostsView {
    /// The overlay as it opens.
    pub open spec fn opened(
        path: Seq<char>,
        loaded: Result<Seq<KnownHostView>, Seq<char>>,
    ) -> KnownHostsView {
        KnownHostsView {
            entries: match loaded {
                Ok(entries) => entries,
                Err(_) => Seq::empty(),
            },
            selected: 0,
            query: Seq::empty(),
            confirming_delete: false,
            notice: match loaded {
                Ok(_) => None,
                Err(e) => Some("Could not read "@ + path + ": "@ + e),
            },
            notice_is_error: loaded is Err,
        }
    }

    /// Whether an entry matches what is typed.
    pub open spec fn matches(self, entry: KnownHostView) -> bool {
        self.query.len() == 0 || occurs_in(lowercase(entry.hosts), lowercase(self.query))
    }

    /// The positions of the entries that match, among the first `n`.
    pub open spec fn filtered_to(self, n: nat) -> Seq<usize>
        decreases n,
    {
        if n == 0 || n > self.entries.len() {
            Seq::empty()
        } else {
            let before = self.filtered_to((n - 1) as nat);
            if self.matches(self.entries[n - 1]) {
                before.push((n - 1) as usize)
            } else {
                before
            }
        }
    }

    /// The positions of the entries that are shown.
    pub open spec fn filtered(self) -> Seq<usize> {
        self.filtered_to(self.entries.len())
    }

    /// The selected entry.
    pub open spec fn chosen(self) -> Option<KnownHostView> {
        if self.selected < self.filtered().len() {
            Some(self.entries[self.filtered()[self.selected as int] as int])
        } else {
            None
        }
    }

    pub open spec fn saying(self, notice: Seq<char>, is_error: bool) -> KnownHostsView {
        KnownHostsView { notice: Some(notice), notice_is_error: is_error, ..self }
    }

    pub open spec fn silent(self) -> KnownHostsView {
        KnownHostsView { notice: None, ..self }
    }

    /// A deletion is asked about, unless the entry cannot be deleted.
    pub open spec fn delete_asked(self) -> KnownHostsView {
        let quiet = self.silent();
        match self.chosen() {
            Some(entry) => match entry.block_reason {
                Some(reason) => quiet.saying(reason, true),
                None => KnownHostsView { confirming_delete: true, ..quiet },
            },
            None => quiet,
        }
    }

    pub open spec fn searching(self, query: Seq<char>) -> KnownHostsView {
        KnownHostsView { query, selected: 0, ..self }
    }

    pub open spec fn at_row(self, row: usize) -> KnownHostsView {
        KnownHostsView { selected: row, notice: None, ..self }
    }

    /// The row some rows above, at most the first.
    pub open spec fn above(self, rows: usize) -> usize {
        if self.selected >= rows {
            (self.selected - rows) as usize
        } else {
            0
        }
    }

    /// The next row, if there is one.
    pub open spec fn below(self) -> usize {
        if self.selected + 1 < self.filtered().len() {
            (self.selected + 1) as usize
        } else {
            self.selected
        }
    }

    /// The row a page below, at most the last.
    pub open spec fn page_below(self) -> usize {
        let last = if self.filtered().len() > 0 {
            self.filtered().len() - 1
        } else {
            0
        };
        if self.selected + 10 <= last {
            (self.selected + 10) as usize
        } else {
            last as usize
        }
    }

    /// What a plain key does. `None` closes the overlay.
    pub open spec fn key_pressed(self, key: KeyEvent) -> Option<KnownHostsView> {
        match key.code {
            KeyCode::Esc => if self.query.len() > 0 {
                Some(self.searching(Seq::empty()))
            } else {
                None
            },
            KeyCode::Up => Some(self.at_row(self.above(1))),
            KeyCode::Down => Some(self.at_row(self.below())),
            KeyCode::PageUp => Some(self.at_row(self.above(10))),
            KeyCode::PageDown => Some(self.at_row(self.page_below())),
            KeyCode::Backspace => Some(
                self.searching(
                    if self.query.len() > 0 {
                        self.query.drop_last()
                    } else {
                        self.query
                    },
                ).silent(),
            ),
            _ => match key.types() {
                Some(c) => Some(self.searching(self.query.push(c)).silent()),
                None => Some(self),
            },
        }
    }

    pub open spec fn refreshed(
        self,
        loaded: Result<Seq<KnownHostView>, Seq<char>>,
    ) -> KnownHostsView {
        match loaded {
            Ok(entries) => (KnownHostsView { entries, selected: 0, ..self }).saying(
                "Refreshed"@,
                false,
            ),
            Err(e) => self.saying("Refresh failed: "@ + e, true),
        }
    }

    /// The keys of a host were removed, or not; and the file read again, or not.
    pub open spec fn removed(
        self,
        hosts: Seq<char>,
        outcome: Result<Result<Seq<KnownHostView>, Seq<char>>, Seq<char>>,
    ) -> KnownHostsView {
        match outcome {
            Ok(Ok(entries)) => (KnownHostsView { entries, selected: 0, ..self }).saying(
                "Removed all keys for "@ + hosts,
                false,
            ),
            Ok(Err(e)) => self.saying(
                "Removed keys for "@ + hosts + ", but reload failed: "@ + e,
                true,
            ),
            Err(e) => self.saying(e, true),
        }
    }
}

impl AppView {
    pub open spec fn with_known_hosts(self, state: KnownHostsView) -> AppView {
        AppView { known_hosts: Some(state), ..self }
    }

    pub open spec fn known_hosts_closed(self) -> AppView {
        AppView { known_hosts: None, mode: AppMode::Normal, ..self }
    }

    /// The answer to the question about a deletion.
    pub open spec fn removal_answered(self, state: KnownHostsView, yes: bool) -> AppView {
        let answered = self.with_known_hosts(KnownHostsView { confirming_delete: false, ..state });
        match state.chosen() {
            Some(entry) => if yes {
                answered.asking(EffectView::RemoveKnownHost(entry.hosts))
            } else {
                answered
            },
            None => answered,
        }
    }

    #[verifier::opaque]
    pub open spec fn known_hosts_key(self, key: KeyEvent) -> AppView {
        match self.known_hosts {
            None => self.in_mode(AppMode::Normal),
            Some(state) => if state.confirming_delete {
                self.removal_answered(state, self.hits(KeyAction::ConfirmYes, key))
            } else if self.hits(KeyAction::KnownHostsDelete, key) {
                self.with_known_hosts(state.delete_asked())
            } else if self.hits(KeyAction::KnownHostsRefresh, key) {
                self.doing(Task::RefreshKnownHosts)
            } else {
                match state.key_pressed(key) {
                    Some(state) => self.with_known_hosts(state),
                    None => self.known_hosts_closed(),
                }
            },
        }
    }

    pub open spec fn known_hosts_opened(
        self,
        path: Seq<char>,
        loaded: Result<Seq<KnownHostView>, Seq<char>>,
    ) -> AppView {
        AppView {
            known_hosts: Some(KnownHostsView::opened(path, loaded)),
            mode: AppMode::KnownHosts,
            ..self
        }
    }
}

/// The views of what a load of the known-hosts file gave.
pub open spec fn loaded_view(
    loaded: Result<Vec<KnownHost>, String>,
) -> Result<Seq<KnownHostView>, Seq<char>> {
    match loaded {
        Ok(entries) => Ok(views(entries@)),
        Err(e) => Err(e@),
    }
}

impl KnownHostsState {
    fn shows(&self, entry: &KnownHost) -> (r: bool)
        ensures
            r == self@.matches(entry@),
    {
        if len(self.query.as_str()) == 0 {
            return true;
        }
        let hosts = entry.hosts.as_str().to_lowercase();
        let query = self.query.as_str().to_lowercase();
        contains_text(hosts.as_str(), query.as_str())
    }

    /// The positions of the entries that are shown.
    pub fn filtered_indices(&self) -> (r: Vec<usize>)
        ensures
            r@ == self@.filtered(),
            forall|i: int| 0 <= i < r@.len() ==> (#[trigger] r@[i]) < self.entries@.len(),
    {
        let mut out: Vec<usize> = Vec::new();
        let mut i: usize = 0;
        while i < self.entries.len()
            invariant
                i <= self.entries@.len(),
                out@ == self@.filtered_to(i as nat),
                forall|k: int| 0 <= k < out@.len() ==> (#[trigger] out@[k]) < self.entries@.len(),
            decreases self.entries@.len() - i,
        {
            assert(self@.entries[i as int] == self.entries@[i as int]@);
            if self.shows(&self.entries[i]) {
                out.push(i);
            }
            i = i + 1;
        }
        out
    }

    fn chosen_entry(&self) -> (r: Option<&KnownHost>)
        ensures
            match r {
                Some(entry) => self@.chosen() == Some(entry@),
                None => self@.chosen() is None,
            },
    {
        let rows = self.filtered_indices();
        if self.selected < rows.len() {
            let at: usize = rows[self.selected];
            Some(&self.entries[at])
        } else {
            None
        }
    }

    fn ask_delete(&mut self)
        ensures
            final(self)@ == old(self)@.delete_asked(),
    {
        let reason = match self.chosen_entry() {
            Some(entry) => Some(clone_text(&entry.block_reason)),
            None => None,
        };
        self.notice = None;
        match reason {
            Some(Some(reason)) => {
                self.notice = Some(reason);
                self.notice_is_error = true;
            },
            Some(None) => {
                self.confirming_delete = true;
            },
            None => {},
        }
    }

    fn go_to_row(&mut self, row: usize)
        ensures
            final(self)@ == old(self)@.at_row(row),
    {
        self.selected = row;
        self.notice = None;
    }

    fn row_above(&self, rows: usize) -> (r: usize)
        ensures
            r == self@.above(rows),
    {
        if self.selected >= rows {
            self.selected - rows
        } else {
            0
        }
    }

    fn row_below(&self) -> (r: usize)
        ensures
            r == self@.below(),
    {
        let count: usize = self.filtered_indices().len();
        if self.selected < count && self.selected + 1 < count {
            self.selected + 1
        } else {
            self.selected
        }
    }

    fn row_page_below(&self) -> (r: usize)
        ensures
            r == self@.page_below(),
    {
        let count: usize = self.filtered_indices().len();
        let last: usize = if count > 0 {
            count - 1
        } else {
            0
        };
        if last >= 10 && self.selected <= last - 10 {
            self.selected + 10
        } else {
            last
        }
    }

    fn clear_query(&mut self)
        ensures
            final(self)@ == old(self)@.searching(Seq::empty()),
    {
        self.query = String::new();
        self.selected = 0;
        assert(self@.query =~= Seq::empty());
    }

    /// Apply a plain key. Returns whether the overlay stays open.
    fn press(&mut self, key: KeyEvent) -> (r: bool)
        ensures
            match old(self)@.key_pressed(key) {
                Some(state) => r && final(self)@ == state,
                None => !r,
            },
    {
        match key.code {
            KeyCode::Esc => {
                if len(self.query.as_str()) == 0 {
                    return false;
                }
                self.clear_query();
            },
            KeyCode::Up => {
                let row: usize = self.row_above(1);
                self.go_to_row(row);
            },
            KeyCode::Down => {
                let row: usize = self.row_below();
                self.go_to_row(row);
            },
            KeyCode::PageUp => {
                let row: usize = self.row_above(10);
                self.go_to_row(row);
            },
            KeyCode::PageDown => {
                let row: usize = self.row_page_below();
                self.go_to_row(row);
            },
            KeyCode::Backspace => {
                let _ = self.query.pop();
                self.go_to_row(0);
            },
            _ => {
                if let Some(c) = key.typed() {
                    self.query.push(c);
                    self.go_to_row(0);
                }
            },
        }
        true
    }

    fn say(&mut self, notice: String, is_error: bool)
        ensures
            final(self)@ == old(self)@.saying(notice@, is_error),
    {
        self.notice = Some(notice);
        self.notice_is_error = is_error;
    }

    fn show(&mut self, entries: Vec<KnownHost>)
        ensures
            final(self)@ == (KnownHostsView { entries: views(entries@), selected: 0, ..old(self)@ }),
    {
        self.entries = entries;
        self.selected = 0;
    }
}

impl App {
    /// Open the overlay.
    pub fn open_known_hosts(&mut self)
        ensures
            final(self)@ == old(self)@.doing(Task::LoadKnownHosts),
    {
        self.perform(Task::LoadKnownHosts);
    }

    /// The known-hosts file was read for the overlay. An error says which file,
    /// and why.
    pub fn known_hosts_loaded(&mut self, path: &str, loaded: Result<Vec<KnownHost>, String>)
        ensures
            final(self)@ == old(self)@.known_hosts_opened(path@, loaded_view(loaded)),
    {
        let notice_is_error = loaded.is_err();
        let (entries, notice) = match loaded {
            Ok(entries) => (entries, None),
            Err(e) => (Vec::new(), Some(cat4("Could not read ", path, ": ", e.as_str()))),
        };
        let state = KnownHostsState {
            entries,
            selected: 0,
            query: String::new(),
            confirming_delete: false,
            notice,
            notice_is_error,
        };
        assert(state@.query =~= Seq::empty());
        self.known_hosts = Some(state);
        self.mode = AppMode::KnownHosts;
    }

    /// The known-hosts file was read again.
    pub fn known_hosts_refreshed(&mut self, loaded: Result<Vec<KnownHost>, String>)
        ensures
            final(self)@ == match old(self)@.known_hosts {
                Some(state) => old(self)@.with_known_hosts(state.refreshed(loaded_view(loaded))),
                None => old(self)@,
            },
    {
        if let Some(state) = &mut self.known_hosts {
            match loaded {
                Ok(entries) => {
                    state.show(entries);
                    state.say("Refreshed".to_owned(), false);
                },
                Err(e) => state.say(cat2("Refresh failed: ", e.as_str()), true),
            }
        }
    }

    /// The keys of a host were removed and the file read again, or one of the
    /// two failed.
    pub fn known_host_removed(
        &mut self,
        hosts: String,
        outcome: Result<Result<Vec<KnownHost>, String>, String>,
    )
        ensures
            final(self)@ == match old(self)@.known_hosts {
                Some(state) => old(self)@.with_known_hosts(
                    state.removed(
                        hosts@,
                        match outcome {
                            Ok(loaded) => Ok(loaded_view(loaded)),
                            Err(e) => Err(e@),
                        },
                    ),
                ),
                None => old(self)@,
            },
    {
        if let Some(state) = &mut self.known_hosts {
            match outcome {
                Ok(Ok(entries)) => {
                    state.show(entries);
                    state.say(cat2("Removed all keys for ", hosts.as_str()), false);
                },
                Ok(Err(e)) => state.say(
                    cat4(
                        "Removed keys for ",
                        hosts.as_str(),
                        ", but reload failed: ",
                        e.as_str(),
                    ),
                    true,
                ),
                Err(e) => state.say(e, true),
            }
        }
    }

    fn close_known_hosts(&mut self)
        ensures
            final(self)@ == old(self)@.known_hosts_closed(),
    {
        self.known_hosts = None;
        self.mode = AppMode::Normal;
    }

    fn end_question(&mut self)
        requires
            old(self)@.known_hosts is Some,
        ensures
            final(self)@ == old(self)@.with_known_hosts(
                KnownHostsView { confirming_delete: false, ..old(self)@.known_hosts->0 },
            ),
    {
        if let Some(state) = &mut self.known_hosts {
            state.confirming_delete = false;
        }
    }

    fn answer_removal(&mut self, yes: bool)
        requires
            old(self)@.known_hosts is Some,
        ensures
            final(self)@ == old(self)@.removal_answered(old(self)@.known_hosts->0, yes),
    {
        let hosts = match &self.known_hosts {
            Some(state) => match state.chosen_entry() {
                Some(entry) => Some(entry.hosts.clone()),
                None => None,
            },
            None => None,
        };
        self.end_question();
        if let Some(hosts) = hosts {
            if yes {
                self.ask(Effect::RemoveKnownHost(hosts));
            }
        }
    }

    fn press_known_hosts(&mut self, key: KeyEvent)
        requires
            old(self)@.known_hosts is Some,
        ensures
            final(self)@ == match old(self)@.known_hosts->0.key_pressed(key) {
                Some(state) => old(self)@.with_known_hosts(state),
                None => old(self)@.known_hosts_closed(),
            },
    {
        let open = match &mut self.known_hosts {
            Some(state) => state.press(key),
            None => true,
        };
        if !open {
            self.close_known_hosts();
        }
    }

    /// Keys of the overlay.
    pub fn handle_key_known_hosts(&mut self, key: KeyEvent)
        ensures
            final(self)@ == old(self)@.known_hosts_key(key),
    {
        reveal(AppView::known_hosts_key);

        let confirming = match &self.known_hosts {
            Some(state) => state.confirming_delete,
            None => {
                self.set_mode(AppMode::Normal);
                return;
            },
        };
        if confirming {
            let yes = self.is_action(KeyAction::ConfirmYes, &key);
            self.answer_removal(yes);
        } else if self.is_action(KeyAction::KnownHostsDelete, &key) {
            if let Some(state) = &mut self.known_hosts {
                state.ask_delete();
            }
        } else if self.is_action(KeyAction::KnownHostsRefresh, &key) {
            self.perform(Task::RefreshKnownHosts);
        } else {
            self.press_known_hosts(key);
        }
    }
}

} // verus!
