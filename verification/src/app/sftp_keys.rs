//! Keys of the SFTP tab: the host picker while nothing is connected, else the
//! two panes.

use vstd::prelude::*;

use crate::app::effects::Task;
use crate::app::group_tree::SectionView;
use crate::app::state::SftpPromptKind;
use crate::app::{App, AppView};
use crate::keybinds::{KeyAction, KeyCode, KeyEvent};
use crate::paths::above;
use crate::sftp::browser::{Focus, Phase, SftpState, SftpView};
use crate::sftp::model::Side;

verus! {

broadcast use crate::text::group_views;

/// What a key does to the panes alone.
#[derive(Debug, Clone, Copy, PartialEq, Eq, Structural)]
pub enum PaneKey {
    Move { down: bool },
    Switch,
    Stage(Side),
    Unstage,
    Search,
}

/// What a key of the browser does.
#[derive(Debug, Clone, Copy, PartialEq, Eq, Structural)]
pub enum BrowserKey {
    Disconnect,
    Enter,
    Panes(PaneKey),
    Help,
    Edit,
    Up,
    Refresh,
    Shell,
    ToggleHidden,
    PickLeftHost,
    LeftToLocal,
    Run,
    Delete,
    Prompt(SftpPromptKind),
    Nothing,
}

/// Whether every section is folded, and there is one.
pub open spec fn all_folded(sections: Seq<SectionView>) -> bool {
    sections.len() > 0 && forall|i: int|
        0 <= i < sections.len() ==> (#[trigger] sections[i]).collapsed
}

impl SftpView {
    pub open spec fn is_running(self) -> bool {
        self.phase is Running
    }

    /// Whether the pane with the keyboard can go elsewhere: a worker that runs
    /// transfers would answer only when they are through.
    pub open spec fn can_navigate(self) -> bool {
        !self.is_running() || self.side() is Local
    }

    pub open spec fn pane_switched(self) -> SftpView {
        SftpView {
            focus: match self.focus {
                Focus::Local => Focus::Remote,
                Focus::Remote => Focus::Local,
            },
            ..self
        }
    }

    pub open spec fn staged_if_possible(self, toward: Side) -> SftpView {
        match self.staged(toward) {
            Ok(s) => s,
            Err(_) => self,
        }
    }

    pub open spec fn last_unstaged(self) -> SftpView {
        SftpView {
            queue: if self.queue.len() > 0 {
                self.queue.drop_last()
            } else {
                self.queue
            },
            ..self
        }
    }

    pub open spec fn pane_key_done(self, key: PaneKey) -> SftpView {
        match key {
            PaneKey::Move { down } => self.with_pane(self.pane().selection_moved(down)),
            PaneKey::Switch => self.pane_switched(),
            PaneKey::Stage(toward) => self.staged_if_possible(toward),
            PaneKey::Unstage => self.last_unstaged(),
            PaneKey::Search => self.search_started(),
        }
    }

    /// What a key does to a search of the pane with the keyboard.
    pub open spec fn search_key(self, key: KeyEvent) -> SftpView {
        match key.code {
            KeyCode::Esc => self.search_cancelled(),
            KeyCode::Enter => SftpView { searching: false, ..self },
            KeyCode::Backspace => self.with_pane(
                self.pane().with_filter(
                    if self.pane().filter.len() > 0 {
                        self.pane().filter.drop_last()
                    } else {
                        self.pane().filter
                    },
                ),
            ),
            KeyCode::Up => self.with_pane(self.pane().selection_moved(false)),
            KeyCode::Down => self.with_pane(self.pane().selection_moved(true)),
            _ => match key.types() {
                Some(c) => self.with_pane(self.pane().with_filter(self.pane().filter.push(c))),
                None => self,
            },
        }
    }
}

impl AppView {
    pub open spec fn with_browser(self, sftp: SftpView) -> AppView {
        AppView { sftp: Some(sftp), ..self }
    }

    /// What a key means while the browser is in this state.
    pub open spec fn browser_key(self, s: SftpView, key: KeyEvent) -> BrowserKey {
        if self.hits(KeyAction::Cancel, key) {
            BrowserKey::Disconnect
        } else if s.can_navigate() && self.hits(KeyAction::Connect, key) {
            BrowserKey::Enter
        } else if self.hits(KeyAction::MoveDown, key) {
            BrowserKey::Panes(PaneKey::Move { down: true })
        } else if self.hits(KeyAction::MoveUp, key) {
            BrowserKey::Panes(PaneKey::Move { down: false })
        } else if self.hits(KeyAction::Help, key) {
            BrowserKey::Help
        } else if self.hits(KeyAction::Edit, key) {
            BrowserKey::Edit
        } else {
            match key.code {
                KeyCode::Tab => BrowserKey::Panes(PaneKey::Switch),
                KeyCode::Backspace => if s.can_navigate() {
                    BrowserKey::Up
                } else {
                    BrowserKey::Nothing
                },
                KeyCode::Left => BrowserKey::Panes(PaneKey::Stage(Side::Local)),
                KeyCode::Right => BrowserKey::Panes(PaneKey::Stage(Side::Remote)),
                KeyCode::Char('u') => BrowserKey::Panes(PaneKey::Unstage),
                KeyCode::Char('/') => BrowserKey::Panes(PaneKey::Search),
                KeyCode::Char('r') => BrowserKey::Refresh,
                KeyCode::Char('s') => BrowserKey::Shell,
                KeyCode::Char('.') => BrowserKey::ToggleHidden,
                KeyCode::Char('o') => BrowserKey::PickLeftHost,
                KeyCode::Char('O') => BrowserKey::LeftToLocal,
                KeyCode::Char('c') => BrowserKey::Run,
                KeyCode::Char('d') => if s.is_running() {
                    BrowserKey::Nothing
                } else {
                    BrowserKey::Delete
                },
                KeyCode::Char('n') => if s.is_running() {
                    BrowserKey::Nothing
                } else {
                    BrowserKey::Prompt(SftpPromptKind::Mkdir)
                },
                KeyCode::Char('R') => if s.is_running() {
                    BrowserKey::Nothing
                } else {
                    BrowserKey::Prompt(SftpPromptKind::Rename)
                },
                KeyCode::Char('M') => if s.is_running() {
                    BrowserKey::Nothing
                } else {
                    BrowserKey::Prompt(SftpPromptKind::Chmod)
                },
                _ => BrowserKey::Nothing,
            }
        }
    }

    pub open spec fn browser_key_done(self, s: SftpView, what: BrowserKey) -> AppView {
        match what {
            BrowserKey::Disconnect => self.disconnect_asked(),
            BrowserKey::Enter => match s.entered() {
                Some(path) => self.navigated(s.side(), path),
                None => self,
            },
            BrowserKey::Panes(key) => self.with_browser(s.pane_key_done(key)),
            BrowserKey::Help => self.help_opened(),
            BrowserKey::Edit => self.edit_requested(),
            BrowserKey::Up => match above(s.pane().cwd) {
                Some(path) => self.navigated(s.side(), path),
                None => self,
            },
            BrowserKey::Refresh => self.refreshed(),
            BrowserKey::Shell => self.shell_opened_for_browser(),
            BrowserKey::ToggleHidden => self.hidden_flipped(),
            BrowserKey::PickLeftHost => self.doing(Task::OpenSessionPickerForLeftPane),
            BrowserKey::LeftToLocal => self.left_pane_localized(),
            BrowserKey::Run => self.queue_run(),
            BrowserKey::Delete => self.delete_armed(),
            BrowserKey::Prompt(kind) => self.prompt_opened(kind),
            BrowserKey::Nothing => self,
        }
    }

    /// The group of the selected row folds or unfolds, if it is in that state.
    pub open spec fn group_folded(self, collapsed: bool) -> AppView {
        match self.selected_header() {
            Some(section) => if self.group_sections[section as int].collapsed == collapsed {
                self.doing(Task::ToggleSelectedGroup)
            } else {
                self
            },
            None => self,
        }
    }

    pub open spec fn all_groups_toggled(self) -> AppView {
        self.doing(Task::SetAllGroupsCollapsed(!all_folded(self.group_sections)))
    }

    /// Enter in the picker: a group header folds, a host is connected to.
    pub open spec fn picked(self) -> AppView {
        if self.selected_header() is Some {
            self.doing(Task::ToggleSelectedGroup)
        } else {
            self.sftp_opened_selected()
        }
    }

    pub open spec fn picker_search_begun(self) -> AppView {
        (AppView {
            sftp_picker_searching: true,
            search_query: Seq::empty(),
            ..self
        }).doing(Task::RebuildFilter)
    }

    #[verifier::opaque]
    pub open spec fn picker_key(self, key: KeyEvent) -> AppView {
        if self.hits(KeyAction::Quit, key) {
            self.quit_requested()
        } else if self.hits(KeyAction::Cancel, key) {
            self.on_tab(0)
        } else if self.hits(KeyAction::MoveGroupUp, key) {
            self.selection_moved_by_group(-1)
        } else if self.hits(KeyAction::MoveGroupDown, key) {
            self.selection_moved_by_group(1)
        } else if self.hits(KeyAction::MoveDown, key) {
            self.selection_moved(1)
        } else if self.hits(KeyAction::MoveUp, key) {
            self.selection_moved(-1)
        } else if self.hits(KeyAction::ToggleGroup, key) {
            self.doing(Task::ToggleSelectedGroup)
        } else if self.hits(KeyAction::FoldGroupIn, key) {
            self.group_folded(false)
        } else if self.hits(KeyAction::FoldGroupOut, key) {
            self.group_folded(true)
        } else if self.hits(KeyAction::CollapseAll, key) {
            self.all_groups_toggled()
        } else if self.hits(KeyAction::Connect, key) {
            self.picked()
        } else if self.hits(KeyAction::Search, key) {
            self.picker_search_begun()
        } else if self.hits(KeyAction::Help, key) {
            self.help_opened()
        } else {
            self
        }
    }

    pub open spec fn searching_for(self, query: Seq<char>) -> AppView {
        (AppView { search_query: query, ..self }).doing(Task::RebuildFilter)
    }

    /// The query without its last character.
    pub open spec fn query_shortened(self) -> Seq<char> {
        if self.search_query.len() > 0 {
            self.search_query.drop_last()
        } else {
            self.search_query
        }
    }

    #[verifier::opaque]
    pub open spec fn picker_search_key(self, key: KeyEvent) -> AppView {
        if self.hits(KeyAction::Cancel, key) {
            self.picker_search_over()
        } else if self.hits(KeyAction::Connect, key) {
            (AppView { sftp_picker_searching: false, ..self }).picked()
        } else {
            match key.code {
                KeyCode::Backspace => self.searching_for(self.query_shortened()),
                KeyCode::Up => self.selection_moved(-1),
                KeyCode::Down => self.selection_moved(1),
                _ => match key.types() {
                    Some(c) => self.searching_for(self.search_query.push(c)),
                    None => self,
                },
            }
        }
    }

    /// What a key does on the SFTP tab. A search takes every key before the tab
    /// keys do.
    pub open spec fn sftp_key(self, key: KeyEvent) -> AppView {
        if self.sftp_picker_searching {
            self.picker_search_key(key)
        } else if self.sftp matches Some(s) && s.searching {
            self.with_browser(self.sftp->0.search_key(key))
        } else {
            match self.tab_switched(key) {
                Some(there) => there,
                None => match self.sftp {
                    Some(s) => self.browser_key_done(s, self.browser_key(s, key)),
                    None => self.picker_key(key),
                },
            }
        }
    }
}

impl SftpState {
    fn pane_key(&mut self, key: PaneKey)
        ensures
            final(self)@ == old(self)@.pane_key_done(key),
    {
        match key {
            PaneKey::Move { down } => self.move_selection(down),
            PaneKey::Switch => self.toggle_focus(),
            PaneKey::Stage(toward) => {
                let _ = self.stage_toward(toward);
            },
            PaneKey::Unstage => self.unstage_last(),
            PaneKey::Search => self.start_search(),
        }
    }

    fn search_key(&mut self, key: KeyEvent)
        ensures
            final(self)@ == old(self)@.search_key(key),
    {
        match key.code {
            KeyCode::Esc => self.search_cancel(),
            KeyCode::Enter => self.search_confirm(),
            KeyCode::Backspace => self.search_backspace(),
            KeyCode::Up => self.move_selection(false),
            KeyCode::Down => self.move_selection(true),
            _ => {
                if let Some(c) = key.typed() {
                    self.search_push(c);
                }
            },
        }
    }

    fn is_free_to_move(&self) -> (r: bool)
        ensures
            r == self@.can_navigate(),
    {
        self.phase != Phase::Running || self.focused_side() == Side::Local
    }
}

impl App {
    fn find_browser_key(&self, s: &SftpState, key: &KeyEvent) -> (r: BrowserKey)
        ensures
            r == self@.browser_key(s@, *key),
    {
        let running = s.phase == Phase::Running;
        let can_navigate = s.is_free_to_move();
        if self.is_action(KeyAction::Cancel, key) {
            return BrowserKey::Disconnect;
        }
        if can_navigate && self.is_action(KeyAction::Connect, key) {
            return BrowserKey::Enter;
        }
        if self.is_action(KeyAction::MoveDown, key) {
            return BrowserKey::Panes(PaneKey::Move { down: true });
        }
        if self.is_action(KeyAction::MoveUp, key) {
            return BrowserKey::Panes(PaneKey::Move { down: false });
        }
        if self.is_action(KeyAction::Help, key) {
            return BrowserKey::Help;
        }
        if self.is_action(KeyAction::Edit, key) {
            return BrowserKey::Edit;
        }
        let file_op = match key.code {
            KeyCode::Tab => {
                return BrowserKey::Panes(PaneKey::Switch);
            },
            KeyCode::Backspace => {
                return if can_navigate {
                    BrowserKey::Up
                } else {
                    BrowserKey::Nothing
                };
            },
            KeyCode::Left => {
                return BrowserKey::Panes(PaneKey::Stage(Side::Local));
            },
            KeyCode::Right => {
                return BrowserKey::Panes(PaneKey::Stage(Side::Remote));
            },
            KeyCode::Char('u') => {
                return BrowserKey::Panes(PaneKey::Unstage);
            },
            KeyCode::Char('/') => {
                return BrowserKey::Panes(PaneKey::Search);
            },
            KeyCode::Char('r') => {
                return BrowserKey::Refresh;
            },
            KeyCode::Char('s') => {
                return BrowserKey::Shell;
            },
            KeyCode::Char('.') => {
                return BrowserKey::ToggleHidden;
            },
            KeyCode::Char('o') => {
                return BrowserKey::PickLeftHost;
            },
            KeyCode::Char('O') => {
                return BrowserKey::LeftToLocal;
            },
            KeyCode::Char('c') => {
                return BrowserKey::Run;
            },
            KeyCode::Char('d') => BrowserKey::Delete,
            KeyCode::Char('n') => BrowserKey::Prompt(SftpPromptKind::Mkdir),
            KeyCode::Char('R') => BrowserKey::Prompt(SftpPromptKind::Rename),
            KeyCode::Char('M') => BrowserKey::Prompt(SftpPromptKind::Chmod),
            _ => BrowserKey::Nothing,
        };
        // File operations are frozen while a queue runs.
        if running {
            BrowserKey::Nothing
        } else {
            file_op
        }
    }

    fn enter_selected(&mut self)
        ensures
            final(self)@ == match old(self)@.sftp {
                Some(s) => old(self)@.browser_key_done(s, BrowserKey::Enter),
                None => old(self)@,
            },
    {
        let target = match &self.sftp {
            Some(s) => s.enter_dir(),
            None => None,
        };
        if let Some((side, path)) = target {
            self.sftp_navigate(side, path);
        }
    }

    fn enter_parent(&mut self)
        ensures
            final(self)@ == match old(self)@.sftp {
                Some(s) => old(self)@.browser_key_done(s, BrowserKey::Up),
                None => old(self)@,
            },
    {
        let target = match &self.sftp {
            Some(s) => s.parent_dir(),
            None => None,
        };
        if let Some((side, path)) = target {
            self.sftp_navigate(side, path);
        }
    }

    fn do_browser_key(&mut self, what: BrowserKey)
        requires
            old(self)@.sftp is Some,
        ensures
            final(self)@ == old(self)@.browser_key_done(old(self)@.sftp->0, what),
    {
        match what {
            BrowserKey::Disconnect => self.sftp_disconnect(),
            BrowserKey::Enter => self.enter_selected(),
            BrowserKey::Panes(key) => {
                if let Some(s) = &mut self.sftp {
                    s.pane_key(key);
                }
            },
            BrowserKey::Help => self.open_help(),
            BrowserKey::Edit => self.sftp_edit_selected(),
            BrowserKey::Up => self.enter_parent(),
            BrowserKey::Refresh => self.sftp_refresh_panes(),
            BrowserKey::Shell => self.open_ssh_for_sftp_host(),
            BrowserKey::ToggleHidden => self.sftp_toggle_hidden(),
            BrowserKey::PickLeftHost => self.perform(Task::OpenSessionPickerForLeftPane),
            BrowserKey::LeftToLocal => self.sftp_left_pane_to_local(),
            BrowserKey::Run => self.sftp_run_queue(),
            BrowserKey::Delete => self.sftp_arm_delete(),
            BrowserKey::Prompt(kind) => self.sftp_open_prompt(kind),
            BrowserKey::Nothing => {},
        }
    }

    pub(crate) fn fold_group(&mut self, collapsed: bool)
        ensures
            final(self)@ == old(self)@.group_folded(collapsed),
    {
        if let Some(section) = self.selected_nav_header() {
            if self.group_sections[section].collapsed == collapsed {
                self.perform(Task::ToggleSelectedGroup);
            }
        }
    }

    fn are_all_folded(&self) -> (r: bool)
        ensures
            r == all_folded(self@.group_sections),
    {
        let mut i: usize = 0;
        while i < self.group_sections.len()
            invariant
                i <= self.group_sections@.len(),
                forall|k: int| 0 <= k < i ==> (#[trigger] self@.group_sections[k]).collapsed,
            decreases self.group_sections@.len() - i,
        {
            assert(self@.group_sections[i as int] == self.group_sections@[i as int]@);
            if !self.group_sections[i].collapsed {
                return false;
            }
            i = i + 1;
        }
        self.group_sections.len() > 0
    }

    pub(crate) fn toggle_all_groups(&mut self)
        ensures
            final(self)@ == old(self)@.all_groups_toggled(),
    {
        let folded = self.are_all_folded();
        self.perform(Task::SetAllGroupsCollapsed(!folded));
    }

    fn pick(&mut self)
        ensures
            final(self)@ == old(self)@.picked(),
    {
        if self.selected_nav_header().is_some() {
            self.perform(Task::ToggleSelectedGroup);
        } else {
            self.sftp_connect_selected();
        }
    }

    fn begin_picker_search(&mut self)
        ensures
            final(self)@ == old(self)@.picker_search_begun(),
    {
        self.sftp_picker_searching = true;
        self.search_query = String::new();
        assert(self@.search_query =~= Seq::empty());
        self.perform(Task::RebuildFilter);
    }

    fn handle_key_sftp_picker(&mut self, key: KeyEvent)
        ensures
            final(self)@ == old(self)@.picker_key(key),
    {
        reveal(AppView::picker_key);

        if self.is_action(KeyAction::Quit, &key) {
            self.request_quit();
        } else if self.is_action(KeyAction::Cancel, &key) {
            self.go_to_tab(0);
        } else if self.is_action(KeyAction::MoveGroupUp, &key) {
            self.move_selection_by_group(-1);
        } else if self.is_action(KeyAction::MoveGroupDown, &key) {
            self.move_selection_by_group(1);
        } else if self.is_action(KeyAction::MoveDown, &key) {
            self.move_selection(1);
        } else if self.is_action(KeyAction::MoveUp, &key) {
            self.move_selection(-1);
        } else if self.is_action(KeyAction::ToggleGroup, &key) {
            self.perform(Task::ToggleSelectedGroup);
        } else if self.is_action(KeyAction::FoldGroupIn, &key) {
            self.fold_group(false);
        } else if self.is_action(KeyAction::FoldGroupOut, &key) {
            self.fold_group(true);
        } else if self.is_action(KeyAction::CollapseAll, &key) {
            self.toggle_all_groups();
        } else if self.is_action(KeyAction::Connect, &key) {
            self.pick();
        } else if self.is_action(KeyAction::Search, &key) {
            self.begin_picker_search();
        } else if self.is_action(KeyAction::Help, &key) {
            self.open_help();
        }
    }

    pub(crate) fn type_query(&mut self, c: char)
        ensures
            final(self)@ == old(self)@.searching_for(old(self)@.search_query.push(c)),
    {
        self.search_query.push(c);
        self.perform(Task::RebuildFilter);
    }

    pub(crate) fn shorten_query(&mut self)
        ensures
            final(self)@ == old(self)@.searching_for(old(self)@.query_shortened()),
    {
        let _ = self.search_query.pop();
        self.perform(Task::RebuildFilter);
    }

    fn stop_picker_search(&mut self)
        ensures
            final(self)@ == (AppView { sftp_picker_searching: false, ..old(self)@ }),
    {
        self.sftp_picker_searching = false;
    }

    fn handle_key_sftp_picker_search(&mut self, key: KeyEvent)
        ensures
            final(self)@ == old(self)@.picker_search_key(key),
    {
        reveal(AppView::picker_search_key);

        if self.is_action(KeyAction::Cancel, &key) {
            self.end_picker_search();
        } else if self.is_action(KeyAction::Connect, &key) {
            self.stop_picker_search();
            self.pick();
        } else {
            match key.code {
                KeyCode::Backspace => self.shorten_query(),
                KeyCode::Up => self.move_selection(-1),
                KeyCode::Down => self.move_selection(1),
                _ => {
                    if let Some(c) = key.typed() {
                        self.type_query(c);
                    }
                },
            }
        }
    }

    /// Keys of the connected browser.
    fn handle_key_sftp_browser(&mut self, key: KeyEvent)
        requires
            old(self)@.sftp is Some,
        ensures
            final(self)@ == old(self)@.browser_key_done(
                old(self)@.sftp->0,
                old(self)@.browser_key(old(self)@.sftp->0, key),
            ),
    {
        let what = match &self.sftp {
            Some(s) => self.find_browser_key(s, &key),
            None => BrowserKey::Nothing,
        };
        self.do_browser_key(what);
    }

    /// Keys while a pane is searched.
    fn handle_key_sftp_browser_search(&mut self, key: KeyEvent)
        requires
            old(self)@.sftp is Some,
        ensures
            final(self)@ == old(self)@.with_browser(old(self)@.sftp->0.search_key(key)),
    {
        if let Some(s) = &mut self.sftp {
            s.search_key(key);
        }
    }

    /// Keys of the SFTP tab.
    pub fn handle_key_sftp(&mut self, key: KeyEvent)
        ensures
            final(self)@ == old(self)@.sftp_key(key),
    {
        if self.sftp_picker_searching {
            self.handle_key_sftp_picker_search(key);
            return;
        }
        let searching = match &self.sftp {
            Some(s) => s.searching,
            None => false,
        };
        if searching {
            self.handle_key_sftp_browser_search(key);
        } else if !self.try_tab_switch(&key) {
            if self.sftp.is_some() {
                self.handle_key_sftp_browser(key);
            } else {
                self.handle_key_sftp_picker(key);
            }
        }
    }
}

} // verus!
