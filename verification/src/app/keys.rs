//! Where a key goes: to the screen that has the keyboard. And the screens that
//! ask questions or search.

use vstd::prelude::*;

use crate::app::effects::{Effect, EffectView, Task};
use crate::app::state::{
    AppMode, FormKind, Help, HelpView, KeybindEditor, EditorView, OpenForms, Palette, PaletteView,
    PendingDelete, PendingView,
};
use crate::app::{App, AppView};
use crate::keybinds::{KeyAction, KeyCode, KeyEvent, KeyModifiers};
use crate::text::{cat3, cat4, cat5, decimal, len, opt_view, to_decimal};

verus! {

broadcast use crate::text::group_views;

/// What came of deleting a host.
#[derive(Debug, PartialEq, Eq)]
pub enum HostDeletion {
    /// It is gone; the text says why its secret is not, if it is not.
    Deleted(Option<String>),
    /// It is not a host of the launcher.
    NotLauncher,
    NotFound,
}

/// What came of deleting an identity.
#[derive(Debug, PartialEq, Eq)]
pub enum IdentityDeletion {
    /// It is gone; the text says why its secret is not, if it is not.
    Deleted(Option<String>),
    /// So many hosts use it.
    InUse(usize),
    NotFound,
}

/// What is said of something that was deleted, and of its secret.
pub open spec fn deletion_notice(
    kind: Seq<char>,
    name: Seq<char>,
    cleanup: Option<Seq<char>>,
) -> Seq<char> {
    let done = kind + " '"@ + name + "' deleted"@;
    match cleanup {
        Some(e) => done + "; credential cleanup failed: "@ + e,
        None => done,
    }
}

fn say_deleted(kind: &str, name: &str, cleanup: Option<String>) -> (r: String)
    ensures
        r@ == deletion_notice(kind@, name@, opt_view(cleanup)),
{
    let done = cat4(kind, " '", name, "' deleted");
    match cleanup {
        Some(e) => cat3(done.as_str(), "; credential cleanup failed: ", e.as_str()),
        None => done,
    }
}

impl PaletteView {
    /// The rows of the palette: the results, and the offer to connect unsaved.
    pub open spec fn rows(self) -> nat {
        self.results.len() + if self.adhoc {
            1nat
        } else {
            0nat
        }
    }

    pub open spec fn on_adhoc(self) -> bool {
        self.adhoc && self.selected == self.results.len()
    }

    pub open spec fn clamped(self) -> PaletteView {
        PaletteView {
            selected: if self.selected < self.rows() {
                self.selected
            } else {
                0
            },
            ..self
        }
    }

    pub open spec fn moved(self, down: bool) -> PaletteView {
        PaletteView {
            selected: if down {
                if self.selected + 1 < self.rows() {
                    (self.selected + 1) as usize
                } else {
                    self.selected
                }
            } else if self.selected > 0 {
                (self.selected - 1) as usize
            } else {
                0
            },
            ..self
        }
    }
}

impl HelpView {
    pub open spec fn at(self, scroll: int) -> HelpView {
        HelpView {
            scroll: if scroll < 0 {
                0
            } else if scroll > self.max_scroll {
                self.max_scroll
            } else {
                scroll as u16
            },
            ..self
        }
    }

    /// A line or page up: no further than the top.
    pub open spec fn up(self, lines: int) -> HelpView {
        HelpView {
            scroll: if self.scroll >= lines {
                (self.scroll - lines) as u16
            } else {
                0
            },
            ..self
        }
    }

    pub open spec fn searching(self, query: Seq<char>) -> HelpView {
        HelpView { query, scroll: 0, ..self }
    }

    pub open spec fn shortened(self) -> Seq<char> {
        if self.query.len() > 0 {
            self.query.drop_last()
        } else {
            self.query
        }
    }

    /// What a key does. `None` closes the help.
    pub open spec fn key_pressed(self, key: KeyEvent) -> Option<HelpView> {
        match key.code {
            KeyCode::Esc => if self.query.len() > 0 {
                Some(self.searching(Seq::empty()))
            } else {
                None
            },
            KeyCode::Enter => if self.query.len() > 0 {
                Some(self)
            } else {
                None
            },
            KeyCode::Up => Some(self.up(1)),
            KeyCode::Down => Some(self.at(self.scroll + 1)),
            KeyCode::PageUp => Some(self.up(10)),
            KeyCode::PageDown => Some(self.at(self.scroll + 10)),
            KeyCode::Home => Some(HelpView { scroll: 0, ..self }),
            KeyCode::End => Some(HelpView { scroll: self.max_scroll, ..self }),
            KeyCode::Backspace => Some(self.searching(self.shortened())),
            _ => match key.types() {
                Some(c) => Some(self.searching(self.query.push(c))),
                None => Some(self),
            },
        }
    }
}

impl AppView {
    pub open spec fn with_palette(self, palette: PaletteView) -> AppView {
        AppView { palette, ..self }
    }

    pub open spec fn with_help(self, help: HelpView) -> AppView {
        AppView { help, ..self }
    }

    pub open spec fn notice_dismissed(self) -> AppView {
        AppView { notice_popup: None, mode: AppMode::Normal, ..self }
    }

    /// Enter in the palette: the unsaved host is connected to, or the chosen one
    /// is shown and connected to.
    pub open spec fn palette_entered(self) -> AppView {
        if self.palette.on_adhoc() {
            self.with_palette(PaletteView { adhoc: false, ..self.palette }).doing(
                Task::ConnectAdhoc,
            )
        } else if self.palette.selected < self.palette.results.len() {
            self.in_mode(AppMode::Normal).doing(
                Task::RevealAndConnect(self.palette.results[self.palette.selected as int]),
            )
        } else {
            self.in_mode(AppMode::Normal)
        }
    }

    pub open spec fn palette_typed(self, query: Seq<char>) -> AppView {
        self.with_palette(PaletteView { query, ..self.palette }).doing(Task::SearchPalette)
    }

    /// What a key does in the palette. Letters are text, even those that move
    /// elsewhere.
    #[verifier::opaque]
    pub open spec fn palette_key(self, key: KeyEvent) -> AppView {
        if self.hits(KeyAction::Cancel, key) {
            self.in_mode(AppMode::Normal)
        } else if self.hits(KeyAction::Connect, key) {
            self.palette_entered()
        } else if key.types() is Some {
            self.palette_typed(self.palette.query.push(key.types()->0))
        } else if self.hits(KeyAction::MoveUp, key) {
            self.with_palette(self.palette.moved(false))
        } else if self.hits(KeyAction::MoveDown, key) {
            self.with_palette(self.palette.moved(true))
        } else if key.code is Backspace {
            self.palette_typed(
                if self.palette.query.len() > 0 {
                    self.palette.query.drop_last()
                } else {
                    self.palette.query
                },
            )
        } else {
            self
        }
    }

    /// The palette was searched: the selection stays within its rows.
    pub open spec fn palette_found(self, results: Seq<usize>, adhoc: bool) -> AppView {
        self.with_palette((PaletteView { results, adhoc, ..self.palette }).clamped())
    }

    /// The search ends, and with it the filter if so asked.
    pub open spec fn search_left(self, reset_filter: bool) -> AppView {
        (AppView {
            search_query: Seq::empty(),
            mode: AppMode::Normal,
            tag_filters: if reset_filter {
                Seq::empty()
            } else {
                self.tag_filters
            },
            ..self
        }).doing(Task::RebuildFilter)
    }

    #[verifier::opaque]
    pub open spec fn search_key(self, key: KeyEvent) -> AppView {
        if self.hits(KeyAction::Cancel, key) {
            self.search_left(true)
        } else if self.hits(KeyAction::Connect, key) {
            self.doing(Task::ConnectSelected)
        } else if key.types() is Some {
            self.searching_for(self.search_query.push(key.types()->0))
        } else if self.hits(KeyAction::MoveDown, key) {
            self.selection_moved(1)
        } else if self.hits(KeyAction::MoveUp, key) {
            self.selection_moved(-1)
        } else if key.code is Backspace {
            self.searching_for(self.query_shortened())
        } else {
            self
        }
    }

    /// What a key does in the host detail, as a task.
    pub open spec fn detail_task(self, key: KeyEvent) -> Option<Task> {
        match self.detail_edit {
            None => None,
            Some(field) => if self.hits(KeyAction::Cancel, key) {
                Some(Task::CancelHostDetail)
            } else if self.hits(KeyAction::Connect, key) {
                Some(Task::SaveHostDetail)
            } else if self.hits(KeyAction::Favorite, key) {
                Some(Task::ToggleFavorite)
            } else if self.hits(KeyAction::DetailFocus, key) {
                Some(Task::DetailFieldNext)
            } else if key.code is BackTab {
                Some(Task::DetailFieldPrev)
            } else if self.hits(KeyAction::MoveDown, key) {
                Some(Task::DetailFieldNext)
            } else if self.hits(KeyAction::MoveUp, key) {
                Some(Task::DetailFieldPrev)
            } else if key.code is Right && field.tri_state {
                Some(Task::DetailCycleSessionLogging(1))
            } else if key.code is Left && field.tri_state {
                Some(Task::DetailCycleSessionLogging(-1i32))
            } else if key.code == KeyCode::Char(' ') && key.modifiers == KeyModifiers::none()
                && field.session_logging {
                Some(Task::DetailCycleSessionLogging(1))
            } else if key.code is Backspace && key.modifiers == KeyModifiers::none() {
                Some(Task::DetailBackspace)
            } else if key.types() is Some && !field.tri_state {
                Some(Task::DetailInsert(key.types()->0))
            } else {
                None
            },
        }
    }

    pub open spec fn doing_this(self, task: Option<Task>) -> AppView {
        match task {
            Some(task) => self.doing(task),
            None => self,
        }
    }

    /// What a key of the keys tab hands on, if it hands it on.
    pub open spec fn keychain_task(self, key: KeyEvent) -> Option<Task> {
        if self.hits(KeyAction::MoveDown, key) {
            Some(Task::MoveIdentityGrid(1, 0))
        } else if self.hits(KeyAction::MoveUp, key) {
            Some(Task::MoveIdentityGrid(-1i32, 0))
        } else if self.hits(KeyAction::MoveRight, key) {
            Some(Task::MoveIdentityGrid(0, 1))
        } else if self.hits(KeyAction::MoveLeft, key) {
            Some(Task::MoveIdentityGrid(0, -1i32))
        } else if self.hits(KeyAction::IdentityColumnsInc, key) {
            Some(Task::AdjustIdentityColumns(1))
        } else if self.hits(KeyAction::IdentityColumnsDec, key) {
            Some(Task::AdjustIdentityColumns(-1i32))
        } else if self.hits(KeyAction::AddHost, key) {
            Some(Task::EnterIdentityForm)
        } else if self.hits(KeyAction::GenerateKey, key) {
            Some(Task::EnterKeygenForm)
        } else if self.hits(KeyAction::Edit, key) {
            Some(Task::EditSelectedIdentity)
        } else if self.hits(KeyAction::Delete, key) {
            Some(Task::DeleteSelectedIdentity)
        } else if self.hits(KeyAction::RemoveFromAgent, key) {
            Some(Task::RemoveSelectedFromAgent)
        } else if self.hits(KeyAction::AddToAgent, key) {
            Some(Task::AddSelectedToAgent)
        } else {
            None
        }
    }

    #[verifier::opaque]
    pub open spec fn keychain_key(self, key: KeyEvent) -> AppView {
        let quiet = AppView { identity_notice: None, ..self };
        match quiet.tab_switched(key) {
            Some(there) => there,
            None => if quiet.hits(KeyAction::Quit, key) {
                quiet.quit_requested()
            } else if quiet.hits(KeyAction::Cancel, key) {
                quiet.on_tab(0)
            } else if quiet.keychain_task(key) is Some {
                quiet.doing_this(quiet.keychain_task(key))
            } else if quiet.hits(KeyAction::PushKey, key) {
                quiet.push_from_keys()
            } else if quiet.hits(KeyAction::Help, key) {
                quiet.help_opened()
            } else if quiet.hits(KeyAction::KnownHosts, key) {
                quiet.doing(Task::LoadKnownHosts)
            } else {
                quiet
            },
        }
    }

    /// Leaving a form with changes: save them, drop them, or go back.
    #[verifier::opaque]
    pub open spec fn confirm_discard_key(self, key: KeyEvent) -> AppView {
        let form = self.forms.asked_spec();
        if self.hits(KeyAction::ConfirmYes, key) {
            match form {
                Some(form) => self.doing(Task::SaveForm(form)),
                None => self,
            }
        } else if self.hits(KeyAction::ConfirmNo, key) {
            match form {
                Some(FormKind::Tunnel) => self.tunnel_form_dropped(),
                Some(form) => self.doing(Task::DiscardForm(form)),
                None => self,
            }
        } else if self.hits(KeyAction::Cancel, key) {
            self.in_mode(
                match form {
                    Some(form) => form.mode_spec(),
                    None => AppMode::Normal,
                },
            )
        } else {
            self
        }
    }

    pub open spec fn tunnel_form_dropped(self) -> AppView {
        (AppView {
            forms: OpenForms { tunnel: false, ..self.forms },
            mode: AppMode::Normal,
            ..self
        }).doing(Task::DiscardForm(FormKind::Tunnel))
    }

    /// A form was to be saved: one that could not be is shown again.
    pub open spec fn form_save_done(self, form: FormKind) -> AppView {
        if self.forms.holds_spec(form) && self.mode is ConfirmDiscard {
            self.in_mode(form.mode_spec())
        } else {
            self
        }
    }

    /// The help goes, and what was shown before it comes back.
    pub open spec fn help_closed(self) -> AppView {
        AppView {
            mode: match self.help.return_to {
                Some(mode) => mode,
                None => AppMode::Normal,
            },
            help: HelpView { scroll: 0, return_to: None, ..self.help },
            ..self
        }
    }

    #[verifier::opaque]
    pub open spec fn help_key(self, key: KeyEvent) -> AppView {
        match self.help.key_pressed(key) {
            Some(help) => self.with_help(help),
            None => self.help_closed(),
        }
    }

    pub open spec fn without_pending(self) -> AppView {
        AppView { pending_delete: None, ..self }
    }

    /// What was to be deleted is deleted.
    pub open spec fn deleting(self, pending: PendingView) -> AppView {
        match pending {
            PendingView::Host { id, name } => self.asking(EffectView::DeleteHost { id, name }),
            PendingView::Identity { id, name } => self.asking(
                EffectView::DeleteIdentity { id, name },
            ),
            PendingView::Group { id, name } => self.asking(EffectView::DeleteGroup { id, name }),
            PendingView::Tunnel { id, label } => self.asking(
                EffectView::DeleteTunnel { id, label },
            ),
            PendingView::SftpEntry { side, path, is_dir, .. } => self.delete_confirmed(
                side,
                path,
                is_dir,
            ).in_mode(AppMode::Normal),
            PendingView::RemoteEdit { .. } => self.torn_down().in_mode(AppMode::Normal),
        }
    }

    pub open spec fn pending_deleted(self) -> AppView {
        match self.pending_delete {
            Some(pending) => self.without_pending().deleting(pending),
            None => self.without_pending().in_mode(AppMode::Normal),
        }
    }

    /// Nothing is deleted.
    pub open spec fn pending_kept(self) -> AppView {
        if self.pending_delete matches Some(pending) && pending is Group {
            self.without_pending().doing(Task::EnterGroupManage)
        } else {
            self.without_pending().in_mode(AppMode::Normal)
        }
    }

    #[verifier::opaque]
    pub open spec fn confirm_delete_key(self, key: KeyEvent) -> AppView {
        if self.hits(KeyAction::ConfirmYes, key) {
            self.pending_deleted()
        } else if self.hits(KeyAction::ConfirmNo, key) || self.hits(KeyAction::Cancel, key) {
            self.pending_kept()
        } else {
            self
        }
    }

    #[verifier::opaque]
    pub open spec fn confirm_quit_key(self, key: KeyEvent) -> AppView {
        if self.hits(KeyAction::ConfirmYes, key) {
            AppView { should_quit: true, ..self }
        } else if self.hits(KeyAction::ConfirmNo, key) || self.hits(KeyAction::Cancel, key) {
            AppView {
                mode: match self.pre_quit_mode {
                    Some(mode) => mode,
                    None => AppMode::Normal,
                },
                pre_quit_mode: None,
                ..self
            }
        } else {
            self
        }
    }

    /// What is said and done of a host that was to be deleted.
    pub open spec fn host_settled(self, name: Seq<char>, outcome: HostDeletion) -> AppView {
        match outcome {
            HostDeletion::Deleted(cleanup) => self.notifying(
                deletion_notice("Host"@, name, opt_view(cleanup)),
            ).doing(Task::ReloadHosts),
            HostDeletion::NotLauncher => self.notifying("Only launcher hosts can be deleted"@),
            HostDeletion::NotFound => self.doing(Task::ReloadHosts),
        }
    }

    /// What is said and done of an identity that was to be deleted.
    pub open spec fn identity_settled(self, name: Seq<char>, outcome: IdentityDeletion) -> AppView {
        match outcome {
            IdentityDeletion::Deleted(cleanup) => self.identity_notifying(
                deletion_notice("Identity"@, name, opt_view(cleanup)),
            ).doing(Task::ReloadIdentities),
            IdentityDeletion::InUse(count) => self.identity_notifying(
                "Cannot delete '"@ + name + "': used by "@ + decimal(count as nat) + " host(s)"@,
            ),
            IdentityDeletion::NotFound => self.doing(Task::ReloadIdentities),
        }
    }

    pub open spec fn group_gone(self, name: Seq<char>, deleted: bool) -> AppView {
        (if deleted {
            (AppView { group_notice: Some("Group '"@ + name + "' deleted"@), ..self }).doing(
                Task::ReloadHosts,
            )
        } else {
            self
        }).doing(Task::EnterGroupManage)
    }

    pub open spec fn tunnel_gone(self, label: Seq<char>) -> AppView {
        (AppView {
            tunnel_notice: Some("Tunnel '"@ + label + "' deleted"@),
            mode: AppMode::Normal,
            ..self
        }).doing(Task::ReloadTunnels)
    }

    /// Ctrl+C: quit after a question, or at once while the question is open.
    pub open spec fn quit_forced(self) -> AppView {
        if self.mode is ConfirmQuit || !self.config.appearance.confirm_quit {
            AppView { should_quit: true, ..self }
        } else {
            AppView { pre_quit_mode: Some(self.mode), mode: AppMode::ConfirmQuit, ..self }
        }
    }

    pub open spec fn keybind_editor_opened(self) -> AppView {
        AppView {
            keybind_editor: Some(EditorView::fresh()),
            mode: AppMode::KeybindEditor,
            ..self
        }
    }

    pub open spec fn settings_opened(self) -> AppView {
        AppView { settings_selected: 0, mode: AppMode::Settings, ..self }
    }

    /// Whether a key opens the settings.
    pub open spec fn opens_settings(self, key: KeyEvent) -> bool {
        key.code == KeyCode::Char('h') && key.modifiers.control
    }

    /// What a key does before the screen gets it, if it does. Sessions get all
    /// of their keys.
    pub open spec fn global_key(self, key: KeyEvent) -> Option<AppView> {
        if self.mode is SessionPicker {
            Some(self.doing(Task::ScreenKey(self.mode, key)))
        } else if self.mode is Connecting || self.mode is Session {
            Some(self.doing(Task::SessionKey(key)))
        } else if self.hits(KeyAction::ForceQuit, key) {
            Some(self.quit_forced())
        } else if self.mode is Normal && self.hits(KeyAction::LocalShell, key) {
            Some(self.doing(Task::OpenLocalShell))
        } else if self.mode is Normal && self.hits(KeyAction::KeybindEditor, key) {
            Some(self.keybind_editor_opened())
        } else if self.mode is Normal && self.opens_settings(key) {
            Some(self.settings_opened())
        } else {
            None
        }
    }

    /// Whether the strip of background sessions gets a key before the tab does.
    pub open spec fn asks_strip(self, key: KeyEvent) -> bool {
        self.mode is Normal && self.global_key(key) is None
    }

    /// What a key does on the dashboard tab that is shown.
    pub open spec fn tab_key(self, key: KeyEvent) -> AppView {
        if self.active_tab == 1 {
            self.sftp_key(key)
        } else if self.active_tab == 2 || self.active_tab == 4 {
            self.doing(Task::TabKey(self.active_tab, key))
        } else if self.active_tab == 3 {
            self.keychain_key(key)
        } else {
            self.normal_key(key)
        }
    }

    /// What a key does on the screen that has the keyboard.
    pub open spec fn screen_key(self, key: KeyEvent) -> AppView {
        match self.mode {
            AppMode::KeybindEditor => self.keybind_editor_key(key),
            AppMode::Settings => self.settings_key(key),
            AppMode::ThemePicker => self.theme_picker_key(key),
            AppMode::ConfirmQuit => self.confirm_quit_key(key),
            AppMode::Help => self.help_key(key),
            AppMode::ConfirmDiscard => self.confirm_discard_key(key),
            AppMode::ConfirmDelete => self.confirm_delete_key(key),
            AppMode::PushKeyHostPicker => self.host_picker_key(key),
            AppMode::PushKeyIdentityPicker => self.identity_picker_key(key),
            AppMode::SftpPrompt => self.prompt_key(key),
            AppMode::Palette => self.palette_key(key),
            AppMode::Search => self.search_key(key),
            AppMode::HostDetail => self.doing_this(self.detail_task(key)),
            AppMode::Notice => self.notice_dismissed(),
            AppMode::KnownHosts => self.known_hosts_key(key),
            AppMode::Normal => self.tab_key(key),
            _ => self.doing(Task::ScreenKey(self.mode, key)),
        }
    }

    /// What a key does.
    pub open spec fn key_handled(self, key: KeyEvent) -> AppView {
        match self.global_key(key) {
            Some(after) => after,
            None => self.screen_key(key),
        }
    }
}

/// Keys typed into a session reach the session, whatever they are bound to.
pub proof fn sessions_get_their_keys(app: AppView, key: KeyEvent)
    requires
        app.mode is Connecting || app.mode is Session,
    ensures
        app.key_handled(key) == app.doing(Task::SessionKey(key)),
{
}

/// A second forced quit quits, whatever is configured.
pub proof fn second_forced_quit_quits(app: AppView, key: KeyEvent)
    requires
        app.hits(KeyAction::ForceQuit, key),
        !(app.mode is SessionPicker),
        !(app.mode is Connecting),
        !(app.mode is Session),
    ensures
        app.key_handled(key).should_quit || app.key_handled(key).mode is ConfirmQuit,
        app.mode is ConfirmQuit ==> app.key_handled(key).should_quit,
        !app.key_handled(key).should_quit ==> app.key_handled(key).key_handled(key).should_quit,
{
    let once = app.key_handled(key);
    assert(once.config == app.config);
}

/// Refusing to quit brings back the screen that was left.
pub proof fn refused_quit_restores_the_screen(app: AppView, key: KeyEvent)
    requires
        !(app.mode is ConfirmQuit),
        app.config.appearance.confirm_quit,
        app.hits(KeyAction::ConfirmNo, key),
        !app.hits(KeyAction::ConfirmYes, key),
    ensures
        app.quit_requested().confirm_quit_key(key).mode == app.mode,
        !app.should_quit ==> !app.quit_requested().confirm_quit_key(key).should_quit,
{
    reveal(AppView::quit_requested);
    reveal(AppView::confirm_quit_key);
}

/// Closing the help brings back the screen that it was opened from.
pub proof fn closed_help_restores_the_screen(app: AppView)
    ensures
        app.help_opened().help_closed().mode == app.mode,
{
    reveal(AppView::help_opened);
}

impl Palette {
    fn step(&mut self, down: bool)
        ensures
            final(self)@ == old(self)@.moved(down),
    {
        if down {
            let count: usize = self.results.len();
            let last = if self.adhoc {
                self.selected < count
            } else {
                count > 0 && self.selected < count - 1
            };
            if last {
                self.selected = self.selected + 1;
            }
        } else if self.selected > 0 {
            self.selected = self.selected - 1;
        }
    }

    fn show(&mut self, results: Vec<usize>, adhoc: bool)
        ensures
            final(self)@ == (PaletteView { results: results@, adhoc, ..old(self)@ }).clamped(),
    {
        self.results = results;
        self.adhoc = adhoc;
        let count: usize = self.results.len();
        let within = if adhoc {
            self.selected <= count
        } else {
            self.selected < count
        };
        if !within {
            self.selected = 0;
        }
    }
}

impl Help {
    fn scroll_down(&mut self, lines: u16)
        ensures
            final(self)@ == old(self)@.at(old(self)@.scroll + lines),
    {
        self.scroll = if self.max_scroll >= lines && self.scroll <= self.max_scroll - lines {
            self.scroll + lines
        } else {
            self.max_scroll
        };
    }

    fn scroll_up(&mut self, lines: u16)
        ensures
            final(self)@ == old(self)@.up(lines as int),
    {
        self.scroll = if self.scroll >= lines {
            self.scroll - lines
        } else {
            0
        };
    }

    fn clear(&mut self)
        ensures
            final(self)@ == old(self)@.searching(Seq::empty()),
    {
        self.query = String::new();
        self.scroll = 0;
        assert(self@.query =~= Seq::empty());
    }

    /// Apply a key. Returns whether the help stays open.
    fn press(&mut self, key: KeyEvent) -> (r: bool)
        ensures
            match old(self)@.key_pressed(key) {
                Some(help) => r && final(self)@ == help,
                None => !r && final(self)@ == old(self)@,
            },
    {
        match key.code {
            KeyCode::Esc => {
                if len(self.query.as_str()) == 0 {
                    return false;
                }
                self.clear();
            },
            KeyCode::Enter => {
                return len(self.query.as_str()) > 0;
            },
            KeyCode::Up => self.scroll_up(1),
            KeyCode::Down => self.scroll_down(1),
            KeyCode::PageUp => self.scroll_up(10),
            KeyCode::PageDown => self.scroll_down(10),
            KeyCode::Home => {
                self.scroll = 0;
            },
            KeyCode::End => {
                self.scroll = self.max_scroll;
            },
            KeyCode::Backspace => {
                let _ = self.query.pop();
                self.scroll = 0;
            },
            _ => {
                if let Some(c) = key.typed() {
                    self.query.push(c);
                    self.scroll = 0;
                }
            },
        }
        true
    }
}

impl App {
    /// Any key dismisses the message popup.
    pub fn handle_key_notice(&mut self)
        ensures
            final(self)@ == old(self)@.notice_dismissed(),
    {
        self.notice_popup = None;
        self.mode = AppMode::Normal;
    }

    fn drop_adhoc(&mut self)
        ensures
            final(self)@ == old(self)@.with_palette(
                PaletteView { adhoc: false, ..old(self)@.palette },
            ),
    {
        self.palette.adhoc = false;
    }

    fn enter_palette(&mut self)
        ensures
            final(self)@ == old(self)@.palette_entered(),
    {
        let count: usize = self.palette.results.len();
        let at: usize = self.palette.selected;
        if self.palette.adhoc && at == count {
            self.drop_adhoc();
            self.perform(Task::ConnectAdhoc);
        } else {
            let chosen = if at < count {
                Some(self.palette.results[at])
            } else {
                None
            };
            self.set_mode(AppMode::Normal);
            if let Some(host) = chosen {
                self.perform(Task::RevealAndConnect(host));
            }
        }
    }

    fn type_in_palette(&mut self, c: char)
        ensures
            final(self)@ == old(self)@.palette_typed(old(self)@.palette.query.push(c)),
    {
        self.palette.query.push(c);
        self.rebuild_palette_results();
    }

    fn shorten_palette(&mut self)
        ensures
            final(self)@ == old(self)@.palette_typed(
                if old(self)@.palette.query.len() > 0 {
                    old(self)@.palette.query.drop_last()
                } else {
                    old(self)@.palette.query
                },
            ),
    {
        let _ = self.palette.query.pop();
        self.rebuild_palette_results();
    }

    /// Keys of the palette.
    pub fn handle_key_palette(&mut self, key: KeyEvent)
        ensures
            final(self)@ == old(self)@.palette_key(key),
    {
        reveal(AppView::palette_key);

        if self.is_action(KeyAction::Cancel, &key) {
            self.set_mode(AppMode::Normal);
        } else if self.is_action(KeyAction::Connect, &key) {
            self.enter_palette();
        } else if let Some(c) = key.typed() {
            self.type_in_palette(c);
        } else if self.is_action(KeyAction::MoveUp, &key) {
            self.palette.step(false);
        } else if self.is_action(KeyAction::MoveDown, &key) {
            self.palette.step(true);
        } else if key.code == KeyCode::Backspace {
            self.shorten_palette();
        }
    }

    /// Have the palette searched for what is typed.
    pub fn rebuild_palette_results(&mut self)
        ensures
            final(self)@ == old(self)@.doing(Task::SearchPalette),
    {
        self.perform(Task::SearchPalette);
    }

    /// What the palette found, and whether what is typed could be connected to.
    pub fn palette_searched(&mut self, results: Vec<usize>, adhoc: bool)
        ensures
            final(self)@ == old(self)@.palette_found(results@, adhoc),
    {
        self.palette.show(results, adhoc);
    }

    /// Whether what is typed in the palette could be connected to.
    pub fn palette_adhoc_checked(&mut self, adhoc: bool)
        ensures
            final(self)@ == old(self)@.with_palette(
                PaletteView { adhoc, ..old(self)@.palette },
            ),
    {
        self.palette.adhoc = adhoc;
    }

    pub fn exit_search(&mut self, reset_filter: bool)
        ensures
            final(self)@ == old(self)@.search_left(reset_filter),
    {
        self.search_query = String::new();
        assert(self@.search_query =~= Seq::empty());
        self.mode = AppMode::Normal;
        if reset_filter {
            self.tag_filters = Vec::new();
        }
        self.perform(Task::RebuildFilter);
    }

    /// Keys of the search.
    pub fn handle_key_search(&mut self, key: KeyEvent)
        ensures
            final(self)@ == old(self)@.search_key(key),
    {
        reveal(AppView::search_key);

        if self.is_action(KeyAction::Cancel, &key) {
            self.exit_search(true);
        } else if self.is_action(KeyAction::Connect, &key) {
            self.perform(Task::ConnectSelected);
        } else if let Some(c) = key.typed() {
            self.type_query(c);
        } else if self.is_action(KeyAction::MoveDown, &key) {
            self.move_selection(1);
        } else if self.is_action(KeyAction::MoveUp, &key) {
            self.move_selection(-1);
        } else if key.code == KeyCode::Backspace {
            self.shorten_query();
        }
    }

    fn find_detail_task(&self, key: &KeyEvent) -> (r: Option<Task>)
        ensures
            r == self@.detail_task(*key),
    {
        let field = match self.detail_edit {
            Some(field) => field,
            None => {
                return None;
            },
        };
        if self.is_action(KeyAction::Cancel, key) {
            Some(Task::CancelHostDetail)
        } else if self.is_action(KeyAction::Connect, key) {
            Some(Task::SaveHostDetail)
        } else if self.is_action(KeyAction::Favorite, key) {
            Some(Task::ToggleFavorite)
        } else if self.is_action(KeyAction::DetailFocus, key) {
            Some(Task::DetailFieldNext)
        } else if key.code == KeyCode::BackTab {
            Some(Task::DetailFieldPrev)
        } else if self.is_action(KeyAction::MoveDown, key) {
            Some(Task::DetailFieldNext)
        } else if self.is_action(KeyAction::MoveUp, key) {
            Some(Task::DetailFieldPrev)
        } else if key.code == KeyCode::Right && field.tri_state {
            Some(Task::DetailCycleSessionLogging(1))
        } else if key.code == KeyCode::Left && field.tri_state {
            Some(Task::DetailCycleSessionLogging(-1))
        } else if key.code == KeyCode::Char(' ') && key.modifiers.is_empty()
            && field.session_logging {
            Some(Task::DetailCycleSessionLogging(1))
        } else if key.code == KeyCode::Backspace && key.modifiers.is_empty() {
            Some(Task::DetailBackspace)
        } else {
            match key.typed() {
                Some(c) => if field.tri_state {
                    None
                } else {
                    Some(Task::DetailInsert(c))
                },
                None => None,
            }
        }
    }

    /// Keys of the host detail.
    pub fn handle_key_host_detail(&mut self, key: KeyEvent)
        ensures
            final(self)@ == old(self)@.doing_this(old(self)@.detail_task(key)),
    {
        if let Some(task) = self.find_detail_task(&key) {
            self.perform(task);
        }
    }

    fn find_keychain_task(&self, key: &KeyEvent) -> (r: Option<Task>)
        ensures
            r == self@.keychain_task(*key),
    {
        if self.is_action(KeyAction::MoveDown, key) {
            Some(Task::MoveIdentityGrid(1, 0))
        } else if self.is_action(KeyAction::MoveUp, key) {
            Some(Task::MoveIdentityGrid(-1, 0))
        } else if self.is_action(KeyAction::MoveRight, key) {
            Some(Task::MoveIdentityGrid(0, 1))
        } else if self.is_action(KeyAction::MoveLeft, key) {
            Some(Task::MoveIdentityGrid(0, -1))
        } else if self.is_action(KeyAction::IdentityColumnsInc, key) {
            Some(Task::AdjustIdentityColumns(1))
        } else if self.is_action(KeyAction::IdentityColumnsDec, key) {
            Some(Task::AdjustIdentityColumns(-1))
        } else if self.is_action(KeyAction::AddHost, key) {
            Some(Task::EnterIdentityForm)
        } else if self.is_action(KeyAction::GenerateKey, key) {
            Some(Task::EnterKeygenForm)
        } else if self.is_action(KeyAction::Edit, key) {
            Some(Task::EditSelectedIdentity)
        } else if self.is_action(KeyAction::Delete, key) {
            Some(Task::DeleteSelectedIdentity)
        } else if self.is_action(KeyAction::RemoveFromAgent, key) {
            Some(Task::RemoveSelectedFromAgent)
        } else if self.is_action(KeyAction::AddToAgent, key) {
            Some(Task::AddSelectedToAgent)
        } else {
            None
        }
    }

    fn drop_identity_notice(&mut self)
        ensures
            final(self)@ == (AppView { identity_notice: None, ..old(self)@ }),
    {
        self.identity_notice = None;
    }

    /// Keys of the keys tab.
    pub fn handle_key_keychain(&mut self, key: KeyEvent)
        ensures
            final(self)@ == old(self)@.keychain_key(key),
    {
        reveal(AppView::keychain_key);

        self.drop_identity_notice();
        if self.try_tab_switch(&key) {
            return;
        }
        if self.is_action(KeyAction::Quit, &key) {
            self.request_quit();
        } else if self.is_action(KeyAction::Cancel, &key) {
            self.go_to_tab(0);
        } else if let Some(task) = self.find_keychain_task(&key) {
            self.perform(task);
        } else if self.is_action(KeyAction::PushKey, &key) {
            self.trigger_push_key_from_keys();
        } else if self.is_action(KeyAction::Help, &key) {
            self.open_help();
        } else if self.is_action(KeyAction::KnownHosts, &key) {
            self.open_known_hosts();
        }
    }

    fn drop_tunnel_form(&mut self)
        ensures
            final(self)@ == old(self)@.tunnel_form_dropped(),
    {
        self.forms.tunnel = false;
        self.mode = AppMode::Normal;
        self.perform(Task::DiscardForm(FormKind::Tunnel));
    }

    /// Keys of the question about leaving a form.
    pub fn handle_key_confirm_discard(&mut self, key: KeyEvent)
        ensures
            final(self)@ == old(self)@.confirm_discard_key(key),
    {
        reveal(AppView::confirm_discard_key);

        let form = self.forms.asked();
        if self.is_action(KeyAction::ConfirmYes, &key) {
            if let Some(form) = form {
                self.perform(Task::SaveForm(form));
            }
        } else if self.is_action(KeyAction::ConfirmNo, &key) {
            match form {
                Some(FormKind::Tunnel) => self.drop_tunnel_form(),
                Some(form) => self.perform(Task::DiscardForm(form)),
                None => {},
            }
        } else if self.is_action(KeyAction::Cancel, &key) {
            let mode = match form {
                Some(form) => form.mode(),
                None => AppMode::Normal,
            };
            self.set_mode(mode);
        }
    }

    /// A form was to be saved. One that is still open could not be: it is shown
    /// again, with what is wrong.
    pub fn form_saved(&mut self, form: FormKind)
        ensures
            final(self)@ == old(self)@.form_save_done(form),
    {
        if self.forms.holds(form) && self.mode == AppMode::ConfirmDiscard {
            self.set_mode(form.mode());
        }
    }

    fn close_help(&mut self)
        ensures
            final(self)@ == old(self)@.help_closed(),
    {
        self.mode = match self.help.return_to {
            Some(mode) => mode,
            None => AppMode::Normal,
        };
        self.help.return_to = None;
        self.help.scroll = 0;
    }

    /// Keys of the help.
    pub fn handle_key_help(&mut self, key: KeyEvent)
        ensures
            final(self)@ == old(self)@.help_key(key),
    {
        reveal(AppView::help_key);

        if !self.help.press(key) {
            self.close_help();
        }
    }

    fn take_pending(&mut self) -> (r: Option<PendingDelete>)
        ensures
            final(self)@ == old(self)@.without_pending(),
            opt_view(r) == old(self)@.pending_delete,
    {
        let mut out: Option<PendingDelete> = None;
        core::mem::swap(&mut out, &mut self.pending_delete);
        out
    }

    fn delete(&mut self, pending: PendingDelete)
        ensures
            final(self)@ == old(self)@.deleting(pending@),
    {
        match pending {
            PendingDelete::Host { id, name } => self.ask(Effect::DeleteHost { id, name }),
            PendingDelete::Identity { id, name } => self.ask(Effect::DeleteIdentity { id, name }),
            PendingDelete::Group { id, name } => self.ask(Effect::DeleteGroup { id, name }),
            PendingDelete::Tunnel { id, label } => self.ask(Effect::DeleteTunnel { id, label }),
            PendingDelete::SftpEntry { side, path, is_dir, .. } => {
                self.sftp_delete_confirmed(side, path, is_dir);
                self.set_mode(AppMode::Normal);
            },
            PendingDelete::RemoteEdit { .. } => {
                self.sftp_teardown();
                self.set_mode(AppMode::Normal);
            },
        }
    }

    fn delete_pending(&mut self)
        ensures
            final(self)@ == old(self)@.pending_deleted(),
    {
        match self.take_pending() {
            Some(pending) => self.delete(pending),
            None => self.set_mode(AppMode::Normal),
        }
    }

    fn keep_pending(&mut self)
        ensures
            final(self)@ == old(self)@.pending_kept(),
    {
        let group = match self.take_pending() {
            Some(PendingDelete::Group { .. }) => true,
            _ => false,
        };
        if group {
            self.perform(Task::EnterGroupManage);
        } else {
            self.set_mode(AppMode::Normal);
        }
    }

    /// Keys of the question about a deletion.
    pub fn handle_key_confirm_delete(&mut self, key: KeyEvent)
        ensures
            final(self)@ == old(self)@.confirm_delete_key(key),
    {
        reveal(AppView::confirm_delete_key);

        if self.is_action(KeyAction::ConfirmYes, &key) {
            self.delete_pending();
        } else if self.is_action(KeyAction::ConfirmNo, &key) || self.is_action(
            KeyAction::Cancel,
            &key,
        ) {
            self.keep_pending();
        }
    }

    fn settle_host(&mut self, name: String, outcome: HostDeletion)
        ensures
            final(self)@ == old(self)@.host_settled(name@, outcome),
    {
        match outcome {
            HostDeletion::Deleted(cleanup) => {
                self.notify(say_deleted("Host", name.as_str(), cleanup));
                self.perform(Task::ReloadHosts);
            },
            HostDeletion::NotLauncher => self.notify(
                "Only launcher hosts can be deleted".to_owned(),
            ),
            HostDeletion::NotFound => self.perform(Task::ReloadHosts),
        }
    }

    /// A host was to be deleted.
    pub fn host_deleted(&mut self, name: String, outcome: HostDeletion)
        ensures
            final(self)@ == old(self)@.host_settled(name@, outcome).in_mode(AppMode::Normal),
    {
        self.settle_host(name, outcome);
        self.set_mode(AppMode::Normal);
    }

    fn say_identity(&mut self, notice: String)
        ensures
            final(self)@ == old(self)@.identity_notifying(notice@),
    {
        self.identity_notice = Some(notice);
    }

    fn settle_identity(&mut self, name: String, outcome: IdentityDeletion)
        ensures
            final(self)@ == old(self)@.identity_settled(name@, outcome),
    {
        match outcome {
            IdentityDeletion::Deleted(cleanup) => {
                self.say_identity(say_deleted("Identity", name.as_str(), cleanup));
                self.perform(Task::ReloadIdentities);
            },
            IdentityDeletion::InUse(count) => {
                let number = to_decimal(count as u64);
                self.say_identity(
                    cat5(
                        "Cannot delete '",
                        name.as_str(),
                        "': used by ",
                        number.as_str(),
                        " host(s)",
                    ),
                );
            },
            IdentityDeletion::NotFound => self.perform(Task::ReloadIdentities),
        }
    }

    /// An identity was to be deleted.
    pub fn identity_deleted(&mut self, name: String, outcome: IdentityDeletion)
        ensures
            final(self)@ == old(self)@.identity_settled(name@, outcome).in_mode(AppMode::Normal),
    {
        self.settle_identity(name, outcome);
        self.set_mode(AppMode::Normal);
    }

    fn say_group(&mut self, notice: String)
        ensures
            final(self)@ == (AppView { group_notice: Some(notice@), ..old(self)@ }),
    {
        self.group_notice = Some(notice);
    }

    /// A group was to be deleted.
    pub fn group_deleted(&mut self, name: String, deleted: bool)
        ensures
            final(self)@ == old(self)@.group_gone(name@, deleted),
    {
        if deleted {
            self.say_group(cat3("Group '", name.as_str(), "' deleted"));
            self.perform(Task::ReloadHosts);
        }
        self.perform(Task::EnterGroupManage);
    }

    /// A tunnel was stopped and deleted.
    pub fn tunnel_deleted(&mut self, label: String)
        ensures
            final(self)@ == old(self)@.tunnel_gone(label@),
    {
        self.tunnel_notice = Some(cat3("Tunnel '", label.as_str(), "' deleted"));
        self.mode = AppMode::Normal;
        self.perform(Task::ReloadTunnels);
    }

    /// Keys of the question about quitting.
    pub fn handle_key_confirm_quit(&mut self, key: KeyEvent)
        ensures
            final(self)@ == old(self)@.confirm_quit_key(key),
    {
        reveal(AppView::confirm_quit_key);

        if self.is_action(KeyAction::ConfirmYes, &key) {
            self.should_quit = true;
        } else if self.is_action(KeyAction::ConfirmNo, &key) || self.is_action(
            KeyAction::Cancel,
            &key,
        ) {
            self.mode = match self.pre_quit_mode {
                Some(mode) => mode,
                None => AppMode::Normal,
            };
            self.pre_quit_mode = None;
        }
    }

    fn force_quit(&mut self)
        ensures
            final(self)@ == old(self)@.quit_forced(),
    {
        if self.mode == AppMode::ConfirmQuit || !self.config.appearance.confirm_quit {
            self.should_quit = true;
        } else {
            self.pre_quit_mode = Some(self.mode);
            self.mode = AppMode::ConfirmQuit;
        }
    }

    fn open_keybind_editor(&mut self)
        ensures
            final(self)@ == old(self)@.keybind_editor_opened(),
    {
        let editor = KeybindEditor {
            selected: 0,
            scroll: 0,
            capturing: false,
            append: false,
            query: String::new(),
        };
        assert(editor@.query =~= Seq::empty());
        self.keybind_editor = Some(editor);
        self.mode = AppMode::KeybindEditor;
    }

    fn open_settings(&mut self)
        ensures
            final(self)@ == old(self)@.settings_opened(),
    {
        self.settings_selected = 0;
        self.mode = AppMode::Settings;
    }

    fn try_global_key(&mut self, key: &KeyEvent) -> (r: bool)
        ensures
            r == (old(self)@.global_key(*key) is Some),
            final(self)@ == match old(self)@.global_key(*key) {
                Some(after) => after,
                None => old(self)@,
            },
    {
        let mode = self.mode;
        let normal = mode == AppMode::Normal;
        if mode == AppMode::SessionPicker {
            self.perform(Task::ScreenKey(mode, *key));
        } else if mode == AppMode::Connecting || mode == AppMode::Session {
            self.perform(Task::SessionKey(*key));
        } else if self.is_action(KeyAction::ForceQuit, key) {
            self.force_quit();
        } else if normal && self.is_action(KeyAction::LocalShell, key) {
            self.perform(Task::OpenLocalShell);
        } else if normal && self.is_action(KeyAction::KeybindEditor, key) {
            self.open_keybind_editor();
        } else if normal && key.code == KeyCode::Char('h') && key.modifiers.control {
            self.open_settings();
        } else {
            return false;
        }
        true
    }

    /// Whether the strip of background sessions is to be offered a key before
    /// `handle_key` is called with it.
    pub fn session_strip_is_asked(&self, key: &KeyEvent) -> (r: bool)
        ensures
            r == self@.asks_strip(*key),
    {
        self.mode == AppMode::Normal && !self.is_action(KeyAction::ForceQuit, key)
            && !self.is_action(KeyAction::LocalShell, key) && !self.is_action(
            KeyAction::KeybindEditor,
            key,
        ) && !(key.code == KeyCode::Char('h') && key.modifiers.control)
    }

    fn handle_tab_key(&mut self, key: KeyEvent)
        ensures
            final(self)@ == old(self)@.tab_key(key),
    {
        let tab: usize = self.active_tab;
        if tab == 1 {
            self.handle_key_sftp(key);
        } else if tab == 2 || tab == 4 {
            self.perform(Task::TabKey(tab, key));
        } else if tab == 3 {
            self.handle_key_keychain(key);
        } else {
            self.handle_key_normal(key);
        }
    }

    fn handle_screen_key(&mut self, key: KeyEvent)
        ensures
            final(self)@ == old(self)@.screen_key(key),
    {
        match self.mode {
            AppMode::KeybindEditor => self.handle_key_keybind_editor(key),
            AppMode::Settings => self.handle_key_settings(key),
            AppMode::ThemePicker => self.handle_key_theme_picker(key),
            AppMode::ConfirmQuit => self.handle_key_confirm_quit(key),
            AppMode::Help => self.handle_key_help(key),
            AppMode::ConfirmDiscard => self.handle_key_confirm_discard(key),
            AppMode::ConfirmDelete => self.handle_key_confirm_delete(key),
            AppMode::PushKeyHostPicker => self.handle_key_push_key_host_picker(key),
            AppMode::PushKeyIdentityPicker => self.handle_key_push_key_identity_picker(key),
            AppMode::SftpPrompt => self.handle_key_sftp_prompt(key),
            AppMode::Palette => self.handle_key_palette(key),
            AppMode::Search => self.handle_key_search(key),
            AppMode::HostDetail => self.handle_key_host_detail(key),
            AppMode::Notice => self.handle_key_notice(),
            AppMode::KnownHosts => self.handle_key_known_hosts(key),
            AppMode::Normal => self.handle_tab_key(key),
            mode => self.perform(Task::ScreenKey(mode, key)),
        }
    }

    /// Handle a key.
    pub fn handle_key(&mut self, key: KeyEvent)
        ensures
            final(self)@ == old(self)@.key_handled(key),
    {
        if !self.try_global_key(&key) {
            self.handle_screen_key(key);
        }
    }
}

} // verus!
