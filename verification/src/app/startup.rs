//! Building the application, and what it keeps up to date on its own: the host
//! list, the zoom level, the logs.

use vstd::prelude::*;

use crate::app::effects::{Effect, EffectView, Task};
use crate::app::host_list::SortMode;
use crate::app::state::{
    AppConfig, AppMode, AuditFilter, AuditRange, ConfigView, Help, HelpView, LogView, OpenForms,
    Palette, PaletteView, PanelId, Panels, PanelsView, SshLogEntry,
};
use crate::app::util::{
    append_host_notice, noticed, startup_notice, theme_startup_notice, DiagnosticView,
    ThemeDiagnostic,
};
use crate::app::{
    App, AppView, Motion, MotionView, NAME_WIDTH_BASE, NAME_WIDTH_STEP, UI_ZOOM_MAX,
};
use crate::hosts::{HostEntry, HostGroup, HostResolver, PasswordStore};
use crate::text::{
    all_digits, begins_with, chars_of, decimal, digits_value, has_prefix, len, opt_view,
    parse_digits, same, text_of, to_decimal, views,
};

verus! {

broadcast use crate::text::group_views;

/// Injectable dependencies of the application: where hosts and secrets come
/// from.
pub struct AppDeps<R: HostResolver, P: PasswordStore> {
    pub resolver: R,
    pub password_store: P,
}

impl<R: HostResolver, P: PasswordStore> AppDeps<R, P> {
    /// The secret stored under `key`, or empty when there is none and when the
    /// store refuses to answer.
    pub fn stored_secret(&self, key: &str) -> (r: String)
        ensures
            exists|found: Result<Option<String>, String>| #[trigger]
                call_ensures(P::get, (&self.password_store, key), found) && r@ == secret_text(
                    found,
                ),
    {
        let found = self.password_store.get(key);
        secret_or_empty(found)
    }

    /// Store `secret` under `key`, or remove the entry when it is empty.
    pub fn put_secret(&self, key: &str, secret: &str) -> (r: Result<(), String>)
        ensures
            secret@.len() == 0 ==> call_ensures(P::delete, (&self.password_store, key), r),
            secret@.len() > 0 ==> call_ensures(P::set, (&self.password_store, key, secret), r),
    {
        if len(secret) == 0 {
            self.password_store.delete(key)
        } else {
            self.password_store.set(key, secret)
        }
    }
}

/// What a form shows for a secret that was looked up.
pub open spec fn secret_text(found: Result<Option<String>, String>) -> Seq<char> {
    match found {
        Ok(Some(secret)) => secret@,
        _ => Seq::empty(),
    }
}

pub fn secret_or_empty(found: Result<Option<String>, String>) -> (r: String)
    ensures
        r@ == secret_text(found),
{
    match found {
        Ok(Some(secret)) => secret,
        _ => {
            let empty = String::new();
            assert(empty@ =~= Seq::empty());
            empty
        },
    }
}

/// How many lines the SSH log keeps.
pub const MAX_SSH_LOG: usize = 200;

/// How long the audit events may be shown before they are loaded again, in
/// milliseconds.
pub const AUTH_CACHE_AGE: u64 = 10_000;

/// The last lines of a log, as many as are kept.
pub open spec fn bounded(log: Seq<LogView>) -> Seq<LogView> {
    if log.len() > MAX_SSH_LOG {
        log.skip(log.len() - MAX_SSH_LOG)
    } else {
        log
    }
}

/// Whether a log line survives once its host has authenticated: what belongs to
/// other hosts, and the command that was run.
pub open spec fn survives(line: LogView, host: Seq<char>) -> bool {
    line.host_name != host || begins_with(line.line, "$ "@)
}

/// The log without the connection chatter of a host.
pub open spec fn without_chatter(log: Seq<LogView>, host: Seq<char>) -> Seq<LogView>
    decreases log.len(),
{
    if log.len() == 0 {
        Seq::empty()
    } else {
        let before = without_chatter(log.drop_last(), host);
        if survives(log.last(), host) {
            before.push(log.last())
        } else {
            before
        }
    }
}

/// The log without the lines of a host.
pub open spec fn without_host(log: Seq<LogView>, host: Seq<char>) -> Seq<LogView>
    decreases log.len(),
{
    if log.len() == 0 {
        Seq::empty()
    } else {
        let before = without_host(log.drop_last(), host);
        if log.last().host_name == host {
            before
        } else {
            before.push(log.last())
        }
    }
}

/// The groups of the user, without the reserved one.
pub open spec fn own_groups(groups: Seq<HostGroup>) -> Seq<HostGroup>
    decreases groups.len(),
{
    if groups.len() == 0 {
        Seq::empty()
    } else {
        let before = own_groups(groups.drop_last());
        if groups.last().reserved {
            before
        } else {
            before.push(groups.last())
        }
    }
}

/// The first reserved group.
pub open spec fn reserved_group(groups: Seq<HostGroup>) -> Option<HostGroup>
    decreases groups.len(),
{
    if groups.len() == 0 {
        None
    } else {
        match reserved_group(groups.drop_last()) {
            Some(group) => Some(group),
            None => if groups.last().reserved {
                Some(groups.last())
            } else {
                None
            },
        }
    }
}

/// The number that a text stands for, as a count: digits, with a plus sign if
/// need be.
pub open spec fn count_in(raw: Seq<char>) -> Option<nat> {
    let digits = crate::app::sftp_prompt::unsigned(raw);
    if all_digits(digits) && digits_value(digits) <= usize::MAX {
        Some(digits_value(digits))
    } else {
        None
    }
}

/// A zoom level held to the highest one.
pub open spec fn zoom_level(level: nat) -> usize {
    if level <= UI_ZOOM_MAX {
        level as usize
    } else {
        UI_ZOOM_MAX
    }
}

/// The address that a host is pinged at, if it has one.
pub open spec fn ping_address(entry: HostEntry) -> Option<Seq<char>> {
    let address = match entry {
        HostEntry::Managed(m) => Some(m.address@),
        HostEntry::Legacy { host, .. } => opt_view(host.hostname),
    };
    match address {
        Some(address) => if address.len() > 0 {
            Some(address)
        } else {
            None
        },
        None => None,
    }
}

/// The name and address of every host that can be pinged.
pub open spec fn ping_targets_of(hosts: Seq<HostEntry>) -> Seq<(Seq<char>, Seq<char>)>
    decreases hosts.len(),
{
    if hosts.len() == 0 {
        Seq::empty()
    } else {
        let before = ping_targets_of(hosts.drop_last());
        match ping_address(hosts.last()) {
            Some(address) => before.push((hosts.last().name_spec()@, address)),
            None => before,
        }
    }
}

impl MotionView {
    /// Nothing moves. The clock of the mode stands well in the past, so that the
    /// first mode does not count as just entered.
    pub open spec fn at_rest(clock: u64) -> MotionView {
        MotionView {
            clock,
            prev_tab: 0,
            tab_switch: None,
            mode_entered_at: if clock >= 3_600_000 {
                (clock - 3_600_000) as u64
            } else {
                clock
            },
            prev_mode: AppMode::Normal,
            popup_closing_at: None,
            session_exit_at: None,
            session_tab_switch: None,
            prev_audit: (AuditFilter::All, AuditRange::All),
            audit_filter_at: None,
            prev_local_cwd: Seq::empty(),
            prev_remote_cwd: Seq::empty(),
            local_nav: None,
            remote_nav: None,
            prev_queue: 0,
            sftp_queue_at: None,
            fold_at: None,
            prev_selected: 0,
            selection_at: None,
            prev_notice: None,
            host_notice_at: None,
            sftp_anim: None,
        }
    }
}

impl AppView {
    /// The application before anything is loaded.
    pub open spec fn fresh(config: ConfigView, clock: u64) -> AppView {
        AppView {
            hosts: Seq::empty(),
            identities: Seq::empty(),
            identity_selected: 0,
            groups: Seq::empty(),
            favorites_group: None,
            group_sections: Seq::empty(),
            nav_rows: Seq::empty(),
            selected: 0,
            sort_mode: SortMode::Label,
            search_query: Seq::empty(),
            tag_filters: Seq::empty(),
            mode: AppMode::Normal,
            config,
            should_quit: false,
            pre_quit_mode: None,
            active_tab: 0,
            detail_focus: false,
            detail_edit: None,
            forms: OpenForms { host: false, identity: false, keygen: false, tunnel: false },
            ui_zoom: 0,
            panels: PanelsView {
                focused: PanelId::Hosts,
                zoomed: false,
                scroll: 0,
                selecting: false,
                zoom_anim: None,
                zoomed_hosts: Seq::empty(),
            },
            palette: PaletteView {
                query: Seq::empty(),
                selected: 0,
                results: Seq::empty(),
                adhoc: false,
            },
            help: HelpView { scroll: 0, max_scroll: 0, query: Seq::empty(), return_to: None },
            keybind_editor: None,
            settings_selected: 0,
            theme_rows: 0,
            theme_page: 0,
            known_hosts: None,
            audit_filter: AuditFilter::All,
            audit_range: AuditRange::All,
            audit_selected: 0,
            audit_count: 0,
            auth_cache_updated: None,
            broadcast: None,
            broadcast_toasts: 0,
            ssh_log: Seq::empty(),
            ssh_log_scroll: 0,
            host_notice: None,
            identity_notice: None,
            group_notice: None,
            tunnel_notice: None,
            notice_popup: None,
            pending_delete: None,
            push_key_host_picker: None,
            push_key_identity_picker: None,
            sessions: Seq::empty(),
            active_session: None,
            terminal_rows: 0,
            terminal_cols: 0,
            sftp: None,
            sftp_tx: None,
            sftp_tx2: None,
            sftp_host: None,
            remote_edit: None,
            sftp_relay: None,
            sftp_swallow_done: 0,
            sftp_run_failed: false,
            sftp_picker_searching: false,
            sftp_show_hidden: false,
            sftp_prompt: None,
            motion: MotionView::at_rest(clock),
            effects: Seq::empty(),
        }
    }

    /// One more line in the SSH log; the oldest lines go.
    pub open spec fn logged(self, line: LogView) -> AppView {
        AppView { ssh_log: bounded(self.ssh_log.push(line)), ..self }
    }

    pub open spec fn chatter_cleared(self, host: Seq<char>) -> AppView {
        AppView { ssh_log: without_chatter(self.ssh_log, host), ..self }
    }

    pub open spec fn host_log_cleared(self, host: Seq<char>) -> AppView {
        AppView { ssh_log: without_host(self.ssh_log, host), ..self }
    }

    /// The zoom level is set and remembered.
    pub open spec fn zoomed_to(self, level: nat) -> AppView {
        let level = zoom_level(level);
        if level == self.ui_zoom {
            self
        } else {
            (AppView { ui_zoom: level, ..self }).asking(
                EffectView::SaveUiState { key: "ui_zoom"@, value: decimal(level as nat) },
            )
        }
    }

    /// A remembered zoom level is taken over; what is no number changes nothing.
    pub open spec fn zoom_loaded(self, raw: Option<Seq<char>>) -> AppView {
        match raw {
            Some(raw) => match count_in(raw) {
                Some(level) => AppView { ui_zoom: zoom_level(level), ..self },
                None => self,
            },
            None => self,
        }
    }

    pub open spec fn groups_loaded(self, all: Seq<HostGroup>) -> AppView {
        AppView { favorites_group: reserved_group(all), groups: own_groups(all), ..self }
    }

    /// The audit events are loaded again once they are old.
    pub open spec fn auth_cache_due(self) -> bool {
        match self.auth_cache_updated {
            Some(at) => self.motion.clock > at && self.motion.clock - at > AUTH_CACHE_AGE,
            None => true,
        }
    }

    pub open spec fn auth_cache_refreshed(self) -> AppView {
        if self.auth_cache_due() {
            self.doing(Task::LoadAuthCache)
        } else {
            self
        }
    }

    /// The audit events were loaded: the selection stays within them.
    pub open spec fn auth_cache_taken(self, count: usize) -> AppView {
        AppView {
            audit_count: count,
            audit_selected: if self.audit_selected < count {
                self.audit_selected
            } else if count == 0 {
                0
            } else {
                (count - 1) as usize
            },
            auth_cache_updated: Some(self.motion.clock),
            ..self
        }
    }

    /// The host list was loaded anew. What was selected is selected again, and
    /// what a picker offers is looked up again.
    pub open spec fn hosts_taken(self, hosts: Seq<HostEntry>, groups: Seq<HostGroup>) -> AppView {
        self.hosts_relisted(hosts, groups).push_rows_renewed()
    }

    pub open spec fn hosts_relisted(
        self,
        hosts: Seq<HostEntry>,
        groups: Seq<HostGroup>,
    ) -> AppView {
        let listed = (AppView { hosts, ..self }).groups_loaded(groups).doing(Task::RebuildFilter);
        match self.selected_host() {
            Some(host) => listed.asking(
                EffectView::RestoreSelection(self.hosts[host as int].name_spec()@),
            ),
            None => listed,
        }
    }

    /// What the old theme painted is no longer shown, nor slid.
    pub open spec fn repainted(self, popup_time: u64) -> AppView {
        AppView {
            panels: PanelsView { zoom_anim: None, ..self.panels },
            motion: MotionView {
                popup_closing_at: None,
                session_exit_at: None,
                session_tab_switch: None,
                sftp_anim: None,
                tab_switch: None,
                mode_entered_at: if self.motion.clock >= popup_time {
                    (self.motion.clock - popup_time) as u64
                } else {
                    self.motion.clock
                },
                ..self.motion
            },
            ..self
        }.doing(Task::FreeAllSnapshots)
    }

    /// The themes were loaded. What went wrong is said, and is not fatal.
    pub open spec fn themes_taken(
        self,
        diagnostics: Seq<DiagnosticView>,
        load_error: Option<Seq<char>>,
        popup_time: u64,
    ) -> AppView {
        match startup_notice(diagnostics, load_error) {
            Some(notice) => self.repainted(popup_time).also_notifying(notice),
            None => self.repainted(popup_time),
        }
    }

    /// The profile is open. Without a keyring that is said; a first run without
    /// hosts shows the help.
    pub open spec fn keyring_checked(self, available: bool) -> AppView {
        if available {
            self
        } else {
            self.notifying("OS keyring unavailable. Using credentials.json fallback."@)
        }
    }

    pub open spec fn begun(self, first_run: bool) -> AppView {
        if first_run && self.hosts.len() == 0 {
            self.in_mode(AppMode::Help)
        } else {
            self
        }
    }

    pub open spec fn also_notifying(self, notice: Seq<char>) -> AppView {
        AppView { host_notice: Some(noticed(self.host_notice, notice)), ..self }
    }

    /// The groups of the host tree: Favorites above the user's own.
    pub open spec fn tree_groups_spec(self) -> Seq<HostGroup> {
        match self.favorites_group {
            Some(favorites) => seq![favorites] + self.groups,
            None => self.groups,
        }
    }
}

/// The log never outgrows its bound, and what was just logged is in it.
pub proof fn log_is_bounded(app: AppView, line: LogView)
    ensures
        app.logged(line).ssh_log.len() <= MAX_SSH_LOG,
        app.logged(line).ssh_log.last() == line,
{
}

/// The launch commands of a host survive the clearing of its chatter.
pub proof fn launch_commands_survive(log: Seq<LogView>, host: Seq<char>, i: int)
    requires
        0 <= i < log.len(),
        begins_with(log[i].line, "$ "@),
    ensures
        without_chatter(log, host).contains(log[i]),
    decreases log.len(),
{
    let rest = log.drop_last();
    let before = without_chatter(rest, host);
    if i == log.len() - 1 {
        let all = before.push(log[i]);
        assert(all[all.len() - 1] == log[i]);
    } else {
        launch_commands_survive(rest, host, i);
        let k = choose|k: int| 0 <= k < before.len() && before[k] == log[i];
        if survives(log.last(), host) {
            assert(before.push(log.last())[k] == log[i]);
        }
    }
}

/// The zoom level stays within its bound.
pub proof fn zoom_is_bounded(app: AppView, level: nat, raw: Option<Seq<char>>)
    requires
        app.ui_zoom <= UI_ZOOM_MAX,
    ensures
        app.zoomed_to(level).ui_zoom <= UI_ZOOM_MAX,
        app.zoom_loaded(raw).ui_zoom <= UI_ZOOM_MAX,
{
}

/// What is remembered of a zoom level is read back as that level.
pub proof fn zoom_is_remembered(app: AppView, level: nat)
    requires
        level <= UI_ZOOM_MAX,
    ensures
        app.zoom_loaded(Some(decimal(level))).ui_zoom == level,
{
    crate::text::lemma_decimal_is_digits(level);
    assert(decimal(level)[0] != '+');
}

impl Motion {
    fn at_rest(clock: u64) -> (r: Motion)
        ensures
            r@ == MotionView::at_rest(clock),
    {
        let r = Motion {
            clock,
            prev_tab: 0,
            tab_switch: None,
            mode_entered_at: if clock >= 3_600_000 {
                clock - 3_600_000
            } else {
                clock
            },
            prev_mode: AppMode::Normal,
            popup_closing_at: None,
            session_exit_at: None,
            session_tab_switch: None,
            prev_audit: (AuditFilter::All, AuditRange::All),
            audit_filter_at: None,
            prev_local_cwd: String::new(),
            prev_remote_cwd: String::new(),
            local_nav: None,
            remote_nav: None,
            prev_queue: 0,
            sftp_queue_at: None,
            fold_at: None,
            prev_selected: 0,
            selection_at: None,
            prev_notice: None,
            host_notice_at: None,
            sftp_anim: None,
        };
        assert(r@.prev_local_cwd =~= Seq::empty());
        assert(r@.prev_remote_cwd =~= Seq::empty());
        r
    }
}

impl Motion {
    fn settle(&mut self, popup_time: u64)
        ensures
            final(self)@ == (MotionView {
                popup_closing_at: None,
                session_exit_at: None,
                session_tab_switch: None,
                sftp_anim: None,
                tab_switch: None,
                mode_entered_at: if old(self)@.clock >= popup_time {
                    (old(self)@.clock - popup_time) as u64
                } else {
                    old(self)@.clock
                },
                ..old(self)@
            }),
    {
        self.popup_closing_at = None;
        self.session_exit_at = None;
        self.session_tab_switch = None;
        self.sftp_anim = None;
        self.tab_switch = None;
        self.mode_entered_at = if self.clock >= popup_time {
            self.clock - popup_time
        } else {
            self.clock
        };
    }
}

fn fresh_palette() -> (r: Palette)
    ensures
        r@ == (PaletteView {
            query: Seq::empty(),
            selected: 0,
            results: Seq::empty(),
            adhoc: false,
        }),
{
    let r = Palette { query: String::new(), selected: 0, results: Vec::new(), adhoc: false };
    assert(r@.query =~= Seq::empty());
    r
}

fn fresh_help() -> (r: Help)
    ensures
        r@ == (HelpView { scroll: 0, max_scroll: 0, query: Seq::empty(), return_to: None }),
{
    let r = Help { scroll: 0, max_scroll: 0, query: String::new(), return_to: None };
    assert(r@.query =~= Seq::empty());
    r
}

fn parse_count(raw: &str) -> (r: Option<usize>)
    ensures
        match r {
            Some(n) => count_in(raw@) == Some(n as nat),
            None => count_in(raw@) is None,
        },
{
    let chars = chars_of(raw);
    let from: usize = if chars.len() > 0 && chars[0] == '+' {
        1
    } else {
        0
    };
    let digits = text_of(&chars, from, chars.len());
    assert(digits@ =~= crate::app::sftp_prompt::unsigned(raw@));
    match parse_digits(digits.as_str(), usize::MAX as u64) {
        Some(n) => Some(n as usize),
        None => None,
    }
}

impl App {
    /// Build the application, with nothing loaded yet.
    pub fn new(config: AppConfig, clock: u64) -> (r: App)
        ensures
            r@ == AppView::fresh(config@, clock),
    {
        let search_query = String::new();
        assert(search_query@ =~= Seq::empty());
        App {
            hosts: Vec::new(),
            identities: Vec::new(),
            identity_selected: 0,
            groups: Vec::new(),
            favorites_group: None,
            group_sections: Vec::new(),
            nav_rows: Vec::new(),
            selected: 0,
            sort_mode: SortMode::Label,
            search_query,
            tag_filters: Vec::new(),
            mode: AppMode::Normal,
            config,
            should_quit: false,
            pre_quit_mode: None,
            active_tab: 0,
            detail_focus: false,
            detail_edit: None,
            forms: OpenForms { host: false, identity: false, keygen: false, tunnel: false },
            ui_zoom: 0,
            panels: Panels {
                focused: PanelId::Hosts,
                zoomed: false,
                scroll: 0,
                selecting: false,
                zoom_anim: None,
                zoomed_hosts: Vec::new(),
            },
            palette: fresh_palette(),
            help: fresh_help(),
            keybind_editor: None,
            settings_selected: 0,
            theme_rows: 0,
            theme_page: 0,
            known_hosts: None,
            audit_filter: AuditFilter::All,
            audit_range: AuditRange::All,
            audit_selected: 0,
            audit_count: 0,
            auth_cache_updated: None,
            broadcast: None,
            broadcast_toasts: 0,
            ssh_log: Vec::new(),
            ssh_log_scroll: 0,
            host_notice: None,
            identity_notice: None,
            group_notice: None,
            tunnel_notice: None,
            notice_popup: None,
            pending_delete: None,
            push_key_host_picker: None,
            push_key_identity_picker: None,
            sessions: Vec::new(),
            active_session: None,
            terminal_rows: 0,
            terminal_cols: 0,
            sftp: None,
            sftp_tx: None,
            sftp_tx2: None,
            sftp_host: None,
            remote_edit: None,
            sftp_relay: None,
            sftp_swallow_done: 0,
            sftp_run_failed: false,
            sftp_picker_searching: false,
            sftp_show_hidden: false,
            sftp_prompt: None,
            motion: Motion::at_rest(clock),
            effects: Vec::new(),
        }
    }

    /// Append to the SSH log, keeping a bounded history.
    pub fn push_ssh_log(&mut self, entry: SshLogEntry)
        ensures
            final(self)@ == old(self)@.logged(entry@),
    {
        let mut log: Vec<SshLogEntry> = Vec::new();
        core::mem::swap(&mut log, &mut self.ssh_log);
        log.push(entry);
        let n: usize = log.len();
        if n > MAX_SSH_LOG {
            let kept = log.split_off(n - MAX_SSH_LOG);
            log = kept;
        }
        assert(views(log@) =~= bounded(old(self)@.ssh_log.push(entry@)));
        self.ssh_log = log;
    }

    /// Drop the connection chatter of a host once a session has authenticated,
    /// but keep the launched command line.
    pub fn clear_ssh_log_for_host(&mut self, host_name: &str)
        ensures
            final(self)@ == old(self)@.chatter_cleared(host_name@),
    {
        let kept = keep_log(&self.ssh_log, host_name, true);
        self.ssh_log = kept;
    }

    pub(crate) fn clear_host_log(&mut self, host_name: &str)
        ensures
            final(self)@ == old(self)@.host_log_cleared(host_name@),
    {
        let kept = keep_log(&self.ssh_log, host_name, false);
        self.ssh_log = kept;
    }

    /// Current host-name column width in characters.
    pub fn name_col_width(&self) -> (r: usize)
        requires
            NAME_WIDTH_BASE + self@.ui_zoom * NAME_WIDTH_STEP <= usize::MAX,
        ensures
            r == NAME_WIDTH_BASE + self@.ui_zoom * NAME_WIDTH_STEP,
    {
        NAME_WIDTH_BASE + self.ui_zoom * NAME_WIDTH_STEP
    }

    /// Set the zoom level and remember it.
    pub fn set_ui_zoom(&mut self, level: usize)
        ensures
            final(self)@ == old(self)@.zoomed_to(level as nat),
    {
        let level: usize = if level <= UI_ZOOM_MAX {
            level
        } else {
            UI_ZOOM_MAX
        };
        if level == self.ui_zoom {
            return;
        }
        self.ui_zoom = level;
        self.ask(
            Effect::SaveUiState { key: "ui_zoom".to_owned(), value: to_decimal(level as u64) },
        );
    }

    /// Take over the remembered zoom level: the setting, else the one under its
    /// former name.
    pub fn load_ui_zoom(&mut self, current: Option<String>, former: Option<String>)
        ensures
            final(self)@ == old(self)@.zoom_loaded(
                if current is Some {
                    opt_view(current)
                } else {
                    opt_view(former)
                },
            ),
    {
        let raw = match current {
            Some(raw) => Some(raw),
            None => former,
        };
        if let Some(raw) = raw {
            if let Some(level) = parse_count(raw.as_str()) {
                self.ui_zoom = if level <= UI_ZOOM_MAX {
                    level
                } else {
                    UI_ZOOM_MAX
                };
            }
        }
    }

    /// Take over the groups, splitting off the reserved Favorites group.
    pub fn load_groups(&mut self, all: Vec<HostGroup>)
        ensures
            final(self)@ == old(self)@.groups_loaded(all@),
    {
        let mut own: Vec<HostGroup> = Vec::new();
        let mut favorites: Option<HostGroup> = None;
        let mut i: usize = 0;
        assert(all@.take(0) =~= Seq::empty());
        while i < all.len()
            invariant
                i <= all@.len(),
                own@ == own_groups(all@.take(i as int)),
                favorites == reserved_group(all@.take(i as int)),
            decreases all@.len() - i,
        {
            assert(all@.take(i + 1).drop_last() =~= all@.take(i as int));
            if all[i].reserved {
                if favorites.is_none() {
                    favorites = Some(all[i].clone());
                }
            } else {
                own.push(all[i].clone());
            }
            i = i + 1;
        }
        assert(all@.take(all@.len() as int) =~= all@);
        self.favorites_group = favorites;
        self.groups = own;
    }

    /// Groups for building the host tree: the Favorites group, which sorts to
    /// the very top, and the real groups.
    pub fn tree_groups(&self) -> (r: Vec<HostGroup>)
        ensures
            r@ == self@.tree_groups_spec(),
    {
        let mut groups: Vec<HostGroup> = Vec::new();
        if let Some(favorites) = &self.favorites_group {
            groups.push(favorites.clone());
        }
        let ghost head = groups@;
        let mut i: usize = 0;
        while i < self.groups.len()
            invariant
                i <= self.groups@.len(),
                groups@ == head + self.groups@.take(i as int),
            decreases self.groups@.len() - i,
        {
            groups.push(self.groups[i].clone());
            i = i + 1;
            assert(groups@ =~= head + self.groups@.take(i as int));
        }
        assert(groups@ =~= self@.tree_groups_spec());
        groups
    }

    /// Have the audit events loaded again if they are old.
    pub fn refresh_auth_cache(&mut self)
        ensures
            final(self)@ == old(self)@.auth_cache_refreshed(),
    {
        let due = match self.auth_cache_updated {
            Some(at) => self.motion.clock > at && self.motion.clock - at > AUTH_CACHE_AGE,
            None => true,
        };
        if due {
            self.perform(Task::LoadAuthCache);
        }
    }

    /// The audit events were loaded.
    pub fn auth_cache_loaded(&mut self, count: usize)
        ensures
            final(self)@ == old(self)@.auth_cache_taken(count),
    {
        self.audit_count = count;
        if self.audit_selected >= count {
            self.audit_selected = if count == 0 {
                0
            } else {
                count - 1
            };
        }
        self.auth_cache_updated = Some(self.motion.clock);
    }

    /// The name and address of every host to ping.
    pub fn ping_targets(&self) -> (r: Vec<(String, String)>)
        ensures
            r@.map_values(|t: (String, String)| (t.0@, t.1@)) == ping_targets_of(self@.hosts),
    {
        let ghost pair = |t: (String, String)| (t.0@, t.1@);
        let mut out: Vec<(String, String)> = Vec::new();
        let mut i: usize = 0;
        assert(self.hosts@.take(0) =~= Seq::empty());
        assert(out@.map_values(pair) =~= Seq::empty());
        while i < self.hosts.len()
            invariant
                i <= self.hosts@.len(),
                pair == (|t: (String, String)| (t.0@, t.1@)),
                out@.map_values(pair) == ping_targets_of(self.hosts@.take(i as int)),
            decreases self.hosts@.len() - i,
        {
            assert(self.hosts@.take(i + 1).drop_last() =~= self.hosts@.take(i as int));
            let ghost before = out@;
            if let Some(address) = find_ping_address(&self.hosts[i]) {
                out.push((self.hosts[i].name().clone(), address));
                assert(out@.map_values(pair) =~= before.map_values(pair).push(
                    (self.hosts@[i as int].name_spec()@, address@),
                ));
            }
            i = i + 1;
        }
        assert(self.hosts@.take(self.hosts@.len() as int) =~= self.hosts@);
        out
    }

    /// The host list was loaded anew.
    pub fn reload_hosts(&mut self, hosts: Vec<HostEntry>, groups: Vec<HostGroup>)
        ensures
            final(self)@ == old(self)@.hosts_taken(hosts@, groups@),
    {
        self.relist_hosts(hosts, groups);
        self.renew_push_rows();
    }

    fn relist_hosts(&mut self, hosts: Vec<HostEntry>, groups: Vec<HostGroup>)
        ensures
            final(self)@ == old(self)@.hosts_relisted(hosts@, groups@),
    {
        let selected = match self.selected_host_index() {
            Some(host) => Some(self.hosts[host].name().clone()),
            None => None,
        };
        self.hosts = hosts;
        self.load_groups(groups);
        self.perform(Task::RebuildFilter);
        if let Some(name) = selected {
            self.ask(Effect::RestoreSelection(name));
        }
    }

    /// Drop every snapshot and slide that was captured under the theme being
    /// replaced. `popup_time` is how long a popup takes to open: its clock is
    /// settled so that the popup stays where it is.
    pub fn invalidate_theme_visual_state(&mut self, popup_time: u64)
        ensures
            final(self)@ == old(self)@.repainted(popup_time),
    {
        self.panels.zoom_anim = None;
        self.motion.settle(popup_time);
        self.perform(Task::FreeAllSnapshots);
    }

    /// The themes were loaded, or could not be.
    pub fn themes_loaded(
        &mut self,
        diagnostics: &Vec<ThemeDiagnostic>,
        load_error: Option<&str>,
        popup_time: u64,
    )
        requires
            diagnostics@.len() < usize::MAX,
        ensures
            final(self)@ == old(self)@.themes_taken(
                views(diagnostics@),
                match load_error {
                    Some(error) => Some(error@),
                    None => None,
                },
                popup_time,
            ),
    {
        self.invalidate_theme_visual_state(popup_time);
        if let Some(notice) = theme_startup_notice(diagnostics, load_error) {
            self.also_notify(notice);
        }
    }

    /// Whether the keyring of the system can be used.
    pub fn note_keyring(&mut self, available: bool)
        ensures
            final(self)@ == old(self)@.keyring_checked(available),
    {
        if !available {
            self.notify("OS keyring unavailable. Using credentials.json fallback.".to_owned());
        }
    }

    /// Everything is loaded.
    pub fn begin(&mut self, first_run: bool)
        ensures
            final(self)@ == old(self)@.begun(first_run),
    {
        if first_run && self.hosts.len() == 0 {
            self.set_mode(AppMode::Help);
        }
    }

    fn also_notify(&mut self, notice: String)
        ensures
            final(self)@ == old(self)@.also_notifying(notice@),
    {
        append_host_notice(&mut self.host_notice, notice);
    }
}

fn find_ping_address(entry: &HostEntry) -> (r: Option<String>)
    ensures
        opt_view(r) == ping_address(*entry),
{
    let address = match entry {
        HostEntry::Managed(m) => m.address.clone(),
        HostEntry::Legacy { host, .. } => match &host.hostname {
            Some(address) => address.clone(),
            None => {
                return None;
            },
        },
    };
    if len(address.as_str()) > 0 {
        Some(address)
    } else {
        None
    }
}

/// The lines of other hosts and, if asked for, the launched commands.
fn keep_log(log: &Vec<SshLogEntry>, host: &str, commands: bool) -> (r: Vec<SshLogEntry>)
    ensures
        views(r@) == if commands {
            without_chatter(views(log@), host@)
        } else {
            without_host(views(log@), host@)
        },
{
    let ghost all = views(log@);
    let mut kept: Vec<SshLogEntry> = Vec::new();
    let mut i: usize = 0;
    assert(all.take(0) =~= Seq::empty());
    while i < log.len()
        invariant
            i <= log@.len(),
            all == views(log@),
            views(kept@) == if commands {
                without_chatter(all.take(i as int), host@)
            } else {
                without_host(all.take(i as int), host@)
            },
        decreases log@.len() - i,
    {
        assert(all.take(i + 1).drop_last() =~= all.take(i as int));
        assert(all.take(i + 1).last() == log@[i as int]@);
        if !same(log[i].host_name.as_str(), host) || (commands && has_prefix(
            log[i].line.as_str(),
            "$ ",
        )) {
            kept.push(log[i].clone());
        }
        i = i + 1;
    }
    assert(all.take(log@.len() as int) =~= all);
    kept
}

} // verus!
