//! Connecting the SFTP browser, pointing its panes somewhere else, and taking it
//! down again.

use vstd::prelude::*;

use crate::app::effects::{Effect, EffectView, Task};
use crate::app::state::{
    AppMode, EditSource, EditView, LinkView, NavRow, PendingDelete, PendingView, RemoteEditPhase,
    SessionView, SftpAnim, WorkerLink,
};
use crate::app::{App, AppView};
use crate::hosts::HostEntry;
use crate::sftp::browser::{PaneView, SftpState, SftpView};
use crate::sftp::model::{CommandView, FileEntry, FileEntryView, SftpCommand, Side};
use crate::text::{cat3, len, opt_view, same, starts_with_char, views};

verus! {

broadcast use crate::text::group_views;

/// The user-interface setting that holds whether dotfiles are listed.
pub const SFTP_HIDDEN_KEY: &'static str = "sftp_show_hidden";

impl EditView {
    /// Whether a server waits for the outcome of this edit.
    pub open spec fn is_remote(self) -> bool {
        !(self.source is Local)
    }

    /// Why the browser cannot be disconnected now, if this edit holds it. A
    /// local edit does not need the workers.
    pub open spec fn holds_browser(self) -> Option<Seq<char>> {
        if !self.is_remote() {
            None
        } else if self.phase is Downloading || self.phase is Uploading {
            Some("wait for the edit transfer to finish before disconnecting SFTP"@)
        } else if self.phase is Editing && self.editor_session is Some {
            Some("finish the local editor before disconnecting SFTP"@)
        } else {
            None
        }
    }

    /// Why the left pane cannot be pointed elsewhere, if this edit holds it.
    pub open spec fn holds_left_pane(self) -> Option<Seq<char>> {
        if !(self.source is LeftRemote) {
            None
        } else if self.phase is Downloading || self.phase is Uploading {
            Some("wait for the edit transfer to finish before switching the left pane"@)
        } else if self.phase is Editing && self.editor_session is Some {
            Some("finish the local editor before switching the left pane"@)
        } else {
            Some("finish or discard the edit before switching the left pane"@)
        }
    }
}

/// The position of the first host of this name.
pub open spec fn host_named(hosts: Seq<HostEntry>, name: Seq<char>) -> Option<int>
    decreases hosts.len(),
{
    if hosts.len() == 0 {
        None
    } else {
        match host_named(hosts.drop_last(), name) {
            Some(i) => Some(i),
            None => if hosts.last().name_spec()@ == name {
                Some(hosts.len() - 1)
            } else {
                None
            },
        }
    }
}

/// The position of the first session of this name.
pub open spec fn session_named(sessions: Seq<SessionView>, name: Seq<char>) -> Option<int>
    decreases sessions.len(),
{
    if sessions.len() == 0 {
        None
    } else {
        match session_named(sessions.drop_last(), name) {
            Some(i) => Some(i),
            None => if sessions.last().display_name == name {
                Some(sessions.len() - 1)
            } else {
                None
            },
        }
    }
}

impl SftpView {
    pub open spec fn with_hidden(self, show: bool) -> SftpView {
        SftpView {
            local: PaneView { show_hidden: show, ..self.local },
            remote: PaneView { show_hidden: show, ..self.remote },
            ..self
        }
    }

    /// The browser while it connects: the login directory on the right, the
    /// local directory on the left.
    pub open spec fn opening(local_cwd: Seq<char>, entries: Seq<FileEntryView>) -> SftpView {
        let fresh = SftpView::new("."@, local_cwd);
        SftpView { connecting: true, local: fresh.local.with_entries(entries), ..fresh }
    }

    /// The left pane waits for a second server.
    pub open spec fn left_opening(self, host: Seq<char>) -> SftpView {
        SftpView {
            left_host: Some(host),
            left_connecting: true,
            local: self.local.moved_to("."@, Seq::empty()),
            ..self
        }
    }

    pub open spec fn left_localized(self) -> SftpView {
        SftpView { left_host: None, left_connecting: false, ..self }
    }
}

impl AppView {
    pub open spec fn edit_is_remote(self) -> bool {
        self.remote_edit matches Some(edit) && edit.is_remote()
    }

    pub open spec fn browser_held(self) -> Option<Seq<char>> {
        match self.remote_edit {
            Some(edit) => edit.holds_browser(),
            None => None,
        }
    }

    pub open spec fn left_pane_held(self) -> Option<Seq<char>> {
        match self.remote_edit {
            Some(edit) => edit.holds_left_pane(),
            None => None,
        }
    }

    /// An edit that a server waits for is given up.
    pub open spec fn edit_discarded(self) -> AppView {
        if self.edit_is_remote() {
            self.notifying("remote edit discarded"@).without_edit()
        } else {
            self
        }
    }

    /// The browser is gone, with its workers and what they were doing.
    pub open spec fn browser_dropped(self) -> AppView {
        AppView {
            sftp: None,
            sftp_tx: None,
            sftp_host: None,
            sftp_tx2: None,
            ..self
        }
    }

    /// The slide with which the browser leaves.
    pub open spec fn slid_out(self) -> AppView {
        match self.sftp {
            Some(s) => self.sliding(
                if s.connecting {
                    SftpAnim::ConnectOut
                } else {
                    SftpAnim::PanesOut
                },
            ),
            None => self,
        }
    }

    /// The live session is taken down, and an edit that needs it with it.
    #[verifier::opaque]
    pub open spec fn torn_down(self) -> AppView {
        self.edit_discarded().slid_out().without_relay().browser_dropped()
    }

    /// The connection is lost: the session goes unless an edit holds it.
    #[verifier::opaque]
    pub open spec fn connection_lost(self) -> AppView {
        match self.browser_held() {
            Some(message) => self.noted(message),
            None => self.torn_down(),
        }
    }

    /// Leaving the browser: an edit in progress holds it, and one that has not
    /// reached its server is only given up once that is confirmed.
    #[verifier::opaque]
    pub open spec fn disconnect_asked(self) -> AppView {
        match self.browser_held() {
            Some(message) => self.noted(message),
            None => if self.edit_is_remote() {
                AppView {
                    pending_delete: Some(
                        PendingView::RemoteEdit { path: self.remote_edit->0.remote_path },
                    ),
                    mode: AppMode::ConfirmDelete,
                    ..self
                }
            } else {
                self.torn_down()
            },
        }
    }

    /// The host of the selected row.
    pub open spec fn selected_host(self) -> Option<usize> {
        if self.selected < self.nav_rows.len() {
            match self.nav_rows[self.selected as int] {
                NavRow::Host(i) => if i < self.hosts.len() {
                    Some(i)
                } else {
                    None
                },
                NavRow::Header(_) => None,
            }
        } else {
            None
        }
    }

    /// The group of the selected row, if it is a group header.
    pub open spec fn selected_header(self) -> Option<usize> {
        if self.selected < self.nav_rows.len() {
            match self.nav_rows[self.selected as int] {
                NavRow::Header(i) => if i < self.group_sections.len() {
                    Some(i)
                } else {
                    None
                },
                NavRow::Host(_) => None,
            }
        } else {
            None
        }
    }

    pub open spec fn jumps(self, host: usize) -> bool {
        self.hosts[host as int].ssh_host_spec().proxy_jump is Some
    }

    /// A host is connected to, unless it is only reached through another.
    #[verifier::opaque]
    pub open spec fn sftp_opened(self, host: usize) -> AppView {
        if host >= self.hosts.len() {
            self
        } else if self.jumps(host) {
            self.notifying("SFTP via ProxyJump isn't supported yet — pick a direct host."@)
        } else {
            self.asking(EffectView::StartSftp(host))
        }
    }

    /// The search is over and the whole list shown again.
    pub open spec fn picker_search_over(self) -> AppView {
        (AppView {
            sftp_picker_searching: false,
            search_query: Seq::empty(),
            ..self
        }).doing(Task::RebuildFilter)
    }

    #[verifier::opaque]
    pub open spec fn sftp_opened_selected(self) -> AppView {
        match self.selected_host() {
            Some(host) => self.picker_search_over().sftp_opened(host),
            None => self.picker_search_over(),
        }
    }

    /// A worker was started: the browser opens.
    pub open spec fn browser_opened(
        self,
        host: Seq<char>,
        local_cwd: Seq<char>,
        entries: Seq<FileEntryView>,
        link: LinkView,
    ) -> AppView {
        (AppView {
            sftp: Some(
                SftpView::opening(local_cwd, entries).with_hidden(self.sftp_show_hidden),
            ),
            sftp_tx: Some(link.sent(CommandView::ListDir(Side::Remote, "."@))),
            sftp_host: Some(host),
            ..self
        }).sliding(SftpAnim::ConnectIn)
    }

    #[verifier::opaque]
    pub open spec fn left_pane_pointed(self, host: usize) -> AppView {
        if host >= self.hosts.len() {
            self
        } else if self.sftp is None {
            self.notifying("connect the SFTP browser first"@)
        } else {
            match self.left_pane_held() {
                Some(message) => self.noted(message),
                None => if self.jumps(host) {
                    self.notifying(
                        "SFTP via ProxyJump isn't supported yet — pick a direct host."@,
                    )
                } else {
                    self.asking(EffectView::StartSftpLeft(host))
                },
            }
        }
    }

    pub open spec fn left_opened(self, host: Seq<char>, link: LinkView) -> AppView {
        AppView {
            sftp_tx2: Some(link.sent(CommandView::ListDir(Side::Remote, "."@))),
            sftp: match self.sftp {
                Some(s) => Some(s.left_opening(host)),
                None => None,
            },
            ..self
        }
    }

    pub open spec fn relay_cut(self) -> AppView {
        if self.sftp_relay is Some {
            self.relay_aborted("second host disconnected — transfer stopped"@)
        } else {
            self
        }
    }

    pub open spec fn left_dropped(self) -> AppView {
        AppView {
            sftp_tx2: None,
            sftp: match self.sftp {
                Some(s) => Some(s.left_localized()),
                None => None,
            },
            ..self
        }
    }

    /// The left pane goes back to the local file system.
    #[verifier::opaque]
    pub open spec fn left_pane_localized(self) -> AppView {
        match self.left_pane_held() {
            Some(message) => self.noted(message),
            None => self.relay_cut().left_dropped().asking(EffectView::ListCurrentDir),
        }
    }

    /// The setting for dotfiles flips in both panes and is remembered.
    #[verifier::opaque]
    pub open spec fn hidden_flipped(self) -> AppView {
        match self.sftp {
            Some(s) => {
                let show = !s.remote.show_hidden;
                (AppView {
                    sftp: Some(s.hidden_toggled()),
                    sftp_show_hidden: show,
                    ..self
                }).asking(
                    EffectView::SaveUiState {
                        key: SFTP_HIDDEN_KEY@,
                        value: if show {
                            "1"@
                        } else {
                            "0"@
                        },
                    },
                )
            },
            None => self,
        }
    }

    /// A name that the dotfile filter hides is said to be hidden.
    pub open spec fn hidden_noted(self, name: Seq<char>) -> AppView {
        if self.sftp_show_hidden || !(name.len() > 0 && name[0] == '.') {
            self
        } else {
            self.noted(name + " is hidden — press . to show dotfiles"@)
        }
    }

    /// The SFTP tab opens for the host of the shown session.
    #[verifier::opaque]
    pub open spec fn sftp_opened_for_session(self) -> AppView {
        match self.active_session {
            Some(active) => if active < self.sessions.len() {
                let name = self.sessions[active as int].display_name;
                match host_named(self.hosts, name) {
                    Some(host) => {
                        let there = (AppView { active_tab: 1, ..self }).doing(
                            Task::DetachToDashboard,
                        );
                        if self.sftp is None {
                            there.sftp_opened(host as usize)
                        } else {
                            there
                        }
                    },
                    None => self.notifying(
                        "no saved host '"@ + name + "' to open SFTP for"@,
                    ),
                }
            } else {
                self
            },
            None => self,
        }
    }

    /// A shell opens on the host of the browser: the session there is, or a new
    /// one.
    #[verifier::opaque]
    pub open spec fn shell_opened_for_browser(self) -> AppView {
        match self.sftp_host {
            Some(name) => match session_named(self.sessions, name) {
                Some(at) => (AppView { active_session: Some(at as usize), ..self }).doing(
                    Task::FocusActiveSession,
                ),
                None => match host_named(self.hosts, name) {
                    Some(host) => self.asking(EffectView::ConnectHost(host as usize)),
                    None => self.noted("no saved host '"@ + name + "' to open SSH for"@),
                },
            },
            None => self,
        }
    }
}

/// Find the first host of this name.
pub fn find_host(hosts: &Vec<HostEntry>, name: &str) -> (r: Option<usize>)
    ensures
        match r {
            Some(i) => host_named(hosts@, name@) == Some(i as int) && i < hosts@.len(),
            None => host_named(hosts@, name@) is None,
        },
{
    let mut i: usize = 0;
    assert(hosts@.take(0) =~= Seq::empty());
    while i < hosts.len()
        invariant
            i <= hosts@.len(),
            host_named(hosts@.take(i as int), name@) is None,
        decreases hosts@.len() - i,
    {
        assert(hosts@.take(i + 1).drop_last() =~= hosts@.take(i as int));
        if same(hosts[i].name().as_str(), name) {
            proof {
                lemma_first_host(hosts@, name@, i as int);
            }
            return Some(i);
        }
        i = i + 1;
    }
    assert(hosts@.take(hosts@.len() as int) =~= hosts@);
    None
}

proof fn lemma_first_host(hosts: Seq<HostEntry>, name: Seq<char>, i: int)
    requires
        0 <= i < hosts.len(),
        host_named(hosts.take(i), name) is None,
        hosts[i].name_spec()@ == name,
    ensures
        host_named(hosts, name) == Some(i),
    decreases hosts.len(),
{
    if i == hosts.len() - 1 {
        assert(hosts.drop_last() =~= hosts.take(i));
    } else {
        assert(hosts.drop_last().take(i) =~= hosts.take(i));
        lemma_first_host(hosts.drop_last(), name, i);
    }
}

proof fn lemma_first_session(sessions: Seq<SessionView>, name: Seq<char>, i: int)
    requires
        0 <= i < sessions.len(),
        session_named(sessions.take(i), name) is None,
        sessions[i].display_name == name,
    ensures
        session_named(sessions, name) == Some(i),
    decreases sessions.len(),
{
    if i == sessions.len() - 1 {
        assert(sessions.drop_last() =~= sessions.take(i));
    } else {
        assert(sessions.drop_last().take(i) =~= sessions.take(i));
        lemma_first_session(sessions.drop_last(), name, i);
    }
}

impl App {
    fn find_session(&self, name: &str) -> (r: Option<usize>)
        ensures
            match r {
                Some(i) => session_named(self@.sessions, name@) == Some(i as int),
                None => session_named(self@.sessions, name@) is None,
            },
    {
        let ghost all = views(self.sessions@);
        let mut i: usize = 0;
        assert(all.take(0) =~= Seq::empty());
        while i < self.sessions.len()
            invariant
                all == views(self.sessions@),
                i <= self.sessions@.len(),
                session_named(all.take(i as int), name@) is None,
            decreases self.sessions@.len() - i,
        {
            assert(all.take(i + 1).drop_last() =~= all.take(i as int));
            assert(all.take(i + 1).last() == self.sessions@[i as int]@);
            if same(self.sessions[i].display_name.as_str(), name) {
                proof {
                    lemma_first_session(all, name@, i as int);
                }
                return Some(i);
            }
            i = i + 1;
        }
        assert(all.take(self.sessions@.len() as int) =~= all);
        None
    }

    /// The host of the selected row.
    pub fn selected_host_index(&self) -> (r: Option<usize>)
        ensures
            r == self@.selected_host(),
    {
        if self.selected < self.nav_rows.len() {
            match self.nav_rows[self.selected] {
                NavRow::Host(i) => if i < self.hosts.len() {
                    Some(i)
                } else {
                    None
                },
                NavRow::Header(_) => None,
            }
        } else {
            None
        }
    }

    /// The section whose header is selected.
    pub fn selected_nav_header(&self) -> (r: Option<usize>)
        ensures
            r == self@.selected_header(),
    {
        if self.selected < self.nav_rows.len() {
            match self.nav_rows[self.selected] {
                NavRow::Header(i) => if i < self.group_sections.len() {
                    Some(i)
                } else {
                    None
                },
                NavRow::Host(_) => None,
            }
        } else {
            None
        }
    }

    pub(crate) fn notify(&mut self, notice: String)
        ensures
            final(self)@ == old(self)@.notifying(notice@),
    {
        self.host_notice = Some(notice);
    }

    fn find_browser_hold(&self) -> (r: Option<String>)
        ensures
            opt_view(r) == self@.browser_held(),
    {
        match &self.remote_edit {
            Some(edit) => match edit.source {
                EditSource::Local => None,
                _ => match edit.phase {
                    RemoteEditPhase::Downloading => Some(
                        "wait for the edit transfer to finish before disconnecting SFTP".to_owned(),
                    ),
                    RemoteEditPhase::Uploading => Some(
                        "wait for the edit transfer to finish before disconnecting SFTP".to_owned(),
                    ),
                    RemoteEditPhase::Editing => if edit.editor_session.is_some() {
                        Some("finish the local editor before disconnecting SFTP".to_owned())
                    } else {
                        None
                    },
                    _ => None,
                },
            },
            None => None,
        }
    }

    /// Block switching the left pane while an edit owned by its worker is in
    /// flight.
    pub fn left_pane_edit_blocked(&self) -> (r: Option<String>)
        ensures
            opt_view(r) == self@.left_pane_held(),
    {
        match &self.remote_edit {
            Some(edit) => match edit.source {
                EditSource::LeftRemote => {
                    let notice = match edit.phase {
                        RemoteEditPhase::Downloading | RemoteEditPhase::Uploading =>
                            "wait for the edit transfer to finish before switching the left pane",
                        RemoteEditPhase::Editing => if edit.editor_session.is_some() {
                            "finish the local editor before switching the left pane"
                        } else {
                            "finish or discard the edit before switching the left pane"
                        },
                        _ => "finish or discard the edit before switching the left pane",
                    };
                    Some(notice.to_owned())
                },
                _ => None,
            },
            None => None,
        }
    }

    fn discard_edit(&mut self)
        ensures
            final(self)@ == old(self)@.edit_discarded(),
    {
        let remote = match &self.remote_edit {
            Some(edit) => edit.source != EditSource::Local,
            None => false,
        };
        if remote {
            self.notify("remote edit discarded".to_owned());
            self.drop_edit();
        }
    }

    fn slide_out(&mut self)
        ensures
            final(self)@ == old(self)@.slid_out(),
    {
        let kind = match &self.sftp {
            Some(s) => if s.connecting {
                SftpAnim::ConnectOut
            } else {
                SftpAnim::PanesOut
            },
            None => {
                return;
            },
        };
        self.stamp_sftp_anim(kind);
    }

    fn drop_browser(&mut self)
        ensures
            final(self)@ == old(self)@.browser_dropped(),
    {
        self.sftp = None;
        self.sftp_tx = None;
        self.sftp_host = None;
        self.sftp_tx2 = None;
    }

    /// Tear down the live session. A worker whose link is gone ends by itself.
    pub fn sftp_teardown(&mut self)
        ensures
            final(self)@ == old(self)@.torn_down(),
    {
        reveal(AppView::torn_down);

        self.discard_edit();
        self.slide_out();
        self.drop_relay();
        self.drop_browser();
    }

    pub(crate) fn lose_connection(&mut self)
        ensures
            final(self)@ == old(self)@.connection_lost(),
    {
        reveal(AppView::connection_lost);

        match self.find_browser_hold() {
            Some(message) => self.note(message),
            None => self.sftp_teardown(),
        }
    }

    fn arm_discard(&mut self, path: String)
        ensures
            final(self)@ == (AppView {
                pending_delete: Some(PendingView::RemoteEdit { path: path@ }),
                mode: AppMode::ConfirmDelete,
                ..old(self)@
            }),
    {
        self.pending_delete = Some(PendingDelete::RemoteEdit { path });
        self.mode = AppMode::ConfirmDelete;
    }

    /// Leave the browser.
    pub fn sftp_disconnect(&mut self)
        ensures
            final(self)@ == old(self)@.disconnect_asked(),
    {
        reveal(AppView::disconnect_asked);

        if let Some(message) = self.find_browser_hold() {
            self.note(message);
            return;
        }
        let unsent = match &self.remote_edit {
            Some(edit) => if edit.source != EditSource::Local {
                Some(edit.remote_path.clone())
            } else {
                None
            },
            None => None,
        };
        match unsent {
            Some(path) => self.arm_discard(path),
            None => self.sftp_teardown(),
        }
    }

    /// Connect the browser to a host. A host behind a jump host is refused.
    pub fn sftp_connect_to(&mut self, host: usize)
        ensures
            final(self)@ == old(self)@.sftp_opened(host),
    {
        reveal(AppView::sftp_opened);

        if host >= self.hosts.len() {
            return;
        }
        if self.hosts[host].ssh_host().proxy_jump.is_some() {
            self.notify(
                "SFTP via ProxyJump isn't supported yet — pick a direct host.".to_owned(),
            );
            return;
        }
        self.ask(Effect::StartSftp(host));
    }

    pub(crate) fn end_picker_search(&mut self)
        ensures
            final(self)@ == old(self)@.picker_search_over(),
    {
        self.sftp_picker_searching = false;
        self.search_query = String::new();
        assert(self@.search_query =~= Seq::empty());
        self.perform(Task::RebuildFilter);
    }

    /// Connect the browser to the selected host. The host is read before the
    /// search is cleared, which may move the selection.
    pub fn sftp_connect_selected(&mut self)
        ensures
            final(self)@ == old(self)@.sftp_opened_selected(),
    {
        reveal(AppView::sftp_opened_selected);

        let host = self.selected_host_index();
        self.end_picker_search();
        if let Some(host) = host {
            self.sftp_connect_to(host);
        }
    }

    /// The worker of the browser was started.
    pub fn sftp_worker_started(
        &mut self,
        host: String,
        local_cwd: String,
        entries: Vec<FileEntry>,
        link: WorkerLink,
    )
        ensures
            final(self)@ == old(self)@.browser_opened(host@, local_cwd@, views(entries@), link@),
    {
        let mut state = SftpState::new(".", local_cwd.as_str());
        state.connecting = true;
        state.local.set_entries(entries);
        state.local.show_hidden = self.sftp_show_hidden;
        state.remote.show_hidden = self.sftp_show_hidden;
        let mut link = link;
        let _ = link.send(SftpCommand::ListDir(Side::Remote, ".".to_owned()));
        self.sftp = Some(state);
        self.sftp_tx = Some(link);
        self.sftp_host = Some(host);
        self.stamp_sftp_anim(SftpAnim::ConnectIn);
    }

    /// Point the left pane at a second server.
    pub fn sftp_connect_left_pane(&mut self, host: usize)
        ensures
            final(self)@ == old(self)@.left_pane_pointed(host),
    {
        reveal(AppView::left_pane_pointed);

        if host >= self.hosts.len() {
            return;
        }
        if self.sftp.is_none() {
            self.notify("connect the SFTP browser first".to_owned());
            return;
        }
        if let Some(message) = self.left_pane_edit_blocked() {
            self.note(message);
            return;
        }
        if self.hosts[host].ssh_host().proxy_jump.is_some() {
            self.notify(
                "SFTP via ProxyJump isn't supported yet — pick a direct host.".to_owned(),
            );
            return;
        }
        self.ask(Effect::StartSftpLeft(host));
    }

    /// The second worker was started.
    pub fn sftp_left_started(&mut self, host: String, link: WorkerLink)
        ensures
            final(self)@ == old(self)@.left_opened(host@, link@),
    {
        let mut link = link;
        let _ = link.send(SftpCommand::ListDir(Side::Remote, ".".to_owned()));
        self.sftp_tx2 = Some(link);
        if let Some(s) = &mut self.sftp {
            s.open_left(host);
        }
    }

    fn cut_relay(&mut self)
        ensures
            final(self)@ == old(self)@.relay_cut(),
    {
        if self.sftp_relay.is_some() {
            self.sftp_relay_abort("second host disconnected — transfer stopped".to_owned());
        }
    }

    fn drop_left(&mut self)
        ensures
            final(self)@ == old(self)@.left_dropped(),
    {
        self.sftp_tx2 = None;
        if let Some(s) = &mut self.sftp {
            s.localize_left();
        }
    }

    /// Send the left pane back to the local file system, dropping its server
    /// connection and any relay with one end there.
    pub fn sftp_left_pane_to_local(&mut self)
        ensures
            final(self)@ == old(self)@.left_pane_localized(),
    {
        reveal(AppView::left_pane_localized);

        if let Some(message) = self.left_pane_edit_blocked() {
            self.note(message);
            return;
        }
        self.cut_relay();
        self.drop_left();
        self.ask(Effect::ListCurrentDir);
    }

    /// Take over the remembered dotfile setting.
    pub fn load_sftp_hidden(&mut self, raw: Option<String>)
        ensures
            final(self)@ == (AppView {
                sftp_show_hidden: match opt_view(raw) {
                    Some(raw) => raw == "1"@,
                    None => old(self)@.sftp_show_hidden,
                },
                ..old(self)@
            }),
    {
        if let Some(raw) = raw {
            self.sftp_show_hidden = same(raw.as_str(), "1");
        }
    }

    /// Say so when an entry just created or renamed is hidden.
    pub(crate) fn note_if_hidden(&mut self, name: &str)
        ensures
            final(self)@ == old(self)@.hidden_noted(name@),
    {
        if self.sftp_show_hidden || !starts_with_char(name, '.') {
            return;
        }
        self.note(crate::text::cat2(name, " is hidden — press . to show dotfiles"));
    }

    /// Flip dotfile visibility in both panes and remember it.
    pub fn sftp_toggle_hidden(&mut self)
        ensures
            final(self)@ == old(self)@.hidden_flipped(),
    {
        reveal(AppView::hidden_flipped);

        let show = match &mut self.sftp {
            Some(s) => s.toggle_hidden(),
            None => {
                return;
            },
        };
        self.sftp_show_hidden = show;
        let value = if show {
            "1".to_owned()
        } else {
            "0".to_owned()
        };
        self.ask(Effect::SaveUiState { key: SFTP_HIDDEN_KEY.to_owned(), value });
    }

    /// Open the SFTP tab connected to the host of the active session. A live
    /// browser is left as it is.
    pub fn open_sftp_for_active_session(&mut self)
        ensures
            final(self)@ == old(self)@.sftp_opened_for_session(),
    {
        reveal(AppView::sftp_opened_for_session);

        let name = match self.active_session {
            Some(active) => if active < self.sessions.len() {
                self.sessions[active].display_name.clone()
            } else {
                return;
            },
            None => {
                return;
            },
        };
        let host: usize = match find_host(&self.hosts, name.as_str()) {
            Some(host) => host,
            None => {
                self.notify(cat3("no saved host '", name.as_str(), "' to open SFTP for"));
                return;
            },
        };
        self.active_tab = 1;
        self.perform(Task::DetachToDashboard);
        if self.sftp.is_none() {
            self.sftp_connect_to(host);
        }
    }

    /// Open a shell on the host the browser is connected to. The browser stays.
    pub fn open_ssh_for_sftp_host(&mut self)
        ensures
            final(self)@ == old(self)@.shell_opened_for_browser(),
    {
        reveal(AppView::shell_opened_for_browser);

        let name = match &self.sftp_host {
            Some(name) => name.clone(),
            None => {
                return;
            },
        };
        if let Some(at) = self.find_session(name.as_str()) {
            self.active_session = Some(at);
            self.perform(Task::FocusActiveSession);
            return;
        }
        match find_host(&self.hosts, name.as_str()) {
            Some(host) => self.ask(Effect::ConnectHost(host)),
            None => self.note(cat3("no saved host '", name.as_str(), "' to open SSH for")),
        }
    }
}

impl SftpState {
    fn open_left(&mut self, host: String)
        ensures
            final(self)@ == old(self)@.left_opening(host@),
    {
        self.left_host = Some(host);
        self.left_connecting = true;
        self.local.cwd = ".".to_owned();
        self.local.set_entries(Vec::new());
    }

    fn localize_left(&mut self)
        ensures
            final(self)@ == old(self)@.left_localized(),
    {
        self.left_host = None;
        self.left_connecting = false;
    }
}

} // verus!
