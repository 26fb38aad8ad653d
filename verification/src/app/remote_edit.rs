//! Editing a file of either pane in a local editor. A remote file is fetched
//! into a private directory, edited there, and written back if nobody changed
//! it on the server meanwhile.

use vstd::prelude::*;

use crate::app::editor_command::{
    command_words, local_editor_argv, local_editor_command, names_editor,
};
use crate::app::effects::{Effect, EffectView, Task};
use crate::app::sftp::reaches;
use crate::app::state::{
    full_screen, is_session_mode, AppMode, EditSource, EditView, LinkView, RemoteEditPhase,
    RemoteEditState, SessionInfo, SessionView,
};
use crate::app::{App, AppView};
use crate::hosts::clone_text;
use crate::paths::{base_name, file_name, join, joined};
use crate::sftp::browser::{Phase, SftpState, SftpView};
use crate::sftp::model::{CommandView, RemoteFileStamp, SftpCommand, Side};
use crate::text::{cat2, cat3, group_views, opt_view, same};

verus! {

broadcast use crate::text::group_views;

/// What `e` would edit: where it comes from, its path, its name and its
/// permission bits.
pub struct Target {
    pub source: EditSource,
    pub path: Seq<char>,
    pub name: Seq<char>,
    pub mode: Option<u32>,
}

impl SftpView {
    /// Whether nothing is under way that an edit would have to wait for.
    pub open spec fn is_idle(self) -> bool {
        &&& !(self.phase is Running)
        &&& !self.connecting
        &&& !self.left_connecting
        &&& self.queue.len() == 0
    }

    /// The regular file that is selected, if it can be edited now.
    pub open spec fn edit_target(self) -> Option<Target> {
        match self.pane().selected_entry_spec() {
            Some(entry) => if self.is_idle() && !entry.is_parent() && !entry.is_dir
                && !entry.is_symlink {
                Some(
                    Target {
                        source: match self.side() {
                            Side::Remote => EditSource::RightRemote,
                            Side::Local => if self.left_is_remote_spec() {
                                EditSource::LeftRemote
                            } else {
                                EditSource::Local
                            },
                        },
                        path: joined(self.pane().cwd, entry.name),
                        name: entry.name,
                        mode: entry.perm,
                    },
                )
            } else {
                None
            },
            None => None,
        }
    }

    /// The browser after a local file was edited: a queue that was started
    /// meanwhile keeps running.
    pub open spec fn edited_locally(self) -> SftpView {
        SftpView {
            phase: if self.running.len() == 0 {
                Phase::Browsing
            } else {
                self.phase
            },
            progress: None,
            notice: Some("local file edited"@),
            ..self
        }
    }

    /// Why the selection cannot be edited.
    pub open spec fn edit_refusal(self) -> Seq<char> {
        if self.phase is Running || self.connecting {
            "wait for the current SFTP operation to finish"@
        } else if self.queue.len() > 0 {
            "run or clear the queued transfers first"@
        } else {
            "select a regular "@ + match self.side() {
                Side::Remote => "remote"@,
                Side::Local => if self.left_is_remote_spec() {
                    "remote (second server)"@
                } else {
                    "local"@
                },
            } + " file to edit"@
        }
    }
}

/// Where a failed step leaves an edit.
pub open spec fn phase_to_retry(phase: RemoteEditPhase) -> RemoteEditPhase {
    match phase {
        RemoteEditPhase::Downloading => RemoteEditPhase::RetryingDownload,
        RemoteEditPhase::Uploading => RemoteEditPhase::RetryingUpload,
        _ => phase,
    }
}

impl AppView {
    /// The worker that serves an edit.
    pub open spec fn edit_link(self, source: EditSource) -> Option<LinkView> {
        match source {
            EditSource::RightRemote => self.sftp_tx,
            EditSource::LeftRemote => self.sftp_tx2,
            EditSource::Local => None,
        }
    }

    pub open spec fn edit_sent(self, source: EditSource, command: CommandView) -> AppView {
        match source {
            EditSource::RightRemote => self.right_sent(command),
            EditSource::LeftRemote => self.left_sent(command),
            EditSource::Local => self,
        }
    }

    /// The browser is busy.
    pub open spec fn working(self, notice: Seq<char>) -> AppView {
        AppView {
            sftp: match self.sftp {
                Some(s) => Some(
                    SftpView {
                        phase: Phase::Running,
                        progress: None,
                        notice: Some(notice),
                        ..s
                    },
                ),
                None => None,
            },
            ..self
        }
    }

    /// The browser is at rest.
    pub open spec fn at_rest(self, notice: Option<Seq<char>>) -> AppView {
        AppView {
            sftp: match self.sftp {
                Some(s) => Some(s.settled(notice)),
                None => None,
            },
            ..self
        }
    }

    /// The edit is over; its working copy goes with it.
    pub open spec fn without_edit(self) -> AppView {
        AppView {
            remote_edit: None,
            effects: match self.remote_edit {
                Some(edit) => match edit.temp_dir {
                    Some(dir) => self.effects.push(EffectView::DropWorkspace(dir)),
                    None => self.effects,
                },
                None => self.effects,
            },
            ..self
        }
    }

    pub open spec fn in_edit_phase(self, phase: RemoteEditPhase) -> AppView {
        AppView {
            remote_edit: match self.remote_edit {
                Some(edit) => Some(EditView { phase, ..edit }),
                None => None,
            },
            ..self
        }
    }

    /// A step of the edit failed and can be tried again.
    #[verifier::opaque]
    pub open spec fn edit_failed(self, message: Seq<char>) -> AppView {
        match self.remote_edit {
            Some(edit) => self.in_edit_phase(phase_to_retry(edit.phase)).at_rest(
                Some(message + " — press e to retry"@),
            ),
            None => self,
        }
    }

    /// The editor failed; it can be opened again, or the edit given up.
    #[verifier::opaque]
    pub open spec fn editor_failed(self, message: Seq<char>) -> AppView {
        AppView {
            remote_edit: match self.remote_edit {
                Some(edit) => Some(
                    EditView {
                        phase: RemoteEditPhase::RetryingEditor,
                        editor_session: None,
                        ..edit
                    },
                ),
                None => None,
            },
            ..self
        }.at_rest(Some(message + " — press e to retry or Esc to discard"@))
    }

    /// The download is asked for again.
    #[verifier::opaque]
    pub open spec fn download_retried(self) -> AppView {
        match self.remote_edit {
            Some(edit) => {
                let on = self.in_edit_phase(RemoteEditPhase::Downloading).edit_sent(
                    edit.source,
                    CommandView::EditDownload { remote: edit.remote_path, local: edit.local_path },
                );
                if reaches(self.edit_link(edit.source)) {
                    on.working("retrying remote download"@)
                } else {
                    on.edit_failed("SFTP is not connected — download not sent"@)
                }
            },
            None => self,
        }
    }

    /// The working copy is sent back, guarded by the stamp of what was read.
    #[verifier::opaque]
    pub open spec fn upload_started(self) -> AppView {
        match self.remote_edit {
            Some(edit) => match edit.stamp {
                Some(stamp) => {
                    let on = self.in_edit_phase(RemoteEditPhase::Uploading).edit_sent(
                        edit.source,
                        CommandView::EditUpload {
                            local: edit.local_path,
                            remote: edit.remote_path,
                            expected: stamp,
                            mode: edit.remote_mode,
                        },
                    );
                    if reaches(self.edit_link(edit.source)) {
                        on.working("uploading edited file"@)
                    } else {
                        on.edit_failed("SFTP is not connected — upload not sent"@)
                    }
                },
                None => self,
            },
            None => self,
        }
    }

    /// The working copy arrived: the editor opens on it.
    #[verifier::opaque]
    pub open spec fn download_landed(self, stamp: RemoteFileStamp) -> AppView {
        match self.remote_edit {
            Some(edit) => if edit.phase is Downloading {
                AppView {
                    remote_edit: Some(
                        EditView {
                            stamp: Some(stamp),
                            phase: RemoteEditPhase::Editing,
                            ..edit
                        },
                    ),
                    ..self
                }.at_rest(None).asking(EffectView::OpenEditor)
            } else {
                self
            },
            None => self,
        }
    }

    /// The server has the edited file.
    #[verifier::opaque]
    pub open spec fn upload_landed(self, warning: Option<Seq<char>>) -> AppView {
        if self.remote_edit matches Some(edit) && edit.phase is Uploading {
            self.without_edit().at_rest(
                Some(
                    match warning {
                        Some(warning) => "remote file updated; "@ + warning,
                        None => "remote file updated"@,
                    },
                ),
            ).refreshed()
        } else {
            self
        }
    }

    /// `e` was pressed: a failed edit goes on where it failed, a running one is
    /// left alone, and with none the selected file is edited.
    #[verifier::opaque]
    pub open spec fn edit_requested(self) -> AppView {
        match self.remote_edit {
            Some(edit) => match edit.phase {
                RemoteEditPhase::RetryingDownload => self.download_retried(),
                RemoteEditPhase::RetryingEditor => self.asking(EffectView::OpenEditor),
                RemoteEditPhase::RetryingUpload => self.upload_started(),
                _ => self.noted("an edit is already in progress"@),
            },
            None => match self.sftp {
                Some(s) => match s.edit_target() {
                    Some(target) => if target.source is Local {
                        AppView {
                            remote_edit: Some(
                                EditView {
                                    source: EditSource::Local,
                                    remote_path: target.path,
                                    local_path: target.path,
                                    temp_dir: None,
                                    remote_mode: None,
                                    stamp: None,
                                    phase: RemoteEditPhase::Editing,
                                    editor_session: None,
                                },
                            ),
                            ..self
                        }.asking(EffectView::OpenEditor)
                    } else {
                        self.asking(
                            EffectView::MakeEditWorkspace {
                                source: target.source,
                                remote_path: target.path,
                                name: target.name,
                                mode: target.mode,
                            },
                        )
                    },
                    None => self.noted(s.edit_refusal()),
                },
                None => self,
            },
        }
    }

    /// The private directory of an edit is there: the file is fetched into it.
    pub open spec fn edit_workspace_made(
        self,
        source: EditSource,
        remote_path: Seq<char>,
        name: Seq<char>,
        mode: Option<u32>,
        workspace: Result<Seq<char>, Seq<char>>,
    ) -> AppView {
        match workspace {
            Err(e) => self.noted("could not create edit workspace: "@ + e),
            Ok(dir) => {
                let local_path = joined(dir, name);
                let fetch = CommandView::EditDownload { remote: remote_path, local: local_path };
                let sent = self.edit_sent(source, fetch);
                if reaches(self.edit_link(source)) {
                    AppView {
                        remote_edit: Some(
                            EditView {
                                source,
                                remote_path,
                                local_path,
                                temp_dir: Some(dir),
                                remote_mode: mode,
                                stamp: None,
                                phase: RemoteEditPhase::Downloading,
                                editor_session: None,
                            },
                        ),
                        ..sent
                    }.working("downloading "@ + name + " for local editing"@)
                } else {
                    sent.noted("SFTP is not connected — edit not started"@).asking(
                        EffectView::DropWorkspace(dir),
                    )
                }
            },
        }
    }

    /// The editor command is known: the editor is started on the working copy.
    pub open spec fn editor_opened(self, command: Seq<char>) -> AppView {
        match self.remote_edit {
            Some(edit) => if edit.phase is Editing || edit.phase is RetryingEditor {
                match command_words(command) {
                    Err(e) => self.editor_failed(
                        "could not start local editor: "@ + e.message_spec(),
                    ),
                    Ok(words) => self.asking(
                        EffectView::SpawnEditor {
                            argv: words.push(edit.local_path),
                            title: "edit: "@ + match base_name(edit.local_path) {
                                Some(name) => name,
                                None => "file"@,
                            },
                        },
                    ),
                }
            } else {
                self
            },
            None => self,
        }
    }

    /// The editor's session started, or did not.
    pub open spec fn editor_session_made(self, session: Option<SessionView>) -> AppView {
        match session {
            None => self.editor_failed(
                match self.host_notice {
                    Some(notice) => notice,
                    None => "could not start local editor"@,
                },
            ),
            Some(session) => AppView {
                sessions: self.sessions.push(session),
                remote_edit: match self.remote_edit {
                    Some(edit) => Some(
                        EditView {
                            phase: RemoteEditPhase::Editing,
                            editor_session: Some(self.sessions.len() as usize),
                            ..edit
                        },
                    ),
                    None => None,
                },
                ..self
            },
        }
    }

    /// How the editor's session ended, if there is one and it did.
    pub open spec fn editor_exit(self) -> Option<(int, Seq<char>)> {
        match self.remote_edit {
            Some(edit) => match edit.editor_session {
                Some(idx) => if idx < self.sessions.len() {
                    match self.sessions[idx as int].exited {
                        Some(status) => Some((idx as int, status)),
                        None => None,
                    }
                } else {
                    None
                },
                None => None,
            },
            None => None,
        }
    }

    pub open spec fn without_editor_session(self) -> AppView {
        AppView {
            remote_edit: match self.remote_edit {
                Some(edit) => Some(EditView { editor_session: None, ..edit }),
                None => None,
            },
            ..self
        }
    }

    /// A session that is not shown goes; the shown one stays shown.
    pub open spec fn without_session(self, idx: int) -> AppView {
        AppView {
            sessions: self.sessions.remove(idx),
            active_session: match self.active_session {
                Some(active) => if active > idx {
                    Some((active - 1) as usize)
                } else {
                    Some(active)
                },
                None => None,
            },
            ..self
        }
    }

    /// An editor that has exited loses its session, whichever tab is shown.
    pub open spec fn editor_ticked(self) -> AppView {
        match self.editor_exit() {
            Some((idx, status)) => if self.active_session == Some(idx as usize) {
                self.without_editor_session().doing(Task::CloseActiveSession).asking(
                    EffectView::EditorClosed { status, visible: full_screen(self.mode) },
                )
            } else {
                self.without_editor_session().without_session(idx).doing(
                    Task::RemoveSession(idx as usize),
                ).asking(EffectView::EditorClosed { status, visible: false })
            },
            None => self,
        }
    }

    /// A local file was edited in place.
    #[verifier::opaque]
    pub open spec fn local_edit_over(self) -> AppView {
        AppView {
            sftp: match self.sftp {
                Some(s) => Some(s.edited_locally()),
                None => None,
            },
            ..self.without_edit()
        }.refreshed()
    }

    /// The editor's session is gone: what was edited is written back, unless
    /// the editor failed.
    pub open spec fn editor_over(self, status: Seq<char>, visible: bool) -> AppView {
        let shown = if visible {
            AppView { mode: AppMode::Normal, active_tab: 1, ..self }
        } else {
            self
        };
        if status == "success"@ {
            if shown.remote_edit matches Some(edit) && edit.source is Local {
                shown.local_edit_over()
            } else {
                shown.upload_started()
            }
        } else {
            shown.editor_failed("local editor exited with "@ + status)
        }
    }
}

impl App {
    fn send_edit(&mut self, source: EditSource, command: SftpCommand) -> (r: bool)
        ensures
            final(self)@ == old(self)@.edit_sent(source, command@),
            r == reaches(old(self)@.edit_link(source)),
    {
        match source {
            EditSource::RightRemote => self.send_right(command),
            EditSource::LeftRemote => self.send_left(command),
            EditSource::Local => false,
        }
    }

    fn show_working(&mut self, notice: String)
        ensures
            final(self)@ == old(self)@.working(notice@),
    {
        if let Some(s) = &mut self.sftp {
            s.phase = Phase::Running;
            s.progress = None;
            s.notice = Some(notice);
        }
    }

    fn show_at_rest(&mut self, notice: Option<String>)
        ensures
            final(self)@ == old(self)@.at_rest(opt_view(notice)),
    {
        if let Some(s) = &mut self.sftp {
            s.settle(notice);
        }
    }

    pub(crate) fn drop_edit(&mut self)
        ensures
            final(self)@ == old(self)@.without_edit(),
    {
        let dir = match &self.remote_edit {
            Some(edit) => clone_text(&edit.temp_dir),
            None => {
                return;
            },
        };
        self.remote_edit = None;
        assert(self@ == (AppView { remote_edit: None, ..old(self)@ }));
        if let Some(dir) = dir {
            self.ask(Effect::DropWorkspace(dir));
        }
    }

    fn set_edit_phase(&mut self, phase: RemoteEditPhase)
        ensures
            final(self)@ == old(self)@.in_edit_phase(phase),
    {
        if let Some(edit) = &mut self.remote_edit {
            edit.phase = phase;
        }
    }

    /// A step of the edit failed; keep what is needed to retry it.
    pub fn remote_edit_error(&mut self, message: String)
        ensures
            final(self)@ == old(self)@.edit_failed(message@),
    {
        reveal(AppView::edit_failed);

        let phase = match &self.remote_edit {
            Some(edit) => edit.phase,
            None => {
                return;
            },
        };
        self.set_edit_phase(
            match phase {
                RemoteEditPhase::Downloading => RemoteEditPhase::RetryingDownload,
                RemoteEditPhase::Uploading => RemoteEditPhase::RetryingUpload,
                other => other,
            },
        );
        self.show_at_rest(Some(cat2(message.as_str(), " — press e to retry")));
    }

    pub fn remote_edit_editor_failed(&mut self, message: String)
        ensures
            final(self)@ == old(self)@.editor_failed(message@),
    {
        reveal(AppView::editor_failed);

        if let Some(edit) = &mut self.remote_edit {
            edit.phase = RemoteEditPhase::RetryingEditor;
            edit.editor_session = None;
        }
        self.show_at_rest(
            Some(cat2(message.as_str(), " — press e to retry or Esc to discard")),
        );
    }

    pub fn remote_edit_start_download(&mut self)
        ensures
            final(self)@ == old(self)@.download_retried(),
    {
        reveal(AppView::download_retried);

        let (source, remote, local) = match &self.remote_edit {
            Some(edit) => (edit.source, edit.remote_path.clone(), edit.local_path.clone()),
            None => {
                return;
            },
        };
        self.set_edit_phase(RemoteEditPhase::Downloading);
        if self.send_edit(source, SftpCommand::EditDownload { remote, local }) {
            self.show_working("retrying remote download".to_owned());
        } else {
            self.remote_edit_error("SFTP is not connected — download not sent".to_owned());
        }
    }

    pub fn remote_edit_start_upload(&mut self)
        ensures
            final(self)@ == old(self)@.upload_started(),
    {
        reveal(AppView::upload_started);

        let (source, local, remote, expected, mode) = match &self.remote_edit {
            Some(edit) => match edit.stamp {
                Some(stamp) => (
                    edit.source,
                    edit.local_path.clone(),
                    edit.remote_path.clone(),
                    stamp,
                    edit.remote_mode,
                ),
                None => {
                    return;
                },
            },
            None => {
                return;
            },
        };
        self.set_edit_phase(RemoteEditPhase::Uploading);
        if self.send_edit(source, SftpCommand::EditUpload { local, remote, expected, mode }) {
            self.show_working("uploading edited file".to_owned());
        } else {
            self.remote_edit_error("SFTP is not connected — upload not sent".to_owned());
        }
    }

    pub fn remote_edit_downloaded(&mut self, stamp: RemoteFileStamp)
        ensures
            final(self)@ == old(self)@.download_landed(stamp),
    {
        reveal(AppView::download_landed);

        match &mut self.remote_edit {
            Some(edit) => {
                if edit.phase != RemoteEditPhase::Downloading {
                    return;
                }
                edit.stamp = Some(stamp);
                edit.phase = RemoteEditPhase::Editing;
            },
            None => {
                return;
            },
        }
        self.show_at_rest(None);
        self.ask(Effect::OpenEditor);
    }

    pub fn remote_edit_uploaded(&mut self, mode_warning: Option<String>)
        ensures
            final(self)@ == old(self)@.upload_landed(opt_view(mode_warning)),
    {
        reveal(AppView::upload_landed);

        let uploading = match &self.remote_edit {
            Some(edit) => edit.phase == RemoteEditPhase::Uploading,
            None => false,
        };
        if !uploading {
            return;
        }
        self.drop_edit();
        let notice = match mode_warning {
            Some(warning) => cat2("remote file updated; ", warning.as_str()),
            None => "remote file updated".to_owned(),
        };
        self.show_at_rest(Some(notice));
        self.sftp_refresh_panes();
    }

    /// Start editing the selected file, or go on with the edit there is.
    pub fn sftp_edit_selected(&mut self)
        ensures
            final(self)@ == old(self)@.edit_requested(),
    {
        reveal(AppView::edit_requested);

        if let Some(edit) = &self.remote_edit {
            match edit.phase {
                RemoteEditPhase::RetryingDownload => self.remote_edit_start_download(),
                RemoteEditPhase::RetryingEditor => self.ask(Effect::OpenEditor),
                RemoteEditPhase::RetryingUpload => self.remote_edit_start_upload(),
                _ => self.note("an edit is already in progress".to_owned()),
            }
            return;
        }
        let target = match &self.sftp {
            Some(s) => s.find_edit_target(),
            None => {
                return;
            },
        };
        match target {
            Ok(target) => match target.source {
                EditSource::Local => {
                    self.remote_edit = Some(
                        RemoteEditState {
                            source: EditSource::Local,
                            remote_path: target.path.clone(),
                            local_path: target.path,
                            temp_dir: None,
                            remote_mode: None,
                            stamp: None,
                            phase: RemoteEditPhase::Editing,
                            editor_session: None,
                        },
                    );
                    self.ask(Effect::OpenEditor);
                },
                source => {
                    self.ask(
                        Effect::MakeEditWorkspace {
                            source,
                            remote_path: target.path,
                            name: target.name,
                            mode: target.mode,
                        },
                    );
                },
            },
            Err(refusal) => self.note(refusal),
        }
    }

    /// The private directory for a working copy was created, or could not be.
    pub fn sftp_edit_workspace(
        &mut self,
        source: EditSource,
        remote_path: String,
        name: String,
        mode: Option<u32>,
        workspace: Result<String, String>,
    )
        ensures
            final(self)@ == old(self)@.edit_workspace_made(
                source,
                remote_path@,
                name@,
                mode,
                match workspace {
                    Ok(dir) => Ok(dir@),
                    Err(e) => Err(e@),
                },
            ),
    {
        let dir = match workspace {
            Ok(dir) => dir,
            Err(e) => {
                self.note(cat2("could not create edit workspace: ", e.as_str()));
                return;
            },
        };
        let local_path = join(dir.as_str(), name.as_str());
        let fetch = SftpCommand::EditDownload {
            remote: remote_path.clone(),
            local: local_path.clone(),
        };
        if !self.send_edit(source, fetch) {
            self.note("SFTP is not connected — edit not started".to_owned());
            self.ask(Effect::DropWorkspace(dir));
            return;
        }
        self.remote_edit = Some(
            RemoteEditState {
                source,
                remote_path,
                local_path,
                temp_dir: Some(dir),
                remote_mode: mode,
                stamp: None,
                phase: RemoteEditPhase::Downloading,
                editor_session: None,
            },
        );
        self.show_working(cat3("downloading ", name.as_str(), " for local editing"));
    }

    /// Open the local editor on the working copy. The arguments are the
    /// settings `$VISUAL` and `$EDITOR`.
    pub fn start_local_editor(&mut self, visual: Option<String>, editor: Option<String>)
        ensures
            final(self)@ == old(self)@.editor_opened(
                if names_editor(opt_view(visual)) {
                    visual->0@
                } else if names_editor(opt_view(editor)) {
                    editor->0@
                } else {
                    "nano"@
                },
            ),
    {
        let path = match &self.remote_edit {
            Some(edit) => match edit.phase {
                RemoteEditPhase::Editing => edit.local_path.clone(),
                RemoteEditPhase::RetryingEditor => edit.local_path.clone(),
                _ => {
                    return;
                },
            },
            None => {
                return;
            },
        };
        let command = local_editor_command(visual, editor);
        match local_editor_argv(command.as_str(), path.as_str()) {
            Ok(argv) => {
                let name = match file_name(path.as_str()) {
                    Some(name) => name,
                    None => "file".to_owned(),
                };
                self.ask(Effect::SpawnEditor { argv, title: cat2("edit: ", name.as_str()) });
            },
            Err(e) => {
                let message = e.message();
                self.remote_edit_editor_failed(
                    cat2("could not start local editor: ", message.as_str()),
                );
            },
        }
    }

    /// The editor's session started, or, with `None`, did not.
    pub fn editor_spawned(&mut self, session: Option<SessionInfo>)
        ensures
            final(self)@ == old(self)@.editor_session_made(opt_view(session)),
    {
        match session {
            None => {
                let message = match &self.host_notice {
                    Some(notice) => notice.clone(),
                    None => "could not start local editor".to_owned(),
                };
                self.remote_edit_editor_failed(message);
            },
            Some(session) => {
                let at: usize = self.sessions.len();
                assert(self@.sessions.len() == at);
                self.sessions.push(session);
                if let Some(edit) = &mut self.remote_edit {
                    edit.phase = RemoteEditPhase::Editing;
                    edit.editor_session = Some(at);
                }
            },
        }
    }

    fn find_editor_exit(&self) -> (r: Option<(usize, String)>)
        ensures
            match r {
                Some((idx, status)) => self@.editor_exit() == Some((idx as int, status@)) && idx
                    < self.sessions@.len(),
                None => self@.editor_exit() is None,
            },
    {
        assert(self@.sessions.len() == self.sessions@.len());
        match &self.remote_edit {
            Some(edit) => match edit.editor_session {
                Some(idx) => if idx < self.sessions.len() {
                    assert(self@.sessions[idx as int] == self.sessions@[idx as int]@);
                    match &self.sessions[idx].exited {
                        Some(status) => Some((idx, status.clone())),
                        None => None,
                    }
                } else {
                    None
                },
                None => None,
            },
            None => None,
        }
    }

    fn clear_editor_session(&mut self)
        ensures
            final(self)@ == old(self)@.without_editor_session(),
            final(self).sessions@.len() == old(self).sessions@.len(),
    {
        if let Some(edit) = &mut self.remote_edit {
            edit.editor_session = None;
        }
    }

    fn remove_session(&mut self, idx: usize)
        requires
            idx < old(self).sessions@.len(),
        ensures
            final(self)@ == old(self)@.without_session(idx as int),
    {
        let _ = self.sessions.remove(idx);
        if let Some(active) = self.active_session {
            if active > idx {
                self.active_session = Some(active - 1);
            }
        }
    }

    /// Detect the local editor's exit independently of which session tab is
    /// visible.
    pub fn tick_remote_edit(&mut self)
        ensures
            final(self)@ == old(self)@.editor_ticked(),
    {
        let (idx, status) = match self.find_editor_exit() {
            Some(exit) => exit,
            None => {
                return;
            },
        };
        self.clear_editor_session();
        let shown = match self.active_session {
            Some(active) => active == idx,
            None => false,
        };
        if shown {
            let visible = is_session_mode(self.mode);
            self.perform(Task::CloseActiveSession);
            self.ask(Effect::EditorClosed { status, visible });
        } else {
            self.remove_session(idx);
            self.perform(Task::RemoveSession(idx));
            self.ask(Effect::EditorClosed { status, visible: false });
        }
    }

    /// An in-place local-file edit ended successfully: there is no remote
    /// working copy to upload, so the panes are refreshed. A queue started
    /// meanwhile keeps running.
    pub fn local_edit_finished(&mut self)
        ensures
            final(self)@ == old(self)@.local_edit_over(),
    {
        reveal(AppView::local_edit_over);

        self.drop_edit();
        if let Some(s) = &mut self.sftp {
            s.local_edit_over();
        }
        self.sftp_refresh_panes();
    }

    /// The editor's session was closed.
    pub fn editor_closed(&mut self, status: String, visible: bool)
        ensures
            final(self)@ == old(self)@.editor_over(status@, visible),
    {
        if visible {
            self.mode = AppMode::Normal;
            self.active_tab = 1;
        }
        if same(status.as_str(), "success") {
            let local = match &self.remote_edit {
                Some(edit) => edit.source == EditSource::Local,
                None => false,
            };
            if local {
                self.local_edit_finished();
            } else {
                self.remote_edit_start_upload();
            }
        } else {
            self.remote_edit_editor_failed(cat2("local editor exited with ", status.as_str()));
        }
    }
}

struct FoundTarget {
    source: EditSource,
    path: String,
    name: String,
    mode: Option<u32>,
}

impl SftpState {
    fn local_edit_over(&mut self)
        ensures
            final(self)@ == old(self)@.edited_locally(),
    {
        if self.running.len() == 0 {
            self.phase = Phase::Browsing;
        }
        self.progress = None;
        self.notice = Some("local file edited".to_owned());
    }

    /// The selected file, or why it cannot be edited.
    fn find_edit_target(&self) -> (r: Result<FoundTarget, String>)
        ensures
            match r {
                Ok(found) => self@.edit_target() == Some(
                    Target {
                        source: found.source,
                        path: found.path@,
                        name: found.name@,
                        mode: found.mode,
                    },
                ),
                Err(refusal) => self@.edit_target() is None && refusal@ == self@.edit_refusal(),
            },
    {
        assert(self@.queue.len() == self.queue@.len());
        let running = self.phase == Phase::Running;
        let side = self.focused_side();
        let pane = self.focused_pane();
        if !running && !self.connecting && !self.left_connecting && self.queue.len() == 0 {
            if let Some(entry) = pane.selected_entry() {
                if !entry.is_parent() && !entry.is_dir && !entry.is_symlink {
                    let source = match side {
                        Side::Remote => EditSource::RightRemote,
                        Side::Local => if self.left_is_remote() {
                            EditSource::LeftRemote
                        } else {
                            EditSource::Local
                        },
                    };
                    return Ok(
                        FoundTarget {
                            source,
                            path: join(pane.cwd.as_str(), entry.name.as_str()),
                            name: entry.name,
                            mode: entry.perm,
                        },
                    );
                }
            }
        }
        if running || self.connecting {
            Err("wait for the current SFTP operation to finish".to_owned())
        } else if self.queue.len() > 0 {
            Err("run or clear the queued transfers first".to_owned())
        } else {
            let target = match side {
                Side::Remote => "remote",
                Side::Local => if self.left_is_remote() {
                    "remote (second server)"
                } else {
                    "local"
                },
            };
            Err(cat3("select a regular ", target, " file to edit"))
        }
    }
}

} // verus!
