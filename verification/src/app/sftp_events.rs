//! What the workers report, folded into the browser.

use vstd::prelude::*;

use crate::app::state::{AppMode, EditSource, SftpAnim};
use crate::app::{App, AppView};
use crate::sftp::browser::{Progress, SftpState, SftpView};
use crate::sftp::model::{EventView, FileEntry, FileEntryView, SftpEvent, Side};
use crate::text::{cat2, cat4, len, views};

verus! {

broadcast use crate::text::group_views;

impl SftpView {
    pub open spec fn listed(
        self,
        side: Side,
        path: Seq<char>,
        entries: Seq<FileEntryView>,
    ) -> SftpView {
        match side {
            Side::Remote => SftpView { remote: self.remote.moved_to(path, entries), ..self },
            Side::Local => SftpView { local: self.local.moved_to(path, entries), ..self },
        }
    }
}

impl SftpState {
    fn show_listing(&mut self, side: Side, path: String, entries: Vec<FileEntry>)
        ensures
            final(self)@ == old(self)@.listed(side, path@, views(entries@)),
    {
        match side {
            Side::Remote => {
                self.remote.cwd = path;
                self.remote.set_entries(entries);
            },
            Side::Local => {
                self.local.cwd = path;
                self.local.set_entries(entries);
            },
        }
    }

    fn end_run(&mut self) -> (r: bool)
        ensures
            final(self)@ == old(self)@.settled(old(self)@.notice).run_over(),
            r == (final(self)@.queue.len() > 0),
    {
        self.phase = crate::sftp::browser::Phase::Browsing;
        self.progress = None;
        self.finish_run()
    }
}

impl AppView {
    /// The worker of the right pane is connected.
    #[verifier::opaque]
    pub open spec fn right_connected(self) -> AppView {
        let there = AppView {
            sftp: match self.sftp {
                Some(s) => Some(SftpView { notice: None, connecting: false, ..s }),
                None => None,
            },
            ..self
        };
        if self.sftp matches Some(s) && s.connecting {
            there.sliding(SftpAnim::PanesIn)
        } else {
            there
        }
    }

    pub open spec fn left_connected(self) -> AppView {
        AppView {
            sftp: match self.sftp {
                Some(s) => Some(SftpView { notice: None, left_connecting: false, ..s }),
                None => None,
            },
            ..self
        }
    }

    /// A message that has to be read.
    pub open spec fn popping_up(self, message: Seq<char>) -> AppView {
        AppView { notice_popup: Some(message), mode: AppMode::Notice, ..self }
    }

    /// The right pane's server could not be reached. That is loud: the browser
    /// goes and a popup says why.
    #[verifier::opaque]
    pub open spec fn right_unreachable(self, message: Seq<char>) -> AppView {
        self.connection_lost().popping_up(
            if self.sftp_host matches Some(host) && host.len() > 0 {
                "Could not connect to "@ + self.sftp_host->0 + ":\n"@ + message
            } else {
                "SFTP connection failed:\n"@ + message
            },
        )
    }

    /// The left pane's server could not be reached: the pane goes back to the
    /// local file system.
    #[verifier::opaque]
    pub open spec fn left_unreachable(self, message: Seq<char>) -> AppView {
        let host = match self.sftp {
            Some(s) => match s.left_host {
                Some(host) => host,
                None => Seq::empty(),
            },
            None => Seq::empty(),
        };
        self.left_pane_localized().popping_up(
            "Could not connect to "@ + host + ":\n"@ + message,
        )
    }

    pub open spec fn listing_shown(
        self,
        side: Side,
        path: Seq<char>,
        entries: Seq<FileEntryView>,
    ) -> AppView {
        AppView {
            sftp: match self.sftp {
                Some(s) => Some(s.listed(side, path, entries)),
                None => None,
            },
            ..self
        }
    }

    /// Whether the edit in progress belongs to the worker of this side.
    pub open spec fn edits(self, source: EditSource) -> bool {
        self.remote_edit matches Some(edit) && edit.source == source
    }

    #[verifier::opaque]
    pub open spec fn progressed(self, progress: Progress) -> AppView {
        if self.sftp_relay is Some {
            self.relay_progressed(progress.transferred, progress.size)
        } else {
            AppView {
                sftp: match self.sftp {
                    Some(s) => Some(SftpView { progress: Some(progress), ..s }),
                    None => None,
                },
                ..self
            }
        }
    }

    /// Something failed. A relay stops; the panes are listed afresh either way,
    /// so that what was shown ahead of the server is undone.
    #[verifier::opaque]
    pub open spec fn run_error(self, message: Seq<char>) -> AppView {
        let failed = AppView { sftp_run_failed: true, ..self };
        if self.sftp_relay is Some {
            failed.relay_aborted(message).refreshed()
        } else {
            failed.noted(message).refreshed()
        }
    }

    pub open spec fn one_done_ignored(self) -> AppView {
        AppView { sftp_swallow_done: (self.sftp_swallow_done - 1) as usize, ..self }
    }

    pub open spec fn run_ended(self) -> AppView {
        AppView {
            sftp: match self.sftp {
                Some(s) => Some(s.settled(s.notice).run_over()),
                None => None,
            },
            ..self
        }
    }

    /// The run of the right pane's worker is over. What was staged meanwhile is
    /// run at once, unless this run reported an error.
    #[verifier::opaque]
    pub open spec fn queue_over(self) -> AppView {
        let over = self.run_ended().refreshed();
        let more = self.run_ended().sftp matches Some(s) && s.queue.len() > 0;
        if more && !self.sftp_run_failed {
            over.queue_run()
        } else {
            over
        }
    }

    /// An event of the right pane's worker. Without a live session there is
    /// nothing that it could speak of.
    pub open spec fn event_applied(self, event: EventView) -> AppView {
        if self.sftp is None {
            self
        } else {
            self.live_event_applied(event)
        }
    }

    /// An event of the right pane's worker in a live session.
    pub open spec fn live_event_applied(self, event: EventView) -> AppView {
        match event {
            EventView::Connected => self.right_connected(),
            EventView::ConnectFailed(message) => self.right_unreachable(message),
            EventView::DirListing(side, path, entries) => self.listing_shown(
                side,
                path,
                entries,
            ),
            EventView::EditDownloaded(stamp) => if self.edits(EditSource::RightRemote) {
                self.download_landed(stamp)
            } else {
                self
            },
            EventView::EditUploaded(warning) => if self.edits(EditSource::RightRemote) {
                self.upload_landed(warning)
            } else {
                self
            },
            EventView::EditError(message) => if self.edits(EditSource::RightRemote) {
                self.edit_failed(message)
            } else {
                self
            },
            EventView::Progress { index, total, transferred, size } => self.progressed(
                Progress { index, total, transferred, size },
            ),
            EventView::TransferDone(_) => self,
            EventView::QueueDone => if self.sftp_swallow_done > 0 {
                self.one_done_ignored()
            } else if self.sftp_relay is Some {
                self.leg_done()
            } else {
                self.queue_over()
            },
            EventView::OpDone => self.refreshed(),
            EventView::Error(message) => self.run_error(message),
        }
    }

    /// An event of the left pane's worker. It speaks of its own server as the
    /// remote side, which is the left pane here.
    pub open spec fn event_applied_left(self, event: EventView) -> AppView {
        match event {
            EventView::Connected => self.left_connected(),
            EventView::ConnectFailed(message) => self.left_unreachable(message),
            EventView::DirListing(_, path, entries) => self.listing_shown(
                Side::Local,
                path,
                entries,
            ),
            EventView::EditDownloaded(stamp) => if self.edits(EditSource::LeftRemote) {
                self.download_landed(stamp)
            } else {
                self
            },
            EventView::EditUploaded(warning) => if self.edits(EditSource::LeftRemote) {
                self.upload_landed(warning)
            } else {
                self
            },
            EventView::EditError(message) => if self.edits(EditSource::LeftRemote) {
                self.edit_failed(message)
            } else {
                self
            },
            EventView::Progress { index, total, transferred, size } => self.progressed(
                Progress { index, total, transferred, size },
            ),
            EventView::TransferDone(_) => self,
            EventView::QueueDone => if self.sftp_swallow_done > 0 {
                self.one_done_ignored()
            } else {
                self.leg_done()
            },
            EventView::OpDone => self.refreshed(),
            EventView::Error(message) => self.run_error(message),
        }
    }
}

impl App {
    fn right_is_connected(&mut self)
        ensures
            final(self)@ == old(self)@.right_connected(),
    {
        reveal(AppView::right_connected);

        let was_connecting = match &self.sftp {
            Some(s) => s.connecting,
            None => false,
        };
        if let Some(s) = &mut self.sftp {
            s.notice = None;
            s.connecting = false;
        }
        if was_connecting {
            self.stamp_sftp_anim(SftpAnim::PanesIn);
        }
    }

    fn left_is_connected(&mut self)
        ensures
            final(self)@ == old(self)@.left_connected(),
    {
        if let Some(s) = &mut self.sftp {
            s.notice = None;
            s.left_connecting = false;
        }
    }

    pub(crate) fn pop_up(&mut self, message: String)
        ensures
            final(self)@ == old(self)@.popping_up(message@),
    {
        self.notice_popup = Some(message);
        self.mode = AppMode::Notice;
    }

    fn right_failed(&mut self, message: String)
        ensures
            final(self)@ == old(self)@.right_unreachable(message@),
    {
        reveal(AppView::right_unreachable);

        let text = match &self.sftp_host {
            Some(host) => if len(host.as_str()) > 0 {
                cat4("Could not connect to ", host.as_str(), ":\n", message.as_str())
            } else {
                cat2("SFTP connection failed:\n", message.as_str())
            },
            None => cat2("SFTP connection failed:\n", message.as_str()),
        };
        self.lose_connection();
        self.pop_up(text);
    }

    fn left_failed(&mut self, message: String)
        ensures
            final(self)@ == old(self)@.left_unreachable(message@),
    {
        reveal(AppView::left_unreachable);

        let host = match &self.sftp {
            Some(s) => match &s.left_host {
                Some(host) => host.clone(),
                None => String::new(),
            },
            None => String::new(),
        };
        assert(host@.len() == 0 ==> host@ =~= Seq::empty());
        let text = cat4("Could not connect to ", host.as_str(), ":\n", message.as_str());
        self.sftp_left_pane_to_local();
        self.pop_up(text);
    }

    fn show_listing(&mut self, side: Side, path: String, entries: Vec<FileEntry>)
        ensures
            final(self)@ == old(self)@.listing_shown(side, path@, views(entries@)),
    {
        if let Some(s) = &mut self.sftp {
            s.show_listing(side, path, entries);
        }
    }

    fn is_editing(&self, source: EditSource) -> (r: bool)
        ensures
            r == self@.edits(source),
    {
        match &self.remote_edit {
            Some(edit) => edit.source == source,
            None => false,
        }
    }

    fn show_progress(&mut self, progress: Progress)
        ensures
            final(self)@ == old(self)@.progressed(progress),
    {
        reveal(AppView::progressed);

        if self.sftp_relay.is_some() {
            self.sftp_relay_progress(progress.transferred, progress.size);
        } else if let Some(s) = &mut self.sftp {
            s.progress = Some(progress);
        }
    }

    fn mark_failed(&mut self)
        ensures
            final(self)@ == (AppView { sftp_run_failed: true, ..old(self)@ }),
    {
        self.sftp_run_failed = true;
    }

    fn report_error(&mut self, message: String)
        ensures
            final(self)@ == old(self)@.run_error(message@),
    {
        reveal(AppView::run_error);

        self.mark_failed();
        if self.sftp_relay.is_some() {
            self.sftp_relay_abort(message);
        } else {
            self.note(message);
        }
        self.sftp_refresh_panes();
    }

    /// Consume one owed trailing `QueueDone`, if any. Returns whether this
    /// event was one of them and should be ignored.
    fn sftp_take_swallowed_done(&mut self) -> (r: bool)
        ensures
            r == (old(self)@.sftp_swallow_done > 0),
            final(self)@ == if r {
                old(self)@.one_done_ignored()
            } else {
                old(self)@
            },
    {
        if self.sftp_swallow_done == 0 {
            return false;
        }
        self.sftp_swallow_done = self.sftp_swallow_done - 1;
        true
    }

    fn end_run(&mut self) -> (r: bool)
        ensures
            final(self)@ == old(self)@.run_ended(),
            r == (final(self)@.sftp matches Some(s) && s.queue.len() > 0),
    {
        match &mut self.sftp {
            Some(s) => s.end_run(),
            None => false,
        }
    }

    fn finish_queue(&mut self)
        ensures
            final(self)@ == old(self)@.queue_over(),
    {
        reveal(AppView::queue_over);

        let failed = self.sftp_run_failed;
        let more = self.end_run();
        self.sftp_refresh_panes();
        if more && !failed {
            self.sftp_run_queue();
        }
    }

    /// Apply one event of the left pane's worker.
    pub fn apply_sftp_event_left(&mut self, event: SftpEvent)
        ensures
            final(self)@ == old(self)@.event_applied_left(event@),
    {
        match event {
            SftpEvent::Connected => self.left_is_connected(),
            SftpEvent::ConnectFailed(message) => self.left_failed(message),
            SftpEvent::DirListing(_, path, entries) => {
                self.show_listing(Side::Local, path, entries);
            },
            SftpEvent::EditDownloaded(stamp) => {
                if self.is_editing(EditSource::LeftRemote) {
                    self.remote_edit_downloaded(stamp);
                }
            },
            SftpEvent::EditUploaded(warning) => {
                if self.is_editing(EditSource::LeftRemote) {
                    self.remote_edit_uploaded(warning);
                }
            },
            SftpEvent::EditError(message) => {
                if self.is_editing(EditSource::LeftRemote) {
                    self.remote_edit_error(message);
                }
            },
            SftpEvent::Progress { index, total, transferred, size } => {
                self.show_progress(Progress { index, total, transferred, size });
            },
            SftpEvent::TransferDone(_) => {},
            SftpEvent::QueueDone => {
                if !self.sftp_take_swallowed_done() {
                    let _ = self.sftp_relay_queue_done();
                }
            },
            SftpEvent::OpDone => self.sftp_refresh_panes(),
            SftpEvent::Error(message) => self.report_error(message),
        }
    }

    /// Apply one event of the right pane's worker. Events of a session that was
    /// torn down change nothing.
    pub fn apply_sftp_event(&mut self, event: SftpEvent)
        ensures
            final(self)@ == old(self)@.event_applied(event@),
            old(self)@.sftp is None ==> final(self)@ == old(self)@,
    {
        if self.sftp.is_none() {
            return;
        }
        match event {
            SftpEvent::Connected => self.right_is_connected(),
            SftpEvent::ConnectFailed(message) => self.right_failed(message),
            SftpEvent::DirListing(side, path, entries) => {
                self.show_listing(side, path, entries);
            },
            SftpEvent::EditDownloaded(stamp) => {
                if self.is_editing(EditSource::RightRemote) {
                    self.remote_edit_downloaded(stamp);
                }
            },
            SftpEvent::EditUploaded(warning) => {
                if self.is_editing(EditSource::RightRemote) {
                    self.remote_edit_uploaded(warning);
                }
            },
            SftpEvent::EditError(message) => {
                if self.is_editing(EditSource::RightRemote) {
                    self.remote_edit_error(message);
                }
            },
            SftpEvent::Progress { index, total, transferred, size } => {
                self.show_progress(Progress { index, total, transferred, size });
            },
            SftpEvent::TransferDone(_) => {},
            SftpEvent::QueueDone => {
                if self.sftp_take_swallowed_done() {
                    return;
                }
                if self.sftp_relay.is_some() {
                    let _ = self.sftp_relay_queue_done();
                } else {
                    self.finish_queue();
                }
            },
            SftpEvent::OpDone => self.sftp_refresh_panes(),
            SftpEvent::Error(message) => self.report_error(message),
        }
    }
}

} // verus!
