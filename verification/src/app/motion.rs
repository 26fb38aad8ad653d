//! What moves. Once per tick the state is compared with that of the last tick,
//! and what changed gets the time at which it did; what has moved long enough
//! comes to rest.

use vstd::prelude::*;

use crate::app::effects::Task;
use crate::app::state::{
    full_screen, is_overlay_mode, is_session_mode, overlay, AppMode, AuditFilter, AuditRange,
    TabSwitch,
};
use crate::app::{App, AppView, Motion, MotionView};
use crate::hosts::clone_text;
use crate::paths::{is_below, path_eq, path_starts_with, same_path};
use crate::sftp::browser::SftpView;
use crate::text::{len, opt_view, same};

verus! {

broadcast use crate::text::group_views;

/// How long each motion lasts, in milliseconds.
#[derive(Debug, Clone, Copy, PartialEq, Eq, Structural)]
pub struct AnimTimes {
    pub session: u64,
    pub fold: u64,
    pub tab: u64,
    pub sftp: u64,
    pub popup: u64,
}

/// Whether a motion that began at `at` is over by `now`.
pub open spec fn is_over(at: u64, now: u64, lasts: u64) -> bool {
    lasts == 0 || (now >= at && now - at >= lasts)
}

pub open spec fn is_past(at: Option<u64>, now: u64, lasts: u64) -> bool {
    at matches Some(at) && is_over(at, now, lasts)
}

fn has_passed(at: Option<u64>, now: u64, lasts: u64) -> (r: bool)
    ensures
        r == is_past(at, now, lasts),
{
    match at {
        Some(at) => lasts == 0 || (now >= at && now - at >= lasts),
        None => false,
    }
}

/// The slide of a pane that changed its directory: which way, and when. The
/// first listing of a session does not slide.
pub open spec fn pane_slide(
    from: Seq<char>,
    to: Seq<char>,
    moves: bool,
    now: u64,
) -> Option<(bool, u64)> {
    if from.len() > 0 && moves {
        Some((is_below(to, from), now))
    } else {
        None
    }
}

fn find_pane_slide(from: &str, to: &str, moves: bool, now: u64) -> (r: Option<(bool, u64)>)
    ensures
        r == pane_slide(from@, to@, moves, now),
{
    if len(from) > 0 && moves {
        Some((path_starts_with(to, from), now))
    } else {
        None
    }
}

impl MotionView {
    /// A tab change slides the body.
    pub open spec fn tab_seen(self, tab: usize, moves: bool) -> MotionView {
        MotionView {
            tab_switch: if tab != self.prev_tab && moves {
                Some(TabSwitch { from: self.prev_tab, to: tab, at: self.clock })
            } else {
                self.tab_switch
            },
            prev_tab: tab,
            ..self
        }
    }

    /// Whether a mode change leaves the full-screen session for the dashboard.
    pub open spec fn leaves_session(self, mode: AppMode) -> bool {
        full_screen(self.prev_mode) && mode is Normal
    }

    /// A popup over the dashboard drops in, and one that closes is thrown out; a
    /// popup that follows a popup does neither. Leaving a session slides it off.
    pub open spec fn mode_seen(self, mode: AppMode, moves: bool) -> MotionView {
        let opens = overlay(mode) && !overlay(self.prev_mode);
        let closes = overlay(self.prev_mode) && !overlay(mode);
        MotionView {
            mode_entered_at: if opens {
                self.clock
            } else {
                self.mode_entered_at
            },
            popup_closing_at: if opens {
                None
            } else if closes {
                Some(self.clock)
            } else {
                self.popup_closing_at
            },
            session_tab_switch: if self.leaves_session(mode) {
                None
            } else {
                self.session_tab_switch
            },
            session_exit_at: if self.leaves_session(mode) && moves {
                Some(self.clock)
            } else {
                self.session_exit_at
            },
            prev_mode: mode,
            ..self
        }
    }

    pub open spec fn session_exit_retired(self, lasts: u64) -> MotionView {
        MotionView {
            session_exit_at: if is_past(self.session_exit_at, self.clock, lasts) {
                None
            } else {
                self.session_exit_at
            },
            ..self
        }
    }

    /// Audit rows that were filtered anew fade in.
    pub open spec fn audit_seen(self, filter: AuditFilter, range: AuditRange) -> MotionView {
        MotionView {
            audit_filter_at: if (filter, range) != self.prev_audit {
                Some(self.clock)
            } else {
                self.audit_filter_at
            },
            prev_audit: (filter, range),
            ..self
        }
    }

    /// A pane that changed its directory slides; without a browser the old
    /// directories are forgotten.
    pub open spec fn browser_seen(self, sftp: Option<SftpView>, moves: bool) -> MotionView {
        match sftp {
            None => MotionView {
                prev_local_cwd: Seq::empty(),
                prev_remote_cwd: Seq::empty(),
                local_nav: None,
                remote_nav: None,
                ..self
            },
            Some(s) => {
                let local_kept = same_path(s.local.cwd, self.prev_local_cwd);
                let remote_kept = same_path(s.remote.cwd, self.prev_remote_cwd);
                MotionView {
                    local_nav: if local_kept {
                        self.local_nav
                    } else {
                        pane_slide(self.prev_local_cwd, s.local.cwd, moves, self.clock)
                    },
                    prev_local_cwd: if local_kept {
                        self.prev_local_cwd
                    } else {
                        s.local.cwd
                    },
                    remote_nav: if remote_kept {
                        self.remote_nav
                    } else {
                        pane_slide(self.prev_remote_cwd, s.remote.cwd, moves, self.clock)
                    },
                    prev_remote_cwd: if remote_kept {
                        self.prev_remote_cwd
                    } else {
                        s.remote.cwd
                    },
                    ..self
                }
            },
        }
    }

    /// A transfer that was staged flies in; one that is gone is just gone.
    pub open spec fn queue_seen(self, queued: nat) -> MotionView {
        MotionView {
            sftp_queue_at: if queued == self.prev_queue {
                self.sftp_queue_at
            } else if queued > self.prev_queue {
                Some(self.clock)
            } else {
                None
            },
            prev_queue: queued as usize,
            ..self
        }
    }

    pub open spec fn fold_retired(self, lasts: u64) -> MotionView {
        MotionView {
            fold_at: if is_past(self.fold_at, self.clock, lasts) {
                None
            } else {
                self.fold_at
            },
            ..self
        }
    }

    pub open spec fn selection_seen(self, selected: usize) -> MotionView {
        MotionView {
            selection_at: if selected != self.prev_selected {
                Some(self.clock)
            } else {
                self.selection_at
            },
            prev_selected: selected,
            ..self
        }
    }

    /// A notice that changed slides in.
    pub open spec fn notice_seen(self, notice: Option<Seq<char>>) -> MotionView {
        MotionView {
            host_notice_at: if notice == self.prev_notice {
                self.host_notice_at
            } else if notice is Some {
                Some(self.clock)
            } else {
                None
            },
            prev_notice: notice,
            ..self
        }
    }

    pub open spec fn session_tab_retired(self, lasts: u64) -> MotionView {
        MotionView {
            session_tab_switch: if is_past(self.session_tab_switch, self.clock, lasts) {
                None
            } else {
                self.session_tab_switch
            },
            ..self
        }
    }

    pub open spec fn slide_is_over(self, lasts: u64) -> bool {
        self.sftp_anim matches Some((_, at)) && is_over(at, self.clock, lasts)
    }

    pub open spec fn sftp_retired(self, lasts: u64) -> MotionView {
        MotionView {
            sftp_anim: if self.slide_is_over(lasts) {
                None
            } else {
                self.sftp_anim
            },
            ..self
        }
    }

    pub open spec fn popup_retired(self, lasts: u64) -> MotionView {
        MotionView {
            popup_closing_at: if is_past(self.popup_closing_at, self.clock, lasts) {
                None
            } else {
                self.popup_closing_at
            },
            ..self
        }
    }
}

impl AppView {
    pub open spec fn with_motion(self, motion: MotionView) -> AppView {
        AppView { motion, ..self }
    }

    pub open spec fn doing_if(self, when: bool, task: Task) -> AppView {
        if when {
            self.doing(task)
        } else {
            self
        }
    }

    pub open spec fn queued(self) -> nat {
        match self.sftp {
            Some(s) => s.queue.len(),
            None => 0,
        }
    }

    /// Tab and mode changes.
    pub open spec fn screens_seen(self) -> AppView {
        let tab = self.motion.tab_seen(self.active_tab, self.animates());
        self.with_motion(tab.mode_seen(self.mode, self.animates())).doing_if(
            tab.leaves_session(self.mode) && !self.animates(),
            Task::FreeSessionSnapshot,
        )
    }

    pub open spec fn session_exit_seen(self, lasts: u64) -> AppView {
        self.with_motion(self.motion.session_exit_retired(lasts)).doing_if(
            is_past(self.motion.session_exit_at, self.motion.clock, lasts),
            Task::FreeSessionSnapshot,
        )
    }

    /// Changes of the audit filter, the browser and its queue.
    pub open spec fn contents_seen(self) -> AppView {
        self.with_motion(
            self.motion.audit_seen(self.audit_filter, self.audit_range).browser_seen(
                self.sftp,
                self.animates(),
            ).queue_seen(self.queued()),
        ).doing(Task::DetectPingChanges)
    }

    /// Folds, the selection, notices and session tabs.
    pub open spec fn list_seen(self, times: AnimTimes) -> AppView {
        self.with_motion(
            self.motion.fold_retired(times.fold).selection_seen(self.selected).notice_seen(
                self.host_notice,
            ).session_tab_retired(times.tab),
        )
    }

    /// A finished slide of the SFTP tab frees what it showed, unless a browser
    /// is there to show.
    pub open spec fn sftp_slide_seen(self, lasts: u64) -> AppView {
        self.with_motion(self.motion.sftp_retired(lasts)).doing_if(
            self.motion.slide_is_over(lasts) && self.sftp is None,
            Task::FreeSftpSnapshot,
        )
    }

    pub open spec fn popup_seen(self, lasts: u64) -> AppView {
        self.with_motion(self.motion.popup_retired(lasts)).doing_if(
            is_past(self.motion.popup_closing_at, self.motion.clock, lasts),
            Task::FreePopupSnapshot,
        )
    }

    /// One tick.
    pub open spec fn motion_ticked(self, times: AnimTimes) -> AppView {
        self.screens_seen().session_exit_seen(times.session).contents_seen().list_seen(
            times,
        ).sftp_slide_seen(times.sftp).popup_seen(times.popup)
    }
}

impl Motion {
    fn see_tab(&mut self, tab: usize, moves: bool)
        ensures
            final(self)@ == old(self)@.tab_seen(tab, moves),
    {
        if tab != self.prev_tab && moves {
            self.tab_switch = Some(TabSwitch { from: self.prev_tab, to: tab, at: self.clock });
        }
        self.prev_tab = tab;
    }

    fn see_mode(&mut self, mode: AppMode, moves: bool) -> (r: bool)
        ensures
            final(self)@ == old(self)@.mode_seen(mode, moves),
            r == old(self)@.leaves_session(mode),
    {
        let now_overlay = is_overlay_mode(mode);
        let prev_overlay = is_overlay_mode(self.prev_mode);
        if now_overlay && !prev_overlay {
            self.mode_entered_at = self.clock;
            self.popup_closing_at = None;
        } else if prev_overlay && !now_overlay {
            self.popup_closing_at = Some(self.clock);
        }
        let leaves = is_session_mode(self.prev_mode) && mode == AppMode::Normal;
        if leaves {
            self.session_tab_switch = None;
            if moves {
                self.session_exit_at = Some(self.clock);
            }
        }
        self.prev_mode = mode;
        leaves
    }

    fn see_audit(&mut self, filter: AuditFilter, range: AuditRange)
        ensures
            final(self)@ == old(self)@.audit_seen(filter, range),
    {
        if filter != self.prev_audit.0 || range != self.prev_audit.1 {
            self.audit_filter_at = Some(self.clock);
        }
        self.prev_audit = (filter, range);
    }

    fn forget_browser(&mut self)
        ensures
            final(self)@ == old(self)@.browser_seen(None, true),
    {
        self.prev_local_cwd = String::new();
        self.prev_remote_cwd = String::new();
        self.local_nav = None;
        self.remote_nav = None;
        assert(self@.prev_local_cwd =~= Seq::empty());
        assert(self@.prev_remote_cwd =~= Seq::empty());
    }

    fn see_cwds(&mut self, local: &str, remote: &str, moves: bool)
        ensures
            forall|s: SftpView|
                s.local.cwd == local@ && s.remote.cwd == remote@ ==> final(self)@ == #[trigger] old(
                    self,
                )@.browser_seen(Some(s), moves),
    {
        if !path_eq(local, self.prev_local_cwd.as_str()) {
            self.local_nav =
                find_pane_slide(self.prev_local_cwd.as_str(), local, moves, self.clock);
            self.prev_local_cwd = local.to_owned();
        }
        if !path_eq(remote, self.prev_remote_cwd.as_str()) {
            self.remote_nav =
                find_pane_slide(self.prev_remote_cwd.as_str(), remote, moves, self.clock);
            self.prev_remote_cwd = remote.to_owned();
        }
    }

    fn see_queue(&mut self, queued: usize)
        ensures
            final(self)@ == old(self)@.queue_seen(queued as nat),
    {
        if queued != self.prev_queue {
            self.sftp_queue_at = if queued > self.prev_queue {
                Some(self.clock)
            } else {
                None
            };
            self.prev_queue = queued;
        }
    }

    fn see_selection(&mut self, selected: usize)
        ensures
            final(self)@ == old(self)@.selection_seen(selected),
    {
        if selected != self.prev_selected {
            self.prev_selected = selected;
            self.selection_at = Some(self.clock);
        }
    }

    fn see_notice(&mut self, notice: &Option<String>)
        ensures
            final(self)@ == old(self)@.notice_seen(opt_view(*notice)),
    {
        let kept = match (notice, &self.prev_notice) {
            (Some(a), Some(b)) => same(a.as_str(), b.as_str()),
            (None, None) => true,
            _ => false,
        };
        if !kept {
            self.prev_notice = clone_text(notice);
            self.host_notice_at = if notice.is_some() {
                Some(self.clock)
            } else {
                None
            };
        }
    }

    fn retire_session_exit(&mut self, lasts: u64) -> (r: bool)
        ensures
            final(self)@ == old(self)@.session_exit_retired(lasts),
            r == is_past(old(self)@.session_exit_at, old(self)@.clock, lasts),
    {
        let over = has_passed(self.session_exit_at, self.clock, lasts);
        if over {
            self.session_exit_at = None;
        }
        over
    }

    fn retire_fold(&mut self, lasts: u64)
        ensures
            final(self)@ == old(self)@.fold_retired(lasts),
    {
        if has_passed(self.fold_at, self.clock, lasts) {
            self.fold_at = None;
        }
    }

    fn retire_session_tab(&mut self, lasts: u64)
        ensures
            final(self)@ == old(self)@.session_tab_retired(lasts),
    {
        if has_passed(self.session_tab_switch, self.clock, lasts) {
            self.session_tab_switch = None;
        }
    }

    fn retire_sftp(&mut self, lasts: u64) -> (r: bool)
        ensures
            final(self)@ == old(self)@.sftp_retired(lasts),
            r == old(self)@.slide_is_over(lasts),
    {
        let at = match self.sftp_anim {
            Some((_, at)) => Some(at),
            None => None,
        };
        let over = has_passed(at, self.clock, lasts);
        if over {
            self.sftp_anim = None;
        }
        over
    }

    fn retire_popup(&mut self, lasts: u64) -> (r: bool)
        ensures
            final(self)@ == old(self)@.popup_retired(lasts),
            r == is_past(old(self)@.popup_closing_at, old(self)@.clock, lasts),
    {
        let over = has_passed(self.popup_closing_at, self.clock, lasts);
        if over {
            self.popup_closing_at = None;
        }
        over
    }
}

impl App {
    fn see_screens(&mut self)
        ensures
            final(self)@ == old(self)@.screens_seen(),
    {
        let moves = self.motion_enabled();
        let (tab, mode) = (self.active_tab, self.mode);
        self.motion.see_tab(tab, moves);
        let leaves = self.motion.see_mode(mode, moves);
        if leaves && !moves {
            self.perform(Task::FreeSessionSnapshot);
        }
    }

    fn see_session_exit(&mut self, lasts: u64)
        ensures
            final(self)@ == old(self)@.session_exit_seen(lasts),
    {
        if self.motion.retire_session_exit(lasts) {
            self.perform(Task::FreeSessionSnapshot);
        }
    }

    /// Notice either pane changing directory.
    pub fn detect_sftp_navigation(&mut self)
        ensures
            final(self)@ == old(self)@.with_motion(
                old(self)@.motion.browser_seen(old(self)@.sftp, old(self)@.animates()),
            ),
    {
        let moves = self.motion_enabled();
        match &self.sftp {
            Some(s) => {
                self.motion.see_cwds(s.local.cwd.as_str(), s.remote.cwd.as_str(), moves);
            },
            None => self.motion.forget_browser(),
        }
    }

    fn see_contents(&mut self)
        ensures
            final(self)@ == old(self)@.contents_seen(),
    {
        let (filter, range) = (self.audit_filter, self.audit_range);
        self.motion.see_audit(filter, range);
        self.detect_sftp_navigation();
        let queued: usize = match &self.sftp {
            Some(s) => s.queue.len(),
            None => 0,
        };
        self.motion.see_queue(queued);
        self.perform(Task::DetectPingChanges);
    }

    fn see_list(&mut self, times: AnimTimes)
        ensures
            final(self)@ == old(self)@.list_seen(times),
    {
        let selected: usize = self.selected;
        self.motion.retire_fold(times.fold);
        self.motion.see_selection(selected);
        self.motion.see_notice(&self.host_notice);
        self.motion.retire_session_tab(times.tab);
    }

    fn see_sftp_slide(&mut self, lasts: u64)
        ensures
            final(self)@ == old(self)@.sftp_slide_seen(lasts),
    {
        if self.motion.retire_sftp(lasts) && self.sftp.is_none() {
            self.perform(Task::FreeSftpSnapshot);
        }
    }

    fn see_popup(&mut self, lasts: u64)
        ensures
            final(self)@ == old(self)@.popup_seen(lasts),
    {
        if self.motion.retire_popup(lasts) {
            self.perform(Task::FreePopupSnapshot);
        }
    }

    /// Notice what changed since the last tick and arm its motion; retire what
    /// has finished. Called once per tick.
    pub fn detect_tab_switch(&mut self, times: AnimTimes)
        ensures
            final(self)@ == old(self)@.motion_ticked(times),
    {
        self.see_screens();
        self.see_session_exit(times.session);
        self.see_contents();
        self.see_list(times);
        self.see_sftp_slide(times.sftp);
        self.see_popup(times.popup);
    }
}

/// A popup that follows a popup neither drops in nor is thrown out.
pub proof fn popups_do_not_jump(motion: MotionView, mode: AppMode, moves: bool)
    requires
        overlay(motion.prev_mode),
        overlay(mode),
    ensures
        motion.mode_seen(mode, moves).mode_entered_at == motion.mode_entered_at,
        motion.mode_seen(mode, moves).popup_closing_at == motion.popup_closing_at,
{
}

/// With reduced motion, tabs, sessions and panes do not slide.
pub proof fn reduced_motion_starts_no_slide(app: AppView, times: AnimTimes)
    requires
        !app.animates(),
        app.motion.tab_switch is None,
        app.motion.session_exit_at is None,
        app.motion.local_nav is None,
        app.motion.remote_nav is None,
    ensures
        ({
            let after = app.motion_ticked(times).motion;
            &&& after.tab_switch is None
            &&& after.session_exit_at is None
            &&& after.local_nav is None
            &&& after.remote_nav is None
        }),
{
}

} // verus!
