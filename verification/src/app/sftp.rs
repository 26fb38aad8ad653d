//! The SFTP tab: connecting, browsing, running the queue, relaying between two
//! servers, and what the workers report.

use vstd::prelude::*;

use crate::app::effects::{Effect, EffectView};
use crate::app::state::{LinkView, RelayLeg, RelayView, SftpAnim, SftpRelay, WorkerLink};
use crate::app::{App, AppView, MotionView};
use crate::paths::{join, joined};
use crate::sftp::browser::{Phase, Progress, SftpView};
use crate::sftp::model::{
    clone_queue, CommandView, Direction, FileEntry, QueuedTransfer, SftpCommand, Side, TransferView,
};
use crate::text::{group_views, opt_view, views};

verus! {

broadcast use crate::text::group_views;

/// Whether a command sent over this link would arrive.
pub open spec fn reaches(link: Option<LinkView>) -> bool {
    link matches Some(link) && link.alive
}

/// The link after a command was sent over it.
pub open spec fn after_send(link: Option<LinkView>, command: CommandView) -> Option<LinkView> {
    match link {
        Some(link) => Some(link.sent(command)),
        None => None,
    }
}

/// The link once it is known whether its worker still listens. A worker that was
/// gone stays gone.
pub open spec fn after_look(link: Option<LinkView>, listens: bool) -> Option<LinkView> {
    match link {
        Some(link) => Some(LinkView { alive: link.alive && listens, ..link }),
        None => None,
    }
}

impl RelayView {
    /// The item that is across when the running leg ends.
    pub open spec fn carried(self) -> Option<TransferView> {
        if self.leg is Pushing && self.items.len() > 0 {
            Some(self.items[0])
        } else {
            None
        }
    }

    /// The relay after its running leg: the push follows the fetch, the next
    /// item's fetch follows the push.
    pub open spec fn advanced(self) -> RelayView {
        match self.leg {
            RelayLeg::Fetching => RelayView { leg: RelayLeg::Pushing, ..self },
            RelayLeg::Pushing => RelayView {
                leg: RelayLeg::Fetching,
                items: if self.items.len() > 0 {
                    self.items.drop_first()
                } else {
                    self.items
                },
                ..self
            },
        }
    }
}

impl SftpRelay {
    /// The running leg is over. Returns the item that is across, if one is.
    fn advance(&mut self) -> (r: Option<QueuedTransfer>)
        ensures
            final(self)@ == old(self)@.advanced(),
            opt_view(r) == old(self)@.carried(),
    {
        assert(self@.items.len() == self.items@.len());
        match self.leg {
            RelayLeg::Fetching => {
                self.leg = RelayLeg::Pushing;
                None
            },
            RelayLeg::Pushing => {
                self.leg = RelayLeg::Fetching;
                if self.items.len() == 0 {
                    None
                } else {
                    let first = self.items.remove(0);
                    assert(self@.items =~= old(self)@.items.drop_first());
                    Some(first)
                }
            },
        }
    }
}

fn send_over(link: &mut Option<WorkerLink>, command: SftpCommand) -> (r: bool)
    ensures
        opt_view(*final(link)) == after_send(opt_view(*old(link)), command@),
        r == reaches(opt_view(*old(link))),
{
    match link {
        Some(link) => link.send(command),
        None => false,
    }
}

fn look_at(link: &mut Option<WorkerLink>, listens: bool)
    ensures
        opt_view(*final(link)) == after_look(opt_view(*old(link)), listens),
{
    if let Some(link) = link {
        link.alive = link.alive && listens;
    }
}

impl AppView {
    /// It is known of both workers whether they still listen.
    pub open spec fn workers_known(self, right: bool, left: bool) -> AppView {
        AppView {
            sftp_tx: after_look(self.sftp_tx, right),
            sftp_tx2: after_look(self.sftp_tx2, left),
            ..self
        }
    }

    /// The browser says something, if there is one.
    pub open spec fn noted(self, notice: Seq<char>) -> AppView {
        AppView {
            sftp: match self.sftp {
                Some(s) => Some(s.noting(notice)),
                None => None,
            },
            ..self
        }
    }

    pub open spec fn left_remote(self) -> bool {
        self.sftp matches Some(s) && s.left_is_remote_spec()
    }

    /// The worker that owns a side. A left pane that shows the local file system
    /// needs none.
    pub open spec fn link_of(self, side: Side) -> Option<LinkView> {
        match side {
            Side::Remote => self.sftp_tx,
            Side::Local => if self.left_remote() {
                self.sftp_tx2
            } else {
                None
            },
        }
    }

    pub open spec fn right_sent(self, command: CommandView) -> AppView {
        AppView { sftp_tx: after_send(self.sftp_tx, command), ..self }
    }

    pub open spec fn left_sent(self, command: CommandView) -> AppView {
        AppView { sftp_tx2: after_send(self.sftp_tx2, command), ..self }
    }

    pub open spec fn sent_to(self, side: Side, command: CommandView) -> AppView {
        AppView {
            sftp_tx: if side is Remote {
                after_send(self.sftp_tx, command)
            } else {
                self.sftp_tx
            },
            sftp_tx2: if side is Local && self.left_remote() {
                after_send(self.sftp_tx2, command)
            } else {
                self.sftp_tx2
            },
            ..self
        }
    }

    pub open spec fn sliding(self, kind: SftpAnim) -> AppView {
        AppView {
            motion: MotionView {
                sftp_anim: if self.animates() {
                    Some((kind, self.motion.clock))
                } else {
                    self.motion.sftp_anim
                },
                ..self.motion
            },
            ..self
        }
    }

    /// A pane goes to another directory: by asking the worker that owns it, or
    /// by reading the local file system.
    pub open spec fn navigated(self, side: Side, path: Seq<char>) -> AppView {
        AppView {
            effects: if side is Local && !self.left_remote() {
                self.effects.push(EffectView::ListLocal(path))
            } else {
                self.effects
            },
            ..self.sent_to(side, CommandView::ListDir(Side::Remote, path))
        }
    }

    /// Both panes are listed afresh.
    #[verifier::opaque]
    pub open spec fn refreshed(self) -> AppView {
        match self.sftp {
            Some(s) => self.right_sent(
                CommandView::ListDir(Side::Remote, s.remote.cwd),
            ).navigated(Side::Local, s.local.cwd),
            None => self,
        }
    }

    /// A relay is given up: its scratch directory goes with it.
    pub open spec fn without_relay(self) -> AppView {
        AppView {
            sftp_relay: None,
            effects: match self.sftp_relay {
                Some(relay) => self.effects.push(EffectView::DropWorkspace(relay.tmp_dir)),
                None => self.effects,
            },
            ..self
        }
    }

    /// The run is stopped part-way: what has not moved stays queued, the
    /// completion that the worker still owes will be ignored, and both workers
    /// are told to stop.
    #[verifier::opaque]
    pub open spec fn relay_aborted(self, message: Seq<char>) -> AppView {
        let gone = self.without_relay();
        let told = AppView {
            sftp_swallow_done: if gone.sftp_swallow_done < usize::MAX {
                (gone.sftp_swallow_done + 1) as usize
            } else {
                gone.sftp_swallow_done
            },
            ..gone
        }.right_sent(CommandView::Cancel).left_sent(CommandView::Cancel);
        match told.sftp {
            Some(s) => AppView {
                sftp: Some(
                    SftpView { running: Seq::empty(), ..s.settled(Some(message)) },
                ),
                ..told
            },
            None => told,
        }
    }

    /// Every item is across.
    #[verifier::opaque]
    pub open spec fn relay_finished(self) -> AppView {
        let gone = self.without_relay();
        match gone.sftp {
            Some(s) => AppView {
                sftp: Some(SftpView { running: Seq::empty(), ..s.settled(s.notice) }),
                ..gone
            },
            None => gone,
        }.refreshed()
    }

    /// The side that the running leg of a relay works for.
    pub open spec fn leg_side(direction: Direction, leg: RelayLeg) -> Side {
        match (direction, leg) {
            (Direction::Download, RelayLeg::Fetching) => Side::Remote,
            (Direction::Download, RelayLeg::Pushing) => Side::Local,
            (Direction::Upload, RelayLeg::Fetching) => Side::Local,
            (Direction::Upload, RelayLeg::Pushing) => Side::Remote,
        }
    }

    /// The transfer of one leg: from the source into the scratch directory, then
    /// from there to the destination.
    pub open spec fn leg_transfer(
        item: TransferView,
        tmp_dir: Seq<char>,
        leg: RelayLeg,
    ) -> TransferView {
        let tmp = joined(tmp_dir, item.name);
        match leg {
            RelayLeg::Fetching => TransferView { direction: Direction::Download, dst: tmp, ..item },
            RelayLeg::Pushing => TransferView { direction: Direction::Upload, src: tmp, ..item },
        }
    }

    /// The relay goes on with the leg that is up.
    #[verifier::opaque]
    pub open spec fn relay_stepped(self) -> AppView {
        match self.sftp_relay {
            None => self,
            Some(relay) => if relay.items.len() == 0 {
                self.relay_finished()
            } else {
                let item = relay.items[0];
                let side = AppView::leg_side(item.direction, relay.leg);
                let run = CommandView::RunQueue(
                    seq![AppView::leg_transfer(item, relay.tmp_dir, relay.leg)],
                );
                if reaches(self.link_of(side)) {
                    self.sent_to(side, run)
                } else {
                    self.sent_to(side, run).relay_aborted("not connected — transfer stopped"@)
                }
            },
        }
    }

    /// A leg is over. An item that is across leaves the queue and the scratch
    /// directory.
    pub open spec fn leg_advanced(self) -> AppView {
        match self.sftp_relay {
            None => self,
            Some(relay) => {
                let on = AppView { sftp_relay: Some(relay.advanced()), ..self };
                match relay.carried() {
                    None => on,
                    Some(done) => AppView {
                        sftp: match self.sftp {
                            Some(s) => Some(s.transfer_over(done)),
                            None => None,
                        },
                        ..on.asking(
                            EffectView::RemoveScratch {
                                path: joined(relay.tmp_dir, done.name),
                                is_dir: done.is_dir,
                            },
                        )
                    },
                }
            },
        }
    }

    /// A worker finished its leg of a relay, and the relay goes on.
    #[verifier::opaque]
    pub open spec fn leg_done(self) -> AppView {
        self.leg_advanced().relay_stepped()
    }

    /// How far a relayed item is, in a notional thousand units: the fetch fills
    /// the first half, the push the second.
    pub open spec fn leg_progress(leg: RelayLeg, transferred: u64, size: u64) -> u64 {
        let within: int = if size == 0 {
            0
        } else if transferred >= size {
            500
        } else {
            500 * (transferred as int) / (size as int)
        };
        (within + if leg is Fetching {
            0int
        } else {
            500int
        }) as u64
    }

    #[verifier::opaque]
    pub open spec fn relay_progressed(self, transferred: u64, size: u64) -> AppView {
        match (self.sftp_relay, self.sftp) {
            (Some(relay), Some(s)) => AppView {
                sftp: Some(
                    SftpView {
                        progress: Some(
                            Progress {
                                index: if relay.items.len() <= relay.total {
                                    (relay.total - relay.items.len()) as usize
                                } else {
                                    0
                                },
                                total: relay.total,
                                transferred: AppView::leg_progress(relay.leg, transferred, size),
                                size: 1000,
                            },
                        ),
                        ..s
                    },
                ),
                ..self
            },
            _ => self,
        }
    }

    /// The queue is run, unless it is empty or a run is on. Between two servers
    /// it is relayed, for which a scratch directory is asked for first.
    #[verifier::opaque]
    pub open spec fn queue_run(self) -> AppView {
        match self.sftp {
            Some(s) => if s.phase is Running || s.queue.len() == 0 {
                self
            } else {
                let fresh = AppView { sftp_run_failed: false, ..self };
                if s.left_is_remote_spec() {
                    fresh.asking(EffectView::MakeRelayWorkspace)
                } else if reaches(self.sftp_tx) {
                    AppView {
                        sftp: Some(
                            SftpView {
                                phase: Phase::Running,
                                progress: None,
                                running: s.queue,
                                ..s
                            },
                        ),
                        ..fresh.right_sent(CommandView::RunQueue(s.queue))
                    }
                } else {
                    fresh
                }
            },
            None => self,
        }
    }

    /// The scratch directory of a relay is there: the relay starts.
    pub open spec fn relay_started(self, workspace: Result<Seq<char>, Seq<char>>) -> AppView {
        match (self.sftp, workspace) {
            (Some(s), Err(e)) => self.noted("no scratch space for the relay: "@ + e),
            (Some(s), Ok(tmp_dir)) => AppView {
                sftp: Some(
                    SftpView { phase: Phase::Running, progress: None, running: s.queue, ..s },
                ),
                sftp_relay: Some(
                    RelayView {
                        total: s.queue.len() as usize,
                        items: s.queue,
                        tmp_dir,
                        leg: RelayLeg::Fetching,
                    },
                ),
                ..self
            }.relay_stepped(),
            (None, Ok(tmp_dir)) => self.asking(EffectView::DropWorkspace(tmp_dir)),
            (None, Err(_)) => self,
        }
    }
}

impl App {
    pub(crate) fn note(&mut self, notice: String)
        ensures
            final(self)@ == old(self)@.noted(notice@),
    {
        if let Some(s) = &mut self.sftp {
            s.set_notice(notice);
        }
    }

    pub(crate) fn left_is_remote(&self) -> (r: bool)
        ensures
            r == self@.left_remote(),
    {
        match &self.sftp {
            Some(s) => s.left_is_remote(),
            None => false,
        }
    }

    /// Take note of whether the workers still listen. What is decided after this
    /// takes no command to a worker that is gone for sent.
    pub fn workers_seen(&mut self, right: bool, left: bool)
        ensures
            final(self)@ == old(self)@.workers_known(right, left),
    {
        look_at(&mut self.sftp_tx, right);
        look_at(&mut self.sftp_tx2, left);
    }

    pub(crate) fn send_right(&mut self, command: SftpCommand) -> (r: bool)
        ensures
            final(self)@ == old(self)@.right_sent(command@),
            r == reaches(old(self)@.sftp_tx),
    {
        send_over(&mut self.sftp_tx, command)
    }

    pub(crate) fn send_left(&mut self, command: SftpCommand) -> (r: bool)
        ensures
            final(self)@ == old(self)@.left_sent(command@),
            r == reaches(old(self)@.sftp_tx2),
    {
        send_over(&mut self.sftp_tx2, command)
    }

    /// Whether `side` has a worker.
    pub(crate) fn has_channel(&self, side: Side) -> (r: bool)
        ensures
            r == (self@.link_of(side) is Some),
    {
        match side {
            Side::Remote => self.sftp_tx.is_some(),
            Side::Local => self.left_is_remote() && self.sftp_tx2.is_some(),
        }
    }

    /// Send a command to the worker that owns `side`.
    pub(crate) fn send_to(&mut self, side: Side, command: SftpCommand) -> (r: bool)
        ensures
            final(self)@ == old(self)@.sent_to(side, command@),
            r == reaches(old(self)@.link_of(side)),
    {
        match side {
            Side::Remote => self.send_right(command),
            Side::Local => {
                if self.left_is_remote() {
                    self.send_left(command)
                } else {
                    false
                }
            },
        }
    }

    /// Arm an SFTP tab slide. Under reduced motion each state simply appears.
    pub(crate) fn stamp_sftp_anim(&mut self, kind: SftpAnim)
        ensures
            final(self)@ == old(self)@.sliding(kind),
    {
        if self.motion_enabled() {
            self.motion.sftp_anim = Some((kind, self.motion.clock));
        }
    }

    /// Navigate a pane into `path`.
    pub fn sftp_navigate(&mut self, side: Side, path: String)
        ensures
            final(self)@ == old(self)@.navigated(side, path@),
    {
        match side {
            Side::Remote => {
                let _ = self.send_right(SftpCommand::ListDir(Side::Remote, path));
            },
            Side::Local => {
                if self.left_is_remote() {
                    let _ = self.send_left(SftpCommand::ListDir(Side::Remote, path));
                } else {
                    self.ask(Effect::ListLocal(path));
                }
            },
        }
    }

    /// A local directory was read.
    pub fn sftp_local_listed(&mut self, path: String, entries: Vec<FileEntry>)
        ensures
            final(self)@ == match old(self)@.sftp {
                Some(s) => AppView {
                    sftp: Some(
                        SftpView { local: s.local.moved_to(path@, views(entries@)), ..s },
                    ),
                    ..old(self)@
                },
                None => old(self)@,
            },
    {
        if let Some(s) = &mut self.sftp {
            s.local.cwd = path;
            s.local.set_entries(entries);
        }
    }

    /// Re-list both panes.
    pub fn sftp_refresh_panes(&mut self)
        ensures
            final(self)@ == old(self)@.refreshed(),
    {
        reveal(AppView::refreshed);

        let (remote_cwd, local_cwd) = match &self.sftp {
            Some(s) => (s.remote.cwd.clone(), s.local.cwd.clone()),
            None => {
                return;
            },
        };
        let _ = self.send_right(SftpCommand::ListDir(Side::Remote, remote_cwd));
        self.sftp_navigate(Side::Local, local_cwd);
    }

    pub(crate) fn drop_relay(&mut self)
        ensures
            final(self)@ == old(self)@.without_relay(),
    {
        let tmp_dir = match &self.sftp_relay {
            Some(relay) => relay.tmp_dir.clone(),
            None => {
                return;
            },
        };
        self.sftp_relay = None;
        self.ask(Effect::DropWorkspace(tmp_dir));
    }

    /// Stop a relay part-way with a notice, leaving whatever hasn't moved in
    /// the queue so it can be retried.
    pub fn sftp_relay_abort(&mut self, message: String)
        ensures
            final(self)@ == old(self)@.relay_aborted(message@),
    {
        reveal(AppView::relay_aborted);

        self.drop_relay();
        if self.sftp_swallow_done < usize::MAX {
            self.sftp_swallow_done = self.sftp_swallow_done + 1;
        }
        let _ = self.send_right(SftpCommand::Cancel);
        let _ = self.send_left(SftpCommand::Cancel);
        if let Some(s) = &mut self.sftp {
            s.settle(Some(message));
            s.running = Vec::new();
        }
    }

    /// Every item is across: settle the browser.
    fn sftp_relay_finish(&mut self)
        ensures
            final(self)@ == old(self)@.relay_finished(),
    {
        reveal(AppView::relay_finished);

        self.drop_relay();
        if let Some(s) = &mut self.sftp {
            s.phase = Phase::Browsing;
            s.progress = None;
            s.running = Vec::new();
        }
        self.sftp_refresh_panes();
    }

    /// Start, or continue, relaying server-to-server transfers, one leg at a
    /// time.
    pub fn sftp_relay_step(&mut self)
        ensures
            final(self)@ == old(self)@.relay_stepped(),
    {
        reveal(AppView::relay_stepped);

        let (side, transfer) = match &self.sftp_relay {
            None => {
                return;
            },
            Some(relay) => {
                if relay.items.len() == 0 {
                    self.sftp_relay_finish();
                    return;
                }
                let item = &relay.items[0];
                assert(relay@.items[0] == item@);
                let tmp = join(relay.tmp_dir.as_str(), item.name.as_str());
                match relay.leg {
                    RelayLeg::Fetching => (
                        match item.direction {
                            Direction::Download => Side::Remote,
                            Direction::Upload => Side::Local,
                        },
                        QueuedTransfer {
                            direction: Direction::Download,
                            src: item.src.clone(),
                            dst: tmp,
                            name: item.name.clone(),
                            is_dir: item.is_dir,
                        },
                    ),
                    RelayLeg::Pushing => (
                        match item.direction {
                            Direction::Download => Side::Local,
                            Direction::Upload => Side::Remote,
                        },
                        QueuedTransfer {
                            direction: Direction::Upload,
                            src: tmp,
                            dst: item.dst.clone(),
                            name: item.name.clone(),
                            is_dir: item.is_dir,
                        },
                    ),
                }
            },
        };
        let mut run: Vec<QueuedTransfer> = Vec::new();
        run.push(transfer);
        assert(views(run@) =~= seq![transfer@]);
        if !self.send_to(side, SftpCommand::RunQueue(run)) {
            self.sftp_relay_abort("not connected — transfer stopped".to_owned());
        }
    }

    fn advance_relay(&mut self)
        ensures
            final(self)@ == old(self)@.leg_advanced(),
    {
        let (carried, tmp_dir) = match &mut self.sftp_relay {
            None => {
                return;
            },
            Some(relay) => (relay.advance(), relay.tmp_dir.clone()),
        };
        if let Some(done) = carried {
            if let Some(s) = &mut self.sftp {
                s.finish_transfer(&done);
            }
            let path = join(tmp_dir.as_str(), done.name.as_str());
            self.ask(Effect::RemoveScratch { path, is_dir: done.is_dir });
        }
    }

    /// Fold a worker's `QueueDone` into the relay. Returns whether there was
    /// one.
    pub fn sftp_relay_queue_done(&mut self) -> (r: bool)
        ensures
            final(self)@ == old(self)@.leg_done(),
            r == (old(self)@.sftp_relay is Some),
    {
        reveal(AppView::leg_done);

        let relaying = self.sftp_relay.is_some();
        self.advance_relay();
        self.sftp_relay_step();
        relaying
    }

    /// Report a relay leg's progress against the whole item.
    pub fn sftp_relay_progress(&mut self, transferred: u64, size: u64)
        ensures
            final(self)@ == old(self)@.relay_progressed(transferred, size),
    {
        reveal(AppView::relay_progressed);

        let (index, total, leg) = match &self.sftp_relay {
            Some(relay) => {
                assert(relay@.items.len() == relay.items@.len());
                let left: usize = relay.items.len();
                let index: usize = if left <= relay.total {
                    relay.total - left
                } else {
                    0
                };
                (index, relay.total, relay.leg)
            },
            None => {
                return;
            },
        };
        let done: u64 = relay_units(leg, transferred, size);
        if let Some(s) = &mut self.sftp {
            s.progress = Some(Progress { index, total, transferred: done, size: 1000 });
        }
    }

    /// Run the staged transfers.
    pub fn sftp_run_queue(&mut self)
        ensures
            final(self)@ == old(self)@.queue_run(),
    {
        reveal(AppView::queue_run);

        let (queue, relayed) = match &self.sftp {
            Some(s) => {
                assert(s@.queue.len() == s.queue@.len());
                let running = match s.phase {
                    Phase::Running => true,
                    Phase::Browsing => false,
                };
                if running || s.queue.len() == 0 {
                    return;
                }
                (clone_queue(&s.queue), s.left_is_remote())
            },
            None => {
                return;
            },
        };
        self.sftp_run_failed = false;
        if relayed {
            self.ask(Effect::MakeRelayWorkspace);
            return;
        }
        let sent = clone_queue(&queue);
        if self.send_right(SftpCommand::RunQueue(sent)) {
            if let Some(s) = &mut self.sftp {
                s.phase = Phase::Running;
                s.progress = None;
                s.running = queue;
            }
        } else {
            assert(self@ == (AppView { sftp_run_failed: false, ..old(self)@ }));
        }
    }

    /// The scratch directory of a relay was created, or could not be.
    pub fn sftp_relay_workspace(&mut self, workspace: Result<String, String>)
        ensures
            final(self)@ == old(self)@.relay_started(
                match workspace {
                    Ok(path) => Ok(path@),
                    Err(e) => Err(e@),
                },
            ),
    {
        match workspace {
            Err(e) => {
                self.note(crate::text::cat2("no scratch space for the relay: ", e.as_str()));
            },
            Ok(tmp_dir) => {
                match &mut self.sftp {
                    Some(s) => {
                        assert(s@.queue.len() == s.queue@.len());
                        let items = clone_queue(&s.queue);
                        s.phase = Phase::Running;
                        s.progress = None;
                        s.running = clone_queue(&items);
                        self.sftp_relay = Some(
                            SftpRelay {
                                total: items.len(),
                                items,
                                tmp_dir,
                                leg: RelayLeg::Fetching,
                            },
                        );
                        self.sftp_relay_step();
                    },
                    None => {
                        self.ask(Effect::DropWorkspace(tmp_dir));
                    },
                }
            },
        }
    }
}

fn relay_units(leg: RelayLeg, transferred: u64, size: u64) -> (r: u64)
    ensures
        r == AppView::leg_progress(leg, transferred, size),
{
    let within: u64 = if size == 0 {
        0
    } else if transferred >= size {
        500
    } else {
        let part: u128 = 500 * (transferred as u128) / (size as u128);
        assert(500 * (transferred as int) / (size as int) <= 500) by (nonlinear_arith)
            requires
                0 < size,
                transferred < size,
        ;
        part as u64
    };
    match leg {
        RelayLeg::Fetching => within,
        RelayLeg::Pushing => within + 500,
    }
}

} // verus!
