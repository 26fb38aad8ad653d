//! How a run starts, ends and keeps time.

use vstd::prelude::*;

use crate::app::state::AppMode;
use crate::app::{App, AppView};
use crate::hosts::clone_text;
use crate::app::dashboard::HostsKey;
use crate::keybinds::{KeyAction, KeyCode, KeyEvent, KeyModifiers};
use crate::text::{cat2, cat3, cat5, opt_view, same, views};

verus! {

broadcast use crate::text::group_views;

/// What the surroundings say of a run. Each setting also counts under its former
/// name.
#[derive(Debug, PartialEq, Eq)]
pub struct StartEnv {
    pub dry_run: bool,
    pub former_dry_run: bool,
    pub auto_quit: Option<String>,
    pub former_auto_quit: Option<String>,
    pub is_terminal: bool,
}

/// What a run comes to.
#[derive(Debug, PartialEq, Eq)]
pub enum Launch {
    /// A dry run does nothing.
    Nothing,
    /// The application runs. Only an interactive run may ask which profile to
    /// open.
    Application { auto_quit: Option<String>, interactive: bool },
}

impl StartEnv {
    /// The automatic end that was asked for.
    pub open spec fn quits(self) -> Option<String> {
        if self.auto_quit is Some {
            self.auto_quit
        } else {
            self.former_auto_quit
        }
    }

    pub open spec fn application(self) -> Launch {
        Launch::Application {
            auto_quit: self.quits(),
            interactive: self.is_terminal && self.quits() is None,
        }
    }
}

/// Decide what a run comes to.
pub fn run(env: &StartEnv) -> (r: Launch)
    ensures
        r == if env.dry_run || env.former_dry_run {
            Launch::Nothing
        } else {
            env.application()
        },
{
    if env.dry_run || env.former_dry_run {
        Launch::Nothing
    } else {
        run_app(env)
    }
}

/// Decide how the application runs.
pub fn run_app(env: &StartEnv) -> (r: Launch)
    ensures
        r == env.application(),
{
    let auto_quit = match &env.auto_quit {
        Some(mode) => Some(mode.clone()),
        None => clone_text(&env.former_auto_quit),
    };
    let interactive = env.is_terminal && auto_quit.is_none();
    Launch::Application { auto_quit, interactive }
}

/// Whether the intro animation plays before the dashboard.
pub fn plays_intro(splash_done: bool, auto_quit: bool, disable_animation: bool) -> (r: bool)
    ensures
        r == (!splash_done && !auto_quit && !disable_animation),
{
    !splash_done && !auto_quit && !disable_animation
}

/// Whether a key ends the intro animation.
pub fn dismisses_intro(key: &KeyEvent) -> (r: bool)
    ensures
        r == (key.code == KeyCode::Enter || key.code == KeyCode::Esc || key.code == KeyCode::Char(
            ' ',
        ) || key.code == KeyCode::Char('q')),
{
    match key.code {
        KeyCode::Enter | KeyCode::Esc => true,
        KeyCode::Char(c) => c == ' ' || c == 'q',
        _ => false,
    }
}

/// A plain character key.
pub open spec fn plain_key(c: char) -> KeyEvent {
    KeyEvent { code: KeyCode::Char(c), modifiers: KeyModifiers::none() }
}

impl AppView {
    /// `q` is pressed, and a question about quitting is answered with `y`.
    pub open spec fn auto_quit(self) -> AppView {
        let asked = self.key_handled(plain_key('q'));
        if asked.mode is ConfirmQuit {
            asked.key_handled(plain_key('y'))
        } else {
            asked
        }
    }

    /// The shown session has produced output: cancelling the connection is no
    /// longer what Esc does.
    pub open spec fn session_promoted(self, running: bool) -> AppView {
        let shown = match self.active_session {
            Some(active) => active < self.sessions.len(),
            None => false,
        };
        if running && self.mode is Connecting && shown {
            self.in_mode(AppMode::Session)
        } else {
            self
        }
    }
}

/// End the application on its own, the way a user would.
pub fn apply_auto_quit(app: &mut App, auto_quit: Option<&str>) -> (r: Result<(), String>)
    ensures
        match auto_quit {
            Some(mode) => if mode@ == "q"@ {
                final(app)@ == old(app)@.auto_quit() && (r is Ok <==> final(app)@.should_quit)
            } else {
                final(app)@ == old(app)@ && r is Ok
            },
            None => final(app)@ == old(app)@ && r is Ok,
        },
        r matches Err(e) ==> e@ == "auto-quit with 'q' did not set should_quit"@,
{
    let quits = match auto_quit {
        Some(mode) => same(mode, "q"),
        None => false,
    };
    if quits {
        app.handle_key(KeyEvent::new(KeyCode::Char('q'), KeyModifiers::empty()));
        if app.mode == AppMode::ConfirmQuit {
            app.handle_key(KeyEvent::new(KeyCode::Char('y'), KeyModifiers::empty()));
        }
        if !app.should_quit {
            return Err("auto-quit with 'q' did not set should_quit".to_owned());
        }
    }
    Ok(())
}

/// Why a run without a terminal is refused.
pub open spec fn no_terminal() -> Seq<char> {
    "sshub requires an interactive terminal "@
        + "(use --dry-run or SSHUB_AUTO_QUIT for CI smoke)"@
}

/// What a run without a terminal does once it has drawn its one frame.
pub fn run_headless(app: &mut App, auto_quit: Option<&str>) -> (r: Result<(), String>)
    ensures
        match auto_quit {
            Some(mode) => if mode@ == "q"@ {
                final(app)@ == old(app)@.auto_quit() && (r is Ok <==> final(app)@.should_quit)
            } else {
                final(app)@ == old(app)@ && r is Ok
            },
            None => final(app)@ == old(app)@ && r is Err,
        },
        r matches Err(e) ==> e@ == if auto_quit is Some {
            "auto-quit with 'q' did not set should_quit"@
        } else {
            no_terminal()
        },
{
    if auto_quit.is_none() {
        return Err(
            cat2(
                "sshub requires an interactive terminal ",
                "(use --dry-run or SSHUB_AUTO_QUIT for CI smoke)",
            ),
        );
    }
    apply_auto_quit(app, auto_quit)
}

impl App {
    /// Promote the mode once the child of the visible session runs.
    pub fn promote_session(&mut self, running: bool)
        ensures
            final(self)@ == old(self)@.session_promoted(running),
    {
        if let Some(active) = self.active_session {
            if running && self.mode == AppMode::Connecting && active < self.sessions.len() {
                self.mode = AppMode::Session;
            }
        }
    }
}

/// How long to wait for a key, in milliseconds: a frame of a smooth animation,
/// or longer when nothing moves.
pub fn poll_window(animating: bool) -> (r: u64)
    ensures
        r == if animating {
            16u64
        } else {
            50u64
        },
{
    if animating {
        16
    } else {
        50
    }
}

/// The database file and the files that the database keeps beside it.
pub open spec fn database_files_of(base: Seq<char>) -> Seq<Seq<char>> {
    seq![base, base + "-wal"@, base + "-shm"@, base + "-journal"@]
}

/// The files that a purge removes, where they exist.
pub fn database_files(base: &str) -> (r: Vec<String>)
    ensures
        views(r@) == database_files_of(base@),
{
    let mut files: Vec<String> = Vec::new();
    files.push(base.to_owned());
    files.push(cat2(base, "-wal"));
    files.push(cat2(base, "-shm"));
    files.push(cat2(base, "-journal"));
    assert(views(files@) =~= database_files_of(base@));
    files
}

/// How many samples of a host's latency are kept.
pub const PING_HISTORY: usize = 30;

/// The last samples, as many as are kept.
pub open spec fn kept_samples(history: Seq<Option<u64>>) -> Seq<Option<u64>> {
    if history.len() > PING_HISTORY {
        history.drop_first()
    } else {
        history
    }
}

/// The history after one more sample; `None` is a host that did not answer. A
/// host that answers again starts over.
pub open spec fn with_sample(
    history: Seq<Option<u64>>,
    sample: Option<u64>,
) -> Seq<Option<u64>> {
    if sample is Some && history.len() > 0 && history.last() is None {
        seq![sample]
    } else {
        kept_samples(history.push(sample))
    }
}

/// Record a sample.
pub fn record_ping(history: &mut Vec<Option<u64>>, sample: Option<u64>)
    ensures
        final(history)@ == with_sample(old(history)@, sample),
{
    let n: usize = history.len();
    if n > 0 && sample.is_some() && history[n - 1].is_none() {
        history.clear();
        history.push(sample);
        assert(history@ =~= seq![sample]);
        return;
    }
    history.push(sample);
    if history.len() > PING_HISTORY {
        let _ = history.remove(0);
        assert(history@ =~= old(history)@.push(sample).drop_first());
    }
}

/// The history of a host stays bounded, and its last sample is the latest.
pub proof fn ping_history_is_bounded(history: Seq<Option<u64>>, sample: Option<u64>)
    requires
        history.len() <= PING_HISTORY,
    ensures
        with_sample(history, sample).len() <= PING_HISTORY,
        with_sample(history, sample).last() == sample,
{
}

/// What the audit log says of a key push that ended.
pub open spec fn push_note(identity: Seq<char>, status: Seq<char>) -> (Seq<char>, Seq<char>) {
    if status == "success"@ {
        ("ok"@, "pushed public key '"@ + identity + "' to host"@)
    } else {
        (
            "fail"@,
            "failed to push public key '"@ + identity + "' to host ("@ + status + ")"@,
        )
    }
}

/// The status and note of a key push that ended, for the audit log.
pub fn key_push_event(identity: &str, status: &str) -> (r: (String, String))
    ensures
        (r.0@, r.1@) == push_note(identity@, status@),
{
    if same(status, "success") {
        ("ok".to_owned(), cat3("pushed public key '", identity, "' to host"))
    } else {
        (
            "fail".to_owned(),
            cat5("failed to push public key '", identity, "' to host (", status, ")"),
        )
    }
}

/// What one frame of output says of a session: whether it has just logged in,
/// whether its end has been taken note of, and how the key push that it was ended,
/// if that is to be told now. It is told once; without an exit status it failed.
pub fn session_news(
    was_connected: bool,
    connected: bool,
    ended: bool,
    logged_exit: bool,
    key_push: bool,
    exit: Option<String>,
) -> (r: (bool, bool, Option<String>))
    ensures
        r.0 == (connected && !was_connected),
        r.1 == (logged_exit || ended),
        opt_view(r.2) == if ended && !logged_exit && key_push {
            Some(
                match exit {
                    Some(status) => status@,
                    None => "fail"@,
                },
            )
        } else {
            None
        },
{
    let push = if ended && !logged_exit && key_push {
        match exit {
            Some(status) => Some(status),
            None => Some("fail".to_owned()),
        }
    } else {
        None
    };
    (connected && !was_connected, logged_exit || ended, push)
}

/// A key that quits and does nothing that comes before quitting quits.
proof fn lemma_quit_key(app: AppView, key: KeyEvent)
    requires
        app.hits(KeyAction::Quit, key),
        !app.hits(KeyAction::Broadcast, key),
        !app.hits(KeyAction::BroadcastCancel, key),
        app.tab_switched(key) is None,
    ensures
        app.normal_key(key) == (AppView { host_notice: None, ..app }).quit_requested(),
{
    reveal(AppView::normal_key);
    let quiet = AppView { host_notice: None, ..app };
    assert(quiet.tab_switched(key) is None);
    assert(quiet.hosts_key(key) == HostsKey::Quit);
    assert(quiet.hosts_key_done(HostsKey::Quit) == quiet.quit_requested());
}

/// With `q` bound to quitting and `y` to yes, an automatic quit from the
/// dashboard quits, whether or not quitting is confirmed.
pub proof fn auto_quit_quits(app: AppView)
    requires
        app.mode is Normal,
        app.active_tab == 0,
        app.hits(KeyAction::Quit, plain_key('q')),
        !app.hits(KeyAction::Broadcast, plain_key('q')),
        !app.hits(KeyAction::BroadcastCancel, plain_key('q')),
        app.tab_switched(plain_key('q')) is None,
        app.global_key(plain_key('q')) is None,
        app.hits(KeyAction::ConfirmYes, plain_key('y')),
        !app.hits(KeyAction::ForceQuit, plain_key('y')),
    ensures
        app.auto_quit().should_quit,
{
    lemma_quit_key(app, plain_key('q'));
    let asked = app.key_handled(plain_key('q'));
    assert(asked == (AppView { host_notice: None, ..app }).quit_requested());
    reveal(AppView::quit_requested);
    reveal(AppView::confirm_quit_key);
    if asked.mode is ConfirmQuit {
        assert(asked.key_handled(plain_key('y')) == asked.confirm_quit_key(plain_key('y')));
    }
}

} // verus!
