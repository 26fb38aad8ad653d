//! Pushing a public key into the authorized keys of a host.

use vstd::prelude::*;

use crate::app::connect::{identity_key, identity_key_spec, login, login_of};
use crate::app::editor_command::{
    command_words, lemma_read_append, lemma_read_escaped, lemma_read_one, quoted, shell_escaped,
    EditorCommandError, Reading,
};
use crate::app::effects::{Effect, EffectView, Task};
use crate::app::nav::{around, wrapped};
use crate::app::state::{
    AppMode, HostPickerView, LogLevel, LogView, PushKeyHostPicker, SessionInfo, SessionView,
    SshLogEntry,
};
use crate::app::{App, AppView};
use crate::hosts::{clone_text, HostEntry, Identity};
use crate::keybinds::{KeyCode, KeyEvent};
use crate::text::{cat2, cat3, chars_of, control, is_control, opt_view, same, views};

verus! {

broadcast use crate::text::group_views;

/// The command that adds a key to the authorized keys, unless it is there.
pub open spec fn push_command(key: Seq<char>) -> Seq<char> {
    "umask 077 && mkdir -p ~/.ssh && touch ~/.ssh/authorized_keys && key="@ + quoted(key)
        + " && (grep -qxF \"$key\" ~/.ssh/authorized_keys || echo \"$key\" >> ~/.ssh/authorized_keys)"@
}

/// A key in the push command is one word for the shell, and that word is the
/// key, whatever characters it holds.
pub proof fn pushed_key_is_read_back(key: Seq<char>)
    ensures
        command_words(quoted(key)) == Ok::<Seq<Seq<char>>, EditorCommandError>(
            seq![key],
        ),
{
    let blank = Reading::blank(Seq::empty());
    let body = shell_escaped(key);
    lemma_read_append(blank, seq!['\''] + body, seq!['\'']);
    lemma_read_append(blank, seq!['\''], body);
    lemma_read_one(blank, '\'');
    let opened = blank.step('\'');
    lemma_read_escaped(opened, key);
    let full = opened.read(body);
    lemma_read_one(full, '\'');
    assert(opened.word + key =~= key);
    assert(Seq::<Seq<char>>::empty().push(key) =~= seq![key]);
}

fn escape_for_shell(text: &str) -> (r: String)
    ensures
        r@ == shell_escaped(text@),
{
    let v = chars_of(text);
    let mut out = String::new();
    let mut i: usize = 0;
    assert(text@.take(0) =~= Seq::empty());
    assert(out@ =~= Seq::empty());
    while i < v.len()
        invariant
            v@ == text@,
            i <= v@.len(),
            out@ == shell_escaped(text@.take(i as int)),
        decreases v@.len() - i,
    {
        assert(text@.take(i + 1).drop_last() =~= text@.take(i as int));
        let ghost before = out@;
        if v[i] == '\'' {
            out.push('\'');
            out.push('\\');
            out.push('\'');
            out.push('\'');
            assert(out@ =~= before + seq!['\'', '\\', '\'', '\'']);
        } else {
            out.push(v[i]);
            assert(out@ =~= before + seq![v@[i as int]]);
        }
        i = i + 1;
    }
    assert(text@.take(v@.len() as int) =~= text@);
    out
}

fn make_push_command(key: &str) -> (r: String)
    ensures
        r@ == push_command(key@),
{
    let body = escape_for_shell(key);
    let mut word = String::new();
    word.push('\'');
    word = cat2(word.as_str(), body.as_str());
    word.push('\'');
    assert(word@ =~= quoted(key@));
    cat3(
        "umask 077 && mkdir -p ~/.ssh && touch ~/.ssh/authorized_keys && key=",
        word.as_str(),
        " && (grep -qxF \"$key\" ~/.ssh/authorized_keys || echo \"$key\" >> ~/.ssh/authorized_keys)",
    )
}

/// The identities that have a key, among the first `n`, by position.
pub open spec fn keyed_to(identities: Seq<Identity>, n: nat) -> Seq<usize>
    decreases n,
{
    if n == 0 || n > identities.len() {
        Seq::empty()
    } else {
        let before = keyed_to(identities, (n - 1) as nat);
        if identities[n - 1].private_key is Some {
            before.push((n - 1) as usize)
        } else {
            before
        }
    }
}

/// The positions of the identities that have a key.
pub open spec fn keyed(identities: Seq<Identity>) -> Seq<usize> {
    keyed_to(identities, identities.len())
}

/// The positions `0..n`.
pub open spec fn first_positions(n: nat) -> Seq<usize> {
    Seq::new(n, |i: int| i as usize)
}

pub(crate) fn positions(n: usize) -> (r: Vec<usize>)
    ensures
        r@ == first_positions(n as nat),
{
    let mut out: Vec<usize> = Vec::new();
    let mut i: usize = 0;
    while i < n
        invariant
            i <= n,
            out@ == first_positions(i as nat),
        decreases n - i,
    {
        out.push(i);
        i = i + 1;
        assert(out@ =~= first_positions(i as nat));
    }
    out
}

/// The command line with what a push adds to `ssh`: a log of the connection and,
/// with a stored secret, trust in a new host key.
pub open spec fn push_argv(argv: Seq<Seq<char>>, has_secret: bool) -> Seq<Seq<char>> {
    if argv.len() > 0 && argv[0] == "ssh"@ {
        if has_secret {
            seq!["ssh"@, "-o"@, "StrictHostKeyChecking=accept-new"@, "-v"@] + argv.skip(1)
        } else {
            seq!["ssh"@, "-v"@] + argv.skip(1)
        }
    } else {
        argv
    }
}

/// Texts with a blank between them.
pub open spec fn spaced(texts: Seq<Seq<char>>) -> Seq<char>
    decreases texts.len(),
{
    if texts.len() == 0 {
        Seq::empty()
    } else if texts.len() == 1 {
        texts[0]
    } else {
        spaced(texts.drop_last()) + " "@ + texts.last()
    }
}

pub open spec fn at_least(n: u16, least: u16) -> u16 {
    if n < least {
        least
    } else {
        n
    }
}

/// How a host is reached, for the audit log.
pub open spec fn via_of(entry: HostEntry) -> Seq<char> {
    match entry.managed_spec() {
        Some(m) => match m.proxy_jump {
            Some(jump) => jump@,
            None => "direct"@,
        },
        None => "direct"@,
    }
}

/// Whom a host is logged in to as, for the audit log.
pub open spec fn user_of(entry: HostEntry) -> Option<Seq<char>> {
    match entry.managed_spec() {
        Some(m) => opt_view(login_of(m)),
        None => None,
    }
}

/// The user name of a host itself, for the audit log.
pub open spec fn own_user_of(entry: HostEntry) -> Option<Seq<char>> {
    match entry.managed_spec() {
        Some(m) => opt_view(m.username),
        None => None,
    }
}

/// Those of the positions that are below `n`.
pub open spec fn positions_below(all: Seq<usize>, n: nat) -> Seq<usize>
    decreases all.len(),
{
    if all.len() == 0 {
        Seq::empty()
    } else {
        let before = positions_below(all.drop_last(), n);
        if all.last() < n {
            before.push(all.last())
        } else {
            before
        }
    }
}

fn keep_below(all: &Vec<usize>, n: usize) -> (r: Vec<usize>)
    ensures
        r@ == positions_below(all@, n as nat),
        forall|i: int| 0 <= i < r@.len() ==> (#[trigger] r@[i]) < n,
{
    let mut out: Vec<usize> = Vec::new();
    let mut i: usize = 0;
    assert(all@.take(0) =~= Seq::empty());
    while i < all.len()
        invariant
            i <= all@.len(),
            out@ == positions_below(all@.take(i as int), n as nat),
            forall|k: int| 0 <= k < out@.len() ==> (#[trigger] out@[k]) < n,
        decreases all@.len() - i,
    {
        assert(all@.take(i + 1).drop_last() =~= all@.take(i as int));
        if all[i] < n {
            out.push(all[i]);
        }
        i = i + 1;
    }
    assert(all@.take(all@.len() as int) =~= all@);
    out
}

impl HostPickerView {
    pub open spec fn searching(self, query: Seq<char>) -> HostPickerView {
        HostPickerView { query, selected: 0, ..self }
    }

    pub open spec fn shortened(self) -> Seq<char> {
        if self.query.len() > 0 {
            self.query.drop_last()
        } else {
            self.query
        }
    }
}

impl AppView {
    pub open spec fn identity_notifying(self, notice: Seq<char>) -> AppView {
        AppView { identity_notice: Some(notice), ..self }
    }

    /// A key is to be pushed to the selected host.
    #[verifier::opaque]
    pub open spec fn push_from_hosts(self) -> AppView {
        if self.selected_host() is None {
            self.notifying("Select a host row first — a group header has no key target."@)
        } else {
            self.doing(Task::LoadPushIdentities)
        }
    }

    /// The identities are there to choose from.
    pub open spec fn push_identities_taken(self, identities: Seq<Identity>) -> AppView {
        let loaded = AppView { identities, ..self };
        if keyed(identities).len() == 0 {
            loaded.notifying("No key identities available — generate or add one first."@)
        } else {
            AppView {
                push_key_identity_picker: Some(0),
                mode: AppMode::PushKeyIdentityPicker,
                ..loaded
            }
        }
    }

    /// The selected identity.
    pub open spec fn chosen_identity(self) -> Option<Identity> {
        if self.identity_selected < self.identities.len() {
            Some(self.identities[self.identity_selected as int])
        } else {
            None
        }
    }

    /// The selected key is to be pushed to some host.
    #[verifier::opaque]
    pub open spec fn push_from_keys(self) -> AppView {
        match self.chosen_identity() {
            None => self.identity_notifying("No identity selected."@),
            Some(identity) => if identity.private_key is None {
                self.identity_notifying("Cannot push a password-only identity."@)
            } else {
                AppView {
                    push_key_host_picker: Some(
                        HostPickerView {
                            query: Seq::empty(),
                            selected: 0,
                            matches: Seq::empty(),
                        },
                    ),
                    mode: AppMode::PushKeyHostPicker,
                    ..self
                }
            },
        }
    }

    pub open spec fn identity_picker_closed(self) -> AppView {
        AppView { push_key_identity_picker: None, mode: AppMode::Normal, ..self }
    }

    pub open spec fn host_picker_closed(self) -> AppView {
        AppView { push_key_host_picker: None, mode: AppMode::Normal, ..self }
    }

    /// The identity picker moves round.
    pub open spec fn identity_picker_moved(self, delta: int) -> AppView {
        let count = keyed(self.identities).len();
        AppView {
            push_key_identity_picker: match self.push_key_identity_picker {
                Some(at) => if count > 0 {
                    Some(around(at as int, delta, count as int) as usize)
                } else {
                    Some(at)
                },
                None => None,
            },
            ..self
        }
    }

    /// The picked identity.
    pub open spec fn picked_identity(self) -> Option<Identity> {
        match self.push_key_identity_picker {
            Some(at) => if at < keyed(self.identities).len() {
                Some(self.identities[keyed(self.identities)[at as int] as int])
            } else {
                None
            },
            None => None,
        }
    }

    /// The push begins: the public key is read.
    pub open spec fn push_begun(self, host: usize, identity: Identity) -> AppView {
        match identity.private_key {
            None => self.notifying("Identity does not have a private key path set."@),
            Some(path) => self.asking(
                EffectView::ReadPublicKey {
                    host,
                    identity: identity.name@,
                    key_path: path@,
                    secret: if identity.has_password {
                        Some(identity_key_spec(identity.id))
                    } else {
                        None
                    },
                },
            ),
        }
    }

    #[verifier::opaque]
    pub open spec fn identity_picker_key(self, key: KeyEvent) -> AppView {
        match key.code {
            KeyCode::Esc => self.identity_picker_closed(),
            KeyCode::Down => self.identity_picker_moved(1),
            KeyCode::Up => self.identity_picker_moved(-1),
            KeyCode::Enter => match (self.picked_identity(), self.selected_host()) {
                (Some(identity), Some(host)) => self.identity_picker_closed().push_begun(
                    host,
                    identity,
                ),
                _ => self.identity_picker_closed(),
            },
            _ => self,
        }
    }

    pub open spec fn with_host_picker(self, picker: HostPickerView) -> AppView {
        AppView { push_key_host_picker: Some(picker), ..self }
    }

    /// The hosts that the host picker offers: all there are without a query, else
    /// those that match it.
    pub open spec fn push_rows(self) -> Seq<usize> {
        match self.push_key_host_picker {
            Some(picker) => if picker.query.len() == 0 {
                first_positions(self.hosts.len())
            } else {
                positions_below(picker.matches, self.hosts.len())
            },
            None => first_positions(self.hosts.len()),
        }
    }

    /// The query of the host picker changed: what matches it is looked up.
    pub open spec fn host_picker_searched(self, picker: HostPickerView, query: Seq<char>) -> AppView {
        let searching = self.with_host_picker(picker.searching(query));
        if query.len() == 0 {
            searching
        } else {
            searching.doing(Task::MatchPushHosts)
        }
    }

    /// The hosts changed under the host picker: what matched is looked up anew.
    pub open spec fn push_rows_renewed(self) -> AppView {
        match self.push_key_host_picker {
            Some(picker) => if picker.query.len() == 0 {
                self
            } else {
                self.with_host_picker(
                    HostPickerView { matches: Seq::empty(), ..picker },
                ).doing(Task::MatchPushHosts)
            },
            None => self,
        }
    }

    pub open spec fn host_picker_moved(self, picker: HostPickerView, delta: int) -> AppView {
        if self.push_rows().len() > 0 {
            self.with_host_picker(
                HostPickerView {
                    selected: around(
                        picker.selected as int,
                        delta,
                        self.push_rows().len() as int,
                    ) as usize,
                    ..picker
                },
            )
        } else {
            self
        }
    }

    /// The picked host.
    pub open spec fn picked_host(self, picker: HostPickerView) -> Option<usize> {
        if picker.selected < self.push_rows().len() {
            Some(self.push_rows()[picker.selected as int])
        } else {
            None
        }
    }

    #[verifier::opaque]
    pub open spec fn host_picker_key(self, key: KeyEvent) -> AppView {
        match self.push_key_host_picker {
            Some(picker) => match key.code {
                KeyCode::Esc => self.host_picker_closed(),
                KeyCode::Down => self.host_picker_moved(picker, 1),
                KeyCode::Up => self.host_picker_moved(picker, -1),
                KeyCode::Backspace => self.host_picker_searched(picker, picker.shortened()),
                KeyCode::Char(c) => if control(c) {
                    self
                } else {
                    self.host_picker_searched(picker, picker.query.push(c))
                },
                KeyCode::Enter => match (self.picked_host(picker), self.chosen_identity()) {
                    (Some(host), Some(identity)) => self.host_picker_closed().push_begun(
                        host,
                        identity,
                    ),
                    _ => self.host_picker_closed(),
                },
                _ => self,
            },
            None => match key.code {
                KeyCode::Esc => self.host_picker_closed(),
                KeyCode::Enter => self.host_picker_closed(),
                _ => self,
            },
        }
    }

    pub open spec fn push_hosts_taken(self, matches: Seq<usize>) -> AppView {
        match self.push_key_host_picker {
            Some(picker) => self.with_host_picker(HostPickerView { matches, ..picker }),
            None => self,
        }
    }

    /// The public key was read, or not.
    pub open spec fn push_key_taken(
        self,
        host: usize,
        identity: Seq<char>,
        read: Result<Seq<char>, Seq<char>>,
    ) -> AppView {
        if host >= self.hosts.len() {
            self
        } else {
            let entry = self.hosts[host as int];
            match read {
                Ok(key) => self.asking(
                    EffectView::PreparePush { host, identity, remote_cmd: push_command(key) },
                ),
                Err(e) => {
                    let message = "Failed to read public key: "@ + e;
                    self.notifying(message).asking(
                        EffectView::LogAuthEvent {
                            host: entry.name_spec()@,
                            user: own_user_of(entry),
                            via: "direct"@,
                            status: "fail"@,
                            note: message,
                        },
                    )
                },
            }
        }
    }

    pub open spec fn host_line(
        self,
        host: usize,
        line: Seq<char>,
        level: LogLevel,
        now: i64,
    ) -> LogView {
        LogView {
            host_name: self.hosts[host as int].name_spec()@,
            line,
            level,
            timestamp: now,
        }
    }

    /// What is known of the secret opens the host's log anew.
    pub open spec fn push_diagnosed(
        self,
        host: usize,
        has_secret: bool,
        diagnosis: Seq<char>,
        now: i64,
    ) -> AppView {
        self.host_log_cleared(self.hosts[host as int].name_spec()@).logged(
            self.host_line(
                host,
                diagnosis,
                if has_secret {
                    LogLevel::Success
                } else {
                    LogLevel::Info
                },
                now,
            ),
        )
    }

    /// The command line is there: the push runs, if its program is found.
    pub open spec fn push_prepared(
        self,
        host: usize,
        identity: Seq<char>,
        argv: Seq<Seq<char>>,
        has_secret: bool,
        diagnosis: Seq<char>,
        found: bool,
        now: i64,
    ) -> AppView {
        if host >= self.hosts.len() {
            self
        } else {
            let logged = self.push_diagnosed(host, has_secret, diagnosis, now);
            let full = push_argv(argv, has_secret);
            if argv.len() > 0 && !found {
                let message = "Command not found: '"@ + argv[0]
                    + "'. Check your PATH or install it."@;
                logged.logged(self.host_line(host, message, LogLevel::Error, now)).notifying(
                    message,
                )
            } else {
                logged.logged(
                    self.host_line(host, "$ "@ + spaced(full), LogLevel::Success, now),
                ).asking(
                    EffectView::SpawnPush {
                        host,
                        identity,
                        argv: full,
                        title: "Push Key to "@ + self.hosts[host as int].name_spec()@,
                        rows: at_least(self.terminal_rows, 3),
                        cols: at_least(self.terminal_cols, 20),
                    },
                )
            }
        }
    }

    pub open spec fn session_opened(self, session: SessionView) -> AppView {
        AppView {
            sessions: self.sessions.push(session),
            active_session: Some(self.sessions.len() as usize),
            mode: AppMode::Connecting,
            ..self
        }
    }

    /// The audit events are loaded again at once.
    pub open spec fn auth_cache_forced(self) -> AppView {
        (AppView { auth_cache_updated: None, ..self }).auth_cache_refreshed()
    }

    /// The session of a push started.
    pub open spec fn push_launched(
        self,
        host: usize,
        identity: Seq<char>,
        session: SessionView,
    ) -> AppView {
        let entry = self.hosts[host as int];
        self.session_opened(session).asking(
            EffectView::LogAuthEvent {
                host: entry.name_spec()@,
                user: user_of(entry),
                via: via_of(entry),
                status: "launched"@,
                note: "started pushing public key '"@ + identity + "'"@,
            },
        )
    }

    /// The session of a push did not start.
    pub open spec fn push_failed(self, host: usize, message: Seq<char>, now: i64) -> AppView {
        let entry = self.hosts[host as int];
        self.asking(
            EffectView::LogAuthEvent {
                host: entry.name_spec()@,
                user: user_of(entry),
                via: via_of(entry),
                status: "fail"@,
                note: message,
            },
        ).logged(self.host_line(host, message, LogLevel::Error, now)).notifying(message)
    }

    pub open spec fn push_spawned(
        self,
        host: usize,
        identity: Seq<char>,
        outcome: Result<SessionView, Seq<char>>,
        now: i64,
    ) -> AppView {
        if host >= self.hosts.len() {
            self
        } else {
            match outcome {
                Ok(session) => self.push_launched(host, identity, session).auth_cache_forced(),
                Err(e) => self.push_failed(
                    host,
                    "Session spawn failed: "@ + e,
                    now,
                ).auth_cache_forced(),
            }
        }
    }
}

fn join_spaced(texts: &Vec<String>) -> (r: String)
    ensures
        r@ == spaced(views(texts@)),
{
    let ghost all = views(texts@);
    if texts.len() == 0 {
        let empty = String::new();
        assert(empty@ =~= Seq::empty());
        return empty;
    }
    let mut out = texts[0].clone();
    let mut i: usize = 1;
    assert(all.take(1)[0] == texts@[0]@);
    while i < texts.len()
        invariant
            all == views(texts@),
            1 <= i <= texts@.len(),
            out@ == spaced(all.take(i as int)),
        decreases texts@.len() - i,
    {
        assert(all.take(i + 1).drop_last() =~= all.take(i as int));
        assert(all.take(i + 1).last() == texts@[i as int]@);
        out = cat3(out.as_str(), " ", texts[i].as_str());
        i = i + 1;
    }
    assert(all.take(texts@.len() as int) =~= all);
    out
}

fn make_push_argv(argv: Vec<String>, has_secret: bool) -> (r: Vec<String>)
    ensures
        views(r@) == push_argv(views(argv@), has_secret),
{
    let ghost before = views(argv@);
    let mut argv = argv;
    if argv.len() > 0 && same(argv[0].as_str(), "ssh") {
        argv.insert(1, "-v".to_owned());
        if has_secret {
            argv.insert(1, "-o".to_owned());
            argv.insert(2, "StrictHostKeyChecking=accept-new".to_owned());
        }
        assert(views(argv@) =~= push_argv(before, has_secret));
    }
    argv
}

fn find_via(entry: &HostEntry) -> (r: String)
    ensures
        r@ == via_of(*entry),
{
    match entry.managed() {
        Some(m) => match &m.proxy_jump {
            Some(jump) => jump.clone(),
            None => "direct".to_owned(),
        },
        None => "direct".to_owned(),
    }
}

fn find_user(entry: &HostEntry) -> (r: Option<String>)
    ensures
        opt_view(r) == user_of(*entry),
{
    match entry.managed() {
        Some(m) => login(m),
        None => None,
    }
}

fn find_own_user(entry: &HostEntry) -> (r: Option<String>)
    ensures
        opt_view(r) == own_user_of(*entry),
{
    match entry.managed() {
        Some(m) => clone_text(&m.username),
        None => None,
    }
}

impl PushKeyHostPicker {
    fn search(&mut self, query: String)
        ensures
            final(self)@ == old(self)@.searching(query@),
    {
        self.query = query;
        self.selected = 0;
    }
}

impl App {
    fn notify_identity(&mut self, notice: String)
        ensures
            final(self)@ == old(self)@.identity_notifying(notice@),
    {
        self.identity_notice = Some(notice);
    }

    /// Begin pushing a key to the selected host.
    pub fn trigger_push_key_from_hosts(&mut self)
        ensures
            final(self)@ == old(self)@.push_from_hosts(),
    {
        reveal(AppView::push_from_hosts);

        if self.selected_host_index().is_none() {
            self.notify(
                "Select a host row first — a group header has no key target.".to_owned(),
            );
        } else {
            self.perform(Task::LoadPushIdentities);
        }
    }

    /// The positions of the identities that have a key.
    pub fn push_key_identities(&self) -> (r: Vec<usize>)
        ensures
            r@ == keyed(self@.identities),
            forall|i: int| 0 <= i < r@.len() ==> (#[trigger] r@[i]) < self@.identities.len(),
    {
        let mut out: Vec<usize> = Vec::new();
        let mut i: usize = 0;
        while i < self.identities.len()
            invariant
                i <= self.identities@.len(),
                out@ == keyed_to(self.identities@, i as nat),
                forall|k: int| 0 <= k < out@.len() ==> (#[trigger] out@[k]) < self.identities@.len(),
            decreases self.identities@.len() - i,
        {
            if self.identities[i].private_key.is_some() {
                out.push(i);
            }
            i = i + 1;
        }
        out
    }

    fn open_identity_picker(&mut self)
        ensures
            final(self)@ == (AppView {
                push_key_identity_picker: Some(0),
                mode: AppMode::PushKeyIdentityPicker,
                ..old(self)@
            }),
    {
        self.push_key_identity_picker = Some(0);
        self.mode = AppMode::PushKeyIdentityPicker;
    }

    /// The identities were loaded to choose a key from.
    pub fn push_identities_loaded(&mut self, identities: Vec<Identity>)
        ensures
            final(self)@ == old(self)@.push_identities_taken(identities@),
    {
        self.identities = identities;
        assert(self@ == (AppView { identities: identities@, ..old(self)@ }));
        if self.push_key_identities().len() == 0 {
            self.notify("No key identities available — generate or add one first.".to_owned());
        } else {
            self.open_identity_picker();
        }
    }

    /// The selected identity.
    pub fn selected_identity(&self) -> (r: Option<Identity>)
        ensures
            r == self@.chosen_identity(),
    {
        if self.identity_selected < self.identities.len() {
            Some(self.identities[self.identity_selected].clone())
        } else {
            None
        }
    }

    fn open_host_picker(&mut self)
        ensures
            final(self)@ == (AppView {
                push_key_host_picker: Some(
                    HostPickerView {
                        query: Seq::empty(),
                        selected: 0,
                        matches: Seq::empty(),
                    },
                ),
                mode: AppMode::PushKeyHostPicker,
                ..old(self)@
            }),
    {
        let picker = PushKeyHostPicker {
            query: String::new(),
            selected: 0,
            matches: Vec::new(),
        };
        assert(picker@.query =~= Seq::empty());
        self.push_key_host_picker = Some(picker);
        self.mode = AppMode::PushKeyHostPicker;
    }

    /// Begin pushing the selected key to some host.
    pub fn trigger_push_key_from_keys(&mut self)
        ensures
            final(self)@ == old(self)@.push_from_keys(),
    {
        reveal(AppView::push_from_keys);

        match self.selected_identity() {
            None => self.notify_identity("No identity selected.".to_owned()),
            Some(identity) => {
                if identity.private_key.is_none() {
                    self.notify_identity("Cannot push a password-only identity.".to_owned());
                } else {
                    self.open_host_picker();
                }
            },
        }
    }

    fn close_identity_picker(&mut self)
        ensures
            final(self)@ == old(self)@.identity_picker_closed(),
    {
        self.push_key_identity_picker = None;
        self.mode = AppMode::Normal;
    }

    fn close_host_picker(&mut self)
        ensures
            final(self)@ == old(self)@.host_picker_closed(),
    {
        self.push_key_host_picker = None;
        self.mode = AppMode::Normal;
    }

    fn move_identity_picker(&mut self, delta: i32)
        ensures
            final(self)@ == old(self)@.identity_picker_moved(delta as int),
    {
        let count: usize = self.push_key_identities().len();
        if let Some(at) = self.push_key_identity_picker {
            if count > 0 {
                self.push_key_identity_picker = Some(wrapped(at, delta, count));
            }
        }
    }

    fn find_picked_identity(&self) -> (r: Option<Identity>)
        ensures
            r == self@.picked_identity(),
    {
        let rows = self.push_key_identities();
        match self.push_key_identity_picker {
            Some(at) => if at < rows.len() {
                let row: usize = rows[at];
                Some(self.identities[row].clone())
            } else {
                None
            },
            None => None,
        }
    }

    /// Push a public key to a host: read the key first.
    pub fn push_public_key_to_host(&mut self, host: usize, identity: &Identity)
        ensures
            final(self)@ == old(self)@.push_begun(host, *identity),
    {
        match &identity.private_key {
            None => self.notify("Identity does not have a private key path set.".to_owned()),
            Some(path) => {
                let secret = if identity.has_password {
                    Some(identity_key(identity.id))
                } else {
                    None
                };
                self.ask(
                    Effect::ReadPublicKey {
                        host,
                        identity: identity.name.clone(),
                        key_path: path.clone(),
                        secret,
                    },
                );
            },
        }
    }

    /// Keys of the identity picker.
    pub fn handle_key_push_key_identity_picker(&mut self, key: KeyEvent)
        ensures
            final(self)@ == old(self)@.identity_picker_key(key),
    {
        reveal(AppView::identity_picker_key);

        match key.code {
            KeyCode::Esc => self.close_identity_picker(),
            KeyCode::Down => self.move_identity_picker(1),
            KeyCode::Up => self.move_identity_picker(-1),
            KeyCode::Enter => {
                let identity = self.find_picked_identity();
                let host = self.selected_host_index();
                self.close_identity_picker();
                if let Some(identity) = identity {
                    if let Some(host) = host {
                        self.push_public_key_to_host(host, &identity);
                    }
                }
            },
            _ => {},
        }
    }

    fn search_hosts(&mut self, query: String)
        requires
            old(self)@.push_key_host_picker is Some,
        ensures
            final(self)@ == old(self)@.host_picker_searched(
                old(self)@.push_key_host_picker->0,
                query@,
            ),
    {
        let blank = crate::text::len(query.as_str()) == 0;
        if let Some(picker) = &mut self.push_key_host_picker {
            picker.search(query);
        }
        if !blank {
            self.perform(Task::MatchPushHosts);
        }
    }

    /// The positions of the hosts that the host picker offers.
    fn find_push_rows(&self) -> (r: Vec<usize>)
        ensures
            r@ == self@.push_rows(),
            forall|i: int| 0 <= i < r@.len() ==> (#[trigger] r@[i]) < self.hosts@.len(),
    {
        match &self.push_key_host_picker {
            Some(picker) => {
                if crate::text::len(picker.query.as_str()) == 0 {
                    positions(self.hosts.len())
                } else {
                    keep_below(&picker.matches, self.hosts.len())
                }
            },
            None => positions(self.hosts.len()),
        }
    }

    /// The hosts changed: what matched the query of the host picker is looked up
    /// anew.
    pub(crate) fn renew_push_rows(&mut self)
        ensures
            final(self)@ == old(self)@.push_rows_renewed(),
    {
        let stale = match &self.push_key_host_picker {
            Some(picker) => crate::text::len(picker.query.as_str()) > 0,
            None => false,
        };
        if stale {
            if let Some(picker) = &mut self.push_key_host_picker {
                picker.matches = Vec::new();
            }
            self.perform(Task::MatchPushHosts);
        }
    }

    fn move_host_picker(&mut self, delta: i32)
        requires
            old(self)@.push_key_host_picker is Some,
        ensures
            final(self)@ == old(self)@.host_picker_moved(
                old(self)@.push_key_host_picker->0,
                delta as int,
            ),
    {
        let count: usize = self.find_push_rows().len();
        if let Some(picker) = &mut self.push_key_host_picker {
            if count > 0 {
                picker.selected = wrapped(picker.selected, delta, count);
            }
        }
    }

    fn find_picked_host(&self) -> (r: Option<usize>)
        requires
            self@.push_key_host_picker is Some,
        ensures
            r == self@.picked_host(self@.push_key_host_picker->0),
    {
        let rows = self.find_push_rows();
        match &self.push_key_host_picker {
            Some(picker) => if picker.selected < rows.len() {
                Some(rows[picker.selected])
            } else {
                None
            },
            None => None,
        }
    }

    fn pick_push_host(&mut self)
        requires
            old(self)@.push_key_host_picker is Some,
        ensures
            final(self)@ == match (
                old(self)@.picked_host(old(self)@.push_key_host_picker->0),
                old(self)@.chosen_identity(),
            ) {
                (Some(host), Some(identity)) => old(self)@.host_picker_closed().push_begun(
                    host,
                    identity,
                ),
                _ => old(self)@.host_picker_closed(),
            },
    {
        let host = self.find_picked_host();
        let identity = self.selected_identity();
        self.close_host_picker();
        if let Some(host) = host {
            if let Some(identity) = identity {
                self.push_public_key_to_host(host, &identity);
            }
        }
    }

    /// Keys of the host picker.
    pub fn handle_key_push_key_host_picker(&mut self, key: KeyEvent)
        ensures
            final(self)@ == old(self)@.host_picker_key(key),
    {
        reveal(AppView::host_picker_key);

        let query = match &self.push_key_host_picker {
            Some(picker) => picker.query.clone(),
            None => {
                if key.code == KeyCode::Esc || key.code == KeyCode::Enter {
                    self.close_host_picker();
                }
                return;
            },
        };
        match key.code {
            KeyCode::Esc => self.close_host_picker(),
            KeyCode::Down => self.move_host_picker(1),
            KeyCode::Up => self.move_host_picker(-1),
            KeyCode::Backspace => {
                let mut query = query;
                let _ = query.pop();
                self.search_hosts(query);
            },
            KeyCode::Char(c) => {
                if !is_control(c) {
                    let mut query = query;
                    query.push(c);
                    self.search_hosts(query);
                }
            },
            KeyCode::Enter => self.pick_push_host(),
            _ => {},
        }
    }

    /// The hosts that match the query of the host picker, best first.
    pub fn push_hosts_matched(&mut self, matches: Vec<usize>)
        ensures
            final(self)@ == old(self)@.push_hosts_taken(matches@),
    {
        if let Some(picker) = &mut self.push_key_host_picker {
            picker.matches = matches;
        }
    }

    /// The rows of the host picker: a host and what its row says.
    pub fn push_key_host_matches(&self) -> (r: Vec<(usize, String)>)
        ensures
            r@.len() == self@.push_rows().len(),
            forall|i: int|
                0 <= i < r@.len() ==> {
                    let host = self@.push_rows()[i];
                    &&& host < self@.hosts.len()
                    &&& (#[trigger] r@[i]).0 == host
                    &&& r@[i].1@ == self@.hosts[host as int].display_spec()@ + "  "@
                        + self@.hosts[host as int].name_spec()@
                },
    {
        let rows = self.find_push_rows();
        let mut out: Vec<(usize, String)> = Vec::new();
        let mut i: usize = 0;
        while i < rows.len()
            invariant
                i <= rows@.len(),
                out@.len() == i,
                rows@ == self@.push_rows(),
                forall|k: int| 0 <= k < rows@.len() ==> (#[trigger] rows@[k]) < self.hosts@.len(),
                forall|k: int|
                    0 <= k < i ==> (#[trigger] out@[k]).0 == rows@[k] && out@[k].1@
                        == self.hosts@[rows@[k] as int].display_spec()@ + "  "@
                        + self.hosts@[rows@[k] as int].name_spec()@,
            decreases rows@.len() - i,
        {
            let entry = &self.hosts[rows[i]];
            out.push(
                (rows[i], cat3(entry.display_name().as_str(), "  ", entry.name().as_str())),
            );
            i = i + 1;
        }
        out
    }

    /// The public key was read, or could not be.
    pub fn push_key_read(&mut self, host: usize, identity: String, read: Result<String, String>)
        ensures
            final(self)@ == old(self)@.push_key_taken(
                host,
                identity@,
                match read {
                    Ok(key) => Ok(key@),
                    Err(e) => Err(e@),
                },
            ),
    {
        if host >= self.hosts.len() {
            return;
        }
        match read {
            Ok(key) => {
                let remote_cmd = make_push_command(key.as_str());
                self.ask(Effect::PreparePush { host, identity, remote_cmd });
            },
            Err(e) => {
                let name = self.hosts[host].name().clone();
                let user = find_own_user(&self.hosts[host]);
                let message = cat2("Failed to read public key: ", e.as_str());
                self.notify(message.clone());
                self.ask(
                    Effect::LogAuthEvent {
                        host: name,
                        user,
                        via: "direct".to_owned(),
                        status: "fail".to_owned(),
                        note: message,
                    },
                );
            },
        }
    }

    fn make_line(&self, host: usize, line: String, level: LogLevel, now: i64) -> (r: SshLogEntry)
        requires
            host < self@.hosts.len(),
        ensures
            r@ == self@.host_line(host, line@, level, now),
    {
        SshLogEntry { host_name: self.hosts[host].name().clone(), line, level, timestamp: now }
    }

    fn diagnose_push(&mut self, host: usize, has_secret: bool, diagnosis: String, now: i64)
        requires
            host < old(self)@.hosts.len(),
        ensures
            final(self)@ == old(self)@.push_diagnosed(host, has_secret, diagnosis@, now),
    {
        let level = if has_secret {
            LogLevel::Success
        } else {
            LogLevel::Info
        };
        let line = self.make_line(host, diagnosis, level, now);
        let name = self.hosts[host].name().clone();
        self.clear_host_log(name.as_str());
        self.push_ssh_log(line);
    }

    /// The command line of a push was built and its secret looked up. `found`
    /// says whether its program is installed.
    pub fn push_key_prepared(
        &mut self,
        host: usize,
        identity: String,
        argv: Vec<String>,
        has_secret: bool,
        diagnosis: String,
        found: bool,
        now: i64,
    )
        ensures
            final(self)@ == old(self)@.push_prepared(
                host,
                identity@,
                views(argv@),
                has_secret,
                diagnosis@,
                found,
                now,
            ),
    {
        if host >= self.hosts.len() {
            return;
        }
        let name = self.hosts[host].name().clone();
        self.diagnose_push(host, has_secret, diagnosis, now);
        if argv.len() > 0 && !found {
            let message = cat3(
                "Command not found: '",
                argv[0].as_str(),
                "'. Check your PATH or install it.",
            );
            let line = self.make_line(host, message.clone(), LogLevel::Error, now);
            self.push_ssh_log(line);
            self.notify(message);
            return;
        }
        let argv = make_push_argv(argv, has_secret);
        let text = join_spaced(&argv);
        let line = self.make_line(host, cat2("$ ", text.as_str()), LogLevel::Success, now);
        self.push_ssh_log(line);
        let rows: u16 = if self.terminal_rows < 3 {
            3
        } else {
            self.terminal_rows
        };
        let cols: u16 = if self.terminal_cols < 20 {
            20
        } else {
            self.terminal_cols
        };
        self.ask(
            Effect::SpawnPush {
                host,
                identity,
                argv,
                title: cat2("Push Key to ", name.as_str()),
                rows,
                cols,
            },
        );
    }

    fn open_session(&mut self, session: SessionInfo)
        ensures
            final(self)@ == old(self)@.session_opened(session@),
    {
        let at: usize = self.sessions.len();
        self.sessions.push(session);
        self.active_session = Some(at);
        self.mode = AppMode::Connecting;
    }

    fn force_auth_cache(&mut self)
        ensures
            final(self)@ == old(self)@.auth_cache_forced(),
    {
        self.auth_cache_updated = None;
        self.refresh_auth_cache();
    }

    fn launch_push(&mut self, host: usize, identity: &str, session: SessionInfo)
        requires
            host < old(self)@.hosts.len(),
        ensures
            final(self)@ == old(self)@.push_launched(host, identity@, session@),
    {
        let name = self.hosts[host].name().clone();
        let user = find_user(&self.hosts[host]);
        let via = find_via(&self.hosts[host]);
        let note = cat3("started pushing public key '", identity, "'");
        self.open_session(session);
        self.ask(
            Effect::LogAuthEvent { host: name, user, via, status: "launched".to_owned(), note },
        );
    }

    fn fail_push(&mut self, host: usize, message: String, now: i64)
        requires
            host < old(self)@.hosts.len(),
        ensures
            final(self)@ == old(self)@.push_failed(host, message@, now),
    {
        let name = self.hosts[host].name().clone();
        let user = find_user(&self.hosts[host]);
        let via = find_via(&self.hosts[host]);
        let line = self.make_line(host, message.clone(), LogLevel::Error, now);
        self.ask(
            Effect::LogAuthEvent {
                host: name,
                user,
                via,
                status: "fail".to_owned(),
                note: message.clone(),
            },
        );
        self.push_ssh_log(line);
        self.notify(message);
    }

    /// The session of a push started, or could not.
    pub fn push_key_spawned(
        &mut self,
        host: usize,
        identity: String,
        outcome: Result<SessionInfo, String>,
        now: i64,
    )
        ensures
            final(self)@ == old(self)@.push_spawned(
                host,
                identity@,
                match outcome {
                    Ok(session) => Ok(session@),
                    Err(e) => Err(e@),
                },
                now,
            ),
    {
        if host >= self.hosts.len() {
            return;
        }
        match outcome {
            Ok(session) => self.launch_push(host, identity.as_str(), session),
            Err(e) => self.fail_push(host, cat2("Session spawn failed: ", e.as_str()), now),
        }
        self.force_auth_cache();
    }
}

} // verus!
