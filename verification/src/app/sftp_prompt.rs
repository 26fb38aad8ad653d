//! The text prompt of the SFTP browser (new directory, rename, permissions) and
//! deletion.

use vstd::prelude::*;

use crate::app::effects::{Effect, EffectView};
use crate::app::sftp::reaches;
use crate::app::state::{
    AppMode, PendingDelete, PendingView, PromptView, SftpPromptEdit, SftpPromptKind,
};
use crate::app::{App, AppView};
use crate::keybinds::{KeyCode, KeyEvent, KeyModifiers};
use crate::paths::{base_name, file_name, is_parent_of, join, joined, lies_in, path_eq, same_path};
use crate::sftp::browser::{SftpState, SftpView};
use crate::sftp::model::{CommandView, SftpCommand, Side};
use crate::text::{
    all_digits_in, cat2, chars_of, holds_char, len, numeral, opt_view, parse_in, same, text_of,
    to_octal, trim, trimmed, value_in,
};
use crate::text_input::{backspace_at, handle_cursor_key, insert_at, Line};

verus! {

broadcast use crate::text::group_views;

/// Whether a text names an entry of a directory.
pub open spec fn is_entry_name(name: Seq<char>) -> bool {
    name.len() > 0 && !name.contains('/') && name != "."@ && name != ".."@
}

/// The digits of a number that may carry a plus sign.
pub open spec fn unsigned(s: Seq<char>) -> Seq<char> {
    if s.len() > 0 && s[0] == '+' {
        s.skip(1)
    } else {
        s
    }
}

/// The permission bits that a text in octal stands for, if it does.
pub open spec fn octal_mode(s: Seq<char>) -> Option<u32> {
    let digits = unsigned(trimmed(s));
    if all_digits_in(digits, 8) && value_in(digits, 8) <= 0o7777 {
        Some(value_in(digits, 8) as u32)
    } else {
        None
    }
}

fn parse_mode(s: &str) -> (r: Option<u32>)
    ensures
        r == octal_mode(s@),
{
    let trimmed_text = trim(s);
    let chars = chars_of(trimmed_text.as_str());
    let from: usize = if chars.len() > 0 && chars[0] == '+' {
        1
    } else {
        0
    };
    let digits = text_of(&chars, from, chars.len());
    assert(digits@ =~= unsigned(trimmed(s@)));
    match parse_in(digits.as_str(), 8, 0o7777) {
        Some(mode) => Some(mode as u32),
        None => None,
    }
}

fn names_entry(name: &str) -> (r: bool)
    ensures
        r == is_entry_name(name@),
{
    len(name) > 0 && !holds_char(name, '/') && !same(name, ".") && !same(name, "..")
}

impl PromptView {
    pub open spec fn line(self) -> Line {
        Line { text: self.value, cursor: self.cursor }
    }

    pub open spec fn with_line(self, line: Line) -> PromptView {
        PromptView { value: line.text, cursor: line.cursor, ..self }
    }

    pub open spec fn inserted(self, c: char) -> PromptView {
        PromptView { error: None, ..self.with_line(self.line().inserted(c)) }
    }

    pub open spec fn backspaced(self) -> PromptView {
        PromptView { error: None, ..self.with_line(self.line().backspaced()) }
    }

    pub open spec fn key_pressed(self, code: KeyCode) -> PromptView {
        let moved = self.with_line(self.line().key_pressed(code));
        if code is Delete {
            PromptView { error: None, ..moved }
        } else {
            moved
        }
    }

    /// The name that is typed.
    pub open spec fn name(self) -> Seq<char> {
        trimmed(self.value)
    }

    /// Where the typed name would lie.
    pub open spec fn target(self) -> Seq<char> {
        joined(self.base, self.name())
    }

    /// The path that is renamed or changed.
    pub open spec fn from(self) -> Seq<char> {
        match self.old_path {
            Some(path) => path,
            None => Seq::empty(),
        }
    }

    /// Whether a rename would keep the name.
    pub open spec fn keeps_name(self) -> bool {
        self.kind is Rename && match self.old_path {
            Some(old) => same_path(old, self.target()),
            None => false,
        }
    }
}

impl SftpView {
    /// The selected entry of the pane with the keyboard, unless it is the row
    /// that leads up.
    pub open spec fn chosen(self) -> Option<crate::sftp::model::FileEntryView> {
        match self.pane().selected_entry_spec() {
            Some(entry) => if entry.is_parent() {
                None
            } else {
                Some(entry)
            },
            None => None,
        }
    }

    /// The prompt of this kind, if there is something to ask about.
    pub open spec fn prompt(self, kind: SftpPromptKind) -> Option<PromptView> {
        let base = self.pane().cwd;
        let blank = PromptView {
            kind,
            side: self.side(),
            base,
            old_path: None,
            value: Seq::empty(),
            cursor: 0,
            error: None,
        };
        match kind {
            SftpPromptKind::Mkdir => Some(blank),
            SftpPromptKind::Rename => match self.chosen() {
                Some(entry) => Some(
                    PromptView {
                        old_path: Some(joined(base, entry.name)),
                        value: entry.name,
                        cursor: entry.name.len(),
                        ..blank
                    },
                ),
                None => None,
            },
            SftpPromptKind::Chmod => match self.chosen() {
                Some(entry) => {
                    let octal = numeral(
                        (match entry.perm {
                            Some(perm) => perm,
                            None => 0o644,
                        } as nat) % 0o10000,
                        8,
                    );
                    Some(
                        PromptView {
                            old_path: Some(joined(base, entry.name)),
                            value: octal,
                            cursor: octal.len(),
                            ..blank
                        },
                    )
                },
                None => None,
            },
        }
    }
}

impl AppView {
    /// Deletion of the selected entry waits for confirmation.
    #[verifier::opaque]
    pub open spec fn delete_armed(self) -> AppView {
        match self.sftp {
            Some(s) => match s.chosen() {
                Some(entry) => AppView {
                    pending_delete: Some(
                        PendingView::SftpEntry {
                            side: s.side(),
                            path: joined(s.pane().cwd, entry.name),
                            name: entry.name,
                            is_dir: entry.is_dir,
                        },
                    ),
                    mode: AppMode::ConfirmDelete,
                    ..self
                },
                None => self,
            },
            None => self,
        }
    }

    #[verifier::opaque]
    pub open spec fn prompt_opened(self, kind: SftpPromptKind) -> AppView {
        match self.sftp {
            Some(s) => match s.prompt(kind) {
                Some(prompt) => AppView {
                    sftp_prompt: Some(prompt),
                    mode: AppMode::SftpPrompt,
                    ..self
                },
                None => self,
            },
            None => self,
        }
    }

    pub open spec fn prompt_closed(self) -> AppView {
        AppView { sftp_prompt: None, mode: AppMode::Normal, ..self }
    }

    pub open spec fn prompt_error(self, error: Seq<char>) -> AppView {
        AppView {
            sftp_prompt: match self.sftp_prompt {
                Some(prompt) => Some(PromptView { error: Some(error), ..prompt }),
                None => None,
            },
            ..self
        }
    }

    /// A command of the prompt goes to the worker of its side, if there is one.
    /// The prompt stays open if the command cannot arrive.
    pub open spec fn prompt_sent(self, side: Side, command: CommandView) -> AppView {
        if reaches(self.link_of(side)) {
            self.sent_to(side, command).prompt_closed()
        } else {
            self.sent_to(side, command).prompt_error("not connected"@)
        }
    }

    /// Whether a worker serves this side; otherwise it is the local file system.
    pub open spec fn is_served(self, side: Side) -> bool {
        side is Remote || self.link_of(side) is Some
    }

    pub open spec fn chmod_committed(self, prompt: PromptView) -> AppView {
        match octal_mode(prompt.value) {
            Some(mode) => match prompt.old_path {
                Some(path) => if self.is_served(prompt.side) {
                    self.prompt_sent(prompt.side, CommandView::Chmod(path, mode))
                } else {
                    self.asking(EffectView::LocalChmod { path, mode })
                },
                None => self,
            },
            None => self.prompt_error("enter octal permissions, e.g. 755"@),
        }
    }

    pub open spec fn naming_committed(self, prompt: PromptView) -> AppView {
        if !is_entry_name(prompt.name()) {
            self.prompt_error("enter a name without '/'"@)
        } else if prompt.keeps_name() {
            self.prompt_closed()
        } else if self.is_served(prompt.side) {
            let sent = self.prompt_sent(
                prompt.side,
                if prompt.kind is Mkdir {
                    CommandView::Mkdir(prompt.target())
                } else {
                    CommandView::Rename(prompt.from(), prompt.target())
                },
            );
            if reaches(self.link_of(prompt.side)) {
                sent.hidden_noted(prompt.name())
            } else {
                sent
            }
        } else if prompt.kind is Mkdir {
            self.asking(EffectView::LocalMkdir(prompt.target()))
        } else {
            self.asking(EffectView::ProbeLocal(prompt.target()))
        }
    }

    /// What is typed is applied. What a worker does shows up later as a fresh
    /// listing or a notice.
    #[verifier::opaque]
    pub open spec fn prompt_committed(self) -> AppView {
        match self.sftp_prompt {
            Some(prompt) => if prompt.kind is Chmod {
                self.chmod_committed(prompt)
            } else {
                self.naming_committed(prompt)
            },
            None => self,
        }
    }

    /// A local rename goes ahead only where nothing is overwritten.
    pub open spec fn rename_probed(self, taken: bool) -> AppView {
        match self.sftp_prompt {
            Some(prompt) => if taken {
                self.prompt_error(prompt.name() + " already exists"@)
            } else {
                self.asking(
                    EffectView::LocalRename { from: prompt.from(), to: prompt.target() },
                )
            },
            None => self,
        }
    }

    /// A local operation of the prompt is done, or failed.
    pub open spec fn local_op_done(self, outcome: Result<(), Seq<char>>) -> AppView {
        match outcome {
            Err(e) => self.prompt_error(e),
            Ok(_) => {
                let done = self.prompt_closed().refreshed();
                match self.sftp_prompt {
                    Some(prompt) => if prompt.kind is Chmod {
                        done
                    } else {
                        done.hidden_noted(prompt.name())
                    },
                    None => done,
                }
            },
        }
    }

    pub open spec fn row_dropped(self, side: Side, name: Seq<char>) -> AppView {
        AppView {
            sftp: match self.sftp {
                Some(s) => Some(
                    match side {
                        Side::Remote => SftpView { remote: s.remote.without_named(name), ..s },
                        Side::Local => SftpView { local: s.local.without_named(name), ..s },
                    },
                ),
                None => None,
            },
            ..self
        }
    }

    /// A confirmed deletion. On a server the row goes at once, as long as the
    /// pane still shows its directory; locally the file system is asked.
    #[verifier::opaque]
    pub open spec fn delete_confirmed(self, side: Side, path: Seq<char>, is_dir: bool) -> AppView {
        let name = match base_name(path) {
            Some(name) => name,
            None => Seq::empty(),
        };
        let remove = CommandView::Remove(path, is_dir);
        match side {
            Side::Remote => if reaches(self.sftp_tx) {
                if self.sftp matches Some(s) && is_parent_of(s.remote.cwd, path) {
                    self.right_sent(remove).row_dropped(Side::Remote, name)
                } else {
                    self.right_sent(remove)
                }
            } else if self.sftp is Some {
                self.right_sent(remove).noted("not connected — delete not sent"@)
            } else {
                self.right_sent(remove).notifying("SFTP disconnected — delete not sent"@)
            },
            Side::Local => if self.left_remote() {
                if reaches(self.sftp_tx2) {
                    self.left_sent(remove).row_dropped(Side::Local, name)
                } else {
                    self.left_sent(remove).noted("not connected — delete not sent"@)
                }
            } else {
                self.asking(EffectView::LocalDelete { path, is_dir })
            },
        }
    }

    pub open spec fn local_deleted(self, outcome: Result<(), Seq<char>>) -> AppView {
        match outcome {
            Ok(_) => self.refreshed(),
            Err(e) => self.noted(e).refreshed(),
        }
    }

    #[verifier::opaque]
    pub open spec fn prompt_key(self, key: KeyEvent) -> AppView {
        match key.code {
            KeyCode::Esc => self.prompt_closed(),
            KeyCode::Enter => self.prompt_committed(),
            KeyCode::Backspace => if key.modifiers == KeyModifiers::none() {
                self.with_prompt(|p: PromptView| p.backspaced())
            } else {
                self
            },
            KeyCode::Left | KeyCode::Right | KeyCode::Home | KeyCode::End | KeyCode::Delete =>
                self.with_prompt(|p: PromptView| p.key_pressed(key.code)),
            _ => match key.types() {
                Some(c) => self.with_prompt(|p: PromptView| p.inserted(c)),
                None => self,
            },
        }
    }

    pub open spec fn with_prompt(self, change: spec_fn(PromptView) -> PromptView) -> AppView {
        AppView {
            sftp_prompt: match self.sftp_prompt {
                Some(prompt) => Some(change(prompt)),
                None => None,
            },
            ..self
        }
    }
}

impl SftpPromptEdit {
    fn insert(&mut self, c: char)
        ensures
            final(self)@ == old(self)@.inserted(c),
    {
        self.cursor = insert_at(&mut self.value, self.cursor, c);
        self.error = None;
    }

    fn backspace(&mut self)
        ensures
            final(self)@ == old(self)@.backspaced(),
    {
        self.cursor = backspace_at(&mut self.value, self.cursor);
        self.error = None;
    }

    fn press(&mut self, code: KeyCode)
        ensures
            final(self)@ == old(self)@.key_pressed(code),
    {
        self.cursor = handle_cursor_key(code, &mut self.value, self.cursor);
        if code == KeyCode::Delete {
            self.error = None;
        }
    }
}

impl SftpState {
    fn chosen_entry(&self) -> (r: Option<crate::sftp::model::FileEntry>)
        ensures
            opt_view(r) == self@.chosen(),
    {
        match self.focused_pane().selected_entry() {
            Some(entry) => if entry.is_parent() {
                None
            } else {
                Some(entry)
            },
            None => None,
        }
    }

    fn make_prompt(&self, kind: SftpPromptKind) -> (r: Option<SftpPromptEdit>)
        ensures
            opt_view(r) == self@.prompt(kind),
    {
        let base = self.focused_pane().cwd.clone();
        let side = self.focused_side();
        let (value, old_path) = match kind {
            SftpPromptKind::Mkdir => (String::new(), None),
            SftpPromptKind::Rename => match self.chosen_entry() {
                Some(entry) => {
                    let path = join(base.as_str(), entry.name.as_str());
                    (entry.name, Some(path))
                },
                None => {
                    return None;
                },
            },
            SftpPromptKind::Chmod => match self.chosen_entry() {
                Some(entry) => {
                    let perm: u32 = match entry.perm {
                        Some(perm) => perm,
                        None => 0o644,
                    };
                    let path = join(base.as_str(), entry.name.as_str());
                    let bits: u32 = perm & 0o7777;
                    assert(bits == perm % 0o10000) by (bit_vector)
                        requires
                            bits == perm & 0o7777,
                    ;
                    (to_octal(bits as u64), Some(path))
                },
                None => {
                    return None;
                },
            },
        };
        let cursor: usize = len(value.as_str());
        assert(kind is Mkdir ==> value@ =~= Seq::empty());
        Some(SftpPromptEdit { kind, side, base, old_path, value, cursor, error: None })
    }
}

impl App {
    fn arm_delete(&mut self, side: Side, path: String, name: String, is_dir: bool)
        ensures
            final(self)@ == (AppView {
                pending_delete: Some(
                    PendingView::SftpEntry { side, path: path@, name: name@, is_dir },
                ),
                mode: AppMode::ConfirmDelete,
                ..old(self)@
            }),
    {
        self.pending_delete = Some(PendingDelete::SftpEntry { side, path, name, is_dir });
        self.mode = AppMode::ConfirmDelete;
    }

    /// Arm the delete confirmation for the focused pane's selection.
    pub fn sftp_arm_delete(&mut self)
        ensures
            final(self)@ == old(self)@.delete_armed(),
    {
        reveal(AppView::delete_armed);

        let (side, path, entry) = match &self.sftp {
            Some(s) => match s.chosen_entry() {
                Some(entry) => (
                    s.focused_side(),
                    join(s.focused_pane().cwd.as_str(), entry.name.as_str()),
                    entry,
                ),
                None => {
                    return;
                },
            },
            None => {
                return;
            },
        };
        self.arm_delete(side, path, entry.name, entry.is_dir);
    }

    /// Open the prompt for the focused pane.
    pub fn sftp_open_prompt(&mut self, kind: SftpPromptKind)
        ensures
            final(self)@ == old(self)@.prompt_opened(kind),
    {
        reveal(AppView::prompt_opened);

        let prompt = match &self.sftp {
            Some(s) => match s.make_prompt(kind) {
                Some(prompt) => prompt,
                None => {
                    return;
                },
            },
            None => {
                return;
            },
        };
        self.sftp_prompt = Some(prompt);
        self.mode = AppMode::SftpPrompt;
    }

    fn close_prompt(&mut self)
        ensures
            final(self)@ == old(self)@.prompt_closed(),
    {
        self.sftp_prompt = None;
        self.mode = AppMode::Normal;
    }

    fn fail_prompt(&mut self, error: String)
        ensures
            final(self)@ == old(self)@.prompt_error(error@),
    {
        if let Some(prompt) = &mut self.sftp_prompt {
            prompt.error = Some(error);
        }
    }

    fn send_prompt(&mut self, side: Side, command: SftpCommand) -> (r: bool)
        ensures
            final(self)@ == old(self)@.prompt_sent(side, command@),
            r == reaches(old(self)@.link_of(side)),
    {
        if self.send_to(side, command) {
            self.close_prompt();
            true
        } else {
            self.fail_prompt("not connected".to_owned());
            false
        }
    }

    fn serves(&self, side: Side) -> (r: bool)
        ensures
            r == self@.is_served(side),
    {
        side == Side::Remote || self.has_channel(side)
    }

    /// Apply the chmod prompt.
    fn sftp_chmod_commit(&mut self)
        ensures
            final(self)@ == match old(self)@.sftp_prompt {
                Some(prompt) => old(self)@.chmod_committed(prompt),
                None => old(self)@,
            },
    {
        let (mode, side, path) = match &self.sftp_prompt {
            Some(p) => (
                parse_mode(p.value.as_str()),
                p.side,
                crate::hosts::clone_text(&p.old_path),
            ),
            None => {
                return;
            },
        };
        match mode {
            None => self.fail_prompt("enter octal permissions, e.g. 755".to_owned()),
            Some(mode) => {
                if let Some(path) = path {
                    if self.serves(side) {
                        let _ = self.send_prompt(side, SftpCommand::Chmod(path, mode));
                    } else {
                        self.ask(Effect::LocalChmod { path, mode });
                    }
                }
            },
        }
    }

    /// Apply the open prompt. Names that are empty or hold a separator are
    /// rejected.
    pub fn sftp_prompt_commit(&mut self)
        ensures
            final(self)@ == old(self)@.prompt_committed(),
    {
        reveal(AppView::prompt_committed);

        let (kind, side, value, old_path, base) = match &self.sftp_prompt {
            Some(p) => (
                p.kind,
                p.side,
                p.value.clone(),
                crate::hosts::clone_text(&p.old_path),
                p.base.clone(),
            ),
            None => {
                return;
            },
        };
        if kind == SftpPromptKind::Chmod {
            self.sftp_chmod_commit();
            return;
        }
        let name = trim(value.as_str());
        if !names_entry(name.as_str()) {
            self.fail_prompt("enter a name without '/'".to_owned());
            return;
        }
        let target = join(base.as_str(), name.as_str());
        if kind == SftpPromptKind::Rename {
            let kept = match &old_path {
                Some(old) => path_eq(old.as_str(), target.as_str()),
                None => false,
            };
            if kept {
                self.close_prompt();
                return;
            }
        }
        if self.serves(side) {
            let command = if kind == SftpPromptKind::Mkdir {
                SftpCommand::Mkdir(target)
            } else {
                SftpCommand::Rename(text_or_empty(old_path), target)
            };
            if self.send_prompt(side, command) {
                self.note_if_hidden(name.as_str());
            }
        } else if kind == SftpPromptKind::Mkdir {
            self.ask(Effect::LocalMkdir(target));
        } else {
            self.ask(Effect::ProbeLocal(target));
        }
    }

    /// Whether something is at the target of a local rename.
    pub fn sftp_rename_probed(&mut self, taken: bool)
        ensures
            final(self)@ == old(self)@.rename_probed(taken),
    {
        let (name, from, to) = match &self.sftp_prompt {
            Some(p) => {
                let name = trim(p.value.as_str());
                let to = join(p.base.as_str(), name.as_str());
                (name, text_or_empty(crate::hosts::clone_text(&p.old_path)), to)
            },
            None => {
                return;
            },
        };
        if taken {
            self.fail_prompt(cat2(name.as_str(), " already exists"));
        } else {
            self.ask(Effect::LocalRename { from, to });
        }
    }

    /// A local operation of the prompt was performed.
    pub fn sftp_local_op_done(&mut self, outcome: Result<(), String>)
        ensures
            final(self)@ == old(self)@.local_op_done(
                match outcome {
                    Ok(_) => Ok(()),
                    Err(e) => Err(e@),
                },
            ),
    {
        if let Err(e) = outcome {
            self.fail_prompt(e);
            return;
        }
        let name = match &self.sftp_prompt {
            Some(p) => if p.kind == SftpPromptKind::Chmod {
                None
            } else {
                Some(trim(p.value.as_str()))
            },
            None => None,
        };
        self.close_prompt();
        self.sftp_refresh_panes();
        if let Some(name) = name {
            self.note_if_hidden(name.as_str());
        }
    }

    fn drop_row(&mut self, side: Side, name: &str)
        ensures
            final(self)@ == old(self)@.row_dropped(side, name@),
    {
        if let Some(s) = &mut self.sftp {
            match side {
                Side::Remote => s.remote.remove_named(name),
                Side::Local => s.local.remove_named(name),
            }
        }
    }

    /// Carry out a confirmed deletion.
    pub fn sftp_delete_confirmed(&mut self, side: Side, path: String, is_dir: bool)
        ensures
            final(self)@ == old(self)@.delete_confirmed(side, path@, is_dir),
    {
        reveal(AppView::delete_confirmed);

        let name = text_or_empty(file_name(path.as_str()));
        match side {
            Side::Remote => {
                let shown = match &self.sftp {
                    Some(s) => lies_in(s.remote.cwd.as_str(), path.as_str()),
                    None => false,
                };
                let live = self.sftp.is_some();
                if self.send_right(SftpCommand::Remove(path, is_dir)) {
                    if shown {
                        self.drop_row(Side::Remote, name.as_str());
                    }
                } else if live {
                    self.note("not connected — delete not sent".to_owned());
                } else {
                    self.notify("SFTP disconnected — delete not sent".to_owned());
                }
            },
            Side::Local => {
                if self.left_is_remote() {
                    if self.send_left(SftpCommand::Remove(path, is_dir)) {
                        self.drop_row(Side::Local, name.as_str());
                    } else {
                        self.note("not connected — delete not sent".to_owned());
                    }
                } else {
                    self.ask(Effect::LocalDelete { path, is_dir });
                }
            },
        }
    }

    /// A local deletion was performed.
    pub fn sftp_local_deleted(&mut self, outcome: Result<(), String>)
        ensures
            final(self)@ == old(self)@.local_deleted(
                match outcome {
                    Ok(_) => Ok(()),
                    Err(e) => Err(e@),
                },
            ),
    {
        if let Err(e) = outcome {
            self.note(e);
        }
        self.sftp_refresh_panes();
    }

    /// Keys of the prompt.
    pub fn handle_key_sftp_prompt(&mut self, key: KeyEvent)
        ensures
            final(self)@ == old(self)@.prompt_key(key),
    {
        reveal(AppView::prompt_key);

        match key.code {
            KeyCode::Esc => self.close_prompt(),
            KeyCode::Enter => self.sftp_prompt_commit(),
            KeyCode::Backspace => {
                if key.modifiers.is_empty() {
                    if let Some(p) = &mut self.sftp_prompt {
                        p.backspace();
                    }
                }
            },
            KeyCode::Left | KeyCode::Right | KeyCode::Home | KeyCode::End | KeyCode::Delete => {
                if let Some(p) = &mut self.sftp_prompt {
                    p.press(key.code);
                }
            },
            _ => {
                if let Some(c) = key.typed() {
                    if let Some(p) = &mut self.sftp_prompt {
                        p.insert(c);
                    }
                }
            },
        }
    }
}

fn text_or_empty(text: Option<String>) -> (r: String)
    ensures
        r@ == match opt_view(text) {
            Some(text) => text,
            None => Seq::empty(),
        },
{
    match text {
        Some(text) => text,
        None => {
            let empty = String::new();
            assert(empty@ =~= Seq::empty());
            empty
        },
    }
}

} // verus!
