//! The overlays that change the configuration: keybindings, settings, themes.

use vstd::prelude::*;

use crate::app::effects::Task;
use crate::app::nav::{around, wrapped};
use crate::app::state::{AppConfig, AppMode, Appearance, ConfigView, EditorView, KeybindEditor};
use crate::app::{App, AppView};
use crate::keybinds::{
    defaults_of, keyevent_to_spec, rebound, spec_of, specs_of, with_spec, Binding, BindingView,
    KeyAction, KeyCode, KeyEvent,
};
use crate::text::{cat2, contains_text, len, lowercase, occurs_in, views};

verus! {

broadcast use crate::text::group_views;

/// How many rows of the keybinding editor are shown at once.
pub const VIEWPORT: usize = 16;

/// Whether one of these texts holds `query`, whatever the case.
pub open spec fn one_holds(texts: Seq<Seq<char>>, query: Seq<char>) -> bool {
    exists|i: int| 0 <= i < texts.len() && occurs_in(lowercase(#[trigger] texts[i]), query)
}

/// Whether a row of the keybinding table matches a query: by its label or one of
/// its specs, whatever the case.
pub open spec fn row_matches(row: BindingView, query: Seq<char>) -> bool {
    let query = lowercase(query);
    query.len() == 0 || occurs_in(lowercase(row.label), query) || one_holds(row.specs, query)
}

/// The actions of the rows that match, among the first `n`.
pub open spec fn actions_to(rows: Seq<BindingView>, query: Seq<char>, n: nat) -> Seq<KeyAction>
    decreases n,
{
    if n == 0 || n > rows.len() {
        Seq::empty()
    } else {
        let before = actions_to(rows, query, (n - 1) as nat);
        if row_matches(rows[n - 1], query) {
            before.push(rows[n - 1].action)
        } else {
            before
        }
    }
}

impl EditorView {
    pub open spec fn fresh() -> EditorView {
        EditorView { selected: 0, scroll: 0, capturing: false, append: false, query: Seq::empty() }
    }

    /// The selected row is kept in view.
    pub open spec fn scrolled(self) -> EditorView {
        EditorView {
            scroll: if self.selected < self.scroll {
                self.selected
            } else if self.selected >= self.scroll + VIEWPORT {
                (self.selected - (VIEWPORT - 1)) as usize
            } else {
                self.scroll
            },
            ..self
        }
    }

    /// The selection is kept among `count` rows.
    pub open spec fn clamped(self, count: nat) -> EditorView {
        (if count == 0 {
            EditorView { selected: 0, scroll: 0, ..self }
        } else if self.selected >= count {
            EditorView { selected: (count - 1) as usize, ..self }
        } else {
            self
        }).scrolled()
    }

    pub open spec fn at_row(self, row: usize) -> EditorView {
        (EditorView { selected: row, ..self }).scrolled()
    }

    pub open spec fn searching(self, query: Seq<char>) -> EditorView {
        EditorView { query, selected: 0, scroll: 0, ..self }
    }

    pub open spec fn shortened(self) -> Seq<char> {
        if self.query.len() > 0 {
            self.query.drop_last()
        } else {
            self.query
        }
    }

    pub open spec fn capturing_for(self, append: bool, count: nat) -> EditorView {
        if count > 0 {
            EditorView { capturing: true, append, ..self }
        } else {
            self
        }
    }

    /// What a key does to the editor alone, with `count` rows shown. `None`
    /// closes it.
    pub open spec fn key_pressed(self, key: KeyEvent, count: nat) -> Option<EditorView> {
        match key.code {
            KeyCode::Esc => if self.query.len() > 0 {
                Some(self.searching(Seq::empty()))
            } else {
                None
            },
            KeyCode::Down => Some(
                if count > 0 {
                    self.at_row(around(self.selected as int, 1, count as int) as usize)
                } else {
                    self
                },
            ),
            KeyCode::Up => Some(
                if count > 0 {
                    self.at_row(around(self.selected as int, -1, count as int) as usize)
                } else {
                    self
                },
            ),
            KeyCode::PageDown => Some(
                if count > 0 {
                    self.at_row(
                        if self.selected + 10 < count {
                            (self.selected + 10) as usize
                        } else {
                            (count - 1) as usize
                        },
                    )
                } else {
                    self
                },
            ),
            KeyCode::PageUp => Some(
                self.at_row(
                    if self.selected >= 10 {
                        (self.selected - 10) as usize
                    } else {
                        0
                    },
                ),
            ),
            KeyCode::Enter => Some(self.capturing_for(false, count)),
            KeyCode::Backspace => Some(self.searching(self.shortened())),
            _ => if key.code == KeyCode::Char('a') && key.modifiers.control_only() {
                Some(self.capturing_for(true, count))
            } else {
                match key.types() {
                    Some(c) => Some(self.searching(self.query.push(c))),
                    None => Some(self),
                }
            },
        }
    }
}

/// A switch of the Settings overlay.
#[derive(Debug, Clone, Copy, PartialEq, Eq, Structural)]
pub enum SettingToggle {
    TransparentSshubBackground,
    TransparentSessionBackground,
    OsLogo,
    ConfirmQuit,
    DisableAnimation,
    SessionLogging,
}

/// A row of the Settings overlay.
#[derive(Debug, Clone, Copy, PartialEq, Eq, Structural)]
pub enum SettingItem {
    /// Opens the theme picker.
    Theme,
    Toggle(SettingToggle),
}

/// How many rows the Settings overlay has.
pub const SETTINGS_COUNT: usize = 7;

/// The rows of the Settings overlay, top to bottom.
pub open spec fn setting_row(row: int) -> Option<SettingItem> {
    if row == 0 {
        Some(SettingItem::Theme)
    } else if row == 1 {
        Some(SettingItem::Toggle(SettingToggle::TransparentSshubBackground))
    } else if row == 2 {
        Some(SettingItem::Toggle(SettingToggle::TransparentSessionBackground))
    } else if row == 3 {
        Some(SettingItem::Toggle(SettingToggle::OsLogo))
    } else if row == 4 {
        Some(SettingItem::Toggle(SettingToggle::ConfirmQuit))
    } else if row == 5 {
        Some(SettingItem::Toggle(SettingToggle::DisableAnimation))
    } else if row == 6 {
        Some(SettingItem::Toggle(SettingToggle::SessionLogging))
    } else {
        None
    }
}

fn find_setting(row: usize) -> (r: Option<SettingItem>)
    ensures
        r == setting_row(row as int),
{
    match row {
        0 => Some(SettingItem::Theme),
        1 => Some(SettingItem::Toggle(SettingToggle::TransparentSshubBackground)),
        2 => Some(SettingItem::Toggle(SettingToggle::TransparentSessionBackground)),
        3 => Some(SettingItem::Toggle(SettingToggle::OsLogo)),
        4 => Some(SettingItem::Toggle(SettingToggle::ConfirmQuit)),
        5 => Some(SettingItem::Toggle(SettingToggle::DisableAnimation)),
        6 => Some(SettingItem::Toggle(SettingToggle::SessionLogging)),
        _ => None,
    }
}

impl ConfigView {
    /// The value of a switch.
    pub open spec fn switch(self, toggle: SettingToggle) -> bool {
        match toggle {
            SettingToggle::TransparentSshubBackground =>
                self.appearance.transparent_sshub_background,
            SettingToggle::TransparentSessionBackground =>
                self.appearance.transparent_session_background,
            SettingToggle::OsLogo => self.appearance.os_logo,
            SettingToggle::ConfirmQuit => self.appearance.confirm_quit,
            SettingToggle::DisableAnimation => self.appearance.disable_animation,
            SettingToggle::SessionLogging => self.session_logging,
        }
    }

    /// The configuration with a switch set.
    pub open spec fn switched(self, toggle: SettingToggle, on: bool) -> ConfigView {
        let looks = self.appearance;
        match toggle {
            SettingToggle::TransparentSshubBackground => ConfigView {
                appearance: Appearance { transparent_sshub_background: on, ..looks },
                ..self
            },
            SettingToggle::TransparentSessionBackground => ConfigView {
                appearance: Appearance { transparent_session_background: on, ..looks },
                ..self
            },
            SettingToggle::OsLogo => ConfigView {
                appearance: Appearance { os_logo: on, ..looks },
                ..self
            },
            SettingToggle::ConfirmQuit => ConfigView {
                appearance: Appearance { confirm_quit: on, ..looks },
                ..self
            },
            SettingToggle::DisableAnimation => ConfigView {
                appearance: Appearance { disable_animation: on, ..looks },
                ..self
            },
            SettingToggle::SessionLogging => ConfigView { session_logging: on, ..self },
        }
    }
}

impl AppView {
    pub open spec fn configured(self, config: ConfigView) -> AppView {
        AppView { config, ..self }
    }

    /// A row of the Settings overlay is flipped, if it is a switch.
    pub open spec fn setting_toggled(self, item: SettingItem) -> AppView {
        match item {
            SettingItem::Theme => self,
            SettingItem::Toggle(toggle) => self.configured(
                self.config.switched(toggle, !self.config.switch(toggle)),
            ),
        }
    }

    pub open spec fn at_setting(self, row: usize) -> AppView {
        AppView { settings_selected: row, ..self }
    }

    #[verifier::opaque]
    pub open spec fn settings_key(self, key: KeyEvent) -> AppView {
        let item = setting_row(self.settings_selected as int);
        if self.hits(KeyAction::Cancel, key) {
            self.in_mode(AppMode::Normal)
        } else if self.hits(KeyAction::MoveDown, key) {
            self.at_setting(
                around(self.settings_selected as int, 1, SETTINGS_COUNT as int) as usize,
            )
        } else if self.hits(KeyAction::MoveUp, key) {
            self.at_setting(
                around(self.settings_selected as int, -1, SETTINGS_COUNT as int) as usize,
            )
        } else if key.code is Enter && item == Some(SettingItem::Theme) {
            self.doing(Task::OpenThemePicker)
        } else if key.code is Enter || key.code == KeyCode::Char(' ') {
            match item {
                Some(SettingItem::Toggle(toggle)) => self.setting_toggled(
                    SettingItem::Toggle(toggle),
                ).doing(Task::SaveConfig),
                _ => self,
            }
        } else {
            self
        }
    }

    /// The last row of the theme picker.
    pub open spec fn last_theme(self) -> usize {
        if self.theme_rows > 0 {
            (self.theme_rows - 1) as usize
        } else {
            0
        }
    }

    /// How many rows a page of the theme picker has, at least one.
    pub open spec fn theme_page_spec(self) -> usize {
        if self.theme_page > 0 {
            self.theme_page
        } else {
            1
        }
    }

    /// What a key of the theme picker does. Only Enter writes anything.
    #[verifier::opaque]
    pub open spec fn theme_picker_key(self, key: KeyEvent) -> AppView {
        if self.hits(KeyAction::Cancel, key) {
            self.doing(Task::CancelThemePicker)
        } else if key.code is Enter {
            self.doing(Task::CommitThemePicker)
        } else if key.code == KeyCode::Char('r') {
            self.doing(Task::ReloadThemePicker)
        } else if key.code is Home {
            self.doing(Task::SelectThemeRow(0))
        } else if key.code is End {
            self.doing(Task::SelectThemeRow(self.last_theme()))
        } else if key.code is PageUp {
            self.doing(Task::PageThemeUp(self.theme_page_spec()))
        } else if key.code is PageDown {
            self.doing(Task::PageThemeDown(self.theme_page_spec()))
        } else if key.code is Down && key.modifiers.shift {
            self.doing(Task::ScrollThemeDiagnostics(1))
        } else if key.code is Up && key.modifiers.shift {
            self.doing(Task::ScrollThemeDiagnostics(-1i32))
        } else if self.hits(KeyAction::MoveDown, key) {
            self.doing(Task::MoveThemeSelection(1))
        } else if self.hits(KeyAction::MoveUp, key) {
            self.doing(Task::MoveThemeSelection(-1i32))
        } else {
            self
        }
    }

    /// The actions that the keybinding editor shows.
    pub open spec fn shown_actions(self) -> Seq<KeyAction> {
        let query = match self.keybind_editor {
            Some(editor) => editor.query,
            None => Seq::empty(),
        };
        actions_to(self.config.keybinds, query, self.config.keybinds.len())
    }

    /// The action of the selected row.
    pub open spec fn edited_action(self) -> Option<KeyAction> {
        match self.keybind_editor {
            Some(editor) => if editor.selected < self.shown_actions().len() {
                Some(self.shown_actions()[editor.selected as int])
            } else {
                None
            },
            None => None,
        }
    }

    pub open spec fn with_editor(self, editor: EditorView) -> AppView {
        AppView { keybind_editor: Some(editor), ..self }
    }

    pub open spec fn editor_closed(self) -> AppView {
        AppView { keybind_editor: None, mode: AppMode::Normal, ..self }
    }

    pub open spec fn editor_clamped(self) -> AppView {
        match self.keybind_editor {
            Some(editor) => self.with_editor(editor.clamped(self.shown_actions().len())),
            None => self,
        }
    }

    /// The specs of an action are replaced and the configuration saved.
    pub open spec fn bound(self, action: KeyAction, specs: Seq<Seq<char>>) -> AppView {
        self.configured(
            ConfigView { keybinds: rebound(self.config.keybinds, action, specs), ..self.config },
        ).doing(Task::SaveConfig)
    }

    /// A key pressed while the editor captures: it becomes a binding of the
    /// selected row, unless it is Esc or has no spec.
    pub open spec fn captured(self, editor: EditorView, key: KeyEvent) -> AppView {
        match (spec_of(key), self.edited_action()) {
            (Some(spec), Some(action)) => if key.code is Esc {
                self
            } else {
                self.bound(
                    action,
                    if editor.append {
                        with_spec(specs_of(self.config.keybinds, action), spec)
                    } else {
                        seq![spec]
                    },
                )
            },
            _ => self,
        }
    }

    pub open spec fn capture_ended(self) -> AppView {
        match self.keybind_editor {
            Some(editor) => self.with_editor(EditorView { capturing: false, ..editor }),
            None => self,
        }
    }

    /// The selected row gets its defaults back, or loses its specs.
    pub open spec fn row_reset(self, to_defaults: bool) -> AppView {
        match self.edited_action() {
            Some(action) => self.bound(
                action,
                if to_defaults {
                    defaults_of(self.config.keybinds, action)
                } else {
                    Seq::empty()
                },
            ).editor_clamped(),
            None => self,
        }
    }

    #[verifier::opaque]
    pub open spec fn keybind_editor_key(self, key: KeyEvent) -> AppView {
        match self.keybind_editor {
            None => self.in_mode(AppMode::Normal),
            Some(editor) => if editor.capturing {
                self.captured(editor, key).capture_ended().editor_clamped()
            } else if key.code == KeyCode::Char('r') && key.modifiers.control_only() {
                self.row_reset(true)
            } else if key.code == KeyCode::Char('x') && key.modifiers.control_only() {
                self.row_reset(false)
            } else {
                match editor.key_pressed(key, self.shown_actions().len()) {
                    Some(editor) => self.with_editor(editor),
                    None => self.editor_closed(),
                }
            },
        }
    }

    /// The configured save keys, for form hints.
    pub open spec fn save_label(self) -> Seq<char> {
        let specs = specs_of(self.config.keybinds, KeyAction::Save);
        if specs.len() == 0 {
            "F2"@
        } else {
            slashed(specs)
        }
    }

    pub open spec fn config_save_done(self, outcome: Result<(), Seq<char>>) -> AppView {
        match outcome {
            Ok(_) => self,
            Err(e) => self.notifying("Could not save config: "@ + e),
        }
    }
}

/// Texts with a slash between them.
pub open spec fn slashed(texts: Seq<Seq<char>>) -> Seq<char>
    decreases texts.len(),
{
    if texts.len() == 0 {
        Seq::empty()
    } else if texts.len() == 1 {
        texts[0]
    } else {
        slashed(texts.drop_last()) + "/"@ + texts.last()
    }
}

/// Flipping a setting twice gives the configuration back.
pub proof fn toggling_twice_changes_nothing(app: AppView, item: SettingItem)
    ensures
        app.setting_toggled(item).setting_toggled(item) == app,
{
}

/// Flipping a setting changes that setting and no other.
pub proof fn toggling_changes_one_setting(app: AppView, item: SettingToggle, other: SettingToggle)
    ensures
        ({
            let after = app.setting_toggled(SettingItem::Toggle(item)).config;
            after.switch(other) == (if item == other {
                !app.config.switch(other)
            } else {
                app.config.switch(other)
            })
        }),
{
}

/// After any move the selected row of the keybinding editor is in view.
pub proof fn selected_binding_is_in_view(editor: EditorView, row: usize)
    ensures
        editor.at_row(row).scroll <= editor.at_row(row).selected < editor.at_row(row).scroll
            + VIEWPORT,
{
}

fn any_holds(texts: &Vec<String>, query: &str) -> (r: bool)
    ensures
        r == one_holds(views(texts@), query@),
{
    let ghost all = views(texts@);
    let mut i: usize = 0;
    while i < texts.len()
        invariant
            all == views(texts@),
            i <= texts@.len(),
            forall|k: int| 0 <= k < i ==> !occurs_in(lowercase(#[trigger] all[k]), query@),
        decreases texts@.len() - i,
    {
        assert(all[i as int] == texts@[i as int]@);
        let text = texts[i].as_str().to_lowercase();
        if contains_text(text.as_str(), query) {
            assert(occurs_in(lowercase(all[i as int]), query@));
            return true;
        }
        i = i + 1;
    }
    false
}

fn binding_matches(row: &Binding, query: &str) -> (r: bool)
    ensures
        r == row_matches(row@, query@),
{
    let query = query.to_lowercase();
    if len(query.as_str()) == 0 {
        return true;
    }
    let label = row.label.as_str().to_lowercase();
    contains_text(label.as_str(), query.as_str()) || any_holds(&row.specs, query.as_str())
}

impl KeybindEditor {
    fn clamp_keybind_editor_scroll(&mut self)
        ensures
            final(self)@ == old(self)@.scrolled(),
    {
        if self.selected < self.scroll {
            self.scroll = self.selected;
        } else if self.selected - self.scroll >= VIEWPORT {
            self.scroll = self.selected - (VIEWPORT - 1);
        }
    }

    fn clamp(&mut self, count: usize)
        ensures
            final(self)@ == old(self)@.clamped(count as nat),
    {
        if count == 0 {
            self.selected = 0;
            self.scroll = 0;
        } else if self.selected >= count {
            self.selected = count - 1;
        }
        self.clamp_keybind_editor_scroll();
    }

    fn go_to_row(&mut self, row: usize)
        ensures
            final(self)@ == old(self)@.at_row(row),
    {
        self.selected = row;
        self.clamp_keybind_editor_scroll();
    }

    fn top(&mut self)
        ensures
            final(self)@ == (EditorView { selected: 0, scroll: 0, ..old(self)@ }),
    {
        self.selected = 0;
        self.scroll = 0;
    }

    fn capture(&mut self, append: bool, count: usize)
        ensures
            final(self)@ == old(self)@.capturing_for(append, count as nat),
    {
        if count > 0 {
            self.capturing = true;
            self.append = append;
        }
    }

    fn page_below(&self, count: usize) -> (r: usize)
        requires
            count > 0,
        ensures
            r == if self@.selected + 10 < count {
                self@.selected + 10
            } else {
                count - 1
            },
    {
        if count > 10 && self.selected < count - 10 {
            self.selected + 10
        } else {
            count - 1
        }
    }

    /// Apply a key that concerns the editor alone. Returns whether it stays
    /// open.
    fn press(&mut self, key: KeyEvent, count: usize) -> (r: bool)
        ensures
            match old(self)@.key_pressed(key, count as nat) {
                Some(editor) => r && final(self)@ == editor,
                None => !r,
            },
    {
        match key.code {
            KeyCode::Esc => {
                if len(self.query.as_str()) == 0 {
                    return false;
                }
                self.query = String::new();
                assert(self.query@ =~= Seq::empty());
                self.top();
            },
            KeyCode::Down => {
                if count > 0 {
                    let row: usize = wrapped(self.selected, 1, count);
                    self.go_to_row(row);
                }
            },
            KeyCode::Up => {
                if count > 0 {
                    let row: usize = wrapped(self.selected, -1, count);
                    self.go_to_row(row);
                }
            },
            KeyCode::PageDown => {
                if count > 0 {
                    let row: usize = self.page_below(count);
                    self.go_to_row(row);
                }
            },
            KeyCode::PageUp => {
                let row: usize = if self.selected >= 10 {
                    self.selected - 10
                } else {
                    0
                };
                self.go_to_row(row);
            },
            KeyCode::Enter => self.capture(false, count),
            KeyCode::Backspace => {
                let _ = self.query.pop();
                self.top();
            },
            _ => {
                if key.code == KeyCode::Char('a') && key.modifiers.is_control() {
                    self.capture(true, count);
                } else if let Some(c) = key.typed() {
                    self.query.push(c);
                    self.top();
                }
            },
        }
        true
    }
}

impl AppConfig {
    fn flip(&mut self, toggle: SettingToggle)
        ensures
            final(self)@ == old(self)@.switched(toggle, !old(self)@.switch(toggle)),
    {
        match toggle {
            SettingToggle::TransparentSshubBackground => {
                self.appearance.transparent_sshub_background =
                    !self.appearance.transparent_sshub_background;
            },
            SettingToggle::TransparentSessionBackground => {
                self.appearance.transparent_session_background =
                    !self.appearance.transparent_session_background;
            },
            SettingToggle::OsLogo => {
                self.appearance.os_logo = !self.appearance.os_logo;
            },
            SettingToggle::ConfirmQuit => {
                self.appearance.confirm_quit = !self.appearance.confirm_quit;
            },
            SettingToggle::DisableAnimation => {
                self.appearance.disable_animation = !self.appearance.disable_animation;
            },
            SettingToggle::SessionLogging => {
                self.session_logging = !self.session_logging;
            },
        }
    }
}

impl App {
    /// Actions visible in the keybinding editor under the current filter query.
    pub fn filtered_keybind_actions(&self) -> (r: Vec<KeyAction>)
        ensures
            r@ == self@.shown_actions(),
    {
        let query = match &self.keybind_editor {
            Some(editor) => editor.query.clone(),
            None => String::new(),
        };
        assert(self@.keybind_editor is None ==> query@ =~= Seq::empty());
        let ghost rows = self@.config.keybinds;
        let mut out: Vec<KeyAction> = Vec::new();
        let mut i: usize = 0;
        while i < self.config.keybinds.rows.len()
            invariant
                rows == views(self.config.keybinds.rows@),
                i <= self.config.keybinds.rows@.len(),
                out@ == actions_to(rows, query@, i as nat),
            decreases self.config.keybinds.rows@.len() - i,
        {
            assert(rows[i as int] == self.config.keybinds.rows@[i as int]@);
            if binding_matches(&self.config.keybinds.rows[i], query.as_str()) {
                out.push(self.config.keybinds.rows[i].action);
            }
            i = i + 1;
        }
        out
    }

    fn find_edited_action(&self) -> (r: Option<KeyAction>)
        ensures
            r == self@.edited_action(),
    {
        let actions = self.filtered_keybind_actions();
        match &self.keybind_editor {
            Some(editor) => if editor.selected < actions.len() {
                Some(actions[editor.selected])
            } else {
                None
            },
            None => None,
        }
    }

    fn clamp_keybind_editor_selection(&mut self)
        ensures
            final(self)@ == old(self)@.editor_clamped(),
    {
        let count: usize = self.filtered_keybind_actions().len();
        if let Some(editor) = &mut self.keybind_editor {
            editor.clamp(count);
        }
    }

    fn bind(&mut self, action: KeyAction, specs: Vec<String>)
        ensures
            final(self)@ == old(self)@.bound(action, views(specs@)),
    {
        self.config.keybinds.set(action, specs);
        self.save_config_quietly();
    }

    fn capture_key(&mut self, key: KeyEvent)
        requires
            old(self)@.keybind_editor is Some,
        ensures
            final(self)@ == old(self)@.captured(old(self)@.keybind_editor->0, key),
    {
        if key.code == KeyCode::Esc {
            return;
        }
        let append = match &self.keybind_editor {
            Some(editor) => editor.append,
            None => false,
        };
        if let Some(spec) = keyevent_to_spec(&key) {
            if let Some(action) = self.find_edited_action() {
                let mut specs: Vec<String> = Vec::new();
                if append {
                    specs = self.config.keybinds.binds(action);
                    if !crate::app::connect::holds_name(&specs, spec.as_str()) {
                        specs.push(spec);
                    }
                } else {
                    specs.push(spec);
                    assert(views(specs@) =~= seq![spec@]);
                }
                self.bind(action, specs);
            }
        }
    }

    fn end_capture(&mut self)
        ensures
            final(self)@ == old(self)@.capture_ended(),
    {
        if let Some(editor) = &mut self.keybind_editor {
            editor.capturing = false;
        }
    }

    fn reset_row(&mut self, to_defaults: bool)
        ensures
            final(self)@ == old(self)@.row_reset(to_defaults),
    {
        if let Some(action) = self.find_edited_action() {
            let specs = if to_defaults {
                self.config.keybinds.defaults(action)
            } else {
                Vec::new()
            };
            self.bind(action, specs);
            self.clamp_keybind_editor_selection();
        }
    }

    fn close_editor(&mut self)
        ensures
            final(self)@ == old(self)@.editor_closed(),
    {
        self.keybind_editor = None;
        self.mode = AppMode::Normal;
    }

    fn press_editor(&mut self, key: KeyEvent)
        requires
            old(self)@.keybind_editor is Some,
        ensures
            final(self)@ == match old(self)@.keybind_editor->0.key_pressed(
                key,
                old(self)@.shown_actions().len(),
            ) {
                Some(editor) => old(self)@.with_editor(editor),
                None => old(self)@.editor_closed(),
            },
    {
        let count: usize = self.filtered_keybind_actions().len();
        let open = match &mut self.keybind_editor {
            Some(editor) => editor.press(key, count),
            None => true,
        };
        if !open {
            self.close_editor();
        }
    }

    /// Keys of the keybinding editor.
    pub fn handle_key_keybind_editor(&mut self, key: KeyEvent)
        ensures
            final(self)@ == old(self)@.keybind_editor_key(key),
    {
        reveal(AppView::keybind_editor_key);

        let capturing = match &self.keybind_editor {
            Some(editor) => editor.capturing,
            None => {
                self.set_mode(AppMode::Normal);
                return;
            },
        };
        if capturing {
            self.capture_key(key);
            self.end_capture();
            self.clamp_keybind_editor_selection();
        } else if key.code == KeyCode::Char('r') && key.modifiers.is_control() {
            self.reset_row(true);
        } else if key.code == KeyCode::Char('x') && key.modifiers.is_control() {
            self.reset_row(false);
        } else {
            self.press_editor(key);
        }
    }

    /// Current value of a Settings row: `Some` for a switch, `None` for a row
    /// that opens something.
    pub fn setting_value(&self, item: SettingItem) -> (r: Option<bool>)
        ensures
            r == match item {
                SettingItem::Theme => None,
                SettingItem::Toggle(toggle) => Some(self@.config.switch(toggle)),
            },
    {
        let looks = &self.config.appearance;
        match item {
            SettingItem::Theme => None,
            SettingItem::Toggle(toggle) => Some(
                match toggle {
                    SettingToggle::TransparentSshubBackground =>
                        looks.transparent_sshub_background,
                    SettingToggle::TransparentSessionBackground =>
                        looks.transparent_session_background,
                    SettingToggle::OsLogo => looks.os_logo,
                    SettingToggle::ConfirmQuit => looks.confirm_quit,
                    SettingToggle::DisableAnimation => looks.disable_animation,
                    SettingToggle::SessionLogging => self.config.session_logging,
                },
            ),
        }
    }

    /// Flip a Settings row, reporting whether anything changed. Saving is the
    /// caller's job.
    pub fn toggle_setting(&mut self, item: SettingItem) -> (r: bool)
        ensures
            final(self)@ == old(self)@.setting_toggled(item),
            r == (item is Toggle),
    {
        match item {
            SettingItem::Theme => false,
            SettingItem::Toggle(toggle) => {
                self.config.flip(toggle);
                true
            },
        }
    }

    fn go_to_setting(&mut self, row: usize)
        ensures
            final(self)@ == old(self)@.at_setting(row),
    {
        self.settings_selected = row;
    }

    /// Keys of the Settings overlay.
    pub fn handle_key_settings(&mut self, key: KeyEvent)
        ensures
            final(self)@ == old(self)@.settings_key(key),
    {
        reveal(AppView::settings_key);

        let item = find_setting(self.settings_selected);
        let enter = key.code == KeyCode::Enter;
        if self.is_action(KeyAction::Cancel, &key) {
            self.set_mode(AppMode::Normal);
        } else if self.is_action(KeyAction::MoveDown, &key) {
            let row: usize = wrapped(self.settings_selected, 1, SETTINGS_COUNT);
            self.go_to_setting(row);
        } else if self.is_action(KeyAction::MoveUp, &key) {
            let row: usize = wrapped(self.settings_selected, -1, SETTINGS_COUNT);
            self.go_to_setting(row);
        } else if enter || key.code == KeyCode::Char(' ') {
            match item {
                Some(SettingItem::Theme) => {
                    if enter {
                        self.perform(Task::OpenThemePicker);
                    }
                },
                Some(SettingItem::Toggle(toggle)) => {
                    let _ = self.toggle_setting(SettingItem::Toggle(toggle));
                    self.save_config_quietly();
                },
                None => {},
            }
        }
    }

    /// Keys of the theme picker.
    pub fn handle_key_theme_picker(&mut self, key: KeyEvent)
        ensures
            final(self)@ == old(self)@.theme_picker_key(key),
    {
        reveal(AppView::theme_picker_key);

        let page: usize = if self.theme_page > 0 {
            self.theme_page
        } else {
            1
        };
        let last: usize = if self.theme_rows > 0 {
            self.theme_rows - 1
        } else {
            0
        };
        let task = if self.is_action(KeyAction::Cancel, &key) {
            Task::CancelThemePicker
        } else {
            match key.code {
                KeyCode::Enter => Task::CommitThemePicker,
                KeyCode::Char('r') => Task::ReloadThemePicker,
                KeyCode::Home => Task::SelectThemeRow(0),
                KeyCode::End => Task::SelectThemeRow(last),
                KeyCode::PageUp => Task::PageThemeUp(page),
                KeyCode::PageDown => Task::PageThemeDown(page),
                _ => {
                    if key.code == KeyCode::Down && key.modifiers.shift {
                        Task::ScrollThemeDiagnostics(1)
                    } else if key.code == KeyCode::Up && key.modifiers.shift {
                        Task::ScrollThemeDiagnostics(-1)
                    } else if self.is_action(KeyAction::MoveDown, &key) {
                        Task::MoveThemeSelection(1)
                    } else if self.is_action(KeyAction::MoveUp, &key) {
                        Task::MoveThemeSelection(-1)
                    } else {
                        return;
                    }
                },
            }
        };
        self.perform(task);
    }

    /// Have the configuration saved.
    pub fn save_config_quietly(&mut self)
        ensures
            final(self)@ == old(self)@.doing(Task::SaveConfig),
    {
        self.perform(Task::SaveConfig);
    }

    /// The configuration was saved, or not. A failure is said, and not fatal.
    pub fn config_saved(&mut self, outcome: Result<(), String>)
        ensures
            final(self)@ == old(self)@.config_save_done(
                match outcome {
                    Ok(_) => Ok(()),
                    Err(e) => Err(e@),
                },
            ),
    {
        if let Err(e) = outcome {
            self.notify(cat2("Could not save config: ", e.as_str()));
        }
    }

    /// Short human label of the configured save keys, e.g. `"F2/Ctrl+S"`.
    pub fn save_key_label(&self) -> (r: String)
        ensures
            r@ == self@.save_label(),
    {
        let specs = self.config.keybinds.binds(KeyAction::Save);
        if specs.len() == 0 {
            return "F2".to_owned();
        }
        let ghost all = views(specs@);
        let mut out = specs[0].clone();
        let mut i: usize = 1;
        assert(all.take(1)[0] == specs@[0]@);
        while i < specs.len()
            invariant
                all == views(specs@),
                1 <= i <= specs@.len(),
                out@ == slashed(all.take(i as int)),
            decreases specs@.len() - i,
        {
            assert(all.take(i + 1).drop_last() =~= all.take(i as int));
            assert(all.take(i + 1).last() == specs@[i as int]@);
            out = crate::text::cat3(out.as_str(), "/", specs[i].as_str());
            i = i + 1;
        }
        assert(all.take(specs@.len() as int) =~= all);
        out
    }

    /// Whether `key` matches the configured "save" binding.
    pub fn is_save_key(&self, key: &KeyEvent) -> (r: bool)
        ensures
            r == self@.hits(KeyAction::Save, *key),
    {
        self.is_action(KeyAction::Save, key)
    }
}

} // verus!
