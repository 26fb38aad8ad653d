//! What the settings and the keybinding editor bring about.

use vstd::prelude::*;

use crate::app::effects::{EffectView, Task};
use crate::app::settings::{actions_to, row_matches, setting_row, SettingItem, SettingToggle};
use crate::app::state::EditorView;
use crate::app::AppView;
use crate::keybind_laws::{
    added_specs_join_the_others, captured_specs_tell_keys_apart, rebinding_changes_one_action,
    same_key,
};
use crate::keybinds::{
    as_written, defaults_of, spec_fits, spec_of, specs_of, triggers, with_spec, BindingView,
    KeyAction, KeyEvent,
};

verus! {

/// Each switch of the settings is the setting that it is named after, and
/// flipping it flips that one.
pub proof fn switches_flip_what_they_name(app: AppView)
    ensures
        ({
            let looks = app.config.appearance;
            let quit = app.setting_toggled(SettingItem::Toggle(SettingToggle::ConfirmQuit)).config;
            let still = app.setting_toggled(
                SettingItem::Toggle(SettingToggle::DisableAnimation),
            ).config;
            let logo = app.setting_toggled(SettingItem::Toggle(SettingToggle::OsLogo)).config;
            let clear = app.setting_toggled(
                SettingItem::Toggle(SettingToggle::TransparentSshubBackground),
            ).config;
            let glass = app.setting_toggled(
                SettingItem::Toggle(SettingToggle::TransparentSessionBackground),
            ).config;
            let log = app.setting_toggled(
                SettingItem::Toggle(SettingToggle::SessionLogging),
            ).config;
            &&& quit.appearance.confirm_quit == !looks.confirm_quit
            &&& still.appearance.disable_animation == !looks.disable_animation
            &&& logo.appearance.os_logo == !looks.os_logo
            &&& clear.appearance.transparent_sshub_background
                == !looks.transparent_sshub_background
            &&& glass.appearance.transparent_session_background
                == !looks.transparent_session_background
            &&& log.session_logging == !app.config.session_logging
            &&& quit.keybinds == app.config.keybinds
            &&& log.appearance == looks
            &&& app.config.switch(SettingToggle::ConfirmQuit) == looks.confirm_quit
            &&& app.config.switch(SettingToggle::SessionLogging) == app.config.session_logging
        }),
{
}

/// A question before quitting is asked exactly as long as it is switched on.
pub proof fn quitting_asks_as_it_is_set(app: AppView)
    requires
        !(app.mode is ConfirmQuit),
        !app.should_quit,
    ensures
        ({
            let other = app.setting_toggled(SettingItem::Toggle(SettingToggle::ConfirmQuit));
            &&& app.quit_requested().should_quit != other.quit_requested().should_quit
            &&& app.quit_requested().should_quit <==> !app.config.appearance.confirm_quit
            &&& app.quit_requested().should_quit <==> !(app.quit_requested().mode is ConfirmQuit)
            &&& app.quit_forced().should_quit <==> app.quit_requested().should_quit
        }),
{
    reveal(AppView::quit_requested);
}

/// Enter or the space bar flips the switch on the selected row and saves it; on
/// the theme row Enter opens the picker. Every switch has its own row.
pub proof fn settings_are_flipped_on_their_row(app: AppView, key: KeyEvent, other: int)
    requires
        key.code is Enter,
        !app.hits(KeyAction::Cancel, key),
        !app.hits(KeyAction::MoveDown, key),
        !app.hits(KeyAction::MoveUp, key),
    ensures
        ({
            let after = app.settings_key(key);
            let item = setting_row(app.settings_selected as int);
            &&& item matches Some(SettingItem::Toggle(toggle)) ==> {
                &&& after.config.switch(toggle) == !app.config.switch(toggle)
                &&& after.effects == app.effects.push(EffectView::Do(Task::SaveConfig))
            }
            &&& item == Some(SettingItem::Theme) ==> after.config == app.config && after.effects
                == app.effects.push(EffectView::Do(Task::OpenThemePicker))
            &&& item is Some && other != app.settings_selected as int ==> setting_row(other)
                != item
        }),
{
    reveal(AppView::settings_key);
}

proof fn lemma_actions(rows: Seq<BindingView>, query: Seq<char>, n: nat, k: int)
    requires
        n <= rows.len(),
        0 <= k < actions_to(rows, query, n).len(),
    ensures
        exists|i: int|
            0 <= i < n && (#[trigger] rows[i]).action == actions_to(rows, query, n)[k]
                && row_matches(rows[i], query),
    decreases n,
{
    let m = (n - 1) as nat;
    let before = actions_to(rows, query, m);
    if k < before.len() {
        lemma_actions(rows, query, m, k);
        let i = choose|i: int|
            0 <= i < m && (#[trigger] rows[i]).action == before[k] && row_matches(rows[i], query);
        assert(rows[i].action == actions_to(rows, query, n)[k]);
    } else {
        assert(rows[n - 1].action == actions_to(rows, query, n)[k]);
    }
}

/// A key that is captured for an action triggers that action from then on. It is
/// the only one that does, unless it was to be added, when those that did still
/// do. No other action is touched.
pub proof fn captured_keys_trigger_their_action(
    app: AppView,
    editor: EditorView,
    key: KeyEvent,
    action: KeyAction,
    other: KeyAction,
    press: KeyEvent,
)
    requires
        app.keybind_editor == Some(editor),
        app.edited_action() == Some(action),
        spec_of(key) is Some,
        !(key.code is Esc),
    ensures
        ({
            let rows = app.config.keybinds;
            let after = app.captured(editor, key).config.keybinds;
            &&& triggers(after, action, as_written(key))
            &&& !editor.append ==> (triggers(after, action, press) <==> same_key(
                as_written(key),
                press,
            ))
            &&& editor.append ==> (triggers(after, action, press) <==> triggers(
                rows,
                action,
                press,
            ) || same_key(as_written(key), press))
            &&& other != action ==> (triggers(after, other, press) <==> triggers(
                rows,
                other,
                press,
            ))
        }),
{
    let rows = app.config.keybinds;
    let spec = spec_of(key)->0;
    let had = specs_of(rows, action);
    let specs = if editor.append {
        with_spec(had, spec)
    } else {
        seq![spec]
    };
    lemma_actions(rows, editor.query, rows.len(), editor.selected as int);
    rebinding_changes_one_action(rows, action, other, specs, press);
    rebinding_changes_one_action(rows, action, other, specs, as_written(key));
    captured_specs_tell_keys_apart(key, press);
    captured_specs_tell_keys_apart(key, as_written(key));
    added_specs_join_the_others(had, spec);
    assert(specs.contains(spec)) by {
        assert(seq![spec][0] == spec);
    }
    let at = choose|i: int| 0 <= i < specs.len() && specs[i] == spec;
    assert(spec_fits(specs[at], as_written(key)));
    if editor.append {
        if triggers(rows, action, press) {
            let i = choose|i: int| 0 <= i < had.len() && #[trigger] spec_fits(had[i], press);
            assert(specs[i] == had[i]);
            assert(spec_fits(specs[i], press));
        }
        if same_key(as_written(key), press) {
            assert(spec_fits(specs[at], press));
        }
        if exists|i: int| 0 <= i < specs.len() && #[trigger] spec_fits(specs[i], press) {
            let i = choose|i: int| 0 <= i < specs.len() && #[trigger] spec_fits(specs[i], press);
            if i < had.len() {
                assert(spec_fits(had[i], press));
            } else {
                assert(specs[i] == spec);
            }
        }
    } else {
        if same_key(as_written(key), press) {
            assert(spec_fits(specs[0], press));
        }
    }
}

/// A row that is reset has its defaults again; one that is cleared is triggered
/// by no key. No other action is touched.
pub proof fn reset_rows_have_their_defaults(
    app: AppView,
    action: KeyAction,
    other: KeyAction,
    press: KeyEvent,
)
    requires
        app.edited_action() == Some(action),
    ensures
        ({
            let rows = app.config.keybinds;
            let reset = app.row_reset(true).config.keybinds;
            let cleared = app.row_reset(false).config.keybinds;
            &&& specs_of(reset, action) == defaults_of(rows, action)
            &&& !triggers(cleared, action, press)
            &&& other != action ==> specs_of(reset, other) == specs_of(rows, other)
            &&& other != action ==> specs_of(cleared, other) == specs_of(rows, other)
        }),
{
    let rows = app.config.keybinds;
    let editor = app.keybind_editor->0;
    lemma_actions(rows, editor.query, rows.len(), editor.selected as int);
    rebinding_changes_one_action(rows, action, other, defaults_of(rows, action), press);
    rebinding_changes_one_action(rows, action, other, Seq::empty(), press);
}

/// Esc while a key is captured binds nothing.
pub proof fn escape_captures_nothing(app: AppView, editor: EditorView, key: KeyEvent)
    requires
        app.keybind_editor == Some(editor),
        editor.capturing,
        key.code is Esc,
    ensures
        app.keybind_editor_key(key).config == app.config,
        app.keybind_editor_key(key).effects == app.effects,
        app.keybind_editor_key(key).keybind_editor matches Some(after) && !after.capturing,
{
    reveal(AppView::keybind_editor_key);
}

} // verus!
