//! What becomes of sessions, and what is recorded of them.

use vstd::prelude::*;

use crate::app::connect::{lookup_line, SecretOwner};
use crate::app::effects::EffectView;
use crate::app::state::{FormKind, HelpView, OpenForms, SessionView};
use crate::app::util::tab_from_x;
use crate::app::AppView;
use crate::hosts::HostEntry;
use crate::keybinds::{KeyCode, KeyEvent};

verus! {

/// A session that opens is put behind the others and is the one that is shown.
pub proof fn opened_sessions_are_shown(app: AppView, session: SessionView)
    requires
        app.sessions.len() < usize::MAX,
    ensures
        ({
            let after = app.session_opened(session);
            &&& after.sessions.drop_last() == app.sessions
            &&& after.active_session matches Some(active)
            &&& active == app.sessions.len()
            &&& after.sessions[active as int] == session
        }),
{
    assert(app.session_opened(session).sessions.drop_last() =~= app.sessions);
}

/// A session in the background that goes takes no other with it: the one that is
/// shown stays shown.
pub proof fn the_shown_session_stays_shown(app: AppView, idx: int, active: usize)
    requires
        app.active_session == Some(active),
        0 <= idx < app.sessions.len() <= usize::MAX,
        active < app.sessions.len(),
        idx != active,
    ensures
        ({
            let after = app.without_session(idx);
            &&& after.sessions.len() == app.sessions.len() - 1
            &&& after.active_session matches Some(now)
            &&& now < after.sessions.len()
            &&& after.sessions[now as int] == app.sessions[active as int]
        }),
{
}

/// An editor that ends is noticed with what it ended in, once: its edit no
/// longer has a session. One that runs on is left alone.
pub proof fn ended_editors_are_noticed_once(app: AppView, idx: usize)
    requires
        app.remote_edit matches Some(edit) && edit.editor_session == Some(idx),
        idx < app.sessions.len() <= usize::MAX,
    ensures
        ({
            let after = app.editor_ticked();
            let exited = app.sessions[idx as int].exited;
            &&& exited is None ==> after == app
            &&& exited matches Some(ended) ==> {
                &&& after.effects.last() matches EffectView::EditorClosed { status, .. }
                &&& status == ended
                &&& after.remote_edit matches Some(edit)
                &&& edit.editor_session is None
                &&& after.editor_ticked() == after
            }
        }),
{
}

/// What is recorded of a push names the host, who is logged in to as and how the
/// host is reached: through another where it has a jump host.
pub proof fn pushes_are_recorded_under_their_host(
    app: AppView,
    host: usize,
    identity: Seq<char>,
    session: SessionView,
)
    requires
        host < app.hosts.len(),
    ensures
        ({
            let entry = app.hosts[host as int];
            let after = app.push_launched(host, identity, session);
            &&& after.effects.len() == app.effects.len() + 1
            &&& after.effects.last() matches EffectView::LogAuthEvent { host: name, user, via, .. }
            &&& name == entry.name_spec()@
            &&& entry matches HostEntry::Managed(m) ==> {
                &&& m.username matches Some(own) ==> user == Some(own@)
                &&& m.username is None ==> (m.identity matches Some(identity) ==> {
                    &&& identity.username matches Some(theirs) ==> user == Some(theirs@)
                    &&& identity.username is None ==> user is None
                })
                &&& m.proxy_jump matches Some(jump) ==> via == jump@
                &&& m.proxy_jump is None ==> via == seq!['d', 'i', 'r', 'e', 'c', 't']
            }
        }),
{
    reveal_strlit("direct");
    assert("direct"@ =~= seq!['d', 'i', 'r', 'e', 'c', 't']);
}

/// What is said of a secret that was found does not tell the secret.
pub proof fn secrets_are_not_told(
    owner: SecretOwner,
    key: Seq<char>,
    one: String,
    other: String,
    prompt: Seq<char>,
    failing: Seq<char>,
)
    ensures
        lookup_line(owner, key, Ok(Some(one)), prompt, failing) == lookup_line(
            owner,
            key,
            Ok(Some(other)),
            prompt,
            failing,
        ),
{
}

/// An entry of the host list is called by its label where it has one, and by its
/// name otherwise; what is known of it is its own.
pub proof fn entries_are_called_by_their_label(entry: HostEntry)
    ensures
        entry matches HostEntry::Managed(m) ==> {
            &&& entry.name_spec() == m.name
            &&& entry.display_spec() == if m.label is Some {
                m.label->0
            } else {
                m.name
            }
            &&& entry.last_connected_spec() == m.last_connected
            &&& entry.favorite_spec() == m.favorite
            &&& entry.sort_order_spec() == m.sort_order
            &&& entry.group_ids_spec() == m.group_ids@
            &&& entry.managed_spec() == Some(m)
        },
        entry matches HostEntry::Legacy { host, meta } ==> {
            &&& entry.name_spec() == host.name
            &&& entry.display_spec() == if meta.label is Some {
                meta.label->0
            } else {
                host.name
            }
            &&& entry.last_connected_spec() == meta.last_connected
            &&& entry.favorite_spec() == meta.favorite
            &&& entry.managed_spec() is None
        },
{
}

/// The palette opens on every host, in their order, the first one selected.
pub proof fn the_palette_opens_on_every_host(app: AppView)
    requires
        app.hosts.len() <= usize::MAX,
    ensures
        ({
            let palette = app.palette_opened().palette;
            &&& palette.results.len() == app.hosts.len()
            &&& forall|i: int|
                0 <= i < app.hosts.len() ==> #[trigger] palette.results[i] == i
            &&& palette.selected == 0
            &&& palette.query.len() == 0
        }),
{
}

/// The help scrolls by lines and by pages, no further than its ends; a search in
/// it starts at the top, and Esc leaves the search before it leaves the help.
pub proof fn the_help_scrolls_within_its_ends(help: HelpView, key: KeyEvent)
    requires
        help.scroll <= help.max_scroll,
    ensures
        help.key_pressed(key) matches Some(after) ==> after.scroll <= help.max_scroll,
        key.code is Down ==> (help.key_pressed(key) matches Some(after) && after.scroll == if
            help.scroll < help.max_scroll {
            help.scroll + 1
        } else {
            help.scroll as int
        }),
        key.code is Up ==> (help.key_pressed(key) matches Some(after) && after.scroll == if
            help.scroll > 0 {
            help.scroll - 1
        } else {
            0
        }),
        key.code is Home ==> (help.key_pressed(key) matches Some(after) && after.scroll == 0),
        key.code is End ==> (help.key_pressed(key) matches Some(after) && after.scroll
            == help.max_scroll),
        key.code is Esc ==> (help.key_pressed(key) is None <==> help.query.len() == 0),
        key.code is Char ==> (help.key_pressed(key) matches Some(after) && (key.types() matches
            Some(c) ==> after.query == help.query.push(c) && after.scroll == 0)),
{
}

/// A panel that scrolls down and up again is where it was; the log counts its
/// lines from the latest, so that there down leads to the latest.
pub proof fn panels_scroll_down_and_up(app: AppView, step: u16)
    requires
        app.panels.scroll + step <= u16::MAX,
        app.ssh_log_scroll + step <= usize::MAX,
    ensures
        !(app.panels.focused is SshLog) ==> {
            &&& app.panel_scrolled(true, step).panels.scroll == app.panels.scroll + step
            &&& app.panel_scrolled(true, step).panel_scrolled(false, step) == app
        },
        app.panels.focused is SshLog ==> {
            &&& app.panel_scrolled(false, step).ssh_log_scroll == app.ssh_log_scroll + step
            &&& app.panel_scrolled(false, step).panel_scrolled(true, step) == app
        },
{
}

/// A key of the agent is removed by the path that its comment is; one without a
/// comment is not.
pub proof fn agent_keys_are_removed_by_their_path(app: AppView, comment: Seq<char>)
    ensures
        comment.len() > 0 ==> app.agent_key_shown(Some(comment)).effects == app.effects.push(
            EffectView::RemoveAgentKey(comment),
        ),
        comment.len() == 0 ==> app.agent_key_shown(Some(comment)).effects == app.effects,
        app.agent_key_shown(None) == app,
{
}

/// Of the forms that are open the one that is asked about is open.
pub proof fn asked_forms_are_open(forms: OpenForms)
    ensures
        forms.asked_spec() matches Some(form) ==> forms.holds_spec(form),
        forms.asked_spec() is None <==> !forms.host && !forms.identity && !forms.keygen
            && !forms.tunnel,
        forms.holds_spec(FormKind::Host) == forms.host,
        forms.holds_spec(FormKind::Identity) == forms.identity,
        forms.holds_spec(FormKind::Keygen) == forms.keygen,
        forms.holds_spec(FormKind::Tunnel) == forms.tunnel,
{
}

/// The audit events are loaded at first, and again only once they are old.
pub proof fn audit_events_are_not_loaded_twice(app: AppView, count: usize)
    ensures
        app.auth_cache_updated is None ==> app.auth_cache_due(),
        !app.auth_cache_taken(count).auth_cache_due(),
        app.auth_cache_taken(count).audit_count == count,
        count > 0 ==> app.auth_cache_taken(count).audit_selected < count,
        app.auth_cache_due() || app.auth_cache_refreshed() == app,
{
}

/// The tabs stand side by side in their order: a column further to the right is
/// never under an earlier tab, and between two columns with a tab none is
/// without one.
pub proof fn tabs_stand_side_by_side(
    x: u16,
    y: u16,
    z: u16,
    first: Option<usize>,
    second: Option<usize>,
    third: Option<usize>,
)
    requires
        x <= y <= z,
        call_ensures(tab_from_x, (x,), first),
        call_ensures(tab_from_x, (y,), second),
        call_ensures(tab_from_x, (z,), third),
    ensures
        first is Some && third is Some ==> second is Some && first->0 <= second->0 <= third->0,
        first matches Some(tab) ==> tab < 5,
{
}

} // verus!
