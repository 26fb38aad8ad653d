//! Moving the selection, switching tabs, asking for help, quitting.

use vstd::arithmetic::div_mod::{lemma_add_mod_noop, lemma_small_mod, lemma_sub_mod_noop};
use vstd::prelude::*;

use crate::app::effects::Task;
use crate::app::group_tree::{HostGroupSection, SectionView};
use crate::app::state::{AppMode, Help, HelpView, NavRow};
use crate::app::{App, AppView};
use crate::keybinds::{KeyAction, KeyEvent};
use crate::text::views;

verus! {

broadcast use crate::text::group_views;

/// `at` moved by `delta` in a ring of `len` places.
pub open spec fn around(at: int, delta: int, len: int) -> int {
    (at + delta) % len
}

/// Move in a ring.
pub fn wrapped(at: usize, delta: i32, len: usize) -> (r: usize)
    requires
        len > 0,
    ensures
        r == around(at as int, delta as int, len as int),
        r < len,
{
    let here: usize = at % len;
    if delta >= 0 {
        let shift: usize = (delta as usize) % len;
        proof {
            lemma_add_mod_noop(at as int, delta as int, len as int);
        }
        if here < len - shift {
            proof {
                lemma_small_mod((here + shift) as nat, len as nat);
            }
            here + shift
        } else {
            proof {
                lemma_small_mod((here + shift - len) as nat, len as nat);
                vstd::arithmetic::div_mod::lemma_mod_add_multiples_vanish(
                    here + shift - len,
                    len as int,
                );
            }
            here - (len - shift)
        }
    } else {
        let back: u32 = (-(delta as i64)) as u32;
        let shift: usize = (back as usize) % len;
        proof {
            lemma_sub_mod_noop(at as int, back as int, len as int);
        }
        if here >= shift {
            proof {
                lemma_small_mod((here - shift) as nat, len as nat);
            }
            here - shift
        } else {
            proof {
                lemma_small_mod((here - shift + len) as nat, len as nat);
                vstd::arithmetic::div_mod::lemma_mod_add_multiples_vanish(
                    here - shift,
                    len as int,
                );
            }
            len - (shift - here)
        }
    }
}

/// Going round by one step and back ends where it began.
pub proof fn steps_round_a_ring_cancel(at: int, delta: int, len: int)
    requires
        0 <= at < len,
    ensures
        around(around(at, delta, len), -delta, len) == at,
{
    lemma_add_mod_noop(at + delta, -delta, len);
    lemma_add_mod_noop((at + delta) % len, -delta, len);
    vstd::arithmetic::div_mod::lemma_mod_twice(at + delta, len);
    lemma_small_mod(at as nat, len as nat);
}

/// The positions of the group headers among the first `n` rows.
pub open spec fn headers_to(rows: Seq<NavRow>, n: nat) -> Seq<usize>
    decreases n,
{
    if n == 0 || n > rows.len() {
        Seq::empty()
    } else {
        let before = headers_to(rows, (n - 1) as nat);
        if rows[n - 1] is Header {
            before.push((n - 1) as usize)
        } else {
            before
        }
    }
}

/// The positions of the group headers.
pub open spec fn headers(rows: Seq<NavRow>) -> Seq<usize> {
    headers_to(rows, rows.len())
}

/// The first of these sections that shows a host.
pub open spec fn section_with(sections: Seq<SectionView>, host: usize) -> Option<int>
    decreases sections.len(),
{
    if sections.len() == 0 {
        None
    } else {
        match section_with(sections.drop_last(), host) {
            Some(i) => Some(i),
            None => if sections.last().hosts.contains(host) {
                Some(sections.len() - 1)
            } else {
                None
            },
        }
    }
}

/// The first of these rows that is the header of a section, else the first.
pub open spec fn header_of(rows: Seq<NavRow>, positions: Seq<usize>, section: int) -> int
    decreases positions.len(),
{
    if positions.len() == 0 {
        0
    } else {
        let before = header_of(rows, positions.drop_last(), section);
        let known = exists|i: int|
            0 <= i < positions.len() - 1 && heads(rows[#[trigger] positions[i] as int], section);
        if known {
            before
        } else if heads(rows[positions.last() as int], section) {
            positions.len() - 1
        } else {
            0
        }
    }
}

/// Whether a row is the header of a section.
pub open spec fn heads(row: NavRow, section: int) -> bool {
    row matches NavRow::Header(i) && i == section
}

impl AppView {
    pub open spec fn selecting(self, row: usize) -> AppView {
        AppView { selected: row, ..self }
    }

    /// The selection moves and wraps around at both ends.
    #[verifier::opaque]
    pub open spec fn selection_moved(self, delta: int) -> AppView {
        self.selecting(
            if self.nav_rows.len() == 0 {
                0
            } else {
                around(self.selected as int, delta, self.nav_rows.len() as int) as usize
            },
        )
    }

    /// The section that the selection is in, or the first.
    pub open spec fn selected_section(self) -> int {
        if self.selected < self.nav_rows.len() {
            match self.nav_rows[self.selected as int] {
                NavRow::Header(section) => section as int,
                NavRow::Host(host) => match section_with(self.group_sections, host) {
                    Some(section) => section,
                    None => 0,
                },
            }
        } else {
            0
        }
    }

    /// The selection jumps to the header of a group before or behind the one it
    /// is in. Without groups it stays.
    #[verifier::opaque]
    pub open spec fn selection_moved_by_group(self, delta: int) -> AppView {
        let positions = headers(self.nav_rows);
        if self.groups.len() == 0 || positions.len() == 0 {
            self
        } else {
            let here = header_of(self.nav_rows, positions, self.selected_section());
            self.selecting(positions[around(here, delta, positions.len() as int)])
        }
    }

    /// Quitting begins: with a question, unless that is switched off.
    #[verifier::opaque]
    pub open spec fn quit_requested(self) -> AppView {
        if !self.config.appearance.confirm_quit {
            AppView { should_quit: true, ..self }
        } else if self.mode is ConfirmQuit {
            self
        } else {
            AppView { pre_quit_mode: Some(self.mode), mode: AppMode::ConfirmQuit, ..self }
        }
    }

    #[verifier::opaque]
    pub open spec fn help_opened(self) -> AppView {
        AppView {
            mode: AppMode::Help,
            help: HelpView {
                return_to: Some(self.mode),
                scroll: 0,
                query: Seq::empty(),
                ..self.help
            },
            ..self
        }
    }

    pub open spec fn on_tab(self, tab: usize) -> AppView {
        AppView { active_tab: tab, ..self }
    }

    /// Where a tab key leads, if it is one.
    pub open spec fn tab_switched(self, key: KeyEvent) -> Option<AppView> {
        if self.hits(KeyAction::TabHosts, key) {
            Some(self.on_tab(0))
        } else if self.hits(KeyAction::TabSftp, key) {
            Some(self.on_tab(1))
        } else if self.hits(KeyAction::TabTunnels, key) {
            Some(self.doing(Task::SwitchToTunnels))
        } else if self.hits(KeyAction::TabKeys, key) {
            Some(self.doing(Task::SwitchToKeys))
        } else if self.hits(KeyAction::TabAudit, key) {
            Some(self.on_tab(4).doing(Task::RefreshAuditEvents))
        } else {
            None
        }
    }
}

fn header_positions(rows: &Vec<NavRow>) -> (r: Vec<usize>)
    ensures
        r@ == headers(rows@),
        forall|i: int| 0 <= i < r@.len() ==> (#[trigger] r@[i]) < rows@.len(),
{
    let mut out: Vec<usize> = Vec::new();
    let mut i: usize = 0;
    while i < rows.len()
        invariant
            i <= rows@.len(),
            out@ == headers_to(rows@, i as nat),
            forall|k: int| 0 <= k < out@.len() ==> (#[trigger] out@[k]) < rows@.len(),
        decreases rows@.len() - i,
    {
        match rows[i] {
            NavRow::Header(_) => out.push(i),
            NavRow::Host(_) => {},
        }
        i = i + 1;
    }
    out
}

fn holds(list: &Vec<usize>, x: usize) -> (r: bool)
    ensures
        r == list@.contains(x),
{
    let mut i: usize = 0;
    while i < list.len()
        invariant
            i <= list@.len(),
            forall|k: int| 0 <= k < i ==> list@[k] != x,
        decreases list@.len() - i,
    {
        if list[i] == x {
            assert(list@[i as int] == x);
            return true;
        }
        i = i + 1;
    }
    false
}

proof fn lemma_first_section(sections: Seq<SectionView>, host: usize, i: int)
    requires
        0 <= i < sections.len(),
        section_with(sections.take(i), host) is None,
        sections[i].hosts.contains(host),
    ensures
        section_with(sections, host) == Some(i),
    decreases sections.len(),
{
    if i == sections.len() - 1 {
        assert(sections.drop_last() =~= sections.take(i));
    } else {
        assert(sections.drop_last().take(i) =~= sections.take(i));
        lemma_first_section(sections.drop_last(), host, i);
    }
}

fn find_section(sections: &Vec<HostGroupSection>, host: usize) -> (r: usize)
    ensures
        r == match section_with(views(sections@), host) {
            Some(i) => i,
            None => 0,
        },
{
    let ghost all = views(sections@);
    let mut i: usize = 0;
    assert(all.take(0) =~= Seq::empty());
    while i < sections.len()
        invariant
            all == views(sections@),
            i <= sections@.len(),
            section_with(all.take(i as int), host) is None,
        decreases sections@.len() - i,
    {
        assert(all.take(i + 1).drop_last() =~= all.take(i as int));
        assert(all.take(i + 1).last() == sections@[i as int]@);
        if holds(&sections[i].host_indices, host) {
            proof {
                lemma_first_section(all, host, i as int);
            }
            return i;
        }
        i = i + 1;
    }
    assert(all.take(sections@.len() as int) =~= all);
    0
}

proof fn lemma_header_of(rows: Seq<NavRow>, positions: Seq<usize>, section: int, i: int)
    requires
        0 <= i < positions.len(),
        heads(rows[positions[i] as int], section),
        forall|k: int| 0 <= k < i ==> !heads(rows[#[trigger] positions[k] as int], section),
    ensures
        header_of(rows, positions, section) == i,
    decreases positions.len(),
{
    let rest = positions.drop_last();
    if i < positions.len() - 1 {
        assert(rest[i] == positions[i]);
        assert forall|k: int| 0 <= k < i implies !heads(
            rows[#[trigger] rest[k] as int],
            section,
        ) by {
            assert(rest[k] == positions[k]);
        }
        lemma_header_of(rows, rest, section, i);
    }
}

proof fn lemma_no_header(rows: Seq<NavRow>, positions: Seq<usize>, section: int)
    requires
        forall|k: int|
            0 <= k < positions.len() ==> !heads(rows[#[trigger] positions[k] as int], section),
    ensures
        header_of(rows, positions, section) == 0,
{
}

fn find_header(rows: &Vec<NavRow>, positions: &Vec<usize>, section: usize) -> (r: usize)
    requires
        forall|i: int| 0 <= i < positions@.len() ==> (#[trigger] positions@[i]) < rows@.len(),
    ensures
        r == header_of(rows@, positions@, section as int),
{
    let mut i: usize = 0;
    while i < positions.len()
        invariant
            forall|k: int| 0 <= k < positions@.len() ==> (#[trigger] positions@[k]) < rows@.len(),
            i <= positions@.len(),
            forall|k: int|
                0 <= k < i ==> !heads(rows@[#[trigger] positions@[k] as int], section as int),
        decreases positions@.len() - i,
    {
        let found = match rows[positions[i]] {
            NavRow::Header(at) => at == section,
            NavRow::Host(_) => false,
        };
        if found {
            proof {
                lemma_header_of(rows@, positions@, section as int, i as int);
            }
            return i;
        }
        i = i + 1;
    }
    proof {
        lemma_no_header(rows@, positions@, section as int);
    }
    0
}

impl App {
    pub(crate) fn select(&mut self, row: usize)
        ensures
            final(self)@ == old(self)@.selecting(row),
    {
        self.selected = row;
    }

    pub(crate) fn set_mode(&mut self, mode: AppMode)
        ensures
            final(self)@ == old(self)@.in_mode(mode),
    {
        self.mode = mode;
    }

    pub(crate) fn go_to_tab(&mut self, tab: usize)
        ensures
            final(self)@ == old(self)@.on_tab(tab),
    {
        self.active_tab = tab;
    }

    /// Move the selection, wrapping around at both ends.
    pub fn move_selection(&mut self, delta: i32)
        ensures
            final(self)@ == old(self)@.selection_moved(delta as int),
    {
        reveal(AppView::selection_moved);

        let count: usize = self.nav_rows.len();
        let row: usize = if count == 0 {
            0
        } else {
            wrapped(self.selected, delta, count)
        };
        self.select(row);
    }

    fn find_selected_section(&self) -> (r: usize)
        ensures
            r == self@.selected_section(),
    {
        if self.selected < self.nav_rows.len() {
            match self.nav_rows[self.selected] {
                NavRow::Header(section) => section,
                NavRow::Host(host) => find_section(&self.group_sections, host),
            }
        } else {
            0
        }
    }

    /// Jump the selection to the previous or next group header, relative to the
    /// group that the selection is in. Wraps at both ends.
    pub fn move_selection_by_group(&mut self, delta: i32)
        ensures
            final(self)@ == old(self)@.selection_moved_by_group(delta as int),
    {
        reveal(AppView::selection_moved_by_group);

        let positions = header_positions(&self.nav_rows);
        if self.groups.len() == 0 || positions.len() == 0 {
            return;
        }
        let section: usize = self.find_selected_section();
        let here: usize = find_header(&self.nav_rows, &positions, section);
        let next: usize = wrapped(here, delta, positions.len());
        let row: usize = positions[next];
        self.select(row);
    }

    /// Begin quitting.
    pub fn request_quit(&mut self)
        ensures
            final(self)@ == old(self)@.quit_requested(),
    {
        reveal(AppView::quit_requested);

        if !self.config.appearance.confirm_quit {
            self.should_quit = true;
            return;
        }
        if self.mode != AppMode::ConfirmQuit {
            self.pre_quit_mode = Some(self.mode);
            self.mode = AppMode::ConfirmQuit;
        }
    }

    pub fn open_help(&mut self)
        ensures
            final(self)@ == old(self)@.help_opened(),
    {
        reveal(AppView::help_opened);

        let from = self.mode;
        self.mode = AppMode::Help;
        self.help.open(from);
    }

    pub fn switch_to_sftp_tab(&mut self)
        ensures
            final(self)@ == old(self)@.on_tab(1),
    {
        self.active_tab = 1;
    }

    /// Switch dashboard tabs when a tab keybinding matches.
    pub fn try_tab_switch(&mut self, key: &KeyEvent) -> (r: bool)
        ensures
            r == (old(self)@.tab_switched(*key) is Some),
            final(self)@ == match old(self)@.tab_switched(*key) {
                Some(there) => there,
                None => old(self)@,
            },
    {
        if self.is_action(KeyAction::TabHosts, key) {
            self.go_to_tab(0);
            return true;
        }
        if self.is_action(KeyAction::TabSftp, key) {
            self.switch_to_sftp_tab();
            return true;
        }
        if self.is_action(KeyAction::TabTunnels, key) {
            self.perform(Task::SwitchToTunnels);
            return true;
        }
        if self.is_action(KeyAction::TabKeys, key) {
            self.perform(Task::SwitchToKeys);
            return true;
        }
        if self.is_action(KeyAction::TabAudit, key) {
            self.go_to_tab(4);
            self.perform(Task::RefreshAuditEvents);
            return true;
        }
        false
    }
}

impl Help {
    fn open(&mut self, from: AppMode)
        ensures
            final(self)@ == (HelpView {
                return_to: Some(from),
                scroll: 0,
                query: Seq::empty(),
                ..old(self)@
            }),
    {
        self.return_to = Some(from);
        self.scroll = 0;
        self.query = String::new();
        assert(self@.query =~= Seq::empty());
    }
}

} // verus!
