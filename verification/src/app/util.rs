//! Small rules of the user interface.

use vstd::prelude::*;

use crate::text::{
    cat2, cat3, cat4, group_views, len, same, split, split_on, trim, trimmed, views,
};

verus! {

broadcast use crate::text::group_views;

/// A form field's text without surrounding white space, or nothing if that
/// leaves none.
pub open spec fn field_value(raw: Seq<char>) -> Option<Seq<char>> {
    if trimmed(raw).len() > 0 {
        Some(trimmed(raw))
    } else {
        None
    }
}

pub fn optional_field(raw: &str) -> (r: Option<String>)
    ensures
        crate::text::opt_view(r) == field_value(raw@),
{
    let value = trim(raw);
    if len(value.as_str()) == 0 {
        None
    } else {
        Some(value)
    }
}

/// A path entered in a form field.
pub fn optional_path(raw: &str) -> (r: Option<String>)
    ensures
        crate::text::opt_view(r) == field_value(raw@),
{
    optional_field(raw)
}

/// The tags in the pieces of a comma-separated list.
pub open spec fn tags_in(pieces: Seq<Seq<char>>) -> Seq<Seq<char>>
    decreases pieces.len(),
{
    if pieces.len() == 0 {
        Seq::empty()
    } else {
        match field_value(pieces.last()) {
            Some(tag) => tags_in(pieces.drop_last()).push(tag),
            None => tags_in(pieces.drop_last()),
        }
    }
}

/// The tags of a comma-separated list: trimmed, empty ones left out.
pub fn parse_tags(raw: &str) -> (r: Vec<String>)
    ensures
        views(r@) == tags_in(split(raw@, ',')),
{
    let pieces = split_on(raw, ',');
    let ghost all = views(pieces@);
    let mut out: Vec<String> = Vec::new();
    let mut i: usize = 0;
    assert(all.take(0) =~= Seq::empty());
    while i < pieces.len()
        invariant
            i <= pieces@.len(),
            all == views(pieces@),
            views(out@) == tags_in(all.take(i as int)),
        decreases pieces@.len() - i,
    {
        assert(all.take(i + 1).drop_last() =~= all.take(i as int));
        assert(all.take(i + 1).last() == pieces@[i as int]@);
        if let Some(tag) = optional_field(pieces[i].as_str()) {
            out.push(tag);
        }
        i = i + 1;
    }
    assert(all.take(pieces@.len() as int) =~= all);
    out
}

/// No tag that was parsed is empty or has white space around it.
pub proof fn parsed_tags_are_clean(pieces: Seq<Seq<char>>)
    ensures
        forall|i: int|
            0 <= i < tags_in(pieces).len() ==> (#[trigger] tags_in(pieces)[i]).len() > 0 && exists|
                k: int,
            |
                0 <= k < pieces.len() && tags_in(pieces)[i] == trimmed(#[trigger] pieces[k]),
    decreases pieces.len(),
{
    if pieces.len() > 0 {
        let rest = pieces.drop_last();
        parsed_tags_are_clean(rest);
        assert forall|i: int| 0 <= i < tags_in(pieces).len() implies (#[trigger] tags_in(
            pieces,
        )[i]).len() > 0 && exists|k: int|
            0 <= k < pieces.len() && tags_in(pieces)[i] == trimmed(#[trigger] pieces[k]) by {
            if i < tags_in(rest).len() {
                assert(tags_in(pieces)[i] == tags_in(rest)[i]);
                let k = choose|k: int|
                    0 <= k < rest.len() && tags_in(rest)[i] == trimmed(#[trigger] rest[k]);
                assert(pieces[k] == rest[k]);
            } else {
                assert(tags_in(pieces)[i] == trimmed(pieces[pieces.len() - 1]));
            }
        }
    }
}

/// How many logos can be chosen for a host; the first choice is none.
pub const OS_ICON_COUNT: usize = 22;

/// The logo names that can be chosen, by position.
pub open spec fn os_icon(index: nat) -> Seq<char> {
    if index == 1 {
        "arch"@
    } else if index == 2 {
        "ubuntu"@
    } else if index == 3 {
        "debian"@
    } else if index == 4 {
        "alpine"@
    } else if index == 5 {
        "fedora"@
    } else if index == 6 {
        "rocky"@
    } else if index == 7 {
        "rhel"@
    } else if index == 8 {
        "centos"@
    } else if index == 9 {
        "opensuse"@
    } else if index == 10 {
        "linuxmint"@
    } else if index == 11 {
        "manjaro"@
    } else if index == 12 {
        "popos"@
    } else if index == 13 {
        "kali"@
    } else if index == 14 {
        "gentoo"@
    } else if index == 15 {
        "void"@
    } else if index == 16 {
        "nixos"@
    } else if index == 17 {
        "endeavouros"@
    } else if index == 18 {
        "freebsd"@
    } else if index == 19 {
        "macos"@
    } else if index == 20 {
        "windows"@
    } else if index == 21 {
        "linux"@
    } else {
        "(none)"@
    }
}

/// The name at a position of the logo list; past its end, the first one.
pub fn os_icon_option(index: usize) -> (r: &'static str)
    ensures
        r@ == os_icon(index as nat),
{
    match index {
        1 => "arch",
        2 => "ubuntu",
        3 => "debian",
        4 => "alpine",
        5 => "fedora",
        6 => "rocky",
        7 => "rhel",
        8 => "centos",
        9 => "opensuse",
        10 => "linuxmint",
        11 => "manjaro",
        12 => "popos",
        13 => "kali",
        14 => "gentoo",
        15 => "void",
        16 => "nixos",
        17 => "endeavouros",
        18 => "freebsd",
        19 => "macos",
        20 => "windows",
        21 => "linux",
        _ => "(none)",
    }
}

/// The logo name chosen by position; the first position, and any past the end,
/// chooses none.
pub fn os_icon_from_index(index: usize) -> (r: Option<String>)
    ensures
        crate::text::opt_view(r) == if 0 < index < OS_ICON_COUNT {
            Some(os_icon(index as nat))
        } else {
            None
        },
{
    if 0 < index && index < OS_ICON_COUNT {
        Some(os_icon_option(index).to_owned())
    } else {
        None
    }
}

/// The position of a logo name: the first that holds it, or the first of all.
pub fn os_icon_index_from_option(icon: &Option<String>) -> (r: usize)
    ensures
        r < OS_ICON_COUNT,
        match *icon {
            Some(name) => {
                ||| os_icon(r as nat) == name@ && forall|k: nat| k < r ==> os_icon(k) != name@
                ||| r == 0 && forall|k: nat| k < OS_ICON_COUNT ==> os_icon(k) != name@
            },
            None => r == 0,
        },
{
    if let Some(name) = icon {
        let mut i: usize = 0;
        while i < OS_ICON_COUNT
            invariant
                i <= OS_ICON_COUNT,
                *icon == Some(*name),
                forall|k: nat| k < i ==> os_icon(k) != name@,
            decreases OS_ICON_COUNT - i,
        {
            if same(os_icon_option(i), name.as_str()) {
                return i;
            }
            i = i + 1;
        }
    }
    0
}

/// Every name on the logo list stands there once, so a choice is found again.
pub proof fn icons_are_found_again(one: nat, other: nat)
    requires
        one < other < OS_ICON_COUNT,
    ensures
        os_icon(one) != os_icon(other),
{
    reveal_strlit("(none)");
    reveal_strlit("arch");
    reveal_strlit("ubuntu");
    reveal_strlit("debian");
    reveal_strlit("alpine");
    reveal_strlit("fedora");
    reveal_strlit("rocky");
    reveal_strlit("rhel");
    reveal_strlit("centos");
    reveal_strlit("opensuse");
    reveal_strlit("linuxmint");
    reveal_strlit("manjaro");
    reveal_strlit("popos");
    reveal_strlit("kali");
    reveal_strlit("gentoo");
    reveal_strlit("void");
    reveal_strlit("nixos");
    reveal_strlit("endeavouros");
    reveal_strlit("freebsd");
    reveal_strlit("macos");
    reveal_strlit("windows");
    reveal_strlit("linux");
    let a = os_icon(one);
    let b = os_icon(other);
    assert(a.len() != b.len() || a[0] != b[0] || a[1] != b[1] || a[2] != b[2] || a[3] != b[3]);
}

/// What is said after a secret was asked to be copied. The value itself never
/// reaches the message: it depends only on whether there is one, on what it is
/// called, and on what came of the copy.
pub open spec fn copy_notice(
    present: bool,
    what: Seq<char>,
    written: Result<(), Seq<char>>,
) -> Seq<char> {
    if !present {
        "no "@ + what + " stored for this entry"@
    } else {
        match written {
            Ok(_) => what + " copied to the clipboard"@,
            Err(e) => "could not copy the "@ + what + ": "@ + e,
        }
    }
}

/// The notice to show after a secret was asked to be copied. `written` is what
/// came of putting it on the clipboard, which happens only if there is one.
pub fn copy_secret_notice(secret: &str, what: &str, written: Result<(), String>) -> (r: String)
    ensures
        r@ == copy_notice(
            secret@.len() > 0,
            what@,
            match written {
                Ok(_) => Ok(()),
                Err(e) => Err(e@),
            },
        ),
{
    if len(secret) == 0 {
        return cat3("no ", what, " stored for this entry");
    }
    match written {
        Ok(_) => cat2(what, " copied to the clipboard"),
        Err(e) => cat4("could not copy the ", what, ": ", e.as_str()),
    }
}

/// Two secrets of any content give the same notice, as long as neither or both
/// are empty.
pub proof fn copy_notice_hides_the_secret(
    one: Seq<char>,
    other: Seq<char>,
    what: Seq<char>,
    written: Result<(), Seq<char>>,
)
    requires
        one.len() > 0 <==> other.len() > 0,
    ensures
        copy_notice(one.len() > 0, what, written) == copy_notice(other.len() > 0, what, written),
{
}

/// The column where the tab at `index` begins: one column of margin, then for
/// each tab before it four columns for its number, its label, and a gap of
/// three. The labels are 5, 4, 7, 10 and 5 columns wide.
pub open spec fn tab_start(index: int) -> int {
    if index <= 0 {
        1
    } else if index == 1 {
        13
    } else if index == 2 {
        24
    } else if index == 3 {
        38
    } else if index == 4 {
        55
    } else {
        67
    }
}

/// The tab under a column of the tab bar.
pub fn tab_from_x(x: u16) -> (r: Option<usize>)
    ensures
        match r {
            Some(i) => i < 5 && tab_start(i as int) <= x < tab_start(i + 1),
            None => x < tab_start(0) || x >= tab_start(5),
        },
{
    if x < 1 {
        None
    } else if x < 13 {
        Some(0)
    } else if x < 24 {
        Some(1)
    } else if x < 38 {
        Some(2)
    } else if x < 55 {
        Some(3)
    } else if x < 67 {
        Some(4)
    } else {
        None
    }
}

/// Whether `s` ends in `tail`.
pub open spec fn ends_in(s: Seq<char>, tail: Seq<char>) -> bool {
    tail.len() <= s.len() && s.skip(s.len() - tail.len()) == tail
}

/// The notice line after one more notice: it is put behind what is there, unless
/// it is there already, alone or as the last one.
pub open spec fn noticed(existing: Option<Seq<char>>, notice: Seq<char>) -> Seq<char> {
    match existing {
        Some(line) => if line == notice || ends_in(line, " | "@ + notice) {
            line
        } else if line.len() > 0 {
            line + " | "@ + notice
        } else {
            notice
        },
        None => notice,
    }
}

fn ends_with(s: &str, tail: &str) -> (r: bool)
    ensures
        r == ends_in(s@, tail@),
{
    let v = crate::text::chars_of(s);
    let n: usize = len(tail);
    if n > v.len() {
        return false;
    }
    let end = crate::text::text_of(&v, v.len() - n, v.len());
    assert(end@ =~= s@.skip(s@.len() - tail@.len()));
    same(end.as_str(), tail)
}

/// Preserve earlier startup degradations while adding another one-line notice.
pub fn append_host_notice(host_notice: &mut Option<String>, notice: String)
    ensures
        *final(host_notice) is Some,
        final(host_notice)->0@ == noticed(crate::text::opt_view(*old(host_notice)), notice@),
{
    let line = match host_notice.take() {
        Some(existing) => {
            let tail = cat2(" | ", notice.as_str());
            if same(existing.as_str(), notice.as_str()) || ends_with(
                existing.as_str(),
                tail.as_str(),
            ) {
                existing
            } else if len(existing.as_str()) > 0 {
                cat3(existing.as_str(), " | ", notice.as_str())
            } else {
                notice
            }
        },
        None => notice,
    };
    *host_notice = Some(line);
}

/// Adding a notice twice is adding it once.
pub proof fn notices_do_not_repeat(existing: Option<Seq<char>>, notice: Seq<char>)
    ensures
        noticed(Some(noticed(existing, notice)), notice) == noticed(existing, notice),
{
    let tail = " | "@ + notice;
    match existing {
        Some(line) => {
            let longer = line + " | "@ + notice;
            assert(longer =~= line + tail);
            assert((line + tail).skip(line.len() as int) =~= tail);
        },
        None => {},
    }
}

/// One message about the themes found at start-up.
#[derive(Debug, PartialEq, Eq)]
pub struct ThemeDiagnostic {
    pub is_error: bool,
    pub message: String,
}

#[verifier::ext_equal]
pub struct DiagnosticView {
    pub is_error: bool,
    pub message: Seq<char>,
}

impl View for ThemeDiagnostic {
    type V = DiagnosticView;

    open spec fn view(&self) -> DiagnosticView {
        DiagnosticView { is_error: self.is_error, message: self.message@ }
    }
}

/// The position of the first diagnostic that is (or is not) an error.
pub open spec fn first_of(diagnostics: Seq<DiagnosticView>, errors: bool) -> Option<int>
    decreases diagnostics.len(),
{
    if diagnostics.len() == 0 {
        None
    } else {
        match first_of(diagnostics.drop_last(), errors) {
            Some(i) => Some(i),
            None => if diagnostics.last().is_error == errors {
                Some(diagnostics.len() - 1)
            } else {
                None
            },
        }
    }
}

/// The message that heads the summary: the failure to load, else the first
/// error, else the first warning.
pub open spec fn head_message(
    diagnostics: Seq<DiagnosticView>,
    load_error: Option<Seq<char>>,
) -> Option<Seq<char>> {
    match (load_error, first_of(diagnostics, true), first_of(diagnostics, false)) {
        (Some(error), _, _) => Some(error),
        (None, Some(i), _) => Some(diagnostics[i].message),
        (None, None, Some(i)) => Some(diagnostics[i].message),
        (None, None, None) => None,
    }
}

/// The summary of the start-up diagnostics: the message that matters most and
/// how many more there are.
pub open spec fn startup_notice(
    diagnostics: Seq<DiagnosticView>,
    load_error: Option<Seq<char>>,
) -> Option<Seq<char>> {
    let count = diagnostics.len() + if load_error is Some {
        1nat
    } else {
        0nat
    };
    match head_message(diagnostics, load_error) {
        Some(first) => Some(
            if count == 1 {
                "Theme: "@ + first
            } else {
                "Theme: "@ + first + " (+"@ + crate::text::decimal((count - 1) as nat) + " more)"@
            },
        ),
        None => None,
    }
}

fn find_first(diagnostics: &Vec<ThemeDiagnostic>, errors: bool) -> (r: Option<usize>)
    ensures
        match r {
            Some(i) => first_of(views(diagnostics@), errors) == Some(i as int) && i
                < diagnostics@.len(),
            None => first_of(views(diagnostics@), errors) is None,
        },
{
    let ghost all = views(diagnostics@);
    let mut found: Option<usize> = None;
    let mut i: usize = 0;
    assert(all.take(0) =~= Seq::empty());
    while i < diagnostics.len()
        invariant
            i <= diagnostics@.len(),
            all == views(diagnostics@),
            match found {
                Some(k) => first_of(all.take(i as int), errors) == Some(k as int) && k < i,
                None => first_of(all.take(i as int), errors) is None,
            },
        decreases diagnostics@.len() - i,
    {
        assert(all.take(i + 1).drop_last() =~= all.take(i as int));
        assert(all.take(i + 1).last() == diagnostics@[i as int]@);
        if found.is_none() && diagnostics[i].is_error == errors {
            found = Some(i);
        }
        i = i + 1;
    }
    assert(all.take(diagnostics@.len() as int) =~= all);
    found
}

/// A one-line, non-fatal summary of the theme start-up diagnostics, or `None`
/// when everything loaded cleanly.
pub fn theme_startup_notice(diagnostics: &Vec<ThemeDiagnostic>, load_error: Option<&str>) -> (r:
    Option<String>)
    requires
        diagnostics@.len() < usize::MAX,
    ensures
        crate::text::opt_view(r) == startup_notice(
            views(diagnostics@),
            match load_error {
                Some(error) => Some(error@),
                None => None,
            },
        ),
{
    let ghost all = views(diagnostics@);
    assert(all.len() == diagnostics@.len());
    let extra: usize = if load_error.is_some() {
        1
    } else {
        0
    };
    let count: usize = diagnostics.len() + extra;
    let first: String = match load_error {
        Some(error) => error.to_owned(),
        None => match find_first(diagnostics, true) {
            Some(i) => diagnostics[i].message.clone(),
            None => match find_first(diagnostics, false) {
                Some(i) => diagnostics[i].message.clone(),
                None => {
                    return None;
                },
            },
        },
    };
    if count == 1 {
        Some(cat2("Theme: ", first.as_str()))
    } else {
        Some(
            crate::text::cat5(
                "Theme: ",
                first.as_str(),
                " (+",
                crate::text::to_decimal((count - 1) as u64).as_str(),
                " more)",
            ),
        )
    }
}

/// What is said of a themes directory that could not be read.
pub fn themes_unreadable(dir: &str, error: &str) -> (r: String)
    ensures
        r@ == dir@ + " could not be read ("@ + error@ + "); using the built-in themes"@,
{
    cat4(dir, " could not be read (", error, "); using the built-in themes")
}

} // verus!
