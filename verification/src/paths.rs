//! Slash-separated paths held as text.

use vstd::prelude::*;

use crate::text::{cat2, cat3, chars_of, group_views, same, split, split_on, text_of, views};

verus! {

broadcast use crate::text::group_views;

/// `path` followed by `name`: an absolute name replaces the path, and a
/// separator is put between the two unless the path is empty or ends in one.
pub open spec fn joined(path: Seq<char>, name: Seq<char>) -> Seq<char> {
    if is_absolute(name) {
        name
    } else if path.len() == 0 || path.last() == '/' {
        path + name
    } else {
        path + "/"@ + name
    }
}

pub fn join(path: &str, name: &str) -> (r: String)
    ensures
        r@ == joined(path@, name@),
{
    let p = chars_of(path);
    let n = chars_of(name);
    if n.len() > 0 && n[0] == '/' {
        name.to_owned()
    } else if p.len() == 0 || p[p.len() - 1] == '/' {
        cat2(path, name)
    } else {
        cat3(path, "/", name)
    }
}

pub open spec fn is_absolute(path: Seq<char>) -> bool {
    path.len() > 0 && path[0] == '/'
}

/// The pieces between slashes that name something: not the empty ones, and not
/// `.` unless the path begins with it.
pub open spec fn named_pieces(pieces: Seq<Seq<char>>) -> Seq<Seq<char>>
    decreases pieces.len(),
{
    if pieces.len() == 0 {
        Seq::empty()
    } else {
        let before = named_pieces(pieces.drop_last());
        let piece = pieces.last();
        if piece.len() > 0 && (pieces.len() == 1 || piece != "."@) {
            before.push(piece)
        } else {
            before
        }
    }
}

/// The steps of a path from the root, which is a step of its own, or from the
/// current directory.
pub open spec fn steps(path: Seq<char>) -> Seq<Seq<char>> {
    let named = named_pieces(split(path, '/'));
    if is_absolute(path) {
        seq!["/"@] + named
    } else {
        named
    }
}

pub fn path_steps(path: &str) -> (r: Vec<String>)
    ensures
        views(r@) == steps(path@),
{
    let pieces = split_on(path, '/');
    let chars = chars_of(path);
    let mut out: Vec<String> = Vec::new();
    let absolute = chars.len() > 0 && chars[0] == '/';
    if absolute {
        out.push("/".to_owned());
    }
    let ghost root = views(out@);
    assert(root =~= if absolute {
        seq!["/"@]
    } else {
        Seq::empty()
    });
    let ghost all = views(pieces@);
    let mut i: usize = 0;
    assert(all.take(0) =~= Seq::empty());
    assert(views(out@) =~= root + named_pieces(all.take(0)));
    while i < pieces.len()
        invariant
            i <= pieces@.len(),
            all == views(pieces@),
            views(out@) == root + named_pieces(all.take(i as int)),
        decreases pieces@.len() - i,
    {
        assert(all.take(i + 1).drop_last() =~= all.take(i as int));
        assert(all.take(i + 1).last() == pieces@[i as int]@);
        let ghost before = views(out@);
        if crate::text::len(pieces[i].as_str()) > 0 && (i == 0 || !same(pieces[i].as_str(), ".")) {
            out.push(pieces[i].clone());
            assert(views(out@) =~= before.push(pieces@[i as int]@));
        }
        i = i + 1;
        assert(views(out@) =~= root + named_pieces(all.take(i as int)));
    }
    assert(all.take(pieces@.len() as int) =~= all);
    assert(views(out@) =~= steps(path@));
    out
}

/// Whether two paths name the same place, step by step.
pub open spec fn same_path(a: Seq<char>, b: Seq<char>) -> bool {
    steps(a) == steps(b)
}

/// Whether `path` lies at or below `above`.
pub open spec fn is_below(path: Seq<char>, above: Seq<char>) -> bool {
    steps(above).len() <= steps(path).len() && steps(path).take(steps(above).len() as int) == steps(
        above,
    )
}

/// The last step of a path, if it is a name.
pub open spec fn base_name(path: Seq<char>) -> Option<Seq<char>> {
    let all = steps(path);
    if all.len() > 0 && all.last() != "/"@ && all.last() != ".."@ && all.last() != "."@ {
        Some(all.last())
    } else {
        None
    }
}

/// Whether `parent` is the directory that `path` lies in.
pub open spec fn is_parent_of(parent: Seq<char>, path: Seq<char>) -> bool {
    let all = steps(path);
    all.len() > 0 && all.last() != "/"@ && steps(parent) == all.drop_last()
}

fn same_steps(a: &Vec<String>, b: &Vec<String>, n: usize) -> (r: bool)
    requires
        n <= a@.len(),
        n <= b@.len(),
    ensures
        r == (views(a@).take(n as int) == views(b@).take(n as int)),
{
    let ghost x = views(a@);
    let ghost y = views(b@);
    let mut i: usize = 0;
    while i < n
        invariant
            x == views(a@),
            y == views(b@),
            n <= a@.len(),
            n <= b@.len(),
            i <= n,
            x.take(i as int) == y.take(i as int),
        decreases n - i,
    {
        if !same(a[i].as_str(), b[i].as_str()) {
            assert(x.take(n as int)[i as int] != y.take(n as int)[i as int]);
            return false;
        }
        i = i + 1;
        assert(x.take(i as int) =~= x.take(i - 1).push(x[i - 1]));
        assert(y.take(i as int) =~= y.take(i - 1).push(y[i - 1]));
    }
    true
}

pub fn path_eq(a: &str, b: &str) -> (r: bool)
    ensures
        r == same_path(a@, b@),
{
    let x = path_steps(a);
    let y = path_steps(b);
    if x.len() == y.len() && same_steps(&x, &y, x.len()) {
        assert(views(x@).take(x@.len() as int) =~= views(x@));
        assert(views(y@).take(y@.len() as int) =~= views(y@));
        true
    } else {
        assert(views(x@).len() == x@.len() && views(y@).len() == y@.len());
        false
    }
}

pub fn path_starts_with(path: &str, above: &str) -> (r: bool)
    ensures
        r == is_below(path@, above@),
{
    let x = path_steps(path);
    let y = path_steps(above);
    assert(views(x@).len() == x@.len() && views(y@).len() == y@.len());
    assert(views(y@).take(y@.len() as int) =~= views(y@));
    y.len() <= x.len() && same_steps(&x, &y, y.len())
}

pub fn file_name(path: &str) -> (r: Option<String>)
    ensures
        crate::text::opt_view(r) == base_name(path@),
{
    let all = path_steps(path);
    assert(views(all@).len() == all@.len());
    if all.len() == 0 {
        return None;
    }
    let last = all[all.len() - 1].clone();
    assert(views(all@).last() == last@);
    if same(last.as_str(), "/") || same(last.as_str(), "..") || same(last.as_str(), ".") {
        None
    } else {
        Some(last)
    }
}

pub fn lies_in(parent: &str, path: &str) -> (r: bool)
    ensures
        r == is_parent_of(parent@, path@),
{
    let x = path_steps(parent);
    let y = path_steps(path);
    assert(views(x@).len() == x@.len() && views(y@).len() == y@.len());
    if y.len() == 0 {
        return false;
    }
    assert(views(y@).last() == y@[y@.len() - 1]@);
    if same(y[y.len() - 1].as_str(), "/") {
        return false;
    }
    assert(views(x@).take(x@.len() as int) =~= views(x@));
    assert(views(y@).take(y@.len() - 1) =~= views(y@).drop_last());
    x.len() == y.len() - 1 && same_steps(&x, &y, x.len())
}

/// `s` without the slashes and the `.` pieces that it begins with.
pub open spec fn drop_separators(s: Seq<char>) -> Seq<char>
    decreases s.len(),
{
    if s.len() > 0 && s[0] == '/' {
        drop_separators(s.drop_first())
    } else if s.len() == 1 && s[0] == '.' {
        Seq::empty()
    } else if s.len() > 1 && s[0] == '.' && s[1] == '/' {
        drop_separators(s.drop_first())
    } else {
        s
    }
}

/// `s` from its first slash on.
pub open spec fn from_slash(s: Seq<char>) -> Seq<char>
    decreases s.len(),
{
    if s.len() > 0 && s[0] != '/' {
        from_slash(s.drop_first())
    } else {
        s
    }
}

/// `s`, which begins with a step, without its first `n` steps.
pub open spec fn behind_steps(s: Seq<char>, n: nat) -> Seq<char>
    decreases n,
{
    if n == 0 {
        s
    } else {
        behind_steps(drop_separators(from_slash(s)), (n - 1) as nat)
    }
}

/// `s` without the slashes and the `.` pieces that it ends in.
pub open spec fn drop_trailing(s: Seq<char>) -> Seq<char>
    decreases s.len(),
{
    if s.len() > 1 && s.last() == '/' {
        drop_trailing(s.drop_last())
    } else if s.len() > 2 && s.last() == '.' && s[s.len() - 2] == '/' {
        drop_trailing(s.drop_last())
    } else {
        s
    }
}

/// The text of `path` behind its first `n` steps.
pub open spec fn rest_of(path: Seq<char>, n: nat) -> Seq<char> {
    drop_trailing(
        if n == 0 {
            path
        } else if is_absolute(path) {
            behind_steps(drop_separators(path), (n - 1) as nat)
        } else {
            behind_steps(path, n)
        },
    )
}

/// How a path is shown to the user whose home directory is `home`: with the home
/// directory collapsed to `~`, where the path lies at or below it.
pub open spec fn contracted(path: Seq<char>, home: Seq<char>) -> Seq<char> {
    if same_path(path, home) {
        "~"@
    } else if is_below(path, home) {
        "~/"@ + rest_of(path, steps(home).len())
    } else {
        path
    }
}

fn skip_separators(v: &Vec<char>, from: usize) -> (r: usize)
    requires
        from <= v@.len(),
    ensures
        from <= r <= v@.len(),
        v@.skip(r as int) == drop_separators(v@.skip(from as int)),
{
    let mut i: usize = from;
    while i < v.len() && (v[i] == '/' || (v[i] == '.' && (i + 1 == v.len() || v[i + 1] == '/')))
        invariant
            from <= i <= v@.len(),
            drop_separators(v@.skip(from as int)) == drop_separators(v@.skip(i as int)),
        decreases v@.len() - i,
    {
        let ghost s = v@.skip(i as int);
        assert(s.drop_first() =~= v@.skip(i + 1));
        assert(s.len() > 1 ==> s[1] == v@[i + 1]);
        proof {
            if s.len() == 1 && s[0] == '.' {
                assert(v@.skip(i + 1) =~= Seq::empty());
            }
        }
        i = i + 1;
    }
    proof {
        let s = v@.skip(i as int);
        if s.len() > 1 {
            assert(s[1] == v@[i + 1]);
        }
    }
    i
}

fn skip_to_slash(v: &Vec<char>, from: usize) -> (r: usize)
    requires
        from <= v@.len(),
    ensures
        from <= r <= v@.len(),
        v@.skip(r as int) == from_slash(v@.skip(from as int)),
{
    let mut i: usize = from;
    while i < v.len() && v[i] != '/'
        invariant
            from <= i <= v@.len(),
            from_slash(v@.skip(from as int)) == from_slash(v@.skip(i as int)),
        decreases v@.len() - i,
    {
        assert(v@.skip(i as int).drop_first() =~= v@.skip(i + 1));
        i = i + 1;
    }
    i
}

fn skip_steps(v: &Vec<char>, from: usize, n: usize) -> (r: usize)
    requires
        from <= v@.len(),
    ensures
        from <= r <= v@.len(),
        v@.skip(r as int) == behind_steps(v@.skip(from as int), n as nat),
{
    let mut i: usize = from;
    let mut k: usize = n;
    while k > 0
        invariant
            from <= i <= v@.len(),
            behind_steps(v@.skip(from as int), n as nat) == behind_steps(
                v@.skip(i as int),
                k as nat,
            ),
        decreases k,
    {
        let slash: usize = skip_to_slash(v, i);
        i = skip_separators(v, slash);
        k = k - 1;
    }
    i
}

fn path_rest(path: &str, n: usize) -> (r: String)
    ensures
        r@ == rest_of(path@, n as nat),
{
    let v = chars_of(path);
    assert(v@.skip(0) =~= v@);
    let from: usize = if n == 0 {
        0
    } else if v.len() > 0 && v[0] == '/' {
        let start: usize = skip_separators(&v, 0);
        skip_steps(&v, start, n - 1)
    } else {
        skip_steps(&v, 0, n)
    };
    let rest = text_of(&v, from, v.len());
    assert(rest@ =~= v@.skip(from as int));
    trim_trailing(rest.as_str())
}

/// `s` without the slashes and the `.` pieces that it ends in.
pub fn trim_trailing(s: &str) -> (r: String)
    ensures
        r@ == drop_trailing(s@),
{
    let v = chars_of(s);
    let mut to: usize = v.len();
    assert(v@.subrange(0, to as int) =~= s@);
    while to > 1 && (v[to - 1] == '/' || (to > 2 && v[to - 1] == '.' && v[to - 2] == '/'))
        invariant
            to <= v@.len(),
            drop_trailing(v@.subrange(0, to as int)) == drop_trailing(s@),
        decreases to,
    {
        let ghost t = v@.subrange(0, to as int);
        assert(t.drop_last() =~= v@.subrange(0, to - 1));
        assert(t.last() == v@[to - 1]);
        assert(t.len() > 2 ==> t[t.len() - 2] == v@[to - 2]);
        to = to - 1;
    }
    proof {
        let t = v@.subrange(0, to as int);
        if t.len() > 1 {
            assert(t.last() == v@[to - 1]);
        }
        if t.len() > 2 {
            assert(t[t.len() - 2] == v@[to - 2]);
        }
    }
    text_of(&v, 0, to)
}

/// `s` up to its last slash.
pub open spec fn through_slash(s: Seq<char>) -> Seq<char>
    decreases s.len(),
{
    if s.len() > 0 && s.last() != '/' {
        through_slash(s.drop_last())
    } else {
        s
    }
}

/// The directory above `path`: the path without its last name where it has one
/// to spare, `..` behind it otherwise, and nothing above the root.
pub open spec fn above(path: Seq<char>) -> Option<Seq<char>> {
    let head = through_slash(drop_trailing(path));
    if same_path(path, "/"@) {
        None
    } else if base_name(path) is Some && head.len() > 0 {
        Some(drop_trailing(head))
    } else {
        Some(joined(path, ".."@))
    }
}

/// What stands before the last name of a path, with its slash.
fn path_head(path: &str) -> (r: String)
    ensures
        r@ == through_slash(drop_trailing(path@)),
{
    let v = chars_of(trim_trailing(path).as_str());
    let mut to: usize = v.len();
    let ghost s = v@;
    assert(v@.subrange(0, to as int) =~= s);
    while to > 0 && v[to - 1] != '/'
        invariant
            to <= v@.len(),
            through_slash(v@.subrange(0, to as int)) == through_slash(s),
        decreases to,
    {
        let ghost t = v@.subrange(0, to as int);
        assert(t.drop_last() =~= v@.subrange(0, to - 1));
        to = to - 1;
    }
    text_of(&v, 0, to)
}

pub fn directory_above(path: &str) -> (r: Option<String>)
    ensures
        crate::text::opt_view(r) == above(path@),
{
    if path_eq(path, "/") {
        return None;
    }
    let head = path_head(path);
    if file_name(path).is_some() && crate::text::len(head.as_str()) > 0 {
        Some(trim_trailing(head.as_str()))
    } else {
        Some(join(path, ".."))
    }
}

/// The path without its last step; an empty path and the root have none to spare.
pub open spec fn parent_of(path: Seq<char>) -> Option<Seq<char>> {
    let all = steps(path);
    if all.len() == 0 || all.last() == "/"@ {
        None
    } else {
        Some(drop_trailing(through_slash(drop_trailing(path))))
    }
}

/// The directory of the themes: `themes` beside the configuration file.
pub fn themes_dir(config_file: &str) -> (r: Result<String, String>)
    ensures
        match (r, parent_of(config_file@)) {
            (Ok(dir), Some(parent)) => dir@ == joined(parent, "themes"@),
            (Err(e), None) => e@ == "profile config path has no parent"@,
            _ => false,
        },
{
    let all = path_steps(config_file);
    assert(views(all@).len() == all@.len());
    if all.len() == 0 {
        return Err("profile config path has no parent".to_owned());
    }
    assert(views(all@).last() == all@[all@.len() - 1]@);
    if same(all[all.len() - 1].as_str(), "/") {
        return Err("profile config path has no parent".to_owned());
    }
    let parent = trim_trailing(path_head(config_file).as_str());
    Ok(join(parent.as_str(), "themes"))
}

/// Render `path` with the directory `home` collapsed to `~`.
pub fn contract_prefix(path: &str, home: &str) -> (r: String)
    ensures
        r@ == contracted(path@, home@),
{
    if path_eq(path, home) {
        return "~".to_owned();
    }
    if path_starts_with(path, home) {
        let above = path_steps(home);
        assert(views(above@).len() == above@.len());
        cat2("~/", path_rest(path, above.len()).as_str())
    } else {
        path.to_owned()
    }
}

/// Render `path` for display with the user's home directory collapsed to `~`.
/// The inverse of [`shellexpand_home`]. `home` is `$HOME`, where it is set.
pub fn contract_home(path: &str, home: Option<&str>) -> (r: String)
    ensures
        r@ == match home {
            Some(home) if home@.len() > 0 => contracted(path@, home@),
            _ => path@,
        },
{
    match home {
        Some(home) => {
            if crate::text::len(home) > 0 {
                contract_prefix(path, home)
            } else {
                path.to_owned()
            }
        },
        None => path.to_owned(),
    }
}

/// A path with a leading `~` replaced by the home directory, where that is
/// known.
pub open spec fn expanded(path: Seq<char>, home: Option<Seq<char>>) -> Seq<char> {
    match home {
        Some(home) => if path == "~"@ {
            home
        } else if path.len() >= 2 && path[0] == '~' && path[1] == '/' {
            joined(home, path.skip(2))
        } else {
            path
        },
        None => path,
    }
}

/// Expand a leading `~` (or `~/`) in a path to the user's home directory.
/// `home` is `$HOME`, where it is set.
pub fn shellexpand_home(path: &str, home: Option<&str>) -> (r: String)
    ensures
        r@ == expanded(
            path@,
            match home {
                Some(home) => Some(home@),
                None => None,
            },
        ),
{
    match home {
        Some(home) => {
            let v = chars_of(path);
            if same(path, "~") {
                home.to_owned()
            } else if v.len() >= 2 && v[0] == '~' && v[1] == '/' {
                let rest = text_of(&v, 2, v.len());
                assert(rest@ =~= path@.skip(2));
                join(home, rest.as_str())
            } else {
                path.to_owned()
            }
        },
        None => path.to_owned(),
    }
}

} // verus!
