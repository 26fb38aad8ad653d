//! What going down to a name and back up, and contracting and expanding a home
//! directory, do to each other.

use vstd::prelude::*;

use crate::paths::{
    above, base_name, behind_steps, contracted, drop_separators, drop_trailing, expanded,
    from_slash, is_absolute, is_below, is_parent_of, joined, named_pieces, rest_of, same_path,
    steps, through_slash,
};
use crate::text::{lemma_split_between, lemma_split_nonempty, lemma_split_whole, split};

verus! {

/// The pieces that name something wherever they stand.
spec fn kept(pieces: Seq<Seq<char>>) -> Seq<Seq<char>>
    decreases pieces.len(),
{
    if pieces.len() == 0 {
        Seq::empty()
    } else {
        let before = kept(pieces.drop_last());
        let piece = pieces.last();
        if piece.len() > 0 && piece != "."@ {
            before.push(piece)
        } else {
            before
        }
    }
}

/// The steps of a text that stands behind a slash.
spec fn body(s: Seq<char>) -> Seq<Seq<char>> {
    kept(split(s, '/'))
}

/// The step that only the beginning of a path can be.
spec fn lead(path: Seq<char>) -> Seq<Seq<char>> {
    if is_absolute(path) {
        seq!["/"@]
    } else if split(path, '/')[0] == "."@ {
        seq!["."@]
    } else {
        Seq::empty()
    }
}

proof fn lemma_kept_add(a: Seq<Seq<char>>, b: Seq<Seq<char>>)
    ensures
        kept(a + b) == kept(a) + kept(b),
    decreases b.len(),
{
    if b.len() == 0 {
        assert(a + b =~= a);
        assert(kept(a) + kept(b) =~= kept(a));
    } else {
        lemma_kept_add(a, b.drop_last());
        assert((a + b).drop_last() =~= a + b.drop_last());
        assert((a + b).last() == b.last());
        assert(kept(a + b) =~= kept(a) + kept(b));
    }
}

proof fn lemma_body_between(a: Seq<char>, b: Seq<char>)
    ensures
        body(a.push('/') + b) == body(a) + body(b),
        split(a.push('/') + b, '/')[0] == split(a, '/')[0],
{
    lemma_split_between(a, b, '/');
    lemma_split_nonempty(a, '/');
    lemma_kept_add(split(a, '/'), split(b, '/'));
}

proof fn lemma_body_empty()
    ensures
        body(Seq::empty()) == Seq::<Seq<char>>::empty(),
        body("."@) == Seq::<Seq<char>>::empty(),
        "."@ == seq!['.'],
{
    reveal_strlit(".");
    assert("."@ =~= seq!['.']);
    lemma_split_whole(Seq::empty(), '/');
    lemma_split_whole("."@, '/');
    reveal_with_fuel(kept, 2);
    assert(seq![Seq::<char>::empty()].drop_last() =~= Seq::empty());
    assert(seq!["."@].drop_last() =~= Seq::empty());
}

proof fn lemma_named(pieces: Seq<Seq<char>>)
    requires
        pieces.len() >= 1,
    ensures
        named_pieces(pieces) == if pieces[0] == "."@ {
            seq!["."@] + kept(pieces)
        } else {
            kept(pieces)
        },
    decreases pieces.len(),
{
    reveal_strlit(".");
    reveal_with_fuel(kept, 2);
    reveal_with_fuel(named_pieces, 2);
    if pieces.len() == 1 {
        assert(pieces.drop_last() =~= Seq::empty());
        assert(named_pieces(pieces) =~= if pieces[0] == "."@ {
            seq!["."@] + kept(pieces)
        } else {
            kept(pieces)
        });
    } else {
        lemma_named(pieces.drop_last());
        assert(pieces.drop_last()[0] == pieces[0]);
        assert(named_pieces(pieces) =~= if pieces[0] == "."@ {
            seq!["."@] + kept(pieces)
        } else {
            kept(pieces)
        });
    }
}

proof fn lemma_steps(path: Seq<char>)
    ensures
        steps(path) == lead(path) + body(path),
{
    lemma_split_nonempty(path, '/');
    lemma_named(split(path, '/'));
    if is_absolute(path) {
        lemma_slashed(path);
        lemma_split_whole(Seq::empty(), '/');
        reveal_strlit(".");
        assert(split(path, '/')[0] != "."@);
    }
    assert(steps(path) =~= lead(path) + body(path));
}

/// A text that begins with a slash.
proof fn lemma_slashed(s: Seq<char>)
    requires
        s.len() > 0,
        s[0] == '/',
    ensures
        body(s) == body(s.drop_first()),
        split(s, '/')[0] == Seq::<char>::empty(),
{
    let none = Seq::<char>::empty();
    assert(s =~= none.push('/') + s.drop_first());
    lemma_body_between(none, s.drop_first());
    lemma_body_empty();
    lemma_split_whole(none, '/');
    assert(body(none) + body(s.drop_first()) =~= body(s.drop_first()));
}

/// A text after whose first `n` characters a slash stands.
proof fn lemma_cut(s: Seq<char>, n: int)
    requires
        0 <= n < s.len(),
        s[n] == '/',
    ensures
        body(s) == body(s.take(n)) + body(s.skip(n + 1)),
        split(s, '/')[0] == split(s.take(n), '/')[0],
{
    assert(s =~= s.take(n).push('/') + s.skip(n + 1));
    lemma_body_between(s.take(n), s.skip(n + 1));
}

/// What stands before a step changes nothing, and what is left begins with a
/// step, if it is anything.
proof fn lemma_drop_separators(s: Seq<char>)
    ensures
        body(drop_separators(s)) == body(s),
        ({
            let d = drop_separators(s);
            d.len() > 0 ==> d[0] != '/' && !(d[0] == '.' && (d.len() == 1 || d[1] == '/'))
        }),
    decreases s.len(),
{
    if s.len() > 0 && s[0] == '/' {
        lemma_slashed(s);
        lemma_drop_separators(s.drop_first());
    } else if s.len() == 1 && s[0] == '.' {
        lemma_body_empty();
        assert(s =~= "."@);
    } else if s.len() > 1 && s[0] == '.' && s[1] == '/' {
        lemma_body_empty();
        lemma_cut(s, 1);
        assert(s.take(1) =~= "."@);
        lemma_slashed(s.drop_first());
        assert(s.drop_first().drop_first() =~= s.skip(2));
        assert(body("."@) + body(s.skip(2)) =~= body(s.skip(2)));
        lemma_drop_separators(s.drop_first());
    }
}

/// The first piece of a text, and what follows it.
proof fn lemma_from_slash(s: Seq<char>)
    requires
        s.len() > 0,
        s[0] != '/',
    ensures
        ({
            let first = split(s, '/')[0];
            &&& first.len() > 0
            &&& first.len() <= s.len()
            &&& first =~= s.take(first.len() as int)
            &&& first.len() < s.len() ==> s[first.len() as int] == '/'
            &&& from_slash(s) == s.skip(first.len() as int)
            &&& body(s) == (if first == "."@ {
                Seq::<Seq<char>>::empty()
            } else {
                seq![first]
            }) + body(from_slash(s))
        }),
{
    let n = lemma_span(s);
    let first = s.take(n);
    assert(!first.contains('/'));
    lemma_split_whole(first, '/');
    lemma_body_empty();
    assert(kept(seq![first]) =~= if first == "."@ {
        Seq::<Seq<char>>::empty()
    } else {
        seq![first]
    }) by {
        reveal_with_fuel(kept, 2);
        assert(seq![first].drop_last() =~= Seq::empty());
    }
    if n < s.len() {
        lemma_cut(s, n);
        lemma_slashed(s.skip(n));
        assert(s.skip(n).drop_first() =~= s.skip(n + 1));
    } else {
        assert(first =~= s);
        assert(s.skip(n) =~= Seq::empty());
        assert(kept(seq![first]) + body(Seq::empty()) =~= kept(seq![first]));
    }
}

/// How many characters come before the first slash.
proof fn lemma_span(s: Seq<char>) -> (n: int)
    ensures
        0 <= n <= s.len(),
        from_slash(s) == s.skip(n),
        forall|i: int| 0 <= i < n ==> s[i] != '/',
        n < s.len() ==> s[n] == '/',
        s.len() > 0 && s[0] != '/' ==> n > 0,
    decreases s.len(),
{
    if s.len() > 0 && s[0] != '/' {
        let m = lemma_span(s.drop_first());
        assert(s.drop_first().skip(m) =~= s.skip(m + 1));
        assert forall|i: int| 0 <= i < m + 1 implies s[i] != '/' by {
            if i > 0 {
                assert(s.drop_first()[i - 1] == s[i]);
            }
        }
        if m + 1 < s.len() {
            assert(s.drop_first()[m] == s[m + 1]);
        }
        m + 1
    } else {
        assert(s.skip(0) =~= s);
        0
    }
}

/// Leaving out steps, of a text that begins with one, leaves the others.
proof fn lemma_behind(s: Seq<char>, n: nat)
    requires
        s.len() > 0 ==> s[0] != '/' && !(s[0] == '.' && (s.len() == 1 || s[1] == '/')),
        n <= body(s).len(),
    ensures
        body(behind_steps(s, n)) == body(s).skip(n as int),
        behind_steps(s, n).len() > 0 ==> behind_steps(s, n)[0] != '/',
    decreases n,
{
    if n == 0 {
        assert(body(s).skip(0) =~= body(s));
    } else {
        lemma_body_empty();
        if s.len() == 0 {
            assert(s =~= Seq::empty());
            assert(false);
        }
        lemma_from_slash(s);
        let first = split(s, '/')[0];
        assert(first != "."@) by {
            if first == "."@ {
                assert(first[0] == s[0] && first.len() == 1);
            }
        }
        let next = drop_separators(from_slash(s));
        lemma_drop_separators(from_slash(s));
        assert(body(next) =~= body(s).drop_first());
        lemma_behind(next, (n - 1) as nat);
        assert(body(next).skip(n - 1) =~= body(s).skip(n as int));
    }
}

proof fn lemma_drop_trailing(s: Seq<char>)
    ensures
        body(drop_trailing(s)) == body(s),
        s.len() > 0 ==> drop_trailing(s).len() > 0 && drop_trailing(s)[0] == s[0],
    decreases s.len(),
{
    lemma_body_empty();
    if s.len() > 1 && s.last() == '/' {
        lemma_cut(s, s.len() - 1);
        assert(s.skip(s.len() as int) =~= Seq::empty());
        assert(s.take(s.len() - 1) =~= s.drop_last());
        assert(body(s.drop_last()) + body(Seq::empty()) =~= body(s.drop_last()));
        lemma_drop_trailing(s.drop_last());
    } else if s.len() > 2 && s.last() == '.' && s[s.len() - 2] == '/' {
        let cut = s.drop_last();
        lemma_cut(s, s.len() - 2);
        assert(s.skip(s.len() - 1) =~= "."@);
        lemma_cut(cut, s.len() - 2);
        assert(cut.skip(s.len() - 1) =~= Seq::empty());
        assert(cut.take(s.len() - 2) =~= s.take(s.len() - 2));
        lemma_drop_trailing(cut);
    }
}

/// What is left of a path behind some of its steps holds the others.
proof fn lemma_rest(path: Seq<char>, n: nat)
    requires
        0 < n <= steps(path).len(),
    ensures
        body(rest_of(path, n)) == steps(path).skip(n as int),
        rest_of(path, n).len() > 0 ==> rest_of(path, n)[0] != '/',
{
    lemma_steps(path);
    lemma_body_empty();
    let behind = if is_absolute(path) {
        behind_steps(drop_separators(path), (n - 1) as nat)
    } else {
        behind_steps(path, n)
    };
    if is_absolute(path) {
        lemma_drop_separators(path);
        lemma_behind(drop_separators(path), (n - 1) as nat);
        assert(body(path).skip(n - 1) =~= steps(path).skip(n as int));
    } else {
        if path.len() == 0 {
            assert(path =~= Seq::empty());
            lemma_split_whole(path, '/');
            assert(false);
        }
        lemma_from_slash(path);
        lemma_drop_separators(from_slash(path));
        let next = drop_separators(from_slash(path));
        assert(body(next) =~= steps(path).drop_first());
        lemma_behind(next, (n - 1) as nat);
        assert(body(next).skip(n - 1) =~= steps(path).skip(n as int));
    }
    lemma_drop_trailing(behind);
    if behind.len() == 0 {
        assert(drop_trailing(behind) == behind);
    }
}

/// Going down from a directory takes the directory's steps and then those below.
proof fn lemma_joined(home: Seq<char>, rest: Seq<char>)
    requires
        home.len() > 0,
        rest.len() > 0 ==> rest[0] != '/',
    ensures
        steps(joined(home, rest)) == steps(home) + body(rest),
{
    lemma_steps(home);
    lemma_steps(joined(home, rest));
    lemma_body_empty();
    reveal_strlit("/");
    let whole = joined(home, rest);
    if home.last() == '/' {
        let dir = home.drop_last();
        assert(whole =~= dir.push('/') + rest);
        assert(home =~= dir.push('/') + Seq::<char>::empty());
        lemma_body_between(dir, rest);
        lemma_body_between(dir, Seq::empty());
        assert(body(dir) + body(Seq::empty()) =~= body(dir));
    } else {
        assert("/"@ =~= seq!['/']);
        assert(whole =~= home.push('/') + rest);
        lemma_body_between(home, rest);
    }
    assert(whole[0] == home[0]);
    assert(lead(whole) == lead(home));
    assert(steps(whole) =~= steps(home) + body(rest));
}

/// Expanding undoes contracting: what is shown of a path names the same place
/// once its `~` is expanded again. A path outside the home directory is shown as
/// it is, so one that begins with a `~` of its own is left out.
pub proof fn expanding_undoes_contracting(path: Seq<char>, home: Seq<char>)
    requires
        home.len() > 0,
        is_below(path, home) || path.len() == 0 || path[0] != '~',
    ensures
        same_path(expanded(contracted(path, home), Some(home)), path),
{
    reveal_strlit("~");
    reveal_strlit("~/");
    if same_path(path, home) {
    } else if is_below(path, home) {
        let n = steps(home).len();
        let rest = rest_of(path, n);
        lemma_steps(home);
        if n == 0 {
            lemma_from_slash(home);
            assert(false);
        }
        lemma_rest(path, n);
        let shown = "~/"@ + rest;
        assert(shown.skip(2) =~= rest);
        if shown == "~"@ {
            assert(false);
        }
        lemma_joined(home, rest);
        assert(steps(path).take(n as int) + steps(path).skip(n as int) =~= steps(path));
    } else {
        if path == "~"@ {
            assert(false);
        }
    }
}

/// A name that a directory can list: something without a slash that leads
/// neither nowhere nor up.
pub open spec fn is_plain_name(name: Seq<char>) -> bool {
    name.len() > 0 && !name.contains('/') && name != "."@ && name != ".."@
}

proof fn lemma_plain(name: Seq<char>)
    requires
        is_plain_name(name),
    ensures
        body(name) == seq![name],
        name[0] != '/',
        name.last() != '/',
        steps(name) == seq![name],
{
    lemma_split_whole(name, '/');
    reveal_with_fuel(kept, 2);
    assert(seq![name].drop_last() =~= Seq::empty());
    assert(body(name) =~= seq![name]);
    assert(name.contains(name[0]) && name.contains(name[name.len() - 1]));
    lemma_steps(name);
    assert(steps(name) =~= seq![name]);
}

proof fn lemma_trailing_lead(s: Seq<char>)
    requires
        s.len() > 0,
    ensures
        split(drop_trailing(s), '/')[0] == split(s, '/')[0],
    decreases s.len(),
{
    if s.len() > 1 && s.last() == '/' {
        lemma_cut(s, s.len() - 1);
        assert(s.take(s.len() - 1) =~= s.drop_last());
        lemma_trailing_lead(s.drop_last());
    } else if s.len() > 2 && s.last() == '.' && s[s.len() - 2] == '/' {
        let cut = s.drop_last();
        lemma_cut(s, s.len() - 2);
        lemma_cut(cut, s.len() - 2);
        assert(cut.take(s.len() - 2) =~= s.take(s.len() - 2));
        lemma_trailing_lead(cut);
    }
}

proof fn lemma_through_slash(front: Seq<char>, name: Seq<char>)
    requires
        front.len() == 0 || front.last() == '/',
        !name.contains('/'),
    ensures
        through_slash(front + name) == front,
    decreases name.len(),
{
    if name.len() == 0 {
        assert(front + name =~= front);
    } else {
        let rest = name.drop_last();
        assert forall|i: int| 0 <= i < rest.len() implies rest[i] != '/' by {
            assert(name.contains(name[i]));
        }
        assert(name.contains(name[name.len() - 1]));
        assert((front + name).drop_last() =~= front + rest);
        lemma_through_slash(front, rest);
    }
}

/// What lies below a directory under some name is called by that name, and the
/// directory is where it lies: the path begins with that of the directory and
/// ends in the name.
pub proof fn names_are_found_again(dir: Seq<char>, name: Seq<char>)
    requires
        is_plain_name(name),
    ensures
        base_name(joined(dir, name)) == Some(name),
        joined(dir, name).len() >= dir.len() + name.len(),
        joined(dir, name).take(dir.len() as int) == dir,
        joined(dir, name).skip(joined(dir, name).len() - name.len()) == name,
        dir.len() > 0 ==> is_parent_of(dir, joined(dir, name)),
        dir.len() > 0 ==> !same_path(dir, joined(dir, name)),
{
    reveal_strlit("/");
    let path = joined(dir, name);
    lemma_plain(name);
    assert("/"@.contains("/"@[0]));
    if dir.len() > 0 {
        lemma_joined(dir, name);
        assert(steps(path).drop_last() =~= steps(dir));
    } else {
        assert(path =~= name);
    }
    assert(path.take(dir.len() as int) =~= dir);
    assert(path.skip(path.len() - name.len()) =~= name);
}

/// Going up from what a directory lists leads back to the directory.
pub proof fn going_up_undoes_going_down(dir: Seq<char>, name: Seq<char>)
    requires
        is_plain_name(name),
        dir.len() > 0,
    ensures
        above(joined(dir, name)) matches Some(up) && same_path(up, dir),
{
    reveal_strlit("/");
    reveal_strlit(".");
    let path = joined(dir, name);
    lemma_plain(name);
    lemma_joined(dir, name);
    names_are_found_again(dir, name);
    let root = "/"@;
    assert(root =~= seq!['/']);
    assert(root.contains(root[0]));
    lemma_steps(root);
    lemma_cut(root, 0);
    assert(root.take(0) =~= Seq::empty());
    assert(root.skip(1) =~= Seq::empty());
    lemma_body_empty();
    assert(steps(root) =~= seq![root]);
    assert(steps(path).last() == name);
    assert(!same_path(path, root));
    let front = if dir.last() == '/' {
        dir
    } else {
        dir + root
    };
    assert(path =~= front + name);
    if path.last() == '.' && path[path.len() - 2] == '/' {
        if name.len() > 1 {
            assert(name[name.len() - 2] == path[path.len() - 2]);
            assert(name.contains(name[name.len() - 2]));
        } else {
            assert(name =~= "."@);
        }
    }
    assert(drop_trailing(path) == path);
    lemma_through_slash(front, name);
    lemma_drop_trailing(front);
    lemma_trailing_lead(front);
    let up = drop_trailing(front);
    lemma_steps(up);
    lemma_steps(front);
    assert(steps(up) == steps(front));
    if dir.last() != '/' {
        let none = Seq::<char>::empty();
        lemma_joined(dir, none);
        assert(joined(dir, none) =~= front);
        assert(steps(dir) + body(none) =~= steps(dir));
    }
}

} // verus!
