//! The host list: its order, and the tree of groups it is shown in.

use core::cmp::Ordering;
use vstd::prelude::*;

use crate::hosts::HostEntry;
use crate::text::{cat2, cat3, chars_of, decimal, group_views, lowercase, magnitude, to_decimal};

verus! {

broadcast use crate::text::group_views;

/// Virtual group label for hosts without a group.
pub const UNGROUPED_LABEL: &'static str = "_ungrouped";

/// How the host list is ordered.
#[derive(Debug, Clone, Copy, PartialEq, Eq, Structural)]
pub enum SortMode {
    Label,
    LastConnected,
    FavoriteFirst,
    GroupThenLabel,
    Manual,
}

impl Default for SortMode {
    fn default() -> (r: Self)
        ensures
            r == SortMode::Label,
    {
        SortMode::Label
    }
}

/// Texts in the order of their first differing character; a text comes before
/// those that it begins.
pub open spec fn text_order(a: Seq<char>, b: Seq<char>) -> Ordering
    decreases a.len(),
{
    if a.len() == 0 && b.len() == 0 {
        Ordering::Equal
    } else if a.len() == 0 {
        Ordering::Less
    } else if b.len() == 0 {
        Ordering::Greater
    } else if a[0] < b[0] {
        Ordering::Less
    } else if b[0] < a[0] {
        Ordering::Greater
    } else {
        text_order(a.drop_first(), b.drop_first())
    }
}

pub open spec fn number_order(a: i64, b: i64) -> Ordering {
    if a < b {
        Ordering::Less
    } else if b < a {
        Ordering::Greater
    } else {
        Ordering::Equal
    }
}

/// The first order, or the second where the first sees no difference.
pub open spec fn either_order(first: Ordering, second: Ordering) -> Ordering {
    match first {
        Ordering::Equal => second,
        _ => first,
    }
}

pub fn order_texts(a: &str, b: &str) -> (r: Ordering)
    ensures
        r == text_order(a@, b@),
{
    let x = chars_of(a);
    let y = chars_of(b);
    let n: usize = x.len();
    let m: usize = y.len();
    let mut i: usize = 0;
    assert(skipped(a@, 0) =~= a@ && skipped(b@, 0) =~= b@);
    while i < n && i < m
        invariant
            x@ == a@,
            y@ == b@,
            n == x@.len(),
            m == y@.len(),
            i <= n,
            i <= m,
            text_order(a@, b@) == text_order(skipped(a@, i), skipped(b@, i)),
        decreases n - i,
    {
        if x[i] < y[i] {
            return Ordering::Less;
        }
        if y[i] < x[i] {
            return Ordering::Greater;
        }
        assert(skipped(a@, i).drop_first() =~= skipped(a@, add_one(i)));
        assert(skipped(b@, i).drop_first() =~= skipped(b@, add_one(i)));
        i = i + 1;
    }
    if i < n {
        Ordering::Greater
    } else if i < m {
        Ordering::Less
    } else {
        Ordering::Equal
    }
}

spec fn skipped(s: Seq<char>, n: usize) -> Seq<char> {
    s.skip(n as int)
}

spec fn add_one(n: usize) -> usize {
    (n + 1) as usize
}

fn order_numbers(a: i64, b: i64) -> (r: Ordering)
    ensures
        r == number_order(a, b),
{
    if a < b {
        Ordering::Less
    } else if b < a {
        Ordering::Greater
    } else {
        Ordering::Equal
    }
}

fn first_order(first: Ordering, second: Ordering) -> (r: Ordering)
    ensures
        r == either_order(first, second),
{
    match first {
        Ordering::Equal => second,
        _ => first,
    }
}

/// Hosts by their label, without regard to case.
pub open spec fn label_order(a: HostEntry, b: HostEntry) -> Ordering {
    text_order(lowercase(a.display_spec()@), lowercase(b.display_spec()@))
}

pub fn label_cmp(a: &HostEntry, b: &HostEntry) -> (r: Ordering)
    ensures
        r == label_order(*a, *b),
{
    let x = a.display_name().as_str().to_lowercase();
    let y = b.display_name().as_str().to_lowercase();
    order_texts(x.as_str(), y.as_str())
}

/// As many zeros as are missing to a text of `width` characters.
pub open spec fn zeros(n: int) -> Seq<char> {
    if n <= 0 {
        Seq::empty()
    } else {
        Seq::new(n as nat, |i: int| '0')
    }
}

/// An integer in decimal, filled up with zeros behind the sign to eight
/// characters.
pub open spec fn padded(n: i64) -> Seq<char> {
    if n < 0 {
        let digits = decimal((-(n as int)) as nat);
        "-"@ + (zeros(7 - digits.len()) + digits)
    } else {
        let digits = decimal(n as nat);
        zeros(8 - digits.len()) + digits
    }
}

fn pad(digits: String, width: usize) -> (r: String)
    ensures
        r@ == zeros(width - digits@.len()) + digits@,
{
    let count: usize = crate::text::len(digits.as_str());
    let mut out = String::new();
    let mut i: usize = count;
    assert(out@ =~= zeros(0));
    while i < width
        invariant
            count == digits@.len(),
            count <= i,
            i <= width || i == count,
            out@ == zeros(i - count),
        decreases width - i,
    {
        out.push('0');
        i = i + 1;
        assert(out@ =~= zeros(i - count));
    }
    assert(zeros(width - count) =~= out@);
    out.append(digits.as_str());
    out
}

fn show_padded(n: i64) -> (r: String)
    ensures
        r@ == padded(n),
{
    let digits = to_decimal(magnitude(n));
    if n < 0 {
        cat2("-", pad(digits, 7).as_str())
    } else {
        pad(digits, 8)
    }
}

/// The text a host is ordered by when groups come first: the group's position
/// and name; hosts without a group come behind.
pub open spec fn group_key(entry: HostEntry) -> Seq<char> {
    let group = match entry.managed_spec() {
        Some(m) => m.group,
        None => None,
    };
    match group {
        Some(g) => padded(g.sort_order) + "_"@ + lowercase(g.name@),
        None => "z_"@ + UNGROUPED_LABEL@,
    }
}

pub fn group_sort_key(entry: &HostEntry) -> (r: String)
    ensures
        r@ == group_key(*entry),
{
    if let Some(m) = entry.managed() {
        if let Some(g) = &m.group {
            let name = g.name.as_str().to_lowercase();
            return cat3(show_padded(g.sort_order).as_str(), "_", name.as_str());
        }
    }
    cat2("z_", UNGROUPED_LABEL)
}

/// The order of two hosts in the list.
pub open spec fn host_order(a: HostEntry, b: HostEntry, mode: SortMode) -> Ordering {
    match mode {
        SortMode::Label => label_order(a, b),
        SortMode::LastConnected => match (a.last_connected_spec(), b.last_connected_spec()) {
            (Some(x), Some(y)) => number_order(y, x),
            (None, Some(_)) => Ordering::Less,
            (Some(_), None) => Ordering::Greater,
            (None, None) => label_order(a, b),
        },
        SortMode::FavoriteFirst => if a.favorite_spec() && !b.favorite_spec() {
            Ordering::Less
        } else if !a.favorite_spec() && b.favorite_spec() {
            Ordering::Greater
        } else {
            label_order(a, b)
        },
        SortMode::GroupThenLabel => either_order(
            text_order(group_key(a), group_key(b)),
            label_order(a, b),
        ),
        SortMode::Manual => either_order(
            number_order(a.sort_order_spec(), b.sort_order_spec()),
            text_order(a.name_spec()@, b.name_spec()@),
        ),
    }
}

/// The order of two hosts in the list.
pub fn compare_hosts(a: &HostEntry, b: &HostEntry, mode: SortMode) -> (r: Ordering)
    ensures
        r == host_order(*a, *b, mode),
{
    match mode {
        SortMode::Label => label_cmp(a, b),
        SortMode::LastConnected => match (b.last_connected(), a.last_connected()) {
            (Some(x), Some(y)) => order_numbers(x, y),
            (Some(_), None) => Ordering::Less,
            (None, Some(_)) => Ordering::Greater,
            (None, None) => label_cmp(a, b),
        },
        SortMode::FavoriteFirst => match (a.favorite(), b.favorite()) {
            (true, false) => Ordering::Less,
            (false, true) => Ordering::Greater,
            _ => label_cmp(a, b),
        },
        SortMode::GroupThenLabel => first_order(
            order_texts(group_sort_key(a).as_str(), group_sort_key(b).as_str()),
            label_cmp(a, b),
        ),
        SortMode::Manual => first_order(
            order_numbers(a.sort_order(), b.sort_order()),
            order_texts(a.name().as_str(), b.name().as_str()),
        ),
    }
}

/// Whether `a` belongs behind `b` in the list.
pub open spec fn ranks_behind(a: HostEntry, b: HostEntry, mode: SortMode) -> bool {
    host_order(a, b, mode) is Greater
}

fn behind(a: &HostEntry, b: &HostEntry, mode: SortMode) -> (r: bool)
    ensures
        r == ranks_behind(*a, *b, mode),
{
    match compare_hosts(a, b, mode) {
        Ordering::Greater => true,
        _ => false,
    }
}

pub proof fn lemma_text_order(a: Seq<char>, b: Seq<char>, c: Seq<char>)
    ensures
        text_order(a, b) is Greater <==> text_order(b, a) is Less,
        text_order(a, b) is Equal <==> text_order(b, a) is Equal,
        !(text_order(a, b) is Greater) && !(text_order(b, c) is Greater) ==> {
            &&& !(text_order(a, c) is Greater)
            &&& text_order(a, c) is Equal ==> text_order(a, b) is Equal && text_order(
                b,
                c,
            ) is Equal
        },
        text_order(a, b) is Equal ==> text_order(a, c) == text_order(b, c),
    decreases a.len(),
{
    if a.len() > 0 && b.len() > 0 {
        if c.len() > 0 {
            lemma_text_order(a.drop_first(), b.drop_first(), c.drop_first());
        } else {
            lemma_text_order(a.drop_first(), b.drop_first(), c);
        }
    }
}

/// The list orders are orders: of two different hosts not both belong behind the
/// other, and a host that does not belong behind a second, which does not belong
/// behind a third, does not belong behind the third.
pub proof fn list_order_is_total(a: HostEntry, b: HostEntry, c: HostEntry, mode: SortMode)
    ensures
        !(ranks_behind(a, b, mode) && ranks_behind(b, a, mode)),
        !ranks_behind(a, b, mode) && !ranks_behind(b, c, mode) ==> !ranks_behind(a, c, mode),
{
    let (x, y, z) = (
        lowercase(a.display_spec()@),
        lowercase(b.display_spec()@),
        lowercase(c.display_spec()@),
    );
    lemma_text_order(x, y, z);
    lemma_text_order(y, z, x);
    lemma_text_order(group_key(a), group_key(b), group_key(c));
    lemma_text_order(group_key(b), group_key(c), group_key(a));
    lemma_text_order(a.name_spec()@, b.name_spec()@, c.name_spec()@);
    lemma_text_order(b.name_spec()@, c.name_spec()@, a.name_spec()@);
}

/// `after` holds the hosts of `before`, each taken from the place that `places`
/// gives, in list order; hosts between which the order sees no difference stay
/// as they were.
pub open spec fn arranges(
    hosts: Seq<HostEntry>,
    before: Seq<usize>,
    after: Seq<usize>,
    mode: SortMode,
    places: Seq<int>,
) -> bool {
    &&& after.len() == before.len()
    &&& places.len() == before.len()
    &&& places.no_duplicates()
    &&& forall|k: int|
        0 <= k < after.len() ==> 0 <= #[trigger] places[k] < before.len() && after[k]
            == before[places[k]]
    &&& forall|k: int, l: int|
        #![trigger after[k], after[l]]
        0 <= k < l < after.len() ==> in_order(hosts, after[k], after[l], mode, places[k], places[l])
}

/// Two hosts stand in order: the second does not belong before the first, and
/// does not come from before it unless it belongs behind it.
pub open spec fn in_order(
    hosts: Seq<HostEntry>,
    a: usize,
    b: usize,
    mode: SortMode,
    from_a: int,
    from_b: int,
) -> bool {
    &&& !ranks_behind(hosts[a as int], hosts[b as int], mode)
    &&& ranks_behind(hosts[b as int], hosts[a as int], mode) || from_a < from_b
}

/// `after` is `before` in list order.
pub open spec fn sorted_hosts(
    hosts: Seq<HostEntry>,
    before: Seq<usize>,
    after: Seq<usize>,
    mode: SortMode,
) -> bool {
    exists|places: Seq<int>| #[trigger] arranges(hosts, before, after, mode, places)
}

/// Sorts the list of hosts to show, without disturbing hosts that are equal.
pub fn sort_host_indices(hosts: &Vec<HostEntry>, indices: &mut Vec<usize>, mode: SortMode)
    requires
        forall|k: int| 0 <= k < old(indices)@.len() ==> #[trigger] old(indices)@[k] < hosts@.len(),
    ensures
        sorted_hosts(hosts@, old(indices)@, final(indices)@, mode),
{
    let ghost before = indices@;
    let ghost mut places: Seq<int> = Seq::new(before.len(), |k: int| k);
    let n: usize = indices.len();
    let mut i: usize = 0;
    while i < n
        invariant
            n == before.len(),
            i <= n,
            indices@.len() == n,
            places.len() == n,
            places.no_duplicates(),
            forall|k: int|
                0 <= k < n ==> 0 <= #[trigger] places[k] < n && indices@[k] == before[places[k]],
            forall|k: int| i <= k < n ==> #[trigger] places[k] == k,
            forall|k: int| 0 <= k < i ==> #[trigger] places[k] < i,
            forall|k: int| 0 <= k < n ==> #[trigger] indices@[k] < hosts@.len(),
            forall|k: int, l: int|
                #![trigger indices@[k], indices@[l]]
                0 <= k < l < i ==> in_order(
                    hosts@,
                    indices@[k],
                    indices@[l],
                    mode,
                    places[k],
                    places[l],
                ),
        decreases n - i,
    {
        let mut j: usize = i;
        let ghost x = indices@[i as int];
        while j > 0 && behind(&hosts[indices[j - 1]], &hosts[indices[j]], mode)
            invariant
                n == before.len(),
                j <= i < n,
                indices@.len() == n,
                places.len() == n,
                places.no_duplicates(),
                indices@[j as int] == x,
                x < hosts@.len(),
                places[j as int] == i,
                forall|k: int|
                    0 <= k < n ==> 0 <= #[trigger] places[k] < n && indices@[k]
                        == before[places[k]],
                forall|k: int| i < k < n ==> #[trigger] places[k] == k,
                forall|k: int| 0 <= k <= i && k != j ==> #[trigger] places[k] < i,
                forall|k: int| 0 <= k < n ==> #[trigger] indices@[k] < hosts@.len(),
                forall|k: int, l: int|
                    #![trigger indices@[k], indices@[l]]
                    0 <= k < l <= i && k != j && l != j ==> in_order(
                        hosts@,
                        indices@[k],
                        indices@[l],
                        mode,
                        places[k],
                        places[l],
                    ),
                forall|k: int|
                    j < k <= i ==> ranks_behind(
                        hosts@[#[trigger] indices@[k] as int],
                        hosts@[x as int],
                        mode,
                    ),
            decreases j,
        {
            let ghost old_indices = indices@;
            let ghost old_places = places;
            let moved: usize = indices[j - 1];
            let held: usize = indices[j];
            indices.set(j, moved);
            indices.set(j - 1, held);
            proof {
                places = places.update(j as int, old_places[j - 1]).update(
                    j - 1,
                    old_places[j as int],
                );
                lemma_swapped_distinct(old_places, j as int);
            }
            j = j - 1;
        }
        proof {
            if j > 0 {
                assert forall|k: int| 0 <= k < j implies !ranks_behind(
                    hosts@[#[trigger] indices@[k] as int],
                    hosts@[x as int],
                    mode,
                ) by {
                    let near = indices@[j - 1];
                    list_order_is_total(
                        hosts@[indices@[k] as int],
                        hosts@[near as int],
                        hosts@[x as int],
                        mode,
                    );
                }
            }
            assert forall|k: int, l: int|
                #![trigger indices@[k], indices@[l]]
                0 <= k < l < i + 1 implies in_order(
                hosts@,
                indices@[k],
                indices@[l],
                mode,
                places[k],
                places[l],
            ) by {
                list_order_is_total(
                    hosts@[indices@[k] as int],
                    hosts@[indices@[l] as int],
                    hosts@[x as int],
                    mode,
                );
            }
        }
        i = i + 1;
    }
    assert(arranges(hosts@, before, indices@, mode, places));
}

proof fn lemma_swapped_distinct(places: Seq<int>, j: int)
    requires
        places.no_duplicates(),
        0 < j < places.len(),
    ensures
        places.update(j, places[j - 1]).update(j - 1, places[j]).no_duplicates(),
{
}

} // verus!
