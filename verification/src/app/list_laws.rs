//! How the hosts are ordered and grouped in their list.

use vstd::prelude::*;

use crate::app::group_tree::{
    is_member, is_shown, lemma_path_grows, members, section_of, sections, subtree, SectionView,
};
use crate::app::host_list::{
    arranges, group_key, in_order, label_order, lemma_text_order, padded, ranks_behind,
    sorted_hosts, text_order, zeros, SortMode,
};
use crate::hosts::{HostEntry, HostGroup};
use crate::text::{decimal, is_digit, lowercase, numeral, numerals_are_read_back, value_in};

verus! {

/// Texts are ordered by the first character in which they differ, and one that
/// is the beginning of another stands before it.
pub proof fn texts_are_ordered_by_their_first_difference(
    common: Seq<char>,
    c: char,
    one: Seq<char>,
    d: char,
    other: Seq<char>,
)
    ensures
        c < d ==> text_order(common.push(c) + one, common.push(d) + other) is Less,
        c > d ==> text_order(common.push(c) + one, common.push(d) + other) is Greater,
        text_order(common, common.push(c) + one) is Less,
        text_order(common.push(c) + one, common) is Greater,
        text_order(common, common) is Equal,
    decreases common.len(),
{
    let a = common.push(c) + one;
    let b = common.push(d) + other;
    if common.len() > 0 {
        let rest = common.drop_first();
        texts_are_ordered_by_their_first_difference(rest, c, one, d, other);
        assert(a.drop_first() =~= rest.push(c) + one);
        assert(b.drop_first() =~= rest.push(d) + other);
        assert(a[0] == common[0] && b[0] == common[0]);
    } else {
        assert(a[0] == c && b[0] == d);
    }
}

/// The host on a row of the list.
pub open spec fn host_at(hosts: Seq<HostEntry>, rows: Seq<usize>, row: int) -> HostEntry {
    hosts[rows[row] as int]
}

/// Sorting keeps every host to show and adds none. Then favourites stand before
/// the rest, or the later connection before the earlier, or the smaller place
/// before the larger, or the labels in their order, as the mode says; hosts
/// between which the mode sees no difference stand as they stood.
pub proof fn hosts_are_listed_as_the_mode_says(
    hosts: Seq<HostEntry>,
    before: Seq<usize>,
    after: Seq<usize>,
    mode: SortMode,
    k: int,
    l: int,
)
    requires
        sorted_hosts(hosts, before, after, mode),
        0 <= k < l < after.len(),
    ensures
        after.len() == before.len(),
        forall|host: usize| #[trigger] after.contains(host) ==> before.contains(host),
        ({
            let first = host_at(hosts, after, k);
            let second = host_at(hosts, after, l);
            &&& mode is FavoriteFirst && second.favorite_spec() ==> first.favorite_spec()
            &&& mode is LastConnected && first.last_connected_spec() is Some ==> (
            second.last_connected_spec() matches Some(earlier) && first.last_connected_spec()->0
                >= earlier)
            &&& mode is Manual ==> first.sort_order_spec() <= second.sort_order_spec()
            &&& mode is Label ==> !(label_order(first, second) is Greater)
        }),
{
    let places = choose|places: Seq<int>| #[trigger] arranges(hosts, before, after, mode, places);
    assert(in_order(hosts, after[k], after[l], mode, places[k], places[l]));
    assert(!ranks_behind(host_at(hosts, after, k), host_at(hosts, after, l), mode));
    assert forall|host: usize| #[trigger] after.contains(host) implies before.contains(host) by {
        let i = choose|i: int| 0 <= i < after.len() && after[i] == host;
        assert(before[places[i]] == host);
    }
}

proof fn lemma_members(hosts: Seq<HostEntry>, filtered: Seq<usize>, group: Option<i64>)
    ensures
        forall|host: usize| #[trigger]
            members(hosts, filtered, group).contains(host) <==> filtered.contains(host)
                && is_member(hosts[host as int], group),
    decreases filtered.len(),
{
    if filtered.len() > 0 {
        let rest = filtered.drop_last();
        let before = members(hosts, rest, group);
        let now = members(hosts, filtered, group);
        lemma_members(hosts, rest, group);
        assert forall|host: usize| #[trigger] now.contains(host) <==> filtered.contains(host)
            && is_member(hosts[host as int], group) by {
            if filtered.contains(host) && host != filtered.last() {
                let i = choose|i: int| 0 <= i < filtered.len() && filtered[i] == host;
                assert(rest[i] == host);
            }
            if rest.contains(host) {
                let i = choose|i: int| 0 <= i < rest.len() && rest[i] == host;
                assert(filtered[i] == host);
            }
            assert(filtered[filtered.len() - 1] == filtered.last());
            if before.contains(host) {
                let i = choose|i: int| 0 <= i < before.len() && before[i] == host;
                assert(before.push(filtered.last())[i] == host);
            }
            if is_member(hosts[filtered.last() as int], group) {
                assert(now[before.len() as int] == filtered.last());
            }
            if now.contains(host) {
                let i = choose|i: int| 0 <= i < now.len() && now[i] == host;
                if i < before.len() {
                    assert(before[i] == host);
                }
            }
        }
    }
}

/// Whether a section lists exactly those hosts to show that belong to its group,
/// or to none where it has none.
pub open spec fn lists_its_members(
    section: SectionView,
    hosts: Seq<HostEntry>,
    filtered: Seq<usize>,
) -> bool {
    &&& section.group matches Some(group) ==> section.label == group.name@
    &&& forall|host: usize| #[trigger]
        section.hosts.contains(host) <==> filtered.contains(host) && match section.group {
            Some(group) => hosts[host as int].group_ids_spec().contains(group.id),
            None => hosts[host as int].group_ids_spec().len() == 0,
        }
}

proof fn lemma_subtree_members(
    hosts: Seq<HostEntry>,
    groups: Seq<HostGroup>,
    filtered: Seq<usize>,
    parent: Option<i64>,
    depth: nat,
    path: Seq<i64>,
    from: nat,
)
    ensures
        ({
            let all = subtree(hosts, groups, filtered, parent, depth, path, from);
            forall|i: int| 0 <= i < all.len() ==> {
                &&& lists_its_members(#[trigger] all[i], hosts, filtered)
                &&& all[i].group matches Some(group) && groups.contains(group)
            }
        }),
    decreases crate::app::group_tree::groups_off_path(groups, path), groups.len() - from,
{
    let all = subtree(hosts, groups, filtered, parent, depth, path, from);
    if from < groups.len() {
        let group = groups[from as int];
        let inside = members(hosts, filtered, Some(group.id));
        lemma_subtree_members(hosts, groups, filtered, parent, depth, path, from + 1);
        let rest = subtree(hosts, groups, filtered, parent, depth, path, from + 1);
        if group.parent_id != parent || path.contains(group.id) || !is_shown(group, inside) {
        } else {
            lemma_path_grows(groups, path, group.id);
            lemma_subtree_members(
                hosts,
                groups,
                filtered,
                Some(group.id),
                depth + 1,
                path.push(group.id),
                0,
            );
            lemma_members(hosts, filtered, Some(group.id));
            let own = section_of(group, inside, depth);
            let below = subtree(
                hosts,
                groups,
                filtered,
                Some(group.id),
                depth + 1,
                path.push(group.id),
                0,
            );
            assert(groups.contains(group));
            assert(lists_its_members(own, hosts, filtered));
            assert forall|i: int| 0 <= i < all.len() implies {
                &&& lists_its_members(#[trigger] all[i], hosts, filtered)
                &&& all[i].group matches Some(group) && groups.contains(group)
            } by {
                if i == 0 {
                    assert(all[i] == own);
                } else if i < 1 + below.len() {
                    assert(all[i] == below[i - 1]);
                } else {
                    assert(all[i] == rest[i - 1 - below.len()]);
                }
            }
        }
    }
}

/// Every section of the host list shows the hosts of its own group and no
/// others, under the name of that group; those that are in no group stand
/// together in a last section, which is there exactly if there are any.
pub proof fn sections_list_their_members(
    hosts: Seq<HostEntry>,
    groups: Seq<HostGroup>,
    filtered: Seq<usize>,
    i: int,
)
    requires
        0 <= i < sections(hosts, groups, filtered).len(),
    ensures
        ({
            let all = sections(hosts, groups, filtered);
            &&& lists_its_members(all[i], hosts, filtered)
            &&& all[i].group is None ==> i == all.len() - 1
            &&& !all[i].collapsed
        }),
{
    lemma_subtree_members(hosts, groups, filtered, None, 0, Seq::empty(), 0);
    lemma_members(hosts, filtered, None);
    let tree = subtree(hosts, groups, filtered, None, 0, Seq::empty(), 0);
    lemma_unfolded(hosts, groups, filtered, None, 0, Seq::empty(), 0);
    if i < tree.len() {
        assert(sections(hosts, groups, filtered)[i] == tree[i]);
        assert(lists_its_members(tree[i], hosts, filtered));
    }
}

proof fn lemma_unfolded(
    hosts: Seq<HostEntry>,
    groups: Seq<HostGroup>,
    filtered: Seq<usize>,
    parent: Option<i64>,
    depth: nat,
    path: Seq<i64>,
    from: nat,
)
    ensures
        ({
            let all = subtree(hosts, groups, filtered, parent, depth, path, from);
            forall|i: int| 0 <= i < all.len() ==> !(#[trigger] all[i]).collapsed
        }),
    decreases crate::app::group_tree::groups_off_path(groups, path), groups.len() - from,
{
    let all = subtree(hosts, groups, filtered, parent, depth, path, from);
    if from < groups.len() {
        let group = groups[from as int];
        let inside = members(hosts, filtered, Some(group.id));
        lemma_unfolded(hosts, groups, filtered, parent, depth, path, from + 1);
        if group.parent_id != parent || path.contains(group.id) || !is_shown(group, inside) {
        } else {
            lemma_path_grows(groups, path, group.id);
            lemma_unfolded(
                hosts,
                groups,
                filtered,
                Some(group.id),
                depth + 1,
                path.push(group.id),
                0,
            );
        }
    }
}

/// A host without a group is never lost from the list.
pub proof fn loose_hosts_are_listed(
    hosts: Seq<HostEntry>,
    groups: Seq<HostGroup>,
    filtered: Seq<usize>,
    host: usize,
)
    requires
        filtered.contains(host),
        hosts[host as int].group_ids_spec().len() == 0,
    ensures
        ({
            let all = sections(hosts, groups, filtered);
            all.len() > 0 && all.last().group is None && all.last().hosts.contains(host)
        }),
{
    lemma_members(hosts, filtered, None);
    let loose = members(hosts, filtered, None);
    assert(loose.contains(host));
}

proof fn lemma_prefix_decides(a: Seq<char>, b: Seq<char>, c: Seq<char>, d: Seq<char>)
    requires
        a.len() == b.len(),
        text_order(a, b) is Less,
    ensures
        text_order(a + c, b + d) is Less,
    decreases a.len(),
{
    if a.len() > 0 {
        assert((a + c)[0] == a[0] && (b + d)[0] == b[0]);
        assert((a + c).drop_first() =~= a.drop_first() + c);
        assert((b + d).drop_first() =~= b.drop_first() + d);
        if !(a[0] < b[0]) {
            lemma_prefix_decides(a.drop_first(), b.drop_first(), c, d);
        }
    }
}

proof fn lemma_digits_order(s: Seq<char>, t: Seq<char>)
    requires
        s.len() == t.len(),
        forall|i: int| 0 <= i < s.len() ==> is_digit(#[trigger] s[i]),
        forall|i: int| 0 <= i < t.len() ==> is_digit(#[trigger] t[i]),
    ensures
        value_in(s, 10) < value_in(t, 10) ==> text_order(s, t) is Less,
        value_in(s, 10) == value_in(t, 10) ==> s == t,
    decreases s.len(),
{
    if s.len() == 0 {
        assert(s =~= t);
    } else {
        let a = s.drop_last();
        let b = t.drop_last();
        assert(is_digit(s[s.len() - 1]) && is_digit(t[t.len() - 1]));
        assert forall|i: int| 0 <= i < a.len() implies is_digit(#[trigger] a[i]) by {
            assert(a[i] == s[i]);
        }
        assert forall|i: int| 0 <= i < b.len() implies is_digit(#[trigger] b[i]) by {
            assert(b[i] == t[i]);
        }
        lemma_digits_order(a, b);
        let none = Seq::<char>::empty();
        assert(s =~= a + seq![s.last()] && t =~= b + seq![t.last()]);
        if value_in(a, 10) < value_in(b, 10) {
            lemma_prefix_decides(a, b, seq![s.last()], seq![t.last()]);
        } else if a == b {
            texts_are_ordered_by_their_first_difference(a, s.last(), none, t.last(), none);
            assert(s =~= a.push(s.last()) + none && t =~= b.push(t.last()) + none);
        }
    }
}

/// Ten, taken this many times.
spec fn tens(k: nat) -> nat
    decreases k,
{
    if k == 0 {
        1
    } else {
        10 * tens((k - 1) as nat)
    }
}

proof fn lemma_decimal_length(n: nat, k: nat)
    requires
        k > 0,
        n < tens(k),
    ensures
        decimal(n).len() <= k,
    decreases k,
{
    reveal_with_fuel(tens, 2);
    reveal_with_fuel(numeral, 2);
    if n >= 10 {
        if k == 1 {
            assert(tens(0) == 1);
        } else {
            assert(n / 10 < tens((k - 1) as nat));
            lemma_decimal_length(n / 10, (k - 1) as nat);
        }
    }
}

proof fn lemma_zeros_value(k: nat, digits: Seq<char>)
    ensures
        value_in(zeros(k as int) + digits, 10) == value_in(digits, 10),
    decreases k + digits.len(),
{
    let whole = zeros(k as int) + digits;
    if digits.len() > 0 {
        assert(whole.drop_last() =~= zeros(k as int) + digits.drop_last());
        lemma_zeros_value(k, digits.drop_last());
    } else if k > 0 {
        assert(whole.drop_last() =~= zeros(k - 1) + digits);
        assert(whole.last() == '0');
        lemma_zeros_value((k - 1) as nat, digits);
    }
}

proof fn lemma_padded_value(n: i64)
    requires
        0 <= n < 100_000_000,
    ensures
        padded(n).len() == 8,
        value_in(padded(n), 10) == n,
        forall|i: int| 0 <= i < padded(n).len() ==> is_digit(#[trigger] padded(n)[i]),
{
    let digits = decimal(n as nat);
    numerals_are_read_back(n as nat, 10);
    assert(tens(8) == 100_000_000) by {
        reveal_with_fuel(tens, 9);
    }
    lemma_decimal_length(n as nat, 8);
    let k = (8 - digits.len()) as nat;
    lemma_zeros_value(k, digits);
    assert forall|i: int| 0 <= i < padded(n).len() implies is_digit(#[trigger] padded(n)[i]) by {
        if i >= k {
            assert(padded(n)[i] == digits[i - k]);
        }
    }
}

/// Sorted by groups, hosts follow the places of their groups: a host of a group
/// with a smaller place stands before one of a group with a larger.
pub proof fn groups_follow_their_places(
    one: HostEntry,
    other: HostEntry,
    first: HostGroup,
    second: HostGroup,
)
    requires
        one matches HostEntry::Managed(m) && m.group == Some(first),
        other matches HostEntry::Managed(m) && m.group == Some(second),
        0 <= first.sort_order < second.sort_order < 100_000_000,
    ensures
        text_order(group_key(one), group_key(other)) is Less,
        !ranks_behind(one, other, SortMode::GroupThenLabel),
        ranks_behind(other, one, SortMode::GroupThenLabel),
{
    let a = padded(first.sort_order);
    let b = padded(second.sort_order);
    lemma_padded_value(first.sort_order);
    lemma_padded_value(second.sort_order);
    lemma_digits_order(a, b);
    let c = "_"@ + lowercase(first.name@);
    let d = "_"@ + lowercase(second.name@);
    lemma_prefix_decides(a, b, c, d);
    assert(group_key(one) =~= a + c);
    assert(group_key(other) =~= b + d);
    lemma_text_order(group_key(one), group_key(other), group_key(one));
    lemma_text_order(group_key(other), group_key(one), group_key(other));
}

} // verus!
