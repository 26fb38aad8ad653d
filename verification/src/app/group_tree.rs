//! The forest of host groups, flattened into the sections of the host list.

use vstd::prelude::*;

use crate::app::host_list::UNGROUPED_LABEL;
use crate::hosts::{HostEntry, HostGroup};
use crate::text::{group_views, views};

verus! {

broadcast use crate::text::group_views;

/// One section of the host list: a group and the hosts shown under it.
#[derive(Debug, PartialEq, Eq)]
pub struct HostGroupSection {
    /// The group, or `None` for the hosts without one.
    pub group: Option<HostGroup>,
    pub label: String,
    pub host_indices: Vec<usize>,
    pub collapsed: bool,
    /// How many groups lie above this one.
    pub depth: usize,
}

#[verifier::ext_equal]
pub struct SectionView {
    pub group: Option<HostGroup>,
    pub label: Seq<char>,
    pub hosts: Seq<usize>,
    pub collapsed: bool,
    pub depth: nat,
}

impl View for HostGroupSection {
    type V = SectionView;

    open spec fn view(&self) -> SectionView {
        SectionView {
            group: self.group,
            label: self.label@,
            hosts: self.host_indices@,
            collapsed: self.collapsed,
            depth: self.depth as nat,
        }
    }
}

/// Those of the hosts to show that are in a group, or for `None` in no group.
pub open spec fn members(
    hosts: Seq<HostEntry>,
    filtered: Seq<usize>,
    group: Option<i64>,
) -> Seq<usize>
    decreases filtered.len(),
{
    if filtered.len() == 0 {
        Seq::empty()
    } else {
        let before = members(hosts, filtered.drop_last(), group);
        if is_member(hosts[filtered.last() as int], group) {
            before.push(filtered.last())
        } else {
            before
        }
    }
}

pub open spec fn is_member(entry: HostEntry, group: Option<i64>) -> bool {
    match group {
        Some(id) => entry.group_ids_spec().contains(id),
        None => entry.group_ids_spec().len() == 0,
    }
}

fn holds_id(ids: &Vec<i64>, id: i64) -> (r: bool)
    ensures
        r == ids@.contains(id),
{
    let mut i: usize = 0;
    while i < ids.len()
        invariant
            i <= ids@.len(),
            forall|k: int| 0 <= k < i ==> ids@[k] != id,
        decreases ids@.len() - i,
    {
        if ids[i] == id {
            return true;
        }
        i = i + 1;
    }
    false
}

fn find_members(hosts: &Vec<HostEntry>, filtered: &Vec<usize>, group: Option<i64>) -> (r: Vec<
    usize,
>)
    requires
        forall|k: int| 0 <= k < filtered@.len() ==> #[trigger] filtered@[k] < hosts@.len(),
    ensures
        r@ == members(hosts@, filtered@, group),
{
    let mut out: Vec<usize> = Vec::new();
    let mut i: usize = 0;
    assert(filtered@.take(0) =~= Seq::empty());
    while i < filtered.len()
        invariant
            i <= filtered@.len(),
            forall|k: int| 0 <= k < filtered@.len() ==> #[trigger] filtered@[k] < hosts@.len(),
            out@ == members(hosts@, filtered@.take(i as int), group),
        decreases filtered@.len() - i,
    {
        assert(filtered@.take(i + 1).drop_last() =~= filtered@.take(i as int));
        assert(filtered@.take(i + 1).last() == filtered@[i as int]);
        let ids = hosts[filtered[i]].group_ids();
        let belongs = match group {
            Some(id) => holds_id(ids, id),
            None => ids.len() == 0,
        };
        if belongs {
            out.push(filtered[i]);
        }
        i = i + 1;
    }
    assert(filtered@.take(filtered@.len() as int) =~= filtered@);
    out
}

/// How many of the groups are not on the path from the root.
pub open spec fn groups_off_path(groups: Seq<HostGroup>, path: Seq<i64>) -> nat
    decreases groups.len(),
{
    if groups.len() == 0 {
        0
    } else {
        groups_off_path(groups.drop_last(), path) + if path.contains(groups.last().id) {
            0nat
        } else {
            1nat
        }
    }
}

/// A longer path leaves fewer groups off it.
pub proof fn lemma_path_grows(groups: Seq<HostGroup>, path: Seq<i64>, id: i64)
    ensures
        groups_off_path(groups, path.push(id)) <= groups_off_path(groups, path),
        !path.contains(id) && (exists|k: int| 0 <= k < groups.len() && groups[k].id == id)
            ==> groups_off_path(groups, path.push(id)) < groups_off_path(groups, path),
    decreases groups.len(),
{
    if groups.len() > 0 {
        let rest = groups.drop_last();
        let last = groups.last().id;
        lemma_path_grows(rest, path, id);
        assert(path.contains(last) ==> path.push(id).contains(last)) by {
            if path.contains(last) {
                let k = path.index_of(last);
                assert(path.push(id)[k] == last);
            }
        }
        assert(path.push(id).contains(id)) by {
            assert(path.push(id)[path.len() as int] == id);
        }
        if !path.contains(id) && exists|k: int| 0 <= k < groups.len() && groups[k].id == id {
            if last != id {
                let k = choose|k: int| 0 <= k < groups.len() && groups[k].id == id;
                assert(rest[k].id == id);
            }
        }
    }
}

proof fn lemma_off_path_bound(groups: Seq<HostGroup>, path: Seq<i64>)
    ensures
        groups_off_path(groups, path) <= groups.len(),
    decreases groups.len(),
{
    if groups.len() > 0 {
        lemma_off_path_bound(groups.drop_last(), path);
    }
}

/// The section of one group.
pub open spec fn section_of(group: HostGroup, hosts: Seq<usize>, depth: nat) -> SectionView {
    SectionView { group: Some(group), label: group.name@, hosts, collapsed: false, depth }
}

/// Whether a group is shown: the reserved one only once it has members.
pub open spec fn is_shown(group: HostGroup, hosts: Seq<usize>) -> bool {
    !(group.reserved && hosts.len() == 0)
}

/// The sections of the groups below `parent`, from position `from` on in the
/// list of groups: each group that is shown is followed by those below it.
/// `path` holds the groups above; a group that is among them is left out, so a
/// cycle in the data ends there.
pub open spec fn subtree(
    hosts: Seq<HostEntry>,
    groups: Seq<HostGroup>,
    filtered: Seq<usize>,
    parent: Option<i64>,
    depth: nat,
    path: Seq<i64>,
    from: nat,
) -> Seq<SectionView>
    decreases groups_off_path(groups, path), groups.len() - from,
{
    if from >= groups.len() {
        Seq::empty()
    } else {
        let group = groups[from as int];
        let rest = subtree(hosts, groups, filtered, parent, depth, path, from + 1);
        let inside = members(hosts, filtered, Some(group.id));
        if group.parent_id != parent || path.contains(group.id) || !is_shown(group, inside) {
            rest
        } else {
            proof {
                lemma_path_grows(groups, path, group.id);
            }
            seq![section_of(group, inside, depth)] + subtree(
                hosts,
                groups,
                filtered,
                Some(group.id),
                depth + 1,
                path.push(group.id),
                0,
            ) + rest
        }
    }
}

/// The sections of the host list: the forest of groups, then the hosts without
/// a group, if there are any.
pub open spec fn sections(
    hosts: Seq<HostEntry>,
    groups: Seq<HostGroup>,
    filtered: Seq<usize>,
) -> Seq<SectionView> {
    let tree = subtree(hosts, groups, filtered, None, 0, Seq::empty(), 0);
    let loose = members(hosts, filtered, None);
    if loose.len() > 0 {
        tree.push(
            SectionView {
                group: None,
                label: UNGROUPED_LABEL@,
                hosts: loose,
                collapsed: false,
                depth: 0,
            },
        )
    } else {
        tree
    }
}

fn same_parent(a: Option<i64>, b: Option<i64>) -> (r: bool)
    ensures
        r == (a == b),
{
    match (a, b) {
        (Some(x), Some(y)) => x == y,
        (None, None) => true,
        _ => false,
    }
}

/// Append the sections for every group whose parent is `parent_id`, each
/// followed by those below it.
fn build_group_subtree(
    hosts: &Vec<HostEntry>,
    groups: &Vec<HostGroup>,
    filtered: &Vec<usize>,
    parent_id: Option<i64>,
    depth: usize,
    path: &mut Vec<i64>,
    out: &mut Vec<HostGroupSection>,
)
    requires
        forall|k: int| 0 <= k < filtered@.len() ==> #[trigger] filtered@[k] < hosts@.len(),
        depth + groups_off_path(groups@, old(path)@) <= groups@.len(),
    ensures
        final(path)@ == old(path)@,
        views(final(out)@) == views(old(out)@) + subtree(
            hosts@,
            groups@,
            filtered@,
            parent_id,
            depth as nat,
            old(path)@,
            0,
        ),
    decreases groups_off_path(groups@, old(path)@),
{
    let ghost way = path@;
    let ghost before = views(out@);
    let ghost whole = subtree(hosts@, groups@, filtered@, parent_id, depth as nat, way, 0);
    let count: usize = groups.len();
    let mut i: usize = 0;
    assert(views(out@) + whole =~= before + whole);
    while i < count
        invariant
            count == groups@.len(),
            i <= count,
            path@ == way,
            way == old(path)@,
            forall|k: int| 0 <= k < filtered@.len() ==> #[trigger] filtered@[k] < hosts@.len(),
            depth + groups_off_path(groups@, way) <= groups@.len(),
            views(out@) + subtree(
                hosts@,
                groups@,
                filtered@,
                parent_id,
                depth as nat,
                way,
                i as nat,
            ) == before + whole,
        decreases count - i,
    {
        let group = &groups[i];
        let ghost rest = subtree(
            hosts@,
            groups@,
            filtered@,
            parent_id,
            depth as nat,
            way,
            (i + 1) as nat,
        );
        let ghost sofar = views(out@);
        if same_parent(group.parent_id, parent_id) && !holds_id(path, group.id) {
            let inside = find_members(hosts, filtered, Some(group.id));
            if !(group.reserved && inside.len() == 0) {
                proof {
                    lemma_path_grows(groups@, way, group.id);
                    assert(groups@[i as int].id == group.id);
                }
                let ghost below = subtree(
                    hosts@,
                    groups@,
                    filtered@,
                    Some(group.id),
                    (depth + 1) as nat,
                    way.push(group.id),
                    0,
                );
                let ghost head = section_of(*group, inside@, depth as nat);
                out.push(
                    HostGroupSection {
                        group: Some(group.clone()),
                        label: group.name.clone(),
                        host_indices: inside,
                        collapsed: false,
                        depth,
                    },
                );
                assert(views(out@) == sofar.push(head));
                path.push(group.id);
                build_group_subtree(
                    hosts,
                    groups,
                    filtered,
                    Some(group.id),
                    depth + 1,
                    path,
                    out,
                );
                let _ = path.pop();
                assert(path@ =~= way);
                assert(views(out@) =~= sofar.push(head) + below);
                assert(views(out@) + rest =~= sofar + (seq![head] + below + rest));
            }
        }
        i = i + 1;
    }
    assert(views(out@) =~= before + whole);
}

/// The sections of the host list.
pub fn build_group_sections(
    hosts: &Vec<HostEntry>,
    groups: &Vec<HostGroup>,
    filtered: &Vec<usize>,
) -> (r: Vec<HostGroupSection>)
    requires
        forall|k: int| 0 <= k < filtered@.len() ==> #[trigger] filtered@[k] < hosts@.len(),
    ensures
        views(r@) == sections(hosts@, groups@, filtered@),
{
    let mut out: Vec<HostGroupSection> = Vec::new();
    let mut path: Vec<i64> = Vec::new();
    proof {
        lemma_off_path_bound(groups@, path@);
    }
    build_group_subtree(hosts, groups, filtered, None, 0, &mut path, &mut out);
    assert(views(out@) =~= subtree(hosts@, groups@, filtered@, None, 0, Seq::empty(), 0));
    let loose = find_members(hosts, filtered, None);
    if loose.len() > 0 {
        out.push(
            HostGroupSection {
                group: None,
                label: UNGROUPED_LABEL.to_owned(),
                host_indices: loose,
                collapsed: false,
                depth: 0,
            },
        );
    }
    out
}

/// Whether section `j` lies in the subtree of section `i`: it comes behind it,
/// and it and all between are deeper.
pub open spec fn in_subtree(sections: Seq<SectionView>, i: int, j: int) -> bool {
    i < j < sections.len() && forall|k: int|
        i < k <= j ==> (#[trigger] sections[k]).depth > sections[i].depth
}

/// Whether section `i`, or one in its subtree, has hosts.
pub open spec fn has_hosts_below(sections: Seq<SectionView>, i: int) -> bool {
    sections[i].hosts.len() > 0 || exists|j: int|
        #[trigger] in_subtree(sections, i, j) && sections[j].hosts.len() > 0
}

/// For each section, whether its subtree contains any hosts. Used to keep empty
/// ancestors of a matching nested group while filtering.
pub fn subtree_has_hosts(sections: &Vec<HostGroupSection>) -> (r: Vec<bool>)
    ensures
        r@.len() == sections@.len(),
        forall|i: int|
            0 <= i < r@.len() ==> #[trigger] r@[i] == has_hosts_below(views(sections@), i),
{
    let ghost all = views(sections@);
    let n: usize = sections.len();
    let mut out: Vec<bool> = Vec::new();
    let mut i: usize = 0;
    while i < n
        invariant
            n == sections@.len(),
            all == views(sections@),
            i <= n,
            out@.len() == i,
            forall|k: int| 0 <= k < i ==> #[trigger] out@[k] == has_hosts_below(all, k),
        decreases n - i,
    {
        let mut found = sections[i].host_indices.len() > 0;
        let depth: usize = sections[i].depth;
        let mut j: usize = i + 1;
        while !found && j < n && sections[j].depth > depth
            invariant
                n == sections@.len(),
                all == views(sections@),
                i < n,
                i < j <= n,
                depth == sections@[i as int].depth,
                forall|k: int| i < k < j ==> (#[trigger] all[k]).depth > all[i as int].depth,
                found ==> has_hosts_below(all, i as int),
                !found ==> all[i as int].hosts.len() == 0,
                !found ==> forall|k: int| i < k < j ==> (#[trigger] all[k]).hosts.len() == 0,
            decreases n - j,
        {
            if sections[j].host_indices.len() > 0 {
                assert(in_subtree(all, i as int, j as int));
                found = true;
            }
            j = j + 1;
        }
        assert(found == has_hosts_below(all, i as int)) by {
            if !found {
                assert forall|k: int| #[trigger] in_subtree(all, i as int, k) implies
                    all[k].hosts.len() == 0 by {
                    if k >= j {
                        assert(all[j as int].depth > all[i as int].depth);
                    }
                }
            }
        }
        out.push(found);
        i = i + 1;
    }
    out
}

/// Everything below a group is deeper than what stands at its level: the
/// sections of a subtree begin at its depth and never rise above it.
pub proof fn subtree_stays_at_its_depth(
    hosts: Seq<HostEntry>,
    groups: Seq<HostGroup>,
    filtered: Seq<usize>,
    parent: Option<i64>,
    depth: nat,
    path: Seq<i64>,
    from: nat,
)
    ensures
        ({
            let all = subtree(hosts, groups, filtered, parent, depth, path, from);
            &&& forall|i: int| 0 <= i < all.len() ==> (#[trigger] all[i]).depth >= depth
            &&& all.len() > 0 ==> all[0].depth == depth
        }),
    decreases groups_off_path(groups, path), groups.len() - from,
{
    if from < groups.len() {
        let group = groups[from as int];
        let inside = members(hosts, filtered, Some(group.id));
        subtree_stays_at_its_depth(hosts, groups, filtered, parent, depth, path, from + 1);
        if !(group.parent_id != parent || path.contains(group.id) || !is_shown(group, inside)) {
            lemma_path_grows(groups, path, group.id);
            subtree_stays_at_its_depth(
                hosts,
                groups,
                filtered,
                Some(group.id),
                depth + 1,
                path.push(group.id),
                0,
            );
            let head = seq![section_of(group, inside, depth)];
            let below = subtree(
                hosts,
                groups,
                filtered,
                Some(group.id),
                depth + 1,
                path.push(group.id),
                0,
            );
            let rest = subtree(hosts, groups, filtered, parent, depth, path, from + 1);
            let all = head + below + rest;
            assert forall|i: int| 0 <= i < all.len() implies (#[trigger] all[i]).depth >= depth by {
                if i > 0 && i < 1 + below.len() {
                    assert(all[i] == below[i - 1]);
                } else if i >= 1 + below.len() {
                    assert(all[i] == rest[i - 1 - below.len()]);
                }
            }
        }
    }
}

/// A group at the top level that is shown has its section, with exactly the
/// hosts to show that belong to it.
pub proof fn top_groups_have_their_section(
    hosts: Seq<HostEntry>,
    groups: Seq<HostGroup>,
    filtered: Seq<usize>,
    parent: Option<i64>,
    depth: nat,
    path: Seq<i64>,
    from: nat,
    k: int,
)
    requires
        from <= k < groups.len(),
        groups[k].parent_id == parent,
        !path.contains(groups[k].id),
        is_shown(groups[k], members(hosts, filtered, Some(groups[k].id))),
    ensures
        subtree(hosts, groups, filtered, parent, depth, path, from).contains(
            section_of(groups[k], members(hosts, filtered, Some(groups[k].id)), depth),
        ),
    decreases groups.len() - from,
{
    let group = groups[from as int];
    let inside = members(hosts, filtered, Some(group.id));
    let all = subtree(hosts, groups, filtered, parent, depth, path, from);
    let wanted = section_of(groups[k], members(hosts, filtered, Some(groups[k].id)), depth);
    if k == from {
        assert(all[0] == wanted);
    } else {
        top_groups_have_their_section(hosts, groups, filtered, parent, depth, path, from + 1, k);
        let rest = subtree(hosts, groups, filtered, parent, depth, path, from + 1);
        let i = rest.index_of(wanted);
        if !(group.parent_id != parent || path.contains(group.id) || !is_shown(group, inside)) {
            let below = subtree(
                hosts,
                groups,
                filtered,
                Some(group.id),
                depth + 1,
                path.push(group.id),
                0,
            );
            assert(all[1 + below.len() + i] == wanted);
        } else {
            assert(all[i] == wanted);
        }
    }
}

} // verus!
