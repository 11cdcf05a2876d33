//! Policy groups: resolving nested selections, the persistent latency cache
//! and the merge of latency-test results.
use crate::entities::AppSnapshot;
use crate::models::{clone_items, PolicyDetail, PolicyGroup, PolicyItem};
use crate::text::{str_eq, str_width, string_of_range, width_of};
use vstd::prelude::*;
use vstd::string::*;

verus! {

/// The longest chain of visited names before resolution gives up.
pub const MAX_RESOLVE_DEPTH: usize = 10;

/// `i` is the first group named `name`.
pub open spec fn is_first_group(groups: Seq<PolicyGroup>, name: Seq<char>, i: int) -> bool {
    0 <= i < groups.len() && groups[i].name@ == name && forall|j: int|
        0 <= j < i ==> (#[trigger] groups[j]).name@ != name
}

/// Position of the first group named `name`, if any.
pub open spec fn group_pos(groups: Seq<PolicyGroup>, name: Seq<char>) -> Option<int> {
    if exists|i: int| is_first_group(groups, name, i) {
        Some(choose|i: int| is_first_group(groups, name, i))
    } else {
        None
    }
}

proof fn lemma_group_pos(groups: Seq<PolicyGroup>, name: Seq<char>, i: int)
    requires
        is_first_group(groups, name, i),
    ensures
        group_pos(groups, name) == Some(i),
{
    let w = choose|t: int| is_first_group(groups, name, t);
    assert(is_first_group(groups, name, w));
    if w < i {
        assert(groups[w].name@ != name);
    } else if w > i {
        assert(groups[i].name@ != name);
    }
}

proof fn lemma_group_pos_none(groups: Seq<PolicyGroup>, name: Seq<char>)
    requires
        forall|j: int| 0 <= j < groups.len() ==> (#[trigger] groups[j]).name@ != name,
    ensures
        group_pos(groups, name) is None,
{
}

/// The first group named `name`.
pub fn find_group(groups: &Vec<PolicyGroup>, name: &str) -> (r: Option<usize>)
    ensures
        r matches Some(i) ==> group_pos(groups@, name@) == Some(i as int) && is_first_group(
            groups@,
            name@,
            i as int,
        ),
        r is None ==> group_pos(groups@, name@) is None,
{
    let mut i: usize = 0;
    while i < groups.len()
        invariant
            i <= groups@.len(),
            forall|j: int| 0 <= j < i ==> (#[trigger] groups@[j]).name@ != name@,
        decreases groups@.len() - i,
    {
        if str_eq(groups[i].name.as_str(), name) {
            proof {
                lemma_group_pos(groups@, name@, i as int);
            }
            return Some(i);
        }
        i += 1;
    }
    proof {
        lemma_group_pos_none(groups@, name@);
    }
    None
}

/// The policy that `name` finally stands for: a group is followed to the
/// member it selects until a name that is no group; a repeated name, a chain
/// longer than the limit, or a group without a selection gives `None`.
pub open spec fn resolve(groups: Seq<PolicyGroup>, name: Seq<char>, visited: Seq<Seq<char>>) -> Option<
    Seq<char>,
>
    decreases MAX_RESOLVE_DEPTH + 1 - visited.len(),
{
    if visited.contains(name) || visited.len() > MAX_RESOLVE_DEPTH {
        None
    } else {
        match group_pos(groups, name) {
            Some(p) => match groups[p].selected {
                Some(s) => resolve(groups, s@, visited.push(name)),
                None => None,
            },
            None => Some(name),
        }
    }
}

/// Group `a` exists and selects `b`.
pub open spec fn selects(groups: Seq<PolicyGroup>, a: Seq<char>, b: Seq<char>) -> bool {
    group_pos(groups, a) matches Some(p) && groups[p].selected matches Some(s) && s@ == b
}

/// `c` is a chain of selections: each name but the last is a group that
/// selects the next.
pub open spec fn is_selection_chain(groups: Seq<PolicyGroup>, c: Seq<Seq<char>>) -> bool {
    forall|i: int| 0 <= i < c.len() - 1 ==> selects(groups, #[trigger] c[i], c[i + 1])
}

pub open spec fn distinct_names(c: Seq<Seq<char>>, n: int) -> bool {
    forall|i: int, j: int| 0 <= i < j < n ==> c[i] != c[j]
}

proof fn lemma_resolve_chain_from(groups: Seq<PolicyGroup>, c: Seq<Seq<char>>, i: int)
    requires
        1 <= c.len() <= MAX_RESOLVE_DEPTH + 1,
        0 <= i < c.len(),
        is_selection_chain(groups, c),
        distinct_names(c, c.len() as int),
        group_pos(groups, c.last()) is None,
    ensures
        resolve(groups, c[i], c.subrange(0, i)) == Some(c.last()),
    decreases c.len() - i,
{
    let v = c.subrange(0, i);
    assert(!v.contains(c[i])) by {
        if v.contains(c[i]) {
            let k = choose|k: int| 0 <= k < v.len() && v[k] == c[i];
            assert(c[k] == c[i]);
        }
    }
    if i == c.len() - 1 {
    } else {
        assert(selects(groups, c[i], c[i + 1]));
        lemma_resolve_chain_from(groups, c, i + 1);
        assert(v.push(c[i]) =~= c.subrange(0, i + 1));
    }
}

/// A chain of nested selections without repeats, of at most the depth
/// limit, resolves to its last name when that name is no group.
pub proof fn lemma_resolve_acyclic_chain(groups: Seq<PolicyGroup>, c: Seq<Seq<char>>)
    requires
        1 <= c.len() <= MAX_RESOLVE_DEPTH + 1,
        is_selection_chain(groups, c),
        distinct_names(c, c.len() as int),
        group_pos(groups, c.last()) is None,
    ensures
        resolve(groups, c[0], seq![]) == Some(c.last()),
{
    lemma_resolve_chain_from(groups, c, 0);
    assert(c.subrange(0, 0) =~= Seq::<Seq<char>>::empty());
}

proof fn lemma_resolve_cycle_from(groups: Seq<PolicyGroup>, c: Seq<Seq<char>>, j: int, i: int)
    requires
        2 <= c.len(),
        0 <= j < c.len() - 1,
        c.last() == c[j],
        0 <= i < c.len(),
        is_selection_chain(groups, c),
        distinct_names(c, c.len() - 1),
    ensures
        resolve(groups, c[i], c.subrange(0, i)) is None,
    decreases c.len() - i,
{
    let v = c.subrange(0, i);
    if i == c.len() - 1 {
        assert(v[j] == c[i]);
        assert(v.contains(c[i]));
    } else if v.len() > MAX_RESOLVE_DEPTH {
    } else {
        assert(!v.contains(c[i])) by {
            if v.contains(c[i]) {
                let k = choose|k: int| 0 <= k < v.len() && v[k] == c[i];
                assert(c[k] == c[i]);
            }
        }
        assert(selects(groups, c[i], c[i + 1]));
        lemma_resolve_cycle_from(groups, c, j, i + 1);
        assert(v.push(c[i]) =~= c.subrange(0, i + 1));
    }
}

/// A chain of nested selections that comes back to a name it has passed
/// resolves to `None`: the visited names stop the walk.
pub proof fn lemma_resolve_cycle(groups: Seq<PolicyGroup>, c: Seq<Seq<char>>, j: int)
    requires
        2 <= c.len(),
        0 <= j < c.len() - 1,
        c.last() == c[j],
        is_selection_chain(groups, c),
        distinct_names(c, c.len() - 1),
    ensures
        resolve(groups, c[0], seq![]) is None,
{
    lemma_resolve_cycle_from(groups, c, j, 0);
    assert(c.subrange(0, 0) =~= Seq::<Seq<char>>::empty());
}

pub open spec fn string_views(v: Seq<String>) -> Seq<Seq<char>> {
    v.map_values(|s: String| s@)
}

fn contains_name(v: &Vec<String>, name: &str) -> (r: bool)
    ensures
        r == string_views(v@).contains(name@),
{
    let mut i: usize = 0;
    while i < v.len()
        invariant
            i <= v@.len(),
            forall|j: int| 0 <= j < i ==> (#[trigger] v@[j])@ != name@,
        decreases v@.len() - i,
    {
        if str_eq(v[i].as_str(), name) {
            assert(string_views(v@)[i as int] == name@);
            return true;
        }
        i += 1;
    }
    assert forall|j: int| 0 <= j < string_views(v@).len() implies string_views(v@)[j] != name@ by {
        assert(string_views(v@)[j] == v@[j]@);
    }
    false
}

fn resolve_from(groups: &Vec<PolicyGroup>, name: &str, visited: &mut Vec<String>) -> (r: Option<
    String,
>)
    requires
        old(visited)@.len() <= MAX_RESOLVE_DEPTH + 1,
    ensures
        match resolve(groups@, name@, string_views(old(visited)@)) {
            Some(n) => r matches Some(s) && s@ == n,
            None => r is None,
        },
    decreases MAX_RESOLVE_DEPTH + 1 - old(visited)@.len(),
{
    let ghost vis = string_views(visited@);
    if contains_name(visited, name) || visited.len() > MAX_RESOLVE_DEPTH {
        return None;
    }
    visited.push(String::from_str(name));
    assert(string_views(visited@) =~= vis.push(name@));
    assert(!vis.contains(name@) && vis.len() <= MAX_RESOLVE_DEPTH);
    match find_group(groups, name) {
        Some(p) => match &groups[p].selected {
            Some(s) => {
                assert(resolve(groups@, name@, vis) == resolve(groups@, s@, vis.push(name@)));
                resolve_from(groups, s.as_str(), visited)
            },
            None => None,
        },
        None => Some(String::from_str(name)),
    }
}

/// The real policy that `policy_name` finally selects, following nested
/// group selections.
pub fn resolve_final_policy(snapshot: &AppSnapshot, policy_name: &str) -> (r: Option<String>)
    ensures
        match resolve(snapshot.policy_groups@, policy_name@, seq![]) {
            Some(n) => r matches Some(s) && s@ == n,
            None => r is None,
        },
{
    let mut visited: Vec<String> = Vec::new();
    assert(string_views(visited@) =~= Seq::<Seq<char>>::empty());
    resolve_from(&snapshot.policy_groups, policy_name, &mut visited)
}

/// A position in `entries` whose policy is named `name`.
pub open spec fn has_name_at(entries: Seq<PolicyDetail>, name: Seq<char>, i: int) -> bool {
    0 <= i < entries.len() && entries[i].name@ == name
}

/// Position of the entry named `name`, if any.
pub open spec fn detail_pos(entries: Seq<PolicyDetail>, name: Seq<char>) -> Option<int> {
    if exists|i: int| has_name_at(entries, name, i) {
        Some(choose|i: int| has_name_at(entries, name, i))
    } else {
        None
    }
}

/// No two entries share a name.
pub open spec fn unique_names(entries: Seq<PolicyDetail>) -> bool {
    forall|i: int, j: int|
        0 <= i < entries.len() && 0 <= j < entries.len() && i != j ==> (#[trigger] entries[i]).name@
            != (#[trigger] entries[j]).name@
}

/// The entries after recording `d`: it replaces the entry of the same name,
/// or comes last when there is none.
pub open spec fn cache_insert(entries: Seq<PolicyDetail>, d: PolicyDetail) -> Seq<PolicyDetail> {
    match detail_pos(entries, d.name@) {
        Some(i) => entries.update(i, d),
        None => entries.push(d),
    }
}

/// The entries after recording every result, in order.
pub open spec fn cache_record(entries: Seq<PolicyDetail>, results: Seq<PolicyDetail>) -> Seq<
    PolicyDetail,
>
    decreases results.len(),
{
    if results.len() == 0 {
        entries
    } else {
        cache_insert(cache_record(entries, results.drop_last()), results.last())
    }
}

/// The policy list after the cache is laid over it: the cached entries
/// replace it wholesale, unless the cache is empty.
pub open spec fn overlay_policies(policies: Seq<PolicyDetail>, cache: Seq<PolicyDetail>) -> Seq<
    PolicyDetail,
> {
    if cache.len() == 0 {
        policies
    } else {
        cache
    }
}

/// Laying the cache over a policy list twice gives the list that laying it
/// once gives.
pub proof fn lemma_overlay_idempotent(policies: Seq<PolicyDetail>, cache: Seq<PolicyDetail>)
    ensures
        overlay_policies(overlay_policies(policies, cache), cache) == overlay_policies(
            policies,
            cache,
        ),
{
}

/// Test results by policy name, kept across snapshot refreshes.
#[derive(Debug)]
pub struct LatencyCache {
    pub entries: Vec<PolicyDetail>,
}

impl LatencyCache {
    pub open spec fn wf(&self) -> bool {
        unique_names(self.entries@)
    }

    pub fn new() -> (r: Self)
        ensures
            r.wf(),
            r.entries@.len() == 0,
    {
        LatencyCache { entries: Vec::new() }
    }

    pub fn is_empty(&self) -> (r: bool)
        ensures
            r == (self.entries@.len() == 0),
    {
        self.entries.len() == 0
    }

    pub fn len(&self) -> (r: usize)
        ensures
            r == self.entries@.len(),
    {
        self.entries.len()
    }

    /// Records one result, replacing the entry of the same name.
    pub fn insert(&mut self, d: PolicyDetail)
        requires
            old(self).wf(),
        ensures
            final(self).wf(),
            final(self).entries@ == cache_insert(old(self).entries@, d),
    {
        let mut i: usize = 0;
        while i < self.entries.len()
            invariant
                i <= self.entries@.len(),
                self.entries@ == old(self).entries@,
                unique_names(old(self).entries@),
                forall|j: int| 0 <= j < i ==> (#[trigger] self.entries@[j]).name@ != d.name@,
            decreases self.entries@.len() - i,
        {
            if str_eq(self.entries[i].name.as_str(), d.name.as_str()) {
                proof {
                    let w = choose|t: int| has_name_at(old(self).entries@, d.name@, t);
                    assert(has_name_at(old(self).entries@, d.name@, i as int));
                    if w != i as int {
                        assert(old(self).entries@[w].name@ != old(self).entries@[i as int].name@);
                    }
                }
                self.entries.set(i, d);
                proof {
                    assert forall|a: int, b: int|
                        0 <= a < self.entries@.len() && 0 <= b < self.entries@.len() && a != b
                            implies (#[trigger] self.entries@[a]).name@
                        != (#[trigger] self.entries@[b]).name@ by {
                        if a != i && b != i {
                            assert(old(self).entries@[a].name@ != old(self).entries@[b].name@);
                        } else if a == i {
                            assert(old(self).entries@[i as int].name@ != old(self).entries@[b].name@);
                        } else {
                            assert(old(self).entries@[a].name@ != old(self).entries@[i as int].name@);
                        }
                    }
                }
                return;
            }
            i += 1;
        }
        assert(!exists|t: int| has_name_at(old(self).entries@, d.name@, t)) by {
            if exists|t: int| has_name_at(old(self).entries@, d.name@, t) {
                let t = choose|t: int| has_name_at(old(self).entries@, d.name@, t);
                assert(self.entries@[t].name@ != d.name@);
            }
        }
        self.entries.push(d);
        proof {
            let n = old(self).entries@.len() as int;
            assert forall|a: int, b: int|
                0 <= a < self.entries@.len() && 0 <= b < self.entries@.len() && a != b
                    implies (#[trigger] self.entries@[a]).name@ != (#[trigger] self.entries@[b]).name@ by {
                if a != n && b != n {
                    assert(old(self).entries@[a].name@ != old(self).entries@[b].name@);
                } else if a == n {
                    assert(self.entries@[b].name@ != d.name@);
                } else {
                    assert(self.entries@[a].name@ != d.name@);
                }
            }
        }
    }

    /// Records every result in order.
    pub fn record(&mut self, results: &Vec<PolicyDetail>)
        requires
            old(self).wf(),
        ensures
            final(self).wf(),
            final(self).entries@ == cache_record(old(self).entries@, results@),
    {
        let mut i: usize = 0;
        assert(results@.subrange(0, 0) =~= Seq::<PolicyDetail>::empty());
        while i < results.len()
            invariant
                i <= results@.len(),
                self.wf(),
                self.entries@ == cache_record(old(self).entries@, results@.subrange(0, i as int)),
            decreases results@.len() - i,
        {
            let d = results[i].clone();
            self.insert(d);
            proof {
                let t = results@.subrange(0, i + 1);
                assert(t.drop_last() =~= results@.subrange(0, i as int));
            }
            i += 1;
        }
        assert(results@.subrange(0, i as int) =~= results@);
    }

    /// A copy of the cached entries, in order.
    pub fn values(&self) -> (r: Vec<PolicyDetail>)
        ensures
            r@ == self.entries@,
    {
        let mut r: Vec<PolicyDetail> = Vec::new();
        let mut i: usize = 0;
        while i < self.entries.len()
            invariant
                i <= self.entries@.len(),
                r@ == self.entries@.subrange(0, i as int),
            decreases self.entries@.len() - i,
        {
            r.push(self.entries[i].clone());
            i += 1;
            assert(r@ =~= self.entries@.subrange(0, i as int));
        }
        assert(r@ =~= self.entries@);
        r
    }

    /// Lays the cache over the snapshot's policy list.
    pub fn overlay(&self, snapshot: &mut AppSnapshot)
        ensures
            final(snapshot).policies@ == overlay_policies(old(snapshot).policies@, self.entries@),
            final(snapshot).policy_groups == old(snapshot).policy_groups,
            final(snapshot).recent_requests == old(snapshot).recent_requests,
            final(snapshot).active_connections == old(snapshot).active_connections,
            final(snapshot).dns_cache == old(snapshot).dns_cache,
            final(snapshot).alerts == old(snapshot).alerts,
            final(snapshot).surge_running == old(snapshot).surge_running,
            final(snapshot).http_api_available == old(snapshot).http_api_available,
            final(snapshot).outbound_mode == old(snapshot).outbound_mode,
            final(snapshot).mitm_enabled == old(snapshot).mitm_enabled,
            final(snapshot).capture_enabled == old(snapshot).capture_enabled,
    {
        if !self.is_empty() {
            snapshot.policies = self.values();
        }
    }
}

/// Whether a member of the group is named `name`.
pub open spec fn is_member(members: Seq<PolicyItem>, name: Seq<char>) -> bool {
    exists|j: int| 0 <= j < members.len() && (#[trigger] members[j]).name@ == name
}

/// Names of the results that are alive and belong to the group, in the
/// order of the results (a join by name).
pub open spec fn available_from(results: Seq<PolicyDetail>, members: Seq<PolicyItem>) -> Seq<
    Seq<char>,
>
    decreases results.len(),
{
    if results.len() == 0 {
        seq![]
    } else {
        let prev = available_from(results.drop_last(), members);
        let p = results.last();
        if p.alive && is_member(members, p.name@) {
            prev.push(p.name@)
        } else {
            prev
        }
    }
}

fn member_named(members: &Vec<PolicyItem>, name: &str) -> (r: bool)
    ensures
        r == is_member(members@, name@),
{
    let mut j: usize = 0;
    while j < members.len()
        invariant
            j <= members@.len(),
            forall|k: int| 0 <= k < j ==> (#[trigger] members@[k]).name@ != name@,
        decreases members@.len() - j,
    {
        if str_eq(members[j].name.as_str(), name) {
            return true;
        }
        j += 1;
    }
    false
}

/// The members of a group that the latest results find alive.
pub fn available_policies(results: &Vec<PolicyDetail>, members: &Vec<PolicyItem>) -> (r: Vec<
    String,
>)
    ensures
        string_views(r@) == available_from(results@, members@),
{
    let mut r: Vec<String> = Vec::new();
    let mut i: usize = 0;
    assert(results@.subrange(0, 0) =~= Seq::<PolicyDetail>::empty());
    assert(string_views(r@) =~= Seq::<Seq<char>>::empty());
    while i < results.len()
        invariant
            i <= results@.len(),
            string_views(r@) == available_from(results@.subrange(0, i as int), members@),
        decreases results@.len() - i,
    {
        let ghost before = r@;
        proof {
            let t = results@.subrange(0, i + 1);
            assert(t.drop_last() =~= results@.subrange(0, i as int));
            assert(t.last() == results@[i as int]);
        }
        if results[i].alive && member_named(members, results[i].name.as_str()) {
            r.push(results[i].name.clone());
            assert(string_views(r@) =~= string_views(before).push(results@[i as int].name@));
        }
        i += 1;
    }
    assert(results@.subrange(0, i as int) =~= results@);
    r
}

/// The selection recorded for group `name` among `(group, policy)` pairs:
/// the first pair for that group.
pub open spec fn selection_of(selected: Seq<(String, String)>, name: Seq<char>) -> Option<Seq<char>>
    decreases selected.len(),
{
    if selected.len() == 0 {
        None
    } else if selected[0].0@ == name {
        Some(selected[0].1@)
    } else {
        selection_of(selected.drop_first(), name)
    }
}

fn lookup_selection(selected: &Vec<(String, String)>, name: &str) -> (r: Option<String>)
    ensures
        match selection_of(selected@, name@) {
            Some(v) => r matches Some(s) && s@ == v,
            None => r is None,
        },
{
    let mut i: usize = 0;
    assert(selected@.subrange(0, selected@.len() as int) =~= selected@);
    while i < selected.len()
        invariant
            i <= selected@.len(),
            selection_of(selected@, name@) == selection_of(
                selected@.subrange(i as int, selected@.len() as int),
                name@,
            ),
        decreases selected@.len() - i,
    {
        proof {
            let t = selected@.subrange(i as int, selected@.len() as int);
            assert(t.drop_first() =~= selected@.subrange(i + 1, selected@.len() as int));
            assert(t[0] == selected@[i as int]);
        }
        if str_eq(selected[i].0.as_str(), name) {
            return Some(selected[i].1.clone());
        }
        i += 1;
    }
    None
}

proof fn lemma_seq_lt_asym(a: Seq<char>, b: Seq<char>)
    requires
        crate::requests::seq_lt(a, b),
    ensures
        !crate::requests::seq_lt(b, a),
    decreases a.len(),
{
    if a.len() > 0 && b.len() > 0 && a[0] == b[0] {
        lemma_seq_lt_asym(a.drop_first(), b.drop_first());
    }
}

/// Names never decrease from one group to the next.
pub open spec fn sorted_by_name(groups: Seq<PolicyGroup>) -> bool {
    forall|k: int|
        0 <= k < groups.len() - 1 ==> !crate::requests::seq_lt(
            groups[k + 1].name@,
            (#[trigger] groups[k]).name@,
        )
}

/// Inserts `g` after every group whose name is not after its own.
fn insert_by_name(groups: &mut Vec<PolicyGroup>, g: PolicyGroup) -> (p: usize)
    requires
        sorted_by_name(old(groups)@),
    ensures
        p <= old(groups)@.len(),
        final(groups)@ == old(groups)@.insert(p as int, g),
        sorted_by_name(final(groups)@),
{
    let mut p: usize = 0;
    while p < groups.len()
        invariant
            p <= groups@.len(),
            forall|k: int|
                0 <= k < p ==> !crate::requests::seq_lt(g.name@, (#[trigger] groups@[k]).name@),
        ensures
            p <= groups@.len(),
            forall|k: int|
                0 <= k < p ==> !crate::requests::seq_lt(g.name@, (#[trigger] groups@[k]).name@),
            p < groups@.len() ==> crate::requests::seq_lt(g.name@, groups@[p as int].name@),
        decreases groups@.len() - p,
    {
        if crate::requests::str_lt(g.name.as_str(), groups[p].name.as_str()) {
            break;
        }
        p += 1;
    }
    let ghost old_groups = groups@;
    let ghost gv = g;
    groups.insert(p, g);
    proof {
        assert forall|k: int| 0 <= k < groups@.len() - 1 implies !crate::requests::seq_lt(
            groups@[k + 1].name@,
            (#[trigger] groups@[k]).name@,
        ) by {
            if k + 1 < p {
                assert(groups@[k] == old_groups[k]);
                assert(groups@[k + 1] == old_groups[k + 1]);
            } else if k + 1 == p {
                assert(groups@[k] == old_groups[k]);
            } else if k == p {
                assert(groups@[k + 1] == old_groups[k]);
                lemma_seq_lt_asym(gv.name@, old_groups[k].name@);
            } else {
                assert(groups@[k] == old_groups[k - 1]);
                assert(groups@[k + 1] == old_groups[k]);
            }
        }
    }
    p
}

/// Every group comes from one of the first `i` entries.
pub open spec fn from_entries(groups: Seq<PolicyGroup>, entries: Seq<(String, Vec<PolicyItem>)>, i: int) -> bool {
    forall|k: int|
        0 <= k < groups.len() ==> exists|e: int|
            0 <= e < i && (#[trigger] groups[k]).name == entries[e].0 && groups[k].policies@
                == entries[e].1@
}

/// Each of the first `i` entries has a group.
pub open spec fn has_entries(groups: Seq<PolicyGroup>, entries: Seq<(String, Vec<PolicyItem>)>, i: int) -> bool {
    forall|e: int|
        0 <= e < i ==> exists|k: int|
            0 <= k < groups.len() && (#[trigger] groups[k]).name == (#[trigger] entries[e]).0
}

/// Each group carries the selection recorded for it and no test result.
pub open spec fn selections_ok(groups: Seq<PolicyGroup>, selected: Seq<(String, String)>) -> bool {
    forall|k: int|
        0 <= k < groups.len() ==> match selection_of(selected, (#[trigger] groups[k]).name@) {
            Some(v) => groups[k].selected matches Some(s) && s@ == v,
            None => groups[k].selected is None,
        } && groups[k].available_policies is None
}

proof fn lemma_insert_from(
    old_groups: Seq<PolicyGroup>,
    groups: Seq<PolicyGroup>,
    p: int,
    g: PolicyGroup,
    entries: Seq<(String, Vec<PolicyItem>)>,
    selected: Seq<(String, String)>,
    i: int,
)
    requires
        0 <= i < entries.len(),
        0 <= p <= old_groups.len(),
        groups == old_groups.insert(p, g),
        from_entries(old_groups, entries, i),
        g.name == entries[i].0,
        g.policies@ == entries[i].1@,
    ensures
        from_entries(groups, entries, i + 1),
{
    assert forall|k: int| 0 <= k < groups.len() implies exists|e: int|
        0 <= e < i + 1 && (#[trigger] groups[k]).name == entries[e].0 && groups[k].policies@
            == entries[e].1@ by {
        if k < p {
            assert(groups[k] == old_groups[k]);
        } else if k == p {
            assert(groups[k] == g);
        } else {
            assert(groups[k] == old_groups[k - 1]);
        }
    }
}

proof fn lemma_insert_has(
    old_groups: Seq<PolicyGroup>,
    groups: Seq<PolicyGroup>,
    p: int,
    g: PolicyGroup,
    entries: Seq<(String, Vec<PolicyItem>)>,
    selected: Seq<(String, String)>,
    i: int,
)
    requires
        0 <= i < entries.len(),
        0 <= p <= old_groups.len(),
        groups == old_groups.insert(p, g),
        has_entries(old_groups, entries, i),
        g.name == entries[i].0,
    ensures
        has_entries(groups, entries, i + 1),
{
    assert forall|e: int| 0 <= e < i + 1 implies exists|k: int|
        0 <= k < groups.len() && (#[trigger] groups[k]).name == (#[trigger] entries[e]).0 by {
        if e == i {
            assert(groups[p] == g);
        } else {
            let k = choose|k: int|
                0 <= k < old_groups.len() && (#[trigger] old_groups[k]).name == entries[e].0;
            if k < p {
                assert(groups[k] == old_groups[k]);
            } else {
                assert(groups[k + 1] == old_groups[k]);
            }
        }
    }
}

proof fn lemma_insert_selections(
    old_groups: Seq<PolicyGroup>,
    groups: Seq<PolicyGroup>,
    p: int,
    g: PolicyGroup,
    entries: Seq<(String, Vec<PolicyItem>)>,
    selected: Seq<(String, String)>,
    i: int,
)
    requires
        0 <= i < entries.len(),
        0 <= p <= old_groups.len(),
        groups == old_groups.insert(p, g),
        selections_ok(old_groups, selected),
        g.available_policies is None,
        match selection_of(selected, g.name@) {
            Some(v) => g.selected matches Some(s) && s@ == v,
            None => g.selected is None,
        },
    ensures
        selections_ok(groups, selected),
{
    assert forall|k: int| 0 <= k < groups.len() implies match selection_of(
        selected,
        (#[trigger] groups[k]).name@,
    ) {
        Some(v) => groups[k].selected matches Some(s) && s@ == v,
        None => groups[k].selected is None,
    } && groups[k].available_policies is None by {
        if k < p {
            assert(groups[k] == old_groups[k]);
        } else if k == p {
            assert(groups[k] == g);
        } else {
            assert(groups[k] == old_groups[k - 1]);
        }
    }
}

/// The groups of a policy-group listing: one per entry, ordered by name,
/// each with the members of its entry and the selection recorded for it,
/// and no test result yet.
pub open spec fn is_group_listing(
    entries: Seq<(String, Vec<PolicyItem>)>,
    selected: Seq<(String, String)>,
    groups: Seq<PolicyGroup>,
) -> bool {
    &&& groups.len() == entries.len()
    &&& from_entries(groups, entries, entries.len() as int)
    &&& has_entries(groups, entries, entries.len() as int)
    &&& selections_ok(groups, selected)
    &&& sorted_by_name(groups)
}

/// Builds the policy groups from the listing (group name and members) and
/// the selections fetched for them, ordered by group name.
pub fn build_policy_groups(
    entries: Vec<(String, Vec<PolicyItem>)>,
    selected: &Vec<(String, String)>,
) -> (r: Vec<PolicyGroup>)
    ensures
        is_group_listing(entries@, selected@, r@),
{
    let mut groups: Vec<PolicyGroup> = Vec::new();
    let mut i: usize = 0;
    let n = entries.len();
    while i < n
        invariant
            n == entries@.len(),
            i <= n,
            groups@.len() == i,
            from_entries(groups@, entries@, i as int),
            has_entries(groups@, entries@, i as int),
            selections_ok(groups@, selected@),
            sorted_by_name(groups@),
        decreases n - i,
    {
        let name = entries[i].0.clone();
        let policies = clone_items(&entries[i].1);
        let sel = lookup_selection(selected, name.as_str());
        let ghost old_groups = groups@;
        let g = PolicyGroup { name, policies, selected: sel, available_policies: None };
        let ghost gv = g;
        let p = insert_by_name(&mut groups, g);
        proof {
            lemma_insert_from(old_groups, groups@, p as int, gv, entries@, selected@, i as int);
            lemma_insert_has(old_groups, groups@, p as int, gv, entries@, selected@, i as int);
            lemma_insert_selections(old_groups, groups@, p as int, gv, entries@, selected@, i as int);
        }
        i += 1;
    }
    groups
}

/// Columns taken by the first `k` characters, each measured alone.
pub open spec fn prefix_width(s: Seq<char>, k: int) -> int
    decreases k,
{
    if k <= 0 || k > s.len() {
        0
    } else {
        prefix_width(s, k - 1) + width_of(seq![s[k - 1]]) as int
    }
}

/// How many characters, from position `i` on, fit in `target` columns.
pub open spec fn fit_len_from(s: Seq<char>, i: int, target: int) -> int
    decreases s.len() - i,
{
    if i < 0 || i >= s.len() {
        s.len() as int
    } else if prefix_width(s, i + 1) > target {
        i
    } else {
        fit_len_from(s, i + 1, target)
    }
}

/// `s` cut to fit `max_width` columns: unchanged when it fits, else the
/// longest prefix that fits in two columns less, followed by `..`.
pub open spec fn truncated_to_width(s: Seq<char>, max_width: int) -> Seq<char> {
    if width_of(s) <= max_width {
        s
    } else {
        let target = if max_width >= 2 {
            max_width - 2
        } else {
            0
        };
        s.subrange(0, fit_len_from(s, 0, target)) + ".."@
    }
}

/// Sum of the first `k` widths.
pub open spec fn width_sum(w: Seq<usize>, k: int) -> int
    decreases k,
{
    if k <= 0 || k > w.len() {
        0
    } else {
        width_sum(w, k - 1) + w[k - 1]
    }
}

/// How many entries, from position `i` on, fit in `target` columns.
pub open spec fn fit_count_from(w: Seq<usize>, i: int, target: int) -> int
    decreases w.len() - i,
{
    if i < 0 || i >= w.len() {
        w.len() as int
    } else if width_sum(w, i + 1) > target {
        i
    } else {
        fit_count_from(w, i + 1, target)
    }
}

proof fn lemma_width_sum_matches(s: Seq<char>, w: Seq<usize>, k: int)
    requires
        w.len() == s.len(),
        forall|j: int| 0 <= j < w.len() ==> #[trigger] w[j] as nat == width_of(seq![s[j]]),
        0 <= k <= s.len(),
    ensures
        width_sum(w, k) == prefix_width(s, k),
    decreases k,
{
    if k > 0 {
        lemma_width_sum_matches(s, w, k - 1);
        assert(w[k - 1] as nat == width_of(seq![s[k - 1]]));
    }
}

proof fn lemma_fit_matches(s: Seq<char>, w: Seq<usize>, i: int, target: int)
    requires
        w.len() == s.len(),
        forall|j: int| 0 <= j < w.len() ==> #[trigger] w[j] as nat == width_of(seq![s[j]]),
        0 <= i <= s.len(),
    ensures
        fit_count_from(w, i, target) == fit_len_from(s, i, target),
    decreases s.len() - i,
{
    if i < s.len() {
        lemma_width_sum_matches(s, w, i + 1);
        lemma_fit_matches(s, w, i + 1, target);
    }
}

/// How many leading entries fit in `target` columns, given each entry's width.
pub fn fit_count(widths: &Vec<usize>, target: usize) -> (r: usize)
    ensures
        r as int == fit_count_from(widths@, 0, target as int),
        r <= widths@.len(),
{
    let n = widths.len();
    let mut acc: usize = 0;
    let mut i: usize = 0;
    while i < n
        invariant
            n == widths@.len(),
            i <= n,
            acc as int == width_sum(widths@, i as int),
            acc <= target,
            fit_count_from(widths@, 0, target as int) == fit_count_from(widths@, i as int, target as int),
        ensures
            i <= n,
            fit_count_from(widths@, 0, target as int) == i,
        decreases n - i,
    {
        let cw = widths[i];
        if cw > target - acc {
            break;
        }
        acc = acc + cw;
        i += 1;
    }
    i
}

/// `text` cut to `max_width` columns, given its total width and the width of
/// each character: unchanged when it fits, else the characters that fit in
/// two columns less, followed by `..`.
pub fn truncate_measured(text: &str, total_width: usize, widths: &Vec<usize>, max_width: usize) -> (r:
    String)
    requires
        widths@.len() == text@.len(),
    ensures
        r@ == (if total_width <= max_width {
            text@
        } else {
            text@.subrange(
                0,
                fit_count_from(
                    widths@,
                    0,
                    if max_width >= 2 {
                        max_width - 2
                    } else {
                        0
                    },
                ),
            ) + ".."@
        }),
{
    if total_width <= max_width {
        return String::from_str(text);
    }
    let target: usize = if max_width >= 2 {
        max_width - 2
    } else {
        0
    };
    let k = fit_count(widths, target);
    let mut r = string_of_range(text, 0, k);
    r.append("..");
    r
}

/// Cuts `text` to `max_width` terminal columns, ending it with `..` when cut.
pub fn truncate_text(text: &str, max_width: usize) -> (r: String)
    ensures
        r@ == truncated_to_width(text@, max_width as int),
{
    let total = str_width(text);
    let n = text.unicode_len();
    let mut widths: Vec<usize> = Vec::new();
    let mut i: usize = 0;
    while i < n
        invariant
            n == text@.len(),
            i <= n,
            widths@.len() == i,
            forall|j: int| 0 <= j < i ==> #[trigger] widths@[j] as nat == width_of(seq![text@[j]]),
        decreases n - i,
    {
        let one = string_of_range(text, i, i + 1);
        proof {
            assert(one@ =~= seq![text@[i as int]]);
        }
        widths.push(str_width(one.as_str()));
        i += 1;
    }
    proof {
        let target: int = if max_width >= 2 {
            max_width - 2
        } else {
            0
        };
        lemma_fit_matches(text@, widths@, 0, target);
    }
    truncate_measured(text, total, &widths, max_width)
}

/// Widths of the name, protocol and status columns of the policy list for a
/// terminal `area_width` columns wide.
pub open spec fn policy_column_widths(area_width: u16) -> (int, int, int) {
    let available = if area_width >= 10 {
        area_width - 10
    } else {
        0
    };
    let remaining = if available >= 10 {
        available - 10
    } else {
        0
    };
    let name = remaining * 3 / 5;
    let protocol = remaining - name;
    (if name >= 10 {
        name
    } else {
        10
    }, if protocol >= 8 {
        protocol
    } else {
        8
    }, 10)
}

/// Splits the width left after borders, markers and the status column: 60%
/// to the name, the rest to the protocol, with floors of 10 and 8.
pub fn calculate_policy_column_widths(area_width: u16) -> (r: (usize, usize, usize))
    ensures
        (r.0 as int, r.1 as int, r.2 as int) == policy_column_widths(area_width),
{
    let fixed_overhead: usize = 10;
    let available: usize = (area_width as usize).saturating_sub(fixed_overhead);
    let status_width: usize = 10;
    let remaining: usize = available.saturating_sub(status_width);
    let name_width: usize = remaining * 3 / 5;
    let protocol_width: usize = remaining - name_width;
    let name = if name_width >= 10 {
        name_width
    } else {
        10
    };
    let protocol = if protocol_width >= 8 {
        protocol_width
    } else {
        8
    };
    (name, protocol, status_width)
}

} // verus!
