//! Requests and connections: grouping by application, search filters and
//! the text helpers of their columns.
use crate::models::Request;
use crate::text::{
    chars_of, contains_seq, last_segment, last_segment_of, lower_contains, lower_of, str_eq,
    string_of_range, to_lower,
};
use vstd::prelude::*;
use vstd::string::*;

verus! {

/// The application of a request: the last segment of its process path, or
/// `Unknown` when the path is not known.
pub open spec fn app_name(r: Request) -> Seq<char> {
    match r.process_path {
        Some(p) => last_segment(p@),
        None => "Unknown"@,
    }
}

/// How many of the requests belong to application `name`.
pub open spec fn app_count(reqs: Seq<Request>, name: Seq<char>) -> nat
    decreases reqs.len(),
{
    if reqs.len() == 0 {
        0
    } else {
        app_count(reqs.drop_last(), name) + if app_name(reqs.last()) == name {
            1nat
        } else {
            0nat
        }
    }
}

/// Lexicographic order of character sequences (the order of `String`).
pub open spec fn seq_lt(a: Seq<char>, b: Seq<char>) -> bool
    decreases a.len(),
{
    if a.len() == 0 {
        b.len() > 0
    } else if b.len() == 0 {
        false
    } else if a[0] != b[0] {
        a[0] < b[0]
    } else {
        seq_lt(a.drop_first(), b.drop_first())
    }
}

/// Display order of application groups: larger count first, then by name.
pub open spec fn part_before(x: (Seq<char>, usize), y: (Seq<char>, usize)) -> bool {
    x.1 > y.1 || (x.1 == y.1 && seq_lt(x.0, y.0))
}

pub open spec fn part_view(x: (String, usize)) -> (Seq<char>, usize) {
    (x.0@, x.1)
}

/// `parts` lists each application of `reqs` once, with its request count.
pub open spec fn is_app_partition(reqs: Seq<Request>, parts: Seq<(String, usize)>) -> bool {
    &&& forall|i: int|
        0 <= i < parts.len() ==> (#[trigger] parts[i]).1 == app_count(reqs, parts[i].0@)
            && parts[i].1 > 0
    &&& forall|i: int, j: int|
        0 <= i < parts.len() && 0 <= j < parts.len() && i != j ==> (#[trigger] parts[i]).0@
            != (#[trigger] parts[j]).0@
    &&& forall|k: int| 0 <= k < reqs.len() ==> in_parts(parts, app_name(#[trigger] reqs[k]))
}

/// Some group in `parts` is named `n`.
pub open spec fn in_parts(parts: Seq<(String, usize)>, n: Seq<char>) -> bool {
    exists|i: int| 0 <= i < parts.len() && (#[trigger] parts[i]).0@ == n
}

/// Some name in `names` is `n`.
pub open spec fn in_names(names: Seq<String>, n: Seq<char>) -> bool {
    exists|i: int| 0 <= i < names.len() && (#[trigger] names[i])@ == n
}

/// Each group comes before the next in display order.
pub open spec fn is_sorted_partition(parts: Seq<(String, usize)>) -> bool {
    forall|i: int| 0 <= i < parts.len() - 1 ==> part_before(part_view(#[trigger] parts[i]), part_view(parts[i + 1]))
}

proof fn lemma_seq_lt_total(a: Seq<char>, b: Seq<char>)
    requires
        a != b,
    ensures
        seq_lt(a, b) || seq_lt(b, a),
    decreases a.len(),
{
    if a.len() == 0 {
        assert(b.len() > 0) by {
            if b.len() == 0 {
                assert(a =~= b);
            }
        }
    } else if b.len() == 0 {
    } else if a[0] != b[0] {
    } else {
        assert(a.drop_first() != b.drop_first()) by {
            if a.drop_first() == b.drop_first() {
                assert(a =~= seq![a[0]] + a.drop_first());
                assert(b =~= seq![b[0]] + b.drop_first());
            }
        }
        lemma_seq_lt_total(a.drop_first(), b.drop_first());
    }
}

proof fn lemma_app_count_step(reqs: Seq<Request>, i: int, name: Seq<char>)
    requires
        0 <= i < reqs.len(),
    ensures
        app_count(reqs.subrange(0, i + 1), name) == app_count(reqs.subrange(0, i), name) + if app_name(
            reqs[i],
        ) == name {
            1nat
        } else {
            0nat
        },
{
    let t = reqs.subrange(0, i + 1);
    assert(t.drop_last() =~= reqs.subrange(0, i));
    assert(t.last() == reqs[i]);
}

proof fn lemma_app_count_zero(reqs: Seq<Request>, name: Seq<char>)
    requires
        forall|k: int| 0 <= k < reqs.len() ==> app_name(#[trigger] reqs[k]) != name,
    ensures
        app_count(reqs, name) == 0,
    decreases reqs.len(),
{
    if reqs.len() > 0 {
        let t = reqs.drop_last();
        assert forall|k: int| 0 <= k < t.len() implies app_name(#[trigger] t[k]) != name by {
            assert(t[k] == reqs[k]);
        }
        lemma_app_count_zero(t, name);
        assert(app_name(reqs[reqs.len() - 1]) != name);
    }
}

/// The application name of a request.
pub fn app_name_of(r: &Request) -> (s: String)
    ensures
        s@ == app_name(*r),
{
    match &r.process_path {
        Some(p) => last_segment_of(p.as_str()),
        None => String::from_str("Unknown"),
    }
}

/// Whether `a` comes before `b` in `String` order.
pub fn str_lt(a: &str, b: &str) -> (r: bool)
    ensures
        r == seq_lt(a@, b@),
{
    let x = chars_of(a);
    let y = chars_of(b);
    let mut i: usize = 0;
    assert(a@.subrange(0, a@.len() as int) =~= a@);
    assert(b@.subrange(0, b@.len() as int) =~= b@);
    while i < x.len() && i < y.len() && x[i] == y[i]
        invariant
            i <= x@.len(),
            i <= y@.len(),
            seq_lt(a@, b@) == seq_lt(a@.subrange(i as int, a@.len() as int), b@.subrange(i as int, b@.len() as int)),
            x@ == a@,
            y@ == b@,
        decreases x@.len() - i,
    {
        proof {
            let s = a@.subrange(i as int, a@.len() as int);
            let t = b@.subrange(i as int, b@.len() as int);
            assert(s.drop_first() =~= a@.subrange(i + 1, a@.len() as int));
            assert(t.drop_first() =~= b@.subrange(i + 1, b@.len() as int));
        }
        i += 1;
    }
    proof {
        let s = a@.subrange(i as int, a@.len() as int);
        let t = b@.subrange(i as int, b@.len() as int);
        if s.len() > 0 && t.len() > 0 {
            assert(s[0] == a@[i as int]);
            assert(t[0] == b@[i as int]);
        }
    }
    if i == x.len() {
        i < y.len()
    } else if i == y.len() {
        false
    } else {
        x[i] < y[i]
    }
}

/// Names and request counts of the applications, in order of first
/// appearance.
fn count_apps(reqs: &Vec<Request>) -> (r: (Vec<String>, Vec<usize>))
    ensures
        r.0@.len() == r.1@.len(),
        forall|i: int|
            0 <= i < r.0@.len() ==> #[trigger] r.1@[i] == app_count(reqs@, r.0@[i]@) && r.1@[i]
                > 0,
        forall|i: int, j: int|
            0 <= i < r.0@.len() && 0 <= j < r.0@.len() && i != j ==> (#[trigger] r.0@[i])@
                != (#[trigger] r.0@[j])@,
        forall|k: int| 0 <= k < reqs@.len() ==> in_names(r.0@, app_name(#[trigger] reqs@[k])),
{
    let mut names: Vec<String> = Vec::new();
    let mut counts: Vec<usize> = Vec::new();
    let mut i: usize = 0;
    while i < reqs.len()
        invariant
            i <= reqs@.len(),
            names@.len() == counts@.len(),
            forall|k: int|
                0 <= k < names@.len() ==> #[trigger] counts@[k] == app_count(
                    reqs@.subrange(0, i as int),
                    names@[k]@,
                ) && counts@[k] > 0 && counts@[k] <= i,
            forall|a: int, b: int|
                0 <= a < names@.len() && 0 <= b < names@.len() && a != b ==> (#[trigger] names@[a])@
                    != (#[trigger] names@[b])@,
            forall|k: int| 0 <= k < i ==> in_names(names@, app_name(#[trigger] reqs@[k])),
        decreases reqs@.len() - i,
    {
        let name = app_name_of(&reqs[i]);
        proof {
            assert forall|n: Seq<char>| true implies app_count(reqs@.subrange(0, i + 1), n) == app_count(
                reqs@.subrange(0, i as int),
                n,
            ) + if app_name(reqs@[i as int]) == n {
                1nat
            } else {
                0nat
            } by {
                lemma_app_count_step(reqs@, i as int, n);
            }
        }
        let mut j: usize = 0;
        let mut found = false;
        while j < names.len()
            invariant_except_break
                !found,
            invariant
                j <= names@.len(),
                forall|t: int| 0 <= t < j ==> (#[trigger] names@[t])@ != name@,
            ensures
                found ==> j < names@.len() && names@[j as int]@ == name@,
                !found ==> forall|t: int| 0 <= t < names@.len() ==> (#[trigger] names@[t])@ != name@,
            decreases names@.len() - j,
        {
            if str_eq(names[j].as_str(), name.as_str()) {
                found = true;
                break;
            }
            j += 1;
        }
        let ghost old_names = names@;
        let ghost old_counts = counts@;
        if found {
            let c = counts[j] + 1;
            counts.set(j, c);
            proof {
                assert forall|k: int| 0 <= k < names@.len() implies #[trigger] counts@[k] == app_count(
                    reqs@.subrange(0, i + 1),
                    names@[k]@,
                ) && counts@[k] > 0 && counts@[k] <= i + 1 by {
                    if k != j {
                        assert(names@[k]@ != names@[j as int]@);
                    }
                }
            }
        } else {
            proof {
                assert forall|k: int| 0 <= k < i implies app_name(#[trigger] reqs@.subrange(0, i as int)[k]) != name@ by {
                    assert(reqs@.subrange(0, i as int)[k] == reqs@[k]);
                    assert(in_names(names@, app_name(reqs@[k])));
                }
                lemma_app_count_zero(reqs@.subrange(0, i as int), name@);
            }
            names.push(name);
            counts.push(1);
            proof {
                assert forall|k: int| 0 <= k < names@.len() implies #[trigger] counts@[k] == app_count(
                    reqs@.subrange(0, i + 1),
                    names@[k]@,
                ) && counts@[k] > 0 && counts@[k] <= i + 1 by {
                    if k < old_names.len() {
                        assert(names@[k] == old_names[k]);
                        assert(old_names[k]@ != name@);
                    }
                }
                assert forall|a: int, b: int|
                    0 <= a < names@.len() && 0 <= b < names@.len() && a != b implies (#[trigger] names@[a])@
                    != (#[trigger] names@[b])@ by {
                    if a < old_names.len() && b < old_names.len() {
                        assert(old_names[a]@ != old_names[b]@);
                    }
                }
            }
        }
        proof {
            assert forall|k: int| 0 <= k < i + 1 implies in_names(names@, app_name(#[trigger] reqs@[k])) by {
                if k == i {
                    if found {
                        assert(names@[j as int]@ == app_name(reqs@[k]));
                    } else {
                        assert(names@[names@.len() - 1]@ == app_name(reqs@[k]));
                    }
                } else {
                    assert(in_names(old_names, app_name(reqs@[k])));
                    let a = choose|a: int| 0 <= a < old_names.len() && (#[trigger] old_names[a])@ == app_name(reqs@[k]);
                    assert(names@[a]@ == app_name(reqs@[k]));
                }
            }
        }
        i += 1;
    }
    assert(reqs@.subrange(0, i as int) =~= reqs@);
    (names, counts)
}

proof fn lemma_part_before_total(x: (Seq<char>, usize), y: (Seq<char>, usize))
    requires
        x.0 != y.0,
    ensures
        part_before(x, y) || part_before(y, x),
{
    lemma_seq_lt_total(x.0, y.0);
}

/// Display position of `e` among the `sorted` groups: before the first group
/// that it precedes.
fn insert_pos(sorted: &Vec<(String, usize)>, name: &str, count: usize) -> (p: usize)
    ensures
        p <= sorted@.len(),
        forall|k: int| 0 <= k < p ==> !part_before((name@, count), part_view(#[trigger] sorted@[k])),
        p < sorted@.len() ==> part_before((name@, count), part_view(sorted@[p as int])),
{
    let mut p: usize = 0;
    while p < sorted.len()
        invariant
            p <= sorted@.len(),
            forall|k: int| 0 <= k < p ==> !part_before((name@, count), part_view(#[trigger] sorted@[k])),
        decreases sorted@.len() - p,
    {
        let c = sorted[p].1;
        if count > c || (count == c && str_lt(name, sorted[p].0.as_str())) {
            return p;
        }
        p += 1;
    }
    p
}

/// The applications of `reqs` with their request counts, in display order:
/// larger count first, ties by ascending name.
pub fn group_requests_by_app(reqs: &Vec<Request>) -> (r: Vec<(String, usize)>)
    ensures
        is_app_partition(reqs@, r@),
        is_sorted_partition(r@),
{
    let (names, counts) = count_apps(reqs);
    let mut sorted: Vec<(String, usize)> = Vec::new();
    let mut i: usize = 0;
    while i < names.len()
        invariant
            i <= names@.len() == counts@.len(),
            forall|t: int|
                0 <= t < names@.len() ==> #[trigger] counts@[t] == app_count(reqs@, names@[t]@)
                    && counts@[t] > 0,
            forall|a: int, b: int|
                0 <= a < names@.len() && 0 <= b < names@.len() && a != b ==> (#[trigger] names@[a])@
                    != (#[trigger] names@[b])@,
            forall|k: int| 0 <= k < reqs@.len() ==> in_names(names@, app_name(#[trigger] reqs@[k])),
            is_sorted_partition(sorted@),
            forall|k: int|
                0 <= k < sorted@.len() ==> exists|t: int|
                    0 <= t < i && (#[trigger] sorted@[k]).0@ == names@[t]@ && sorted@[k].1
                        == counts@[t],
            forall|t: int| 0 <= t < i ==> in_parts(sorted@, (#[trigger] names@[t])@),
            forall|a: int, b: int|
                0 <= a < sorted@.len() && 0 <= b < sorted@.len() && a != b ==> (#[trigger] sorted@[a]).0@
                    != (#[trigger] sorted@[b]).0@,
        decreases names@.len() - i,
    {
        let name = names[i].clone();
        let count = counts[i];
        let p = insert_pos(&sorted, name.as_str(), count);
        let ghost old_sorted = sorted@;
        proof {
            assert forall|k: int| 0 <= k < old_sorted.len() implies (#[trigger] old_sorted[k]).0@
                != name@ by {
                let t = choose|t: int|
                    0 <= t < i && (#[trigger] old_sorted[k]).0@ == names@[t]@ && old_sorted[k].1
                        == counts@[t];
                assert(names@[t]@ != names@[i as int]@);
            }
        }
        sorted.insert(p, (name, count));
        proof {
            let e = (name@, count);
            assert(sorted@ == old_sorted.insert(p as int, (name, count)));
            assert forall|k: int| 0 <= k < sorted@.len() - 1 implies part_before(
                part_view(#[trigger] sorted@[k]),
                part_view(sorted@[k + 1]),
            ) by {
                if k + 1 < p {
                    assert(sorted@[k] == old_sorted[k]);
                    assert(sorted@[k + 1] == old_sorted[k + 1]);
                } else if k + 1 == p {
                    assert(sorted@[k] == old_sorted[k]);
                    assert(!part_before(e, part_view(old_sorted[k])));
                    lemma_part_before_total(e, part_view(old_sorted[k]));
                } else if k == p {
                    assert(sorted@[k + 1] == old_sorted[k]);
                } else {
                    assert(sorted@[k] == old_sorted[k - 1]);
                    assert(sorted@[k + 1] == old_sorted[k]);
                }
            }
            assert forall|k: int| 0 <= k < sorted@.len() implies exists|t: int|
                0 <= t < i + 1 && (#[trigger] sorted@[k]).0@ == names@[t]@ && sorted@[k].1
                    == counts@[t] by {
                if k < p {
                    assert(sorted@[k] == old_sorted[k]);
                    let t = choose|t: int|
                        0 <= t < i && (#[trigger] old_sorted[k]).0@ == names@[t]@ && old_sorted[k].1
                            == counts@[t];
                } else if k == p {
                    assert(sorted@[k].0@ == names@[i as int]@);
                } else {
                    assert(sorted@[k] == old_sorted[k - 1]);
                    let t = choose|t: int|
                        0 <= t < i && (#[trigger] old_sorted[k - 1]).0@ == names@[t]@ && old_sorted[k
                            - 1].1 == counts@[t];
                }
            }
            assert forall|t: int| 0 <= t < i + 1 implies in_parts(sorted@, (#[trigger] names@[t])@) by {
                if t == i {
                    assert(sorted@[p as int].0@ == names@[t]@);
                } else {
                    assert(in_parts(old_sorted, names@[t]@));
                    let k = choose|k: int| 0 <= k < old_sorted.len() && (#[trigger] old_sorted[k]).0@
                        == names@[t]@;
                    if k < p {
                        assert(sorted@[k] == old_sorted[k]);
                    } else {
                        assert(sorted@[k + 1] == old_sorted[k]);
                    }
                }
            }
            assert forall|a: int, b: int|
                0 <= a < sorted@.len() && 0 <= b < sorted@.len() && a != b implies (#[trigger] sorted@[a]).0@
                != (#[trigger] sorted@[b]).0@ by {
                let oa = if a < p { a } else { a - 1 };
                let ob = if b < p { b } else { b - 1 };
                if a != p && b != p {
                    assert(sorted@[a] == old_sorted[oa]);
                    assert(sorted@[b] == old_sorted[ob]);
                } else if a == p {
                    assert(sorted@[b] == old_sorted[ob]);
                } else {
                    assert(sorted@[a] == old_sorted[oa]);
                }
            }
        }
        i += 1;
    }
    proof {
        assert forall|k: int| 0 <= k < sorted@.len() implies (#[trigger] sorted@[k]).1 == app_count(
            reqs@,
            sorted@[k].0@,
        ) && sorted@[k].1 > 0 by {
            let t = choose|t: int|
                0 <= t < i && (#[trigger] sorted@[k]).0@ == names@[t]@ && sorted@[k].1 == counts@[t];
        }
        assert forall|k: int| 0 <= k < reqs@.len() implies in_parts(
            sorted@,
            app_name(#[trigger] reqs@[k]),
        ) by {
            assert(in_names(names@, app_name(reqs@[k])));
            let t = choose|t: int| 0 <= t < names@.len() && (#[trigger] names@[t])@ == app_name(
                reqs@[k],
            );
            assert(in_parts(sorted@, names@[t]@));
        }
    }
    sorted
}

/// Whether an optional field, lower-cased, contains `q`.
pub open spec fn field_matches(f: Option<String>, q: Seq<char>) -> bool {
    f matches Some(s) && contains_seq(lower_of(s@), q)
}

/// Whether a request matches the lower-cased query `q`: its URL or policy,
/// and its process path when `with_path`, contain it.
pub open spec fn request_matches(r: Request, q: Seq<char>, with_path: bool) -> bool {
    field_matches(r.url, q) || field_matches(r.policy_name, q) || (with_path && field_matches(
        r.process_path,
        q,
    ))
}

/// Whether a request stays in a list filtered by `query` (none when empty)
/// and, when given, by application.
pub open spec fn keeps(r: Request, query: Seq<char>, with_path: bool, app: Option<Seq<char>>) -> bool {
    &&& (app matches Some(a) ==> app_name(r) == a)
    &&& (query.len() == 0 || request_matches(r, lower_of(query), with_path))
}

/// Positions of the requests that stay, in order.
pub open spec fn kept_indices(
    reqs: Seq<Request>,
    query: Seq<char>,
    with_path: bool,
    app: Option<Seq<char>>,
) -> Seq<int>
    decreases reqs.len(),
{
    if reqs.len() == 0 {
        seq![]
    } else {
        let prev = kept_indices(reqs.drop_last(), query, with_path, app);
        if keeps(reqs.last(), query, with_path, app) {
            prev.push(reqs.len() - 1)
        } else {
            prev
        }
    }
}

fn field_matches_exec(f: &Option<String>, q: &Vec<char>) -> (r: bool)
    ensures
        r == field_matches(*f, q@),
{
    match f {
        Some(s) => lower_contains(s.as_str(), q),
        None => false,
    }
}

/// Whether a request matches the lower-cased query.
pub fn request_matches_exec(r: &Request, q: &Vec<char>, with_path: bool) -> (b: bool)
    ensures
        b == request_matches(*r, q@, with_path),
{
    field_matches_exec(&r.url, q) || field_matches_exec(&r.policy_name, q) || (with_path
        && field_matches_exec(&r.process_path, q))
}

pub open spec fn index_views(v: Seq<usize>) -> Seq<int> {
    v.map_values(|x: usize| x as int)
}

/// Positions of the requests that match `query` (all of them when it is
/// empty) and, when `app` is given, belong to that application.
pub fn filter_requests(reqs: &Vec<Request>, query: &str, with_path: bool, app: Option<&str>) -> (r: Vec<
    usize,
>)
    ensures
        index_views(r@) == kept_indices(
            reqs@,
            query@,
            with_path,
            match app {
                Some(a) => Some(a@),
                None => None,
            },
        ),
        forall|k: int| 0 <= k < r@.len() ==> #[trigger] r@[k] < reqs@.len(),
{
    let ghost app_v: Option<Seq<char>> = match app {
        Some(a) => Some(a@),
        None => None,
    };
    let empty_query = query.unicode_len() == 0;
    let q = if empty_query {
        Vec::new()
    } else {
        let l = to_lower(query);
        chars_of(l.as_str())
    };
    let mut out: Vec<usize> = Vec::new();
    let mut i: usize = 0;
    assert(reqs@.subrange(0, 0) =~= Seq::<Request>::empty());
    assert(index_views(out@) =~= Seq::<int>::empty());
    while i < reqs.len()
        invariant
            i <= reqs@.len(),
            empty_query == (query@.len() == 0),
            !empty_query ==> q@ == lower_of(query@),
            index_views(out@) == kept_indices(reqs@.subrange(0, i as int), query@, with_path, app_v),
            forall|k: int| 0 <= k < out@.len() ==> #[trigger] out@[k] < i,
            app_v == match app {
                Some(a) => Some(a@),
                None => None::<Seq<char>>,
            },
        decreases reqs@.len() - i,
    {
        let r = &reqs[i];
        let in_app = match app {
            Some(a) => {
                let n = app_name_of(r);
                str_eq(n.as_str(), a)
            },
            None => true,
        };
        let keep = in_app && (empty_query || request_matches_exec(r, &q, with_path));
        proof {
            let t = reqs@.subrange(0, i + 1);
            assert(t.drop_last() =~= reqs@.subrange(0, i as int));
            assert(t.last() == reqs@[i as int]);
            assert(keep == keeps(reqs@[i as int], query@, with_path, app_v));
        }
        let ghost before = out@;
        if keep {
            out.push(i);
            assert(index_views(out@) =~= index_views(before).push(i as int));
        }
        i += 1;
    }
    assert(reqs@.subrange(0, i as int) =~= reqs@);
    out
}

/// At most this many requests are listed.
pub const MAX_LISTED: usize = 50;

/// Whether a DNS record's domain matches the query, case-insensitively.
pub open spec fn dns_matches(domain: Seq<char>, query: Seq<char>) -> bool {
    contains_seq(lower_of(domain), lower_of(query))
}

/// How many records of `domains` match `query` (all when it is empty).
pub open spec fn dns_match_count(records: Seq<crate::models::DnsRecord>, query: Seq<char>) -> nat
    decreases records.len(),
{
    if records.len() == 0 {
        0
    } else {
        dns_match_count(records.drop_last(), query) + if query.len() == 0 || dns_matches(
            records.last().domain@,
            query,
        ) {
            1nat
        } else {
            0nat
        }
    }
}

/// The number of DNS records that the search query leaves.
pub fn count_dns_matches(records: &Vec<crate::models::DnsRecord>, query: &str) -> (r: usize)
    ensures
        r as nat == dns_match_count(records@, query@),
{
    let empty_query = query.unicode_len() == 0;
    let q = if empty_query {
        Vec::new()
    } else {
        let l = to_lower(query);
        chars_of(l.as_str())
    };
    let mut n: usize = 0;
    let mut i: usize = 0;
    assert(records@.subrange(0, 0) =~= Seq::<crate::models::DnsRecord>::empty());
    while i < records.len()
        invariant
            i <= records@.len(),
            n <= i,
            empty_query == (query@.len() == 0),
            !empty_query ==> q@ == lower_of(query@),
            n as nat == dns_match_count(records@.subrange(0, i as int), query@),
        decreases records@.len() - i,
    {
        let hit = empty_query || lower_contains(records[i].domain.as_str(), &q);
        proof {
            let t = records@.subrange(0, i + 1);
            assert(t.drop_last() =~= records@.subrange(0, i as int));
            assert(t.last() == records@[i as int]);
        }
        if hit {
            n += 1;
        }
        i += 1;
    }
    assert(records@.subrange(0, i as int) =~= records@);
    n
}

/// `text` cut to `max_len` characters, ending in `..` when cut.
pub open spec fn truncated_chars(s: Seq<char>, max_len: int) -> Seq<char> {
    if s.len() <= max_len {
        s
    } else {
        s.subrange(0, max_len - 2) + ".."@
    }
}

/// Cuts `text` to `max_len` characters, the last two of them `..` when cut.
pub fn truncate_text(text: &str, max_len: usize) -> (r: String)
    requires
        text@.len() <= max_len || max_len >= 2,
    ensures
        r@ == truncated_chars(text@, max_len as int),
{
    let n = text.unicode_len();
    if n <= max_len {
        String::from_str(text)
    } else {
        let mut r = string_of_range(text, 0, max_len - 2);
        r.append("..");
        r
    }
}

/// Columns of a character in the simple measure: 1 for ASCII, else 2.
pub open spec fn simple_char_width(c: char) -> nat {
    if (c as u32) < 128 {
        1
    } else {
        2
    }
}

/// Columns of a string in the simple measure.
pub open spec fn simple_width(s: Seq<char>) -> nat
    decreases s.len(),
{
    if s.len() == 0 {
        0
    } else {
        simple_width(s.drop_last()) + simple_char_width(s.last())
    }
}

proof fn lemma_simple_width_bound(s: Seq<char>)
    ensures
        simple_width(s) <= 2 * s.len(),
    decreases s.len(),
{
    if s.len() > 0 {
        lemma_simple_width_bound(s.drop_last());
    }
}

/// Display width where every non-ASCII character counts two columns.
pub fn display_width(text: &str) -> (r: usize)
    requires
        2 * text@.len() <= usize::MAX,
    ensures
        r as nat == simple_width(text@),
{
    let v = chars_of(text);
    let mut w: usize = 0;
    let mut i: usize = 0;
    assert(v@.subrange(0, 0) =~= Seq::<char>::empty());
    while i < v.len()
        invariant
            i <= v@.len(),
            v@ == text@,
            2 * text@.len() <= usize::MAX,
            w as nat == simple_width(v@.subrange(0, i as int)),
        decreases v@.len() - i,
    {
        proof {
            let t = v@.subrange(0, i + 1);
            assert(t.drop_last() =~= v@.subrange(0, i as int));
            lemma_simple_width_bound(v@.subrange(0, i + 1));
        }
        if (v[i] as u32) < 128 {
            w += 1;
        } else {
            w += 2;
        }
        i += 1;
    }
    assert(v@.subrange(0, i as int) =~= v@);
    w
}

/// `text` padded with spaces to `width` columns of the simple measure.
pub open spec fn padded(s: Seq<char>, width: nat) -> Seq<char> {
    if simple_width(s) >= width {
        s
    } else {
        s + Seq::new((width - simple_width(s)) as nat, |i: int| ' ')
    }
}

/// Pads `text` with spaces to `width` columns; wider text is kept whole.
pub fn pad_to_width(text: &str, width: usize) -> (r: String)
    requires
        2 * text@.len() <= usize::MAX,
    ensures
        r@ == padded(text@, width as nat),
{
    let w = display_width(text);
    let mut r = String::from_str(text);
    if w >= width {
        return r;
    }
    let mut k: usize = 0;
    while k < width - w
        invariant
            w < width,
            k <= width - w,
            r@ == text@ + Seq::new(k as nat, |i: int| ' '),
        decreases width - w - k,
    {
        r.append(" ");
        proof {
            reveal_strlit(" ");
            assert(text@ + Seq::new((k + 1) as nat, |i: int| ' ') =~= text@ + Seq::new(
                k as nat,
                |i: int| ' ',
            ) + " "@);
        }
        k += 1;
    }
    r
}

} // verus!
