//! The summary of timing spans that the console reporter prints: for each
//! span name, how often it ran and for how long in all, longest first, with
//! the root span reported apart as the total.
use vstd::prelude::*;
use vstd::seq_lib::group_to_multiset_ensures;

verus! {

/// A finished span: its name and how long it ran.
pub struct SpanRecord {
    pub name: String,
    pub duration_ns: u64,
}

/// The spans of one name: where that name first occurs, how many spans
/// have it and their total duration.
#[derive(Clone, Copy, Debug, PartialEq, Eq, Structural)]
pub struct SpanStat {
    pub first: usize,
    pub count: usize,
    pub duration_ns: u128,
}

/// The summary: one row per span name but the root's, longest total first,
/// and the root spans' total duration, if there is a root span.
pub struct SpanReport {
    pub rows: Vec<SpanStat>,
    pub root_ns: Option<u128>,
}

/// The name of the span that encloses a whole traced evaluation.
pub open spec fn root_name() -> Seq<char> {
    seq!['r', 'o', 'o', 't']
}

pub open spec fn name_at(spans: Seq<SpanRecord>, i: int) -> Seq<char> {
    spans[i].name@
}

/// How many of the first `n` spans are named `name`.
pub open spec fn count_in(spans: Seq<SpanRecord>, name: Seq<char>, n: nat) -> nat
    decreases n,
{
    if n == 0 {
        0
    } else {
        count_in(spans, name, (n - 1) as nat) + if name_at(spans, n - 1) == name {
            1nat
        } else {
            0nat
        }
    }
}

/// The total duration of the first `n` spans named `name`.
pub open spec fn total_in(spans: Seq<SpanRecord>, name: Seq<char>, n: nat) -> int
    decreases n,
{
    if n == 0 {
        0
    } else {
        total_in(spans, name, (n - 1) as nat) + if name_at(spans, n - 1) == name {
            spans[n - 1].duration_ns as int
        } else {
            0
        }
    }
}

/// Whether span `i` is the first of its name.
pub open spec fn first_of_name(spans: Seq<SpanRecord>, i: int) -> bool {
    forall|j: int| 0 <= j < i ==> name_at(spans, j) != name_at(spans, i)
}

/// Whether `r` sums up, among the first `n` spans, those of its name, which
/// is not the root's.
pub open spec fn row_ok(spans: Seq<SpanRecord>, n: nat, r: SpanStat) -> bool {
    let name = name_at(spans, r.first as int);
    &&& r.first < n
    &&& first_of_name(spans, r.first as int)
    &&& name != root_name()
    &&& r.count == count_in(spans, name, n)
    &&& r.duration_ns == total_in(spans, name, n)
}

proof fn lemma_counts_bounded(spans: Seq<SpanRecord>, name: Seq<char>, n: nat)
    requires
        n <= spans.len(),
    ensures
        count_in(spans, name, n) <= n,
        0 <= total_in(spans, name, n) <= n * 0xffff_ffff_ffff_ffff,
    decreases n,
{
    if n > 0 {
        lemma_counts_bounded(spans, name, (n - 1) as nat);
        assert((n - 1) * 0xffff_ffff_ffff_ffff + 0xffff_ffff_ffff_ffff == n * 0xffff_ffff_ffff_ffff)
            by (nonlinear_arith);
    }
}

proof fn lemma_absent_name(spans: Seq<SpanRecord>, name: Seq<char>, n: nat)
    requires
        n <= spans.len(),
        forall|j: int| 0 <= j < n ==> name_at(spans, j) != name,
    ensures
        count_in(spans, name, n) == 0,
        total_in(spans, name, n) == 0,
    decreases n,
{
    if n > 0 {
        lemma_absent_name(spans, name, (n - 1) as nat);
    }
}

fn same_text(a: &str, b: &str) -> (r: bool)
    ensures
        r == (a@ == b@),
{
    let n = a.unicode_len();
    if n != b.unicode_len() {
        return false;
    }
    let mut i: usize = 0;
    while i < n
        invariant
            n == a@.len(),
            n == b@.len(),
            i <= n,
            forall|k: int| 0 <= k < i ==> a@[k] == b@[k],
        decreases n - i,
    {
        if a.get_char(i) != b.get_char(i) {
            return false;
        }
        i = i + 1;
    }
    assert(a@ =~= b@);
    true
}

fn is_root(a: &str) -> (r: bool)
    ensures
        r == (a@ == root_name()),
{
    if a.unicode_len() != 4 {
        return false;
    }
    let r = a.get_char(0) == 'r' && a.get_char(1) == 'o' && a.get_char(2) == 'o' && a.get_char(3)
        == 't';
    if r {
        assert(a@ =~= root_name());
    }
    r
}

/// Reports finished spans on the console.
pub struct RConsoleReporter;

impl RConsoleReporter {
    /// Sums the spans up by name; the row of each name counts its spans
    /// and adds up their durations, rows come longest total first (in
    /// order of first appearance among equal totals), and the root spans
    /// make the total instead of a row.
    pub fn summarize(spans: &Vec<SpanRecord>) -> (report: SpanReport)
        ensures
            forall|k: int|
                0 <= k < report.rows@.len() ==> row_ok(spans@, spans@.len(), #[trigger] report.rows@[k]),
            forall|k1: int, k2: int|
                0 <= k1 < report.rows@.len() && 0 <= k2 < report.rows@.len() && k1 != k2 ==> name_at(
                    spans@,
                    report.rows@[k1].first as int,
                ) != name_at(spans@, report.rows@[k2].first as int),
            forall|i: int|
                0 <= i < spans@.len() && name_at(spans@, i) != root_name() ==> exists|k: int|
                    0 <= k < report.rows@.len() && name_at(spans@, report.rows@[k].first as int)
                        == name_at(spans@, i),
            forall|a: int, b: int|
                0 <= a < b < report.rows@.len() ==> report.rows@[a].duration_ns
                    >= report.rows@[b].duration_ns,
            forall|a: int, b: int|
                0 <= a < b < report.rows@.len() && report.rows@[a].duration_ns
                    == report.rows@[b].duration_ns ==> report.rows@[a].first < report.rows@[b].first,
            report.root_ns is Some <==> count_in(spans@, root_name(), spans@.len()) > 0,
            report.root_ns is Some ==> report.root_ns->Some_0 == total_in(
                spans@,
                root_name(),
                spans@.len(),
            ),
    {
        let agg = aggregate(spans);
        let root = agg.1;
        let agg = agg.0;
        let ghost before = agg@;
        let rows = sort_by_duration(spans, agg);
        let report = SpanReport { rows, root_ns: root };
        proof {
            broadcast use group_to_multiset_ensures;

            let out = report.rows@;
            assert forall|i: int|
                0 <= i < spans@.len() && name_at(spans@, i) != root_name() implies exists|k: int|
                0 <= k < out.len() && name_at(spans@, out[k].first as int) == name_at(spans@, i) by {
                let m = choose|m: int|
                    0 <= m < before.len() && name_at(spans@, before[m].first as int) == name_at(
                        spans@,
                        i,
                    );
                before.to_multiset_ensures();
                out.to_multiset_ensures();
                assert(before.contains(before[m]));
                assert(out.to_multiset().count(before[m]) > 0);
                assert(out.contains(before[m]));
                let k = choose|k: int| 0 <= k < out.len() && out[k] == before[m];
                assert(name_at(spans@, out[k].first as int) == name_at(spans@, i));
            }
        }
        report
    }
}

fn aggregate(spans: &Vec<SpanRecord>) -> (r: (Vec<SpanStat>, Option<u128>))
    ensures
        forall|k: int| 0 <= k < r.0@.len() ==> row_ok(spans@, spans@.len(), #[trigger] r.0@[k]),
        forall|k1: int, k2: int|
            0 <= k1 < r.0@.len() && 0 <= k2 < r.0@.len() && k1 != k2 ==> name_at(
                spans@,
                r.0@[k1].first as int,
            ) != name_at(spans@, r.0@[k2].first as int),
        forall|i: int|
            0 <= i < spans@.len() && name_at(spans@, i) != root_name() ==> exists|k: int|
                0 <= k < r.0@.len() && name_at(spans@, r.0@[k].first as int) == name_at(spans@, i),
        r.1 is Some <==> count_in(spans@, root_name(), spans@.len()) > 0,
        r.1 is Some ==> r.1->Some_0 == total_in(spans@, root_name(), spans@.len()),
        forall|a: int, b: int| 0 <= a < b < r.0@.len() ==> r.0@[a].first < r.0@[b].first,
{
    let ghost s = spans@;
    let n = spans.len();
    let mut agg: Vec<SpanStat> = Vec::new();
    let mut root_total: u128 = 0;
    let mut root_seen = false;
    let mut i: usize = 0;
    while i < n
        invariant
            n == s.len(),
            s == spans@,
            i <= n,
            forall|k: int| 0 <= k < agg@.len() ==> row_ok(s, i as nat, #[trigger] agg@[k]),
            forall|k1: int, k2: int|
                0 <= k1 < agg@.len() && 0 <= k2 < agg@.len() && k1 != k2 ==> name_at(
                    s,
                    agg@[k1].first as int,
                ) != name_at(s, agg@[k2].first as int),
            forall|j: int|
                0 <= j < i && name_at(s, j) != root_name() ==> exists|k: int|
                    0 <= k < agg@.len() && name_at(s, agg@[k].first as int) == name_at(s, j),
            root_total == total_in(s, root_name(), i as nat),
            root_seen == (count_in(s, root_name(), i as nat) > 0),
            forall|a: int, b: int| 0 <= a < b < agg@.len() ==> agg@[a].first < agg@[b].first,
        decreases n - i,
    {
        let name = spans[i].name.as_str();
        let d = spans[i].duration_ns;
        let ghost here = name_at(s, i as int);
        proof {
            lemma_counts_bounded(s, root_name(), (i + 1) as nat);
        }
        if is_root(name) {
            root_total = root_total + d as u128;
            root_seen = true;
            proof {
                assert forall|k: int| 0 <= k < agg@.len() implies row_ok(
                    s,
                    (i + 1) as nat,
                    #[trigger] agg@[k],
                ) by {
                    assert(name_at(s, agg@[k].first as int) != here);
                }
            }
        } else {
            let mut k: usize = 0;
            let mut found = false;
            while k < agg.len() && !found
                invariant
                    n == s.len(),
                    s == spans@,
                    i < n,
                    here == name@,
                    here == name_at(s, i as int),
                    k <= agg@.len(),
                    found ==> k < agg@.len() && name_at(s, agg@[k as int].first as int) == here,
                    forall|m: int| 0 <= m < agg@.len() ==> row_ok(s, i as nat, #[trigger] agg@[m]),
                    forall|m: int| 0 <= m < k ==> name_at(s, #[trigger] agg@[m].first as int) != here,
                decreases agg@.len() - k + if found { 0int } else { 1int },
            {
                if same_text(spans[agg[k].first].name.as_str(), name) {
                    found = true;
                } else {
                    k = k + 1;
                }
            }
            let ghost before = agg@;
            if found {
                let old_row = agg[k];
                proof {
                    lemma_counts_bounded(s, here, (i + 1) as nat);
                }
                agg.set(
                    k,
                    SpanStat {
                        first: old_row.first,
                        count: old_row.count + 1,
                        duration_ns: old_row.duration_ns + d as u128,
                    },
                );
                proof {
                    assert forall|m: int| 0 <= m < agg@.len() implies agg@[m].first
                        == before[m].first by {
                        if m != k {
                            assert(agg@[m] == before[m]);
                        }
                    }
                    assert forall|m: int| 0 <= m < agg@.len() implies row_ok(
                        s,
                        (i + 1) as nat,
                        #[trigger] agg@[m],
                    ) by {
                        if m != k {
                            assert(name_at(s, before[m].first as int) != here);
                        }
                    }
                    assert forall|j: int|
                        0 <= j < i + 1 && name_at(s, j) != root_name() implies exists|m: int|
                        0 <= m < agg@.len() && name_at(s, agg@[m].first as int) == name_at(
                            s,
                            j,
                        ) by {
                        if j < i {
                            let m = choose|m: int|
                                0 <= m < before.len() && name_at(s, before[m].first as int)
                                    == name_at(s, j);
                            assert(agg@[m].first == before[m].first);
                        } else {
                            assert(agg@[k as int].first == before[k as int].first);
                        }
                    }
                    assert(root_total == total_in(s, root_name(), (i + 1) as nat));
                }
            } else {
                proof {
                    assert forall|j: int| 0 <= j < i implies name_at(s, j) != here by {
                        if name_at(s, j) == here {
                            let m = choose|m: int|
                                0 <= m < before.len() && name_at(s, before[m].first as int)
                                    == name_at(s, j);
                            assert(name_at(s, before[m].first as int) != here);
                        }
                    }
                    lemma_absent_name(s, here, i as nat);
                }
                agg.push(SpanStat { first: i, count: 1, duration_ns: d as u128 });
                proof {
                    assert forall|a: int, b: int| 0 <= a < b < agg@.len() implies agg@[a].first
                        < agg@[b].first by {
                        assert(row_ok(s, i as nat, before[a]));
                        if b < before.len() {
                            assert(agg@[b] == before[b]);
                        }
                        assert(agg@[a] == before[a]);
                    }
                    assert forall|m: int| 0 <= m < agg@.len() implies row_ok(
                        s,
                        (i + 1) as nat,
                        #[trigger] agg@[m],
                    ) by {
                        if m < before.len() {
                            assert(name_at(s, before[m].first as int) != here);
                        }
                    }
                    assert forall|j: int|
                        0 <= j < i + 1 && name_at(s, j) != root_name() implies exists|m: int|
                        0 <= m < agg@.len() && name_at(s, agg@[m].first as int) == name_at(
                            s,
                            j,
                        ) by {
                        if j < i {
                            let m = choose|m: int|
                                0 <= m < before.len() && name_at(s, before[m].first as int)
                                    == name_at(s, j);
                            assert(agg@[m] == before[m]);
                        } else {
                            assert(agg@[before.len() as int].first == i);
                        }
                    }
                }
            }
        }
        i = i + 1;
    }
    let root = if root_seen {
        Some(root_total)
    } else {
        None
    };
    (agg, root)
}

fn sort_by_duration(spans: &Vec<SpanRecord>, agg: Vec<SpanStat>) -> (out: Vec<SpanStat>)
    requires
        forall|k: int| 0 <= k < agg@.len() ==> row_ok(spans@, spans@.len(), #[trigger] agg@[k]),
        forall|k1: int, k2: int|
            0 <= k1 < agg@.len() && 0 <= k2 < agg@.len() && k1 != k2 ==> name_at(
                spans@,
                agg@[k1].first as int,
            ) != name_at(spans@, agg@[k2].first as int),
        forall|a: int, b: int| 0 <= a < b < agg@.len() ==> agg@[a].first < agg@[b].first,
    ensures
        out@.to_multiset() == agg@.to_multiset(),
        forall|a: int, b: int|
            0 <= a < b < out@.len() && out@[a].duration_ns == out@[b].duration_ns ==> out@[a].first
                < out@[b].first,
        forall|k: int| 0 <= k < out@.len() ==> row_ok(spans@, spans@.len(), #[trigger] out@[k]),
        forall|k1: int, k2: int|
            0 <= k1 < out@.len() && 0 <= k2 < out@.len() && k1 != k2 ==> name_at(
                spans@,
                out@[k1].first as int,
            ) != name_at(spans@, out@[k2].first as int),
        forall|a: int, b: int|
            0 <= a < b < out@.len() ==> out@[a].duration_ns >= out@[b].duration_ns,
{
    broadcast use group_to_multiset_ensures;

    let ghost s = spans@;
    let mut out: Vec<SpanStat> = Vec::new();
    let mut i: usize = 0;
    assert(agg@.take(0) =~= Seq::<SpanStat>::empty());
    assert(out@ =~= Seq::<SpanStat>::empty());
    while i < agg.len()
        invariant
            s == spans@,
            i <= agg@.len(),
            forall|k: int| 0 <= k < agg@.len() ==> row_ok(s, s.len(), #[trigger] agg@[k]),
            forall|k1: int, k2: int|
                0 <= k1 < agg@.len() && 0 <= k2 < agg@.len() && k1 != k2 ==> name_at(
                    s,
                    agg@[k1].first as int,
                ) != name_at(s, agg@[k2].first as int),
            out@.to_multiset() == agg@.take(i as int).to_multiset(),
            forall|a: int, b: int| 0 <= a < b < agg@.len() ==> agg@[a].first < agg@[b].first,
            forall|a: int, b: int|
                0 <= a < b < out@.len() && out@[a].duration_ns == out@[b].duration_ns
                    ==> out@[a].first < out@[b].first,
            forall|k: int| 0 <= k < out@.len() ==> row_ok(s, s.len(), #[trigger] out@[k]),
            forall|k1: int, k2: int|
                0 <= k1 < out@.len() && 0 <= k2 < out@.len() && k1 != k2 ==> name_at(
                    s,
                    out@[k1].first as int,
                ) != name_at(s, out@[k2].first as int),
            forall|a: int, b: int|
                0 <= a < b < out@.len() ==> out@[a].duration_ns >= out@[b].duration_ns,
        decreases agg@.len() - i,
    {
        let row = agg[i];
        let mut p: usize = 0;
        while p < out.len() && out[p].duration_ns >= row.duration_ns
            invariant
                p <= out@.len(),
                forall|a: int| 0 <= a < p ==> out@[a].duration_ns >= row.duration_ns,
            decreases out@.len() - p,
        {
            p = p + 1;
        }
        let ghost before = out@;
        let ghost taken = agg@.take(i as int);
        proof {
            assert forall|k: int| 0 <= k < before.len() implies name_at(s, before[k].first as int)
                != name_at(s, row.first as int) && before[k].first < row.first by {
                before.to_multiset_ensures();
                taken.to_multiset_ensures();
                assert(before.contains(before[k]));
                assert(before.to_multiset().count(before[k]) > 0);
                assert(taken.to_multiset().count(before[k]) > 0);
                assert(taken.contains(before[k]));
                let m = choose|m: int| 0 <= m < taken.len() && taken[m] == before[k];
                assert(agg@[m] == before[k]);
            }
            assert forall|k: int| p <= k < before.len() implies before[k].duration_ns
                < row.duration_ns by {
                assert(before[p as int].duration_ns < row.duration_ns);
            }
        }
        out.insert(p, row);
        proof {
            assert(out@ =~= before.insert(p as int, row));
            vstd::seq_lib::to_multiset_insert(before, p as int, row);
            assert(out@.to_multiset() == before.to_multiset().insert(row));
            assert(agg@.take(i + 1) =~= taken.push(row));
            taken.to_multiset_ensures();
            assert(taken.push(row).to_multiset() =~= taken.to_multiset().insert(row));
            assert(agg@.take(i + 1).to_multiset() == taken.to_multiset().insert(row));
            assert forall|k: int| 0 <= k < out@.len() implies row_ok(s, s.len(), #[trigger] out@[k]) by {
                if k < p {
                    assert(out@[k] == before[k]);
                } else if k > p {
                    assert(out@[k] == before[k - 1]);
                }
            }
            assert forall|k1: int, k2: int|
                0 <= k1 < out@.len() && 0 <= k2 < out@.len() && k1 != k2 implies name_at(
                    s,
                    out@[k1].first as int,
                ) != name_at(s, out@[k2].first as int) by {
                let j1 = if k1 < p { k1 } else if k1 > p { k1 - 1 } else { -1 };
                let j2 = if k2 < p { k2 } else if k2 > p { k2 - 1 } else { -1 };
                if j1 >= 0 {
                    assert(out@[k1] == before[j1]);
                }
                if j2 >= 0 {
                    assert(out@[k2] == before[j2]);
                }
            }
            assert forall|a: int, b: int|
                0 <= a < b < out@.len() && out@[a].duration_ns == out@[b].duration_ns implies out@[a].first
                < out@[b].first by {
                let ja = if a < p { a } else if a > p { a - 1 } else { -1 };
                let jb = if b < p { b } else if b > p { b - 1 } else { -1 };
                if ja >= 0 {
                    assert(out@[a] == before[ja]);
                }
                if jb >= 0 {
                    assert(out@[b] == before[jb]);
                }
            }
            assert forall|a: int, b: int|
                0 <= a < b < out@.len() implies out@[a].duration_ns >= out@[b].duration_ns by {
                let ja = if a < p { a } else if a > p { a - 1 } else { -1 };
                let jb = if b < p { b } else if b > p { b - 1 } else { -1 };
                if ja >= 0 {
                    assert(out@[a] == before[ja]);
                }
                if jb >= 0 {
                    assert(out@[b] == before[jb]);
                }
            }
        }
        i = i + 1;
    }
    assert(agg@.take(agg@.len() as int) =~= agg@);
    out
}

} // verus!
