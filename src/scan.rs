use vstd::prelude::*;

use crate::commands::LandoCommandOutcome;
use crate::text::chars_of;

verus! {

/// The file whose presence marks its directory as a project.
pub const MANIFEST_FILE: &'static str = ".lando.yml";

/// How deep below the chosen root a scan looks; the root itself is depth 0.
pub const MAX_SCAN_DEPTH: usize = 3;

/// One entry that a directory walk met: its parent directory (if it has
/// one), its file name, and its depth below the root of the walk.
pub struct WalkEntry {
    pub parent: Option<String>,
    pub file_name: String,
    pub depth: usize,
}

/// Whether the walk entry is a manifest within the depth bound.
pub open spec fn is_manifest(e: WalkEntry) -> bool {
    e.file_name@ == MANIFEST_FILE@ && e.depth <= MAX_SCAN_DEPTH
}

/// Whether a walk whose entries are `entries` (`None` for an entry that
/// could not be read) discovers the project directory `p`.
pub open spec fn discovers(entries: Seq<Option<WalkEntry>>, p: Seq<char>) -> bool {
    exists|i: int|
        0 <= i < entries.len() && #[trigger] entries[i] is Some && is_manifest(entries[i]->0)
            && entries[i]->0.parent is Some && entries[i]->0.parent->0@ == p
}

/// The order of two characters of a path: the separator `/` comes before
/// every other character, the others go by code point.
pub open spec fn char_before(a: char, b: char) -> bool {
    if a == '/' {
        b != '/'
    } else if b == '/' {
        false
    } else {
        a < b
    }
}

/// Strict order on paths, as `Path` orders them: segment by segment of the
/// `/`-separated segments, each segment character by character, a path
/// before any longer path that it begins. Ranking the separator below every
/// other character gives that order on the whole text.
pub open spec fn text_lt(a: Seq<char>, b: Seq<char>) -> bool
    decreases a.len(),
{
    if a.len() == 0 {
        b.len() > 0
    } else if b.len() == 0 {
        false
    } else if a[0] != b[0] {
        char_before(a[0], b[0])
    } else {
        text_lt(a.drop_first(), b.drop_first())
    }
}

/// The texts are in strictly increasing order, hence free of repeats.
pub open spec fn sorted_unique(s: Seq<Seq<char>>) -> bool {
    forall|i: int, j: int| 0 <= i < j < s.len() ==> text_lt(#[trigger] s[i], #[trigger] s[j])
}

/// `r` is the project list of a walk: sorted, each directory once, and
/// holding exactly the directories the walk discovers.
pub open spec fn is_project_list(r: Seq<Seq<char>>, entries: Seq<Option<WalkEntry>>) -> bool {
    sorted_unique(r) && forall|p: Seq<char>| r.contains(p) <==> discovers(entries, p)
}

/// `m` merges the project lists `a` and `b`: sorted, each directory once,
/// holding what either holds.
pub open spec fn is_merge(m: Seq<Seq<char>>, a: Seq<Seq<char>>, b: Seq<Seq<char>>) -> bool {
    sorted_unique(m) && forall|p: Seq<char>| m.contains(p) <==> (a.contains(p) || b.contains(p))
}

proof fn lemma_text_lt_irreflexive(a: Seq<char>)
    ensures
        !text_lt(a, a),
    decreases a.len(),
{
    if a.len() > 0 {
        lemma_text_lt_irreflexive(a.drop_first());
    }
}

proof fn lemma_text_lt_transitive(a: Seq<char>, b: Seq<char>, c: Seq<char>)
    requires
        text_lt(a, b),
        text_lt(b, c),
    ensures
        text_lt(a, c),
    decreases a.len(),
{
    if a.len() > 0 && b.len() > 0 && c.len() > 0 && a[0] == b[0] && b[0] == c[0] {
        lemma_text_lt_transitive(a.drop_first(), b.drop_first(), c.drop_first());
    }
}

proof fn lemma_text_lt_total(a: Seq<char>, b: Seq<char>)
    requires
        a != b,
    ensures
        text_lt(a, b) || text_lt(b, a),
    decreases a.len(),
{
    if a.len() > 0 && b.len() > 0 && a[0] == b[0] {
        if a.drop_first() == b.drop_first() {
            assert(a =~= seq![a[0]] + a.drop_first());
            assert(b =~= seq![b[0]] + b.drop_first());
        } else {
            lemma_text_lt_total(a.drop_first(), b.drop_first());
        }
    } else if a.len() == 0 && b.len() == 0 {
        assert(a =~= b);
    }
}

/// Whether `a` comes strictly before `b`.
fn text_less(a: &Vec<char>, b: &Vec<char>) -> (r: bool)
    ensures
        r == text_lt(a@, b@),
{
    let mut i: usize = 0;
    assert(a@.subrange(0, a@.len() as int) =~= a@);
    assert(b@.subrange(0, b@.len() as int) =~= b@);
    while i < a.len() && i < b.len()
        invariant
            i <= a@.len(),
            i <= b@.len(),
            a@.subrange(0, i as int) == b@.subrange(0, i as int),
            text_lt(a@, b@) == text_lt(a@.subrange(i as int, a@.len() as int), b@.subrange(
                i as int,
                b@.len() as int,
            )),
        decreases a@.len() - i,
    {
        let ghost sa = a@.subrange(i as int, a@.len() as int);
        let ghost sb = b@.subrange(i as int, b@.len() as int);
        if a[i] != b[i] {
            assert(sa[0] == a@[i as int] && sb[0] == b@[i as int]);
            return if a[i] == '/' {
                true
            } else if b[i] == '/' {
                false
            } else {
                a[i] < b[i]
            };
        }
        assert(sa.drop_first() =~= a@.subrange(i + 1, a@.len() as int));
        assert(sb.drop_first() =~= b@.subrange(i + 1, b@.len() as int));
        assert(a@.subrange(0, i + 1) =~= a@.subrange(0, i as int).push(a@[i as int]));
        assert(b@.subrange(0, i + 1) =~= b@.subrange(0, i as int).push(b@[i as int]));
        i = i + 1;
    }
    i < b.len()
}

/// Puts `x` into the sorted list `v` unless it is there already.
fn insert_sorted(v: &mut Vec<String>, x: &String)
    requires
        sorted_unique(old(v).deep_view()),
    ensures
        sorted_unique(final(v).deep_view()),
        forall|p: Seq<char>| #[trigger]
            final(v).deep_view().contains(p) <==> (old(v).deep_view().contains(p) || p == x@),
{
    let xc = chars_of(x.as_str());
    let ghost old_v = v.deep_view();
    let mut i: usize = 0;
    let mut searching = true;
    while searching && i < v.len()
        invariant
            v.deep_view() == old_v,
            i <= v@.len(),
            xc@ == x@,
            forall|k: int| 0 <= k < i ==> text_lt(#[trigger] old_v[k], x@),
            !searching ==> i < v@.len() && !text_lt(old_v[i as int], x@),
        decreases v@.len() - i + if searching { 1int } else { 0int },
    {
        let c = chars_of(v[i].as_str());
        assert(c@ == old_v[i as int]);
        if text_less(&c, &xc) {
            i = i + 1;
        } else {
            searching = false;
        }
    }
    proof {
        assert forall|k: int| 0 <= k < v@.len() && #[trigger] old_v[k] == x@ implies k >= i
            by {
            if k < i {
                lemma_text_lt_irreflexive(x@);
            }
        }
    }
    if i < v.len() {
        if v[i].eq(x) {
            assert(old_v[i as int] == x@);
            assert forall|p: Seq<char>| #[trigger]
                v.deep_view().contains(p) <==> (old_v.contains(p) || p == x@) by {
                if p == x@ {
                    assert(old_v[i as int] == p);
                }
            }
            return ;
        }
    }
    proof {
        if i < v@.len() {
            assert(old_v[i as int] != x@);
            lemma_text_lt_total(old_v[i as int], x@);
        }
    }
    v.insert(i, x.clone());
    proof {
        let nv = v.deep_view();
        assert(nv =~= old_v.insert(i as int, x@));
        assert forall|a: int, b: int| 0 <= a < b < nv.len() implies text_lt(
            #[trigger] nv[a],
            #[trigger] nv[b],
        ) by {
            if b < i {
                assert(nv[a] == old_v[a] && nv[b] == old_v[b]);
            } else if b == i {
                assert(nv[a] == old_v[a]);
            } else if a < i {
                assert(nv[a] == old_v[a] && nv[b] == old_v[b - 1]);
                assert(text_lt(old_v[a], x@));
                if b - 1 > i {
                    assert(text_lt(old_v[i as int], old_v[b - 1]));
                    lemma_text_lt_transitive(x@, old_v[i as int], old_v[b - 1]);
                }
                lemma_text_lt_transitive(old_v[a], x@, old_v[b - 1]);
            } else if a == i {
                assert(nv[b] == old_v[b - 1]);
                if b - 1 > i {
                    assert(text_lt(old_v[i as int], old_v[b - 1]));
                    lemma_text_lt_transitive(x@, old_v[i as int], old_v[b - 1]);
                }
            } else {
                assert(nv[a] == old_v[a - 1] && nv[b] == old_v[b - 1]);
            }
        }
        assert forall|p: Seq<char>| #[trigger]
            nv.contains(p) <==> (old_v.contains(p) || p == x@) by {
            if nv.contains(p) {
                let k = choose|k: int| 0 <= k < nv.len() && nv[k] == p;
                if k < i {
                    assert(old_v[k] == p);
                } else if k > i {
                    assert(old_v[k - 1] == p);
                }
            }
            if old_v.contains(p) {
                let k = choose|k: int| 0 <= k < old_v.len() && old_v[k] == p;
                if k < i {
                    assert(nv[k] == p);
                } else {
                    assert(nv[k + 1] == p);
                }
            }
            if p == x@ {
                assert(nv[i as int] == p);
            }
        }
    }
}


/// Whether the walk entry is a manifest within the depth bound.
pub fn is_manifest_entry(e: &WalkEntry) -> (r: bool)
    ensures
        r == is_manifest(*e),
{
    let manifest = String::from_str(MANIFEST_FILE);
    e.file_name.eq(&manifest) && e.depth <= MAX_SCAN_DEPTH
}

/// The projects a bounded walk discovers: the parent directory of every
/// manifest at depth at most [`MAX_SCAN_DEPTH`], sorted, each once. Entries
/// that could not be read are skipped.
pub fn collect_projects(entries: &Vec<Option<WalkEntry>>) -> (r: Vec<String>)
    ensures
        is_project_list(r.deep_view(), entries@),
{
    let mut out: Vec<String> = Vec::new();
    let mut i: usize = 0;
    while i < entries.len()
        invariant
            i <= entries@.len(),
            sorted_unique(out.deep_view()),
            forall|p: Seq<char>| #[trigger]
                out.deep_view().contains(p) <==> discovers(entries@.take(i as int), p),
        decreases entries@.len() - i,
    {
        let ghost before = out.deep_view();
        match &entries[i] {
            Some(e) => {
                if is_manifest_entry(e) {
                    match &e.parent {
                        Some(parent) => insert_sorted(&mut out, parent),
                        None => {},
                    }
                }
            },
            None => {},
        }
        proof {
            let prefix = entries@.take(i as int);
            let next = entries@.take(i + 1);
            assert forall|p: Seq<char>| #[trigger]
                out.deep_view().contains(p) <==> discovers(next, p) by {
                if discovers(prefix, p) {
                    let k = choose|k: int|
                        0 <= k < prefix.len() && #[trigger] prefix[k] is Some && is_manifest(
                            prefix[k]->0,
                        ) && prefix[k]->0.parent is Some && prefix[k]->0.parent->0@ == p;
                    assert(next[k] == prefix[k]);
                }
                if discovers(next, p) {
                    let k = choose|k: int|
                        0 <= k < next.len() && #[trigger] next[k] is Some && is_manifest(
                            next[k]->0,
                        ) && next[k]->0.parent is Some && next[k]->0.parent->0@ == p;
                    if k < i {
                        assert(prefix[k] == next[k]);
                    } else {
                        assert(next[k] == entries@[i as int]);
                    }
                }
                if out.deep_view().contains(p) && !before.contains(p) {
                    assert(next[i as int] == entries@[i as int]);
                }
            }
        }
        i = i + 1;
    }
    assert(entries@.take(entries@.len() as int) =~= entries@);
    out
}

/// Merges two project lists into one sorted list holding each directory of
/// either once.
pub fn merge_projects(a: &Vec<String>, b: &Vec<String>) -> (r: Vec<String>)
    ensures
        is_merge(r.deep_view(), a.deep_view(), b.deep_view()),
{
    let mut out: Vec<String> = Vec::new();
    let mut i: usize = 0;
    while i < a.len()
        invariant
            i <= a@.len(),
            sorted_unique(out.deep_view()),
            forall|p: Seq<char>| #[trigger]
                out.deep_view().contains(p) <==> a.deep_view().take(i as int).contains(p),
        decreases a@.len() - i,
    {
        insert_sorted(&mut out, &a[i]);
        proof {
            let pre = a.deep_view().take(i as int);
            let nxt = a.deep_view().take(i + 1);
            assert(nxt =~= pre.push(a.deep_view()[i as int]));
            assert forall|p: Seq<char>| #[trigger]
                nxt.contains(p) <==> (pre.contains(p) || p == a.deep_view()[i as int]) by {
                if nxt.contains(p) {
                    let k = choose|k: int| 0 <= k < nxt.len() && nxt[k] == p;
                    if k < i {
                        assert(pre[k] == p);
                    }
                }
                if pre.contains(p) {
                    let k = choose|k: int| 0 <= k < pre.len() && pre[k] == p;
                    assert(nxt[k] == p);
                }
                if p == a.deep_view()[i as int] {
                    assert(nxt[i as int] == p);
                }
            }
        }
        i = i + 1;
    }
    assert(a.deep_view().take(a@.len() as int) =~= a.deep_view());
    let mut j: usize = 0;
    while j < b.len()
        invariant
            j <= b@.len(),
            sorted_unique(out.deep_view()),
            forall|p: Seq<char>| #[trigger]
                out.deep_view().contains(p) <==> (a.deep_view().contains(p) || b.deep_view().take(
                    j as int,
                ).contains(p)),
        decreases b@.len() - j,
    {
        insert_sorted(&mut out, &b[j]);
        proof {
            let pre = b.deep_view().take(j as int);
            let nxt = b.deep_view().take(j + 1);
            assert forall|p: Seq<char>| #[trigger]
                nxt.contains(p) <==> (pre.contains(p) || p == b.deep_view()[j as int]) by {
                if nxt.contains(p) {
                    let k = choose|k: int| 0 <= k < nxt.len() && nxt[k] == p;
                    if k < j {
                        assert(pre[k] == p);
                    }
                }
                if pre.contains(p) {
                    let k = choose|k: int| 0 <= k < pre.len() && pre[k] == p;
                    assert(nxt[k] == p);
                }
                if p == b.deep_view()[j as int] {
                    assert(nxt[j as int] == p);
                }
            }
        }
        j = j + 1;
    }
    assert(b.deep_view().take(b@.len() as int) =~= b.deep_view());
    out
}

/// The single outcome of a project scan over the entries a walk met.
pub fn scan_outcome(entries: &Vec<Option<WalkEntry>>) -> (r: LandoCommandOutcome)
    ensures
        r is Projects,
        is_project_list(r->Projects_0.deep_view(), entries@),
{
    LandoCommandOutcome::Projects(collect_projects(entries))
}

/// A directory that two scans both discover appears exactly once in the
/// merge of their project lists.
pub proof fn lemma_overlapping_scans(
    entries1: Seq<Option<WalkEntry>>,
    entries2: Seq<Option<WalkEntry>>,
    list1: Seq<Seq<char>>,
    list2: Seq<Seq<char>>,
    merged: Seq<Seq<char>>,
    p: Seq<char>,
)
    requires
        is_project_list(list1, entries1),
        is_project_list(list2, entries2),
        is_merge(merged, list1, list2),
        discovers(entries1, p),
        discovers(entries2, p),
    ensures
        exists|i: int|
            0 <= i < merged.len() && merged[i] == p && forall|j: int|
                0 <= j < merged.len() && #[trigger] merged[j] == p ==> j == i,
{
    assert(list1.contains(p));
    assert(merged.contains(p));
    let i = choose|i: int| 0 <= i < merged.len() && merged[i] == p;
    assert forall|j: int| 0 <= j < merged.len() && #[trigger] merged[j] == p implies j == i by {
        if j < i {
            assert(text_lt(merged[j], merged[i]));
            lemma_text_lt_irreflexive(p);
        } else if j > i {
            assert(text_lt(merged[i], merged[j]));
            lemma_text_lt_irreflexive(p);
        }
    }
}

/// A scan keeps a manifest at depth up to [`MAX_SCAN_DEPTH`] and drops one
/// deeper down, whatever else the walk met.
pub proof fn lemma_scan_depth_bound(entries: Seq<Option<WalkEntry>>, list: Seq<Seq<char>>, k: int)
    requires
        is_project_list(list, entries),
        0 <= k < entries.len(),
        entries[k] is Some,
        entries[k]->0.file_name@ == MANIFEST_FILE@,
        entries[k]->0.parent is Some,
    ensures
        entries[k]->0.depth <= MAX_SCAN_DEPTH ==> list.contains(entries[k]->0.parent->0@),
        entries[k]->0.depth > MAX_SCAN_DEPTH && (forall|j: int|
            0 <= j < entries.len() && j != k && #[trigger] entries[j] is Some
                && entries[j]->0.parent is Some ==> entries[j]->0.parent->0@
                != entries[k]->0.parent->0@) ==> !list.contains(entries[k]->0.parent->0@),
{
    let p = entries[k]->0.parent->0@;
    if entries[k]->0.depth <= MAX_SCAN_DEPTH {
        assert(discovers(entries, p));
    }
}

} // verus!
