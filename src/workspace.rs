use vstd::prelude::*;

verus! {

/// One workspace as the compositor reports it: the fields the panel reads.
#[derive(Debug, Clone, Copy, PartialEq, Eq, Structural)]
pub struct Workspace {
    /// Compositor-assigned identifier, stable for the workspace's lifetime.
    pub id: u64,
    /// This workspace is the current one on its output.
    pub is_active: bool,
    /// The output holding this workspace has the global focus.
    pub is_focused: bool,
}

impl Workspace {
    pub fn new(id: u64, is_active: bool, is_focused: bool) -> (r: Workspace)
        ensures
            r.id == id,
            r.is_active == is_active,
            r.is_focused == is_focused,
    {
        Workspace { id, is_active, is_focused }
    }
}

/// `w` placed into `s` after every entry whose id is not above its own.
pub open spec fn insert_by_id(s: Seq<Workspace>, w: Workspace) -> Seq<Workspace>
    decreases s.len(),
{
    if s.len() == 0 {
        seq![w]
    } else if s.last().id <= w.id {
        s.push(w)
    } else {
        insert_by_id(s.drop_last(), w).push(s.last())
    }
}

/// The stable sort of `l` by ascending id.
pub open spec fn sorted_by_id(l: Seq<Workspace>) -> Seq<Workspace>
    decreases l.len(),
{
    if l.len() == 0 {
        l
    } else {
        insert_by_id(sorted_by_id(l.drop_last()), l.last())
    }
}

pub open spec fn ids_ascending(s: Seq<Workspace>) -> bool {
    forall|i: int, j: int| 0 <= i < j < s.len() ==> s[i].id <= s[j].id
}

pub open spec fn has_id(s: Seq<Workspace>, id: u64) -> bool {
    exists|i: int| 0 <= i < s.len() && s[i].id == id
}

/// The list after the compositor reports `id` as activated: that entry becomes
/// active with the given focus, every other one neither; an unknown id changes nothing.
pub open spec fn activated(s: Seq<Workspace>, id: u64, focused: bool) -> Seq<Workspace> {
    if has_id(s, id) {
        s.map_values(
            |w: Workspace|
                if w.id == id {
                    Workspace { id: w.id, is_active: true, is_focused: focused }
                } else {
                    Workspace { id: w.id, is_active: false, is_focused: false }
                },
        )
    } else {
        s
    }
}

/// The list after the user picks `id`: that entry becomes active and every
/// other one inactive; focus flags stay as they were.
pub open spec fn selected(s: Seq<Workspace>, id: u64) -> Seq<Workspace> {
    s.map_values(|w: Workspace| Workspace { id: w.id, is_active: w.id == id, is_focused: w.is_focused })
}

pub open spec fn at_most_one_active(s: Seq<Workspace>) -> bool {
    forall|i: int, j: int|
        0 <= i < s.len() && 0 <= j < s.len() && s[i].is_active && s[j].is_active ==> i == j
}

pub open spec fn ids_unique(s: Seq<Workspace>) -> bool {
    forall|i: int, j: int| 0 <= i < s.len() && 0 <= j < s.len() && s[i].id == s[j].id ==> i == j
}

proof fn lemma_insert_at(s: Seq<Workspace>, w: Workspace, k: int)
    requires
        0 <= k <= s.len(),
        forall|m: int| k <= m < s.len() ==> s[m].id > w.id,
        k == 0 || s[k - 1].id <= w.id,
    ensures
        insert_by_id(s, w) == s.insert(k, w),
    decreases s.len(),
{
    if s.len() == 0 {
        assert(s.insert(k, w) =~= seq![w]);
    } else if s.last().id <= w.id {
        assert(s.insert(k, w) =~= s.push(w));
    } else {
        lemma_insert_at(s.drop_last(), w, k);
        assert(s.drop_last().insert(k, w).push(s.last()) =~= s.insert(k, w));
    }
}

proof fn lemma_insert_exists(s: Seq<Workspace>, w: Workspace)
    ensures
        exists|k: int| 0 <= k <= s.len() && insert_by_id(s, w) == s.insert(k, w),
    decreases s.len(),
{
    if s.len() == 0 {
        assert(insert_by_id(s, w) == s.insert(0, w));
    } else if s.last().id <= w.id {
        assert(insert_by_id(s, w) == s.insert(s.len() as int, w));
    } else {
        lemma_insert_exists(s.drop_last(), w);
        let k = choose|k: int|
            0 <= k <= s.drop_last().len() && insert_by_id(s.drop_last(), w) == s.drop_last().insert(k, w);
        assert(s.drop_last().insert(k, w).push(s.last()) =~= s.insert(k, w));
    }
}

proof fn lemma_insert_ascending(s: Seq<Workspace>, w: Workspace)
    requires
        ids_ascending(s),
    ensures
        ids_ascending(insert_by_id(s, w)),
        insert_by_id(s, w).len() == s.len() + 1,
    decreases s.len(),
{
    if s.len() == 0 {
    } else if s.last().id <= w.id {
        let t = s.push(w);
        assert forall|i: int, j: int| 0 <= i < j < t.len() implies t[i].id <= t[j].id by {
            if j == s.len() && i < s.len() - 1 {
                assert(s[i].id <= s[s.len() - 1].id);
            }
        }
    } else {
        let p = s.drop_last();
        assert forall|i: int, j: int| 0 <= i < j < p.len() implies p[i].id <= p[j].id by {
            assert(s[i].id <= s[j].id);
        }
        lemma_insert_ascending(p, w);
        lemma_insert_exists(p, w);
        let k = choose|k: int| 0 <= k <= p.len() && insert_by_id(p, w) == p.insert(k, w);
        p.insert_ensures(k, w);
        let r = insert_by_id(p, w);
        assert forall|i: int| 0 <= i < r.len() implies r[i].id <= s.last().id by {
            if i < k {
                assert(s[i].id <= s[s.len() - 1].id);
            } else if i > k {
                assert(r[(i - 1) + 1] == p[i - 1]);
                assert(s[i - 1].id <= s[s.len() - 1].id);
            }
        }
        let t = r.push(s.last());
        assert forall|i: int, j: int| 0 <= i < j < t.len() implies t[i].id <= t[j].id by {
            if j == r.len() {
                assert(t[i] == r[i]);
            } else {
                assert(t[i] == r[i] && t[j] == r[j]);
            }
        }
    }
}

/// The sort orders every list by ascending id and keeps its length.
pub proof fn lemma_sorted_by_id_ascending(l: Seq<Workspace>)
    ensures
        ids_ascending(sorted_by_id(l)),
        sorted_by_id(l).len() == l.len(),
    decreases l.len(),
{
    if l.len() > 0 {
        lemma_sorted_by_id_ascending(l.drop_last());
        lemma_insert_ascending(sorted_by_id(l.drop_last()), l.last());
    }
}

proof fn lemma_insert_keeps(s: Seq<Workspace>, w: Workspace, k: int)
    requires
        0 <= k <= s.len(),
        at_most_one_active(s),
        ids_unique(s),
        !has_id(s, w.id),
        w.is_active ==> forall|m: int| 0 <= m < s.len() ==> !s[m].is_active,
    ensures
        at_most_one_active(s.insert(k, w)),
        ids_unique(s.insert(k, w)),
        forall|x: Workspace| s.insert(k, w).contains(x) ==> x == w || s.contains(x),
{
    let t = s.insert(k, w);
    s.insert_ensures(k, w);
    assert forall|i: int| 0 <= i < t.len() implies (i < k && t[i] == s[i]) || (i == k && t[i] == w) || (
    i > k && t[i] == s[i - 1]) by {
        if i > k {
            assert(t[(i - 1) + 1] == s[i - 1]);
        }
    }
    assert forall|i: int, j: int|
        0 <= i < t.len() && 0 <= j < t.len() && t[i].is_active && t[j].is_active implies i == j by {
        if i != k && j != k {
            let si = if i < k { i } else { i - 1 };
            let sj = if j < k { j } else { j - 1 };
            assert(s[si].is_active && s[sj].is_active);
        }
    }
    assert forall|i: int, j: int|
        0 <= i < t.len() && 0 <= j < t.len() && t[i].id == t[j].id implies i == j by {
        if i != k && j != k {
            let si = if i < k { i } else { i - 1 };
            let sj = if j < k { j } else { j - 1 };
            assert(s[si].id == s[sj].id);
        } else if i != k {
            let si = if i < k { i } else { i - 1 };
            assert(s[si].id == w.id);
        } else if j != k {
            let sj = if j < k { j } else { j - 1 };
            assert(s[sj].id == w.id);
        }
    }
    assert forall|x: Workspace| t.contains(x) implies x == w || s.contains(x) by {
        let i = choose|i: int| 0 <= i < t.len() && t[i] == x;
        if i < k {
            assert(s[i] == x);
        } else if i > k {
            assert(s[i - 1] == x);
        }
    }
}

/// Sorting a list whose ids are unique and which has at most one active entry
/// keeps both facts, and brings in no entry that was not there.
pub proof fn lemma_sort_keeps_single_active(l: Seq<Workspace>)
    requires
        at_most_one_active(l),
        ids_unique(l),
    ensures
        at_most_one_active(sorted_by_id(l)),
        ids_unique(sorted_by_id(l)),
        forall|x: Workspace| sorted_by_id(l).contains(x) ==> l.contains(x),
    decreases l.len(),
{
    if l.len() > 0 {
        let p = l.drop_last();
        let w = l.last();
        assert forall|i: int, j: int|
            0 <= i < p.len() && 0 <= j < p.len() && p[i].is_active && p[j].is_active implies i == j by {
            assert(l[i].is_active && l[j].is_active);
        }
        assert forall|i: int, j: int|
            0 <= i < p.len() && 0 <= j < p.len() && p[i].id == p[j].id implies i == j by {
            assert(l[i].id == l[j].id);
        }
        lemma_sort_keeps_single_active(p);
        let sp = sorted_by_id(p);
        lemma_insert_exists(sp, w);
        let k = choose|k: int| 0 <= k <= sp.len() && insert_by_id(sp, w) == sp.insert(k, w);
        assert(!has_id(sp, w.id)) by {
            if has_id(sp, w.id) {
                let i = choose|i: int| 0 <= i < sp.len() && sp[i].id == w.id;
                assert(sp.contains(sp[i]));
                assert(p.contains(sp[i]));
                let j = choose|j: int| 0 <= j < p.len() && p[j] == sp[i];
                assert(l[j] == p[j]);
                assert(l[j].id == l[l.len() - 1].id);
            }
        }
        assert(w.is_active ==> forall|m: int| 0 <= m < sp.len() ==> !sp[m].is_active) by {
            if w.is_active {
                assert forall|m: int| 0 <= m < sp.len() implies !sp[m].is_active by {
                    assert(sp.contains(sp[m]));
                    assert(p.contains(sp[m]));
                    let j = choose|j: int| 0 <= j < p.len() && p[j] == sp[m];
                    assert(l[j] == sp[m]);
                }
            }
        }
        lemma_insert_keeps(sp, w, k);
        assert forall|x: Workspace| sorted_by_id(l).contains(x) implies l.contains(x) by {
            if x == w {
                assert(l[l.len() - 1] == x);
            } else {
                assert(sp.contains(x));
                assert(p.contains(x));
                let j = choose|j: int| 0 <= j < p.len() && p[j] == x;
                assert(l[j] == x);
            }
        }
    }
}

/// The workspaces of `workspaces` in ascending order of id; entries with equal
/// ids keep their relative order.
pub fn sort_by_id(workspaces: &Vec<Workspace>) -> (r: Vec<Workspace>)
    ensures
        r@ == sorted_by_id(workspaces@),
{
    let mut result: Vec<Workspace> = Vec::new();
    let n = workspaces.len();
    let mut i: usize = 0;
    while i < n
        invariant
            n == workspaces.len(),
            i <= n,
            result@ == sorted_by_id(workspaces@.take(i as int)),
        decreases n - i,
    {
        let w = workspaces[i];
        let mut k: usize = result.len();
        while k > 0 && result[k - 1].id > w.id
            invariant
                k <= result.len(),
                forall|m: int| k <= m < result.len() ==> result@[m].id > w.id,
            decreases k,
        {
            k = k - 1;
        }
        proof {
            lemma_insert_at(result@, w, k as int);
            let t = workspaces@.take(i + 1);
            assert(t.drop_last() =~= workspaces@.take(i as int));
            assert(t.last() == w);
        }
        result.insert(k, w);
        i = i + 1;
    }
    assert(workspaces@.take(n as int) =~= workspaces@);
    result
}

} // verus!
