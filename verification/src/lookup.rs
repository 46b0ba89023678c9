//! Finding the account a command-line query names.
use vstd::prelude::*;
use crate::entry::VaultEntry;
use crate::text::{
    begins_with, chars_of, contains_chars, has_substring, lowercase, push_all, starts_with_chars,
    string_of, to_lowercase,
};

verus! {

/// Indices `i < n` of `es` whose entry satisfies `p`, in increasing order.
pub open spec fn hits(es: Seq<VaultEntry>, n: int, p: spec_fn(VaultEntry) -> bool) -> Seq<usize>
    decreases n,
{
    if n <= 0 {
        Seq::empty()
    } else if p(es[n - 1]) {
        hits(es, n - 1, p).push((n - 1) as usize)
    } else {
        hits(es, n - 1, p)
    }
}

/// The entry's id is the query itself.
pub open spec fn id_is(q: Seq<char>) -> spec_fn(VaultEntry) -> bool {
    |e: VaultEntry| e.id@ == q
}

/// The entry has an id and it begins with the query.
pub open spec fn id_starts(q: Seq<char>) -> spec_fn(VaultEntry) -> bool {
    |e: VaultEntry| e.id@.len() > 0 && begins_with(e.id@, q)
}

/// The lowercased name contains the lowercased query.
pub open spec fn name_has(q: Seq<char>) -> spec_fn(VaultEntry) -> bool {
    |e: VaultEntry| has_substring(lowercase(e.name@), lowercase(q))
}

/// Why a query names no single account.
pub enum FindError {
    /// Several ids begin with the query; their indices.
    AmbiguousId(Vec<usize>),
    /// No id matched and several names contain the query; their indices.
    AmbiguousName(Vec<usize>),
    /// Nothing matched.
    NoMatch,
}

/// What `find_entry` answers, over indices: an exact id wins; then a single id with
/// the query as prefix; several such ids are ambiguous; then the names containing
/// the query case-insensitively: none, one, or several.
pub open spec fn lookup(es: Seq<VaultEntry>, q: Seq<char>) -> Result<usize, (int, Seq<usize>)> {
    let exact = hits(es, es.len() as int, id_is(q));
    let pre = hits(es, es.len() as int, id_starts(q));
    let named = hits(es, es.len() as int, name_has(q));
    if exact.len() > 0 {
        Ok(exact[0])
    } else if pre.len() == 1 {
        Ok(pre[0])
    } else if pre.len() > 1 {
        Err((0, pre))
    } else if named.len() == 1 {
        Ok(named[0])
    } else if named.len() > 1 {
        Err((1, named))
    } else {
        Err((2, Seq::empty()))
    }
}

/// The error's kind (0: ambiguous id, 1: ambiguous name, 2: no match) and indices.
pub open spec fn error_view(e: FindError) -> (int, Seq<usize>) {
    match e {
        FindError::AmbiguousId(v) => (0, v@),
        FindError::AmbiguousName(v) => (1, v@),
        FindError::NoMatch => (2, Seq::empty()),
    }
}

proof fn lemma_hits_bound(es: Seq<VaultEntry>, n: int, p: spec_fn(VaultEntry) -> bool)
    requires
        0 <= n <= usize::MAX,
    ensures
        forall|k: int| 0 <= k < hits(es, n, p).len() ==> #[trigger] hits(es, n, p)[k] < n,
    decreases n,
{
    if n > 0 {
        lemma_hits_bound(es, n - 1, p);
        let prev = hits(es, n - 1, p);
        assert forall|k: int| 0 <= k < hits(es, n, p).len() implies #[trigger] hits(es, n, p)[k]
            < n by {
            if p(es[n - 1]) {
                if k < prev.len() {
                    assert(hits(es, n, p)[k] == prev[k]);
                }
            } else {
                assert(hits(es, n, p)[k] == prev[k]);
            }
        }
    }
}

/// When entry `k` is the first of the first `n` to satisfy `p`, the hits begin with it.
pub proof fn lemma_hits_first(es: Seq<VaultEntry>, n: int, p: spec_fn(VaultEntry) -> bool, k: int)
    requires
        0 <= k < n <= usize::MAX,
        p(es[k]),
        forall|j: int| 0 <= j < k ==> !p(#[trigger] es[j]),
    ensures
        hits(es, n, p).len() > 0,
        hits(es, n, p)[0] == k,
    decreases n,
{
    if n - 1 > k {
        lemma_hits_first(es, n - 1, p, k);
    } else {
        if hits(es, n - 1, p).len() > 0 {
            lemma_hits_member(es, n - 1, p, 0);
            let i = hits(es, n - 1, p)[0];
            assert(!p(es[i as int]));
        }
        assert(hits(es, n - 1, p).len() == 0);
    }
}

proof fn lemma_hits_member(es: Seq<VaultEntry>, n: int, p: spec_fn(VaultEntry) -> bool, j: int)
    requires
        0 <= n <= usize::MAX,
        0 <= j < hits(es, n, p).len(),
    ensures
        hits(es, n, p)[j] < n,
        p(es[hits(es, n, p)[j] as int]),
    decreases n,
{
    if n > 0 {
        let prev = hits(es, n - 1, p);
        if j < prev.len() {
            lemma_hits_member(es, n - 1, p, j);
            if p(es[n - 1]) {
                assert(hits(es, n, p)[j] == prev[j]);
            }
        }
    }
}

/// Finds the entry that `query` names: exact id, else unique id prefix, else unique
/// case-insensitive name substring.
pub fn find_entry(entries: &[VaultEntry], query: &str) -> (r: Result<usize, FindError>)
    ensures
        forall|k: int|
            0 <= k < entries@.len() && #[trigger] entries@[k].id@ == query@ && (forall|j: int|
                0 <= j < k ==> entries@[j].id@ != query@) ==> r == Ok::<usize, FindError>(k as usize),
        match r {
            Ok(i) => lookup(entries@, query@) == Ok::<usize, (int, Seq<usize>)>(i),
            Err(e) => lookup(entries@, query@) == Err::<usize, (int, Seq<usize>)>(error_view(e)),
        },
        r matches Ok(i) ==> i < entries.len(),
        r matches Err(e) ==> forall|k: int|
            0 <= k < error_view(e).1.len() ==> #[trigger] error_view(e).1[k] < entries@.len(),
{
    let count = entries.len();
    proof {
        assert(entries@.len() == count);
        assert forall|k: int|
            0 <= k < entries@.len() && #[trigger] entries@[k].id@ == query@ && (forall|j: int|
                0 <= j < k ==> entries@[j].id@ != query@) implies lookup(entries@, query@) == Ok::<
            usize,
            (int, Seq<usize>),
        >(k as usize) by {
            let p = id_is(query@);
            assert forall|j: int| 0 <= j < k implies !p(#[trigger] entries@[j]) by {}
            lemma_hits_first(entries@, entries@.len() as int, p, k);
        }
    }
    let q = chars_of(query);
    let lq = to_lowercase(query);
    let lqc = chars_of(lq.as_str());
    let n = entries.len();
    let mut exact: Vec<usize> = Vec::new();
    let mut pre: Vec<usize> = Vec::new();
    let mut named: Vec<usize> = Vec::new();
    let mut i: usize = 0;
    while i < n
        invariant
            i <= n == entries@.len(),
            q@ == query@,
            lqc@ == lowercase(query@),
            exact@ == hits(entries@, i as int, id_is(query@)),
            pre@ == hits(entries@, i as int, id_starts(query@)),
            named@ == hits(entries@, i as int, name_has(query@)),
        decreases n - i,
    {
        let e = &entries[i];
        let idc = chars_of(e.id.as_str());
        if idc.len() == q.len() && starts_with_chars(idc.as_slice(), q.as_slice()) {
            assert(idc@ == idc@.take(q@.len() as int));
            exact.push(i);
        } else {
            assert(idc@.len() == q@.len() ==> idc@.take(q@.len() as int) == idc@);
        }
        if idc.len() > 0 && starts_with_chars(idc.as_slice(), q.as_slice()) {
            pre.push(i);
        }
        let ln = to_lowercase(e.name.as_str());
        let lnc = chars_of(ln.as_str());
        if contains_chars(lnc.as_slice(), lqc.as_slice()) {
            named.push(i);
        }
        i = i + 1;
    }
    proof {
        lemma_hits_bound(entries@, n as int, id_is(query@));
        lemma_hits_bound(entries@, n as int, id_starts(query@));
        lemma_hits_bound(entries@, n as int, name_has(query@));
    }
    if exact.len() > 0 {
        Ok(exact[0])
    } else if pre.len() == 1 {
        Ok(pre[0])
    } else if pre.len() > 1 {
        Err(FindError::AmbiguousId(pre))
    } else if named.len() == 1 {
        Ok(named[0])
    } else if named.len() > 1 {
        Err(FindError::AmbiguousName(named))
    } else {
        Err(FindError::NoMatch)
    }
}

} // verus!

verus! {

/// Items joined with `'\n'` between them, as `join("\n")` does.
pub open spec fn joined(items: Seq<Seq<char>>) -> Seq<char>
    decreases items.len(),
{
    if items.len() == 0 {
        Seq::empty()
    } else if items.len() == 1 {
        items[0]
    } else {
        joined(items.drop_last()) + seq!['\n'] + items.last()
    }
}

/// How a candidate is listed: by id, or by name with its id.
pub open spec fn candidate_row(e: VaultEntry, by_name: bool) -> Seq<char> {
    if by_name {
        "  "@ + e.name@ + " (id: "@ + e.id@ + ")"@
    } else {
        "  "@ + e.id@
    }
}

/// The rows listing the candidates at `idx`.
pub open spec fn candidate_rows(es: Seq<VaultEntry>, idx: Seq<usize>, by_name: bool) -> Seq<
    Seq<char>,
> {
    idx.map_values(|i: usize| candidate_row(es[i as int], by_name))
}

/// The message shown for a failed lookup of `q`.
pub open spec fn lookup_message(es: Seq<VaultEntry>, q: Seq<char>, kind: int, idx: Seq<usize>) -> Seq<
    char,
> {
    if kind == 0 {
        "\""@ + q + "\" matches multiple accounts:\n"@ + joined(candidate_rows(es, idx, false))
            + "\nUse a more specific id."@
    } else if kind == 1 {
        "\""@ + q + "\" matches multiple accounts:\n"@ + joined(candidate_rows(es, idx, true))
            + "\nUse the full id to disambiguate."@
    } else {
        "no account matching \""@ + q + "\"."@
    }
}

/// Appends the rows for `idx` joined by newlines.
fn push_rows(out: &mut Vec<char>, entries: &[VaultEntry], idx: &Vec<usize>, by_name: bool)
    requires
        forall|k: int| 0 <= k < idx@.len() ==> #[trigger] idx@[k] < entries@.len(),
    ensures
        final(out)@ == old(out)@ + joined(candidate_rows(entries@, idx@, by_name)),
{
    let ghost rows = candidate_rows(entries@, idx@, by_name);
    let mut k: usize = 0;
    while k < idx.len()
        invariant
            k <= idx@.len(),
            rows == candidate_rows(entries@, idx@, by_name),
            forall|m: int| 0 <= m < idx@.len() ==> #[trigger] idx@[m] < entries@.len(),
            out@ == old(out)@ + joined(rows.take(k as int)),
        decreases idx.len() - k,
    {
        let ghost before = out@;
        if k > 0 {
            out.push('\n');
        }
        let e = &entries[idx[k]];
        push_all(out, chars_of("  ").as_slice());
        if by_name {
            push_all(out, chars_of(e.name.as_str()).as_slice());
            push_all(out, chars_of(" (id: ").as_slice());
            push_all(out, chars_of(e.id.as_str()).as_slice());
            push_all(out, chars_of(")").as_slice());
        } else {
            push_all(out, chars_of(e.id.as_str()).as_slice());
        }
        proof {
            let t = rows.take(k + 1);
            assert(t.drop_last() == rows.take(k as int));
            assert(t.last() == candidate_row(entries@[idx@[k as int] as int], by_name));
            if k == 0 {
                assert(rows.take(0) == Seq::<Seq<char>>::empty());
            }
        }
        k = k + 1;
    }
    assert(rows.take(idx@.len() as int) == rows);
}

impl FindError {
    /// The message the command line prints for this failed lookup of `query`.
    pub fn message(&self, entries: &[VaultEntry], query: &str) -> (r: String)
        requires
            forall|k: int| 0 <= k < error_view(*self).1.len() ==> #[trigger] error_view(*self).1[k]
                < entries@.len(),
        ensures
            r@ == lookup_message(entries@, query@, error_view(*self).0, error_view(*self).1),
    {
        let mut out: Vec<char> = Vec::new();
        match self {
            FindError::AmbiguousId(idx) => {
                push_all(&mut out, chars_of("\"").as_slice());
                push_all(&mut out, chars_of(query).as_slice());
                push_all(&mut out, chars_of("\" matches multiple accounts:\n").as_slice());
                assert(error_view(*self).1 == idx@);
                assert(forall|k: int| 0 <= k < idx@.len() ==> #[trigger] idx@[k] < entries@.len());
                push_rows(&mut out, entries, idx, false);
                push_all(&mut out, chars_of("\nUse a more specific id.").as_slice());
            },
            FindError::AmbiguousName(idx) => {
                push_all(&mut out, chars_of("\"").as_slice());
                push_all(&mut out, chars_of(query).as_slice());
                push_all(&mut out, chars_of("\" matches multiple accounts:\n").as_slice());
                assert(error_view(*self).1 == idx@);
                assert(forall|k: int| 0 <= k < idx@.len() ==> #[trigger] idx@[k] < entries@.len());
                push_rows(&mut out, entries, idx, true);
                push_all(&mut out, chars_of("\nUse the full id to disambiguate.").as_slice());
            },
            FindError::NoMatch => {
                push_all(&mut out, chars_of("no account matching \"").as_slice());
                push_all(&mut out, chars_of(query).as_slice());
                push_all(&mut out, chars_of("\".").as_slice());
            },
        }
        string_of(out.as_slice())
    }
}

} // verus!
