//! The file picker: which directory entries a search query shows.
use vstd::prelude::*;
use crate::text::{chars_of, contains_chars, has_substring, lowercase, to_lowercase};

verus! {

/// Whether an entry called `name` stays visible under the lowercased query `q`.
pub open spec fn shown_by(name: Seq<char>, q: Seq<char>) -> bool {
    q.len() == 0 || has_substring(lowercase(name), q)
}

/// The entries a query leaves visible, in their order.
pub open spec fn visible(entries: Seq<(Seq<char>, bool)>, query: Seq<char>) -> Seq<(Seq<char>, bool)> {
    entries.filter(|e: (Seq<char>, bool)| shown_by(e.0, lowercase(query)))
}

/// The picker entries (name, is-directory) whose lowercased name contains the
/// lowercased query; all of them when the query is empty.
pub fn filtered<'a>(entries: &'a [(String, bool)], query: &str) -> (r: Vec<&'a (String, bool)>)
    ensures
        r@.len() == visible(entries.deep_view(), query@).len(),
        forall|i: int|
            0 <= i < r@.len() ==> (#[trigger] r@[i].0@, r@[i].1) == visible(entries.deep_view(), query@)[i],
        query@.len() == 0 ==> r@.len() == entries@.len() && forall|i: int|
            0 <= i < r@.len() ==> #[trigger] r@[i] == &entries@[i],
{
    let q = to_lowercase(query);
    let qc = chars_of(q.as_str());
    let ghost pred = |e: (Seq<char>, bool)| shown_by(e.0, lowercase(query@));
    let ghost dv = entries.deep_view();
    let ghost mut acc: Seq<(Seq<char>, bool)> = Seq::empty();
    let mut r: Vec<&'a (String, bool)> = Vec::new();
    let mut i: usize = 0;
    while i < entries.len()
        invariant
            i <= entries.len(),
            qc@ == lowercase(query@),
            pred == (|e: (Seq<char>, bool)| shown_by(e.0, lowercase(query@))),
            dv == entries.deep_view(),
            dv.len() == entries@.len(),
            acc == dv.take(i as int).filter(pred),
            r@.len() == acc.len(),
            forall|k: int| 0 <= k < r@.len() ==> (#[trigger] r@[k].0@, r@[k].1) == acc[k],
            qc@.len() == 0 ==> r@.len() == i && forall|k: int| 0 <= k < r@.len() ==> #[trigger] r@[k] == &entries@[k],
        decreases entries.len() - i,
    {
        let e = &entries[i];
        let keep = if qc.len() == 0 {
            true
        } else {
            let name = to_lowercase(e.0.as_str());
            let nc = chars_of(name.as_str());
            contains_chars(nc.as_slice(), qc.as_slice())
        };
        proof {
            reveal(Seq::filter);
            assert(dv.take(i + 1).drop_last() == dv.take(i as int));
            assert(dv[i as int] == (entries@[i as int].0@, entries@[i as int].1));
            assert(keep == pred(dv[i as int]));
        }
        if keep {
            r.push(e);
            proof {
                acc = acc.push(dv[i as int]);
            }
        }
        i = i + 1;
    }
    assert(dv.take(entries.len() as int) == dv);
    r
}

} // verus!
