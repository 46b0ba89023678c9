//! What the file picker lists for a directory: the parent entry, the visible
//! subdirectories in name order, then the importable files in name order.
use vstd::prelude::*;
use crate::text::{chars_of, lowercase, slice_chars, to_lowercase};

verus! {

/// Whether `a` sorts no later than `b` as `str` values compare: character by
/// character by code point (the order of their UTF-8 bytes), a prefix first.
pub open spec fn name_le(a: Seq<char>, b: Seq<char>) -> bool
    decreases a.len(),
{
    if a.len() == 0 {
        true
    } else if b.len() == 0 {
        false
    } else if a[0] != b[0] {
        a[0] < b[0]
    } else {
        name_le(a.drop_first(), b.drop_first())
    }
}

/// Any two names are ordered one way or the other.
pub proof fn lemma_name_le_total(a: Seq<char>, b: Seq<char>)
    ensures
        name_le(a, b) || name_le(b, a),
    decreases a.len(),
{
    if a.len() > 0 && b.len() > 0 && a[0] == b[0] {
        lemma_name_le_total(a.drop_first(), b.drop_first());
    }
}

/// The order is transitive.
pub proof fn lemma_name_le_trans(a: Seq<char>, b: Seq<char>, c: Seq<char>)
    requires
        name_le(a, b),
        name_le(b, c),
    ensures
        name_le(a, c),
    decreases a.len(),
{
    if a.len() > 0 && b.len() > 0 && c.len() > 0 && a[0] == b[0] && b[0] == c[0] {
        lemma_name_le_trans(a.drop_first(), b.drop_first(), c.drop_first());
    }
}

/// Whether `a` sorts no later than `b`.
pub fn name_le_chars(a: &[char], b: &[char]) -> (r: bool)
    ensures
        r == name_le(a@, b@),
{
    let mut i: usize = 0;
    assert(a@.skip(0) =~= a@ && b@.skip(0) =~= b@);
    while i < a.len() && i < b.len()
        invariant
            i <= a@.len(),
            i <= b@.len(),
            name_le(a@, b@) == name_le(a@.skip(i as int), b@.skip(i as int)),
        decreases a.len() - i,
    {
        if a[i] != b[i] {
            return a[i] < b[i];
        }
        assert(a@.skip(i as int).drop_first() =~= a@.skip(i + 1));
        assert(b@.skip(i as int).drop_first() =~= b@.skip(i + 1));
        i = i + 1;
    }
    i == a.len()
}

/// Where `x` goes in `s`, looking from `i` on: before the first name that sorts
/// after it, or at the end.
pub open spec fn insert_pos(s: Seq<Seq<char>>, x: Seq<char>, i: int) -> int
    decreases s.len() - i,
{
    if i < 0 || i >= s.len() {
        s.len() as int
    } else if !name_le(s[i], x) {
        i
    } else {
        insert_pos(s, x, i + 1)
    }
}

/// The names of `s` in order, each inserted in turn after the names that sort no
/// later than it (so equal names keep their order).
pub open spec fn sorted_names(s: Seq<Seq<char>>) -> Seq<Seq<char>>
    decreases s.len(),
{
    if s.len() == 0 {
        s
    } else {
        let t = sorted_names(s.drop_last());
        t.insert(insert_pos(t, s.last(), 0), s.last())
    }
}

/// Whether every name of `s` sorts no later than the ones after it.
pub open spec fn in_name_order(s: Seq<Seq<char>>) -> bool {
    forall|i: int, j: int| 0 <= i < j < s.len() ==> name_le(#[trigger] s[i], #[trigger] s[j])
}

/// The texts of a vector of strings.
pub open spec fn texts(v: Seq<String>) -> Seq<Seq<char>> {
    v.map_values(|s: String| s@)
}

proof fn lemma_insert_pos_range(s: Seq<Seq<char>>, x: Seq<char>, i: int)
    requires
        0 <= i <= s.len(),
    ensures
        i <= insert_pos(s, x, i) <= s.len(),
        forall|k: int| i <= k < insert_pos(s, x, i) ==> name_le(#[trigger] s[k], x),
        insert_pos(s, x, i) < s.len() ==> !name_le(s[insert_pos(s, x, i)], x),
    decreases s.len() - i,
{
    if i < s.len() && name_le(s[i], x) {
        lemma_insert_pos_range(s, x, i + 1);
    }
}

/// Inserting a name where [`insert_pos`] puts it keeps a sorted sequence sorted.
proof fn lemma_insert_keeps_order(t: Seq<Seq<char>>, x: Seq<char>)
    requires
        in_name_order(t),
    ensures
        in_name_order(t.insert(insert_pos(t, x, 0), x)),
{
    lemma_insert_pos_range(t, x, 0);
    let p = insert_pos(t, x, 0);
    let u = t.insert(p, x);
    if p < t.len() {
        lemma_name_le_total(t[p], x);
    }
    assert forall|i: int, j: int| 0 <= i < j < u.len() implies name_le(#[trigger] u[i], #[trigger] u[j]) by {
        if j < p {
            assert(u[i] == t[i] && u[j] == t[j]);
        } else if j == p {
            assert(u[i] == t[i]);
        } else if i < p {
            assert(u[i] == t[i] && u[j] == t[j - 1]);
            assert(name_le(t[i], x));
            assert(name_le(x, t[p]));
            if j - 1 > p {
                lemma_name_le_trans(x, t[p], t[j - 1]);
            }
            lemma_name_le_trans(t[i], x, t[j - 1]);
        } else if i == p {
            assert(u[j] == t[j - 1]);
            if j - 1 > p {
                lemma_name_le_trans(x, t[p], t[j - 1]);
            }
        } else {
            assert(u[i] == t[i - 1] && u[j] == t[j - 1]);
        }
    }
}

/// [`sorted_names`] puts the names in order and holds each of them as often as
/// the input does.
pub proof fn law_sorted_names(s: Seq<Seq<char>>)
    ensures
        in_name_order(sorted_names(s)),
        sorted_names(s).to_multiset() == s.to_multiset(),
    decreases s.len(),
{
    broadcast use vstd::seq_lib::group_to_multiset_ensures;
    if s.len() > 0 {
        let t = sorted_names(s.drop_last());
        law_sorted_names(s.drop_last());
        lemma_insert_pos_range(t, s.last(), 0);
        lemma_insert_keeps_order(t, s.last());
        vstd::seq_lib::to_multiset_insert(t, insert_pos(t, s.last(), 0), s.last());
        assert(s =~= s.drop_last().push(s.last()));
        vstd::seq_lib::to_multiset_build(s.drop_last(), s.last());
    }
}

/// Inserts `x` into `v` where [`insert_pos`] puts it.
fn insert_name(v: &mut Vec<String>, x: String)
    ensures
        texts(final(v)@) == texts(old(v)@).insert(insert_pos(texts(old(v)@), x@, 0), x@),
{
    let ghost t = texts(v@);
    let xc = chars_of(x.as_str());
    let mut p: usize = 0;
    while p < v.len()
        invariant
            p <= v@.len(),
            t == texts(v@),
            xc@ == x@,
            insert_pos(t, x@, 0) == insert_pos(t, x@, p as int),
        ensures
            p <= v@.len(),
            t == texts(v@),
            insert_pos(t, x@, 0) == p,
        decreases v.len() - p,
    {
        if !name_le_chars(chars_of(v[p].as_str()).as_slice(), xc.as_slice()) {
            break;
        }
        p = p + 1;
    }
    v.insert(p, x);
    assert(texts(v@) =~= t.insert(p as int, x@));
}

/// The strings of `names` sorted as [`sorted_names`] says.
pub fn sort_names(names: Vec<String>) -> (r: Vec<String>)
    ensures
        texts(r@) == sorted_names(texts(names@)),
{
    let mut r: Vec<String> = Vec::new();
    let mut i: usize = 0;
    while i < names.len()
        invariant
            i <= names@.len(),
            texts(r@) == sorted_names(texts(names@.take(i as int))),
        decreases names.len() - i,
    {
        proof {
            let s = texts(names@.take(i + 1));
            assert(s.drop_last() =~= texts(names@.take(i as int)));
            assert(s.last() == names@[i as int]@);
        }
        insert_name(&mut r, names[i].clone());
        i = i + 1;
    }
    assert(names@.take(names@.len() as int) =~= names@);
    r
}

/// The extension of a file name: what follows its last `.`, empty without one.
pub open spec fn extension_from(name: Seq<char>, i: int) -> Seq<char>
    decreases i,
{
    if i <= 0 || i > name.len() {
        Seq::empty()
    } else if name[i - 1] == '.' {
        name.subrange(i, name.len() as int)
    } else {
        extension_from(name, i - 1)
    }
}

/// The extension of a file name: what follows its last `.`, empty without one.
pub open spec fn extension(name: Seq<char>) -> Seq<char> {
    extension_from(name, name.len() as int)
}

/// The extension of `name`.
pub fn extension_of(name: &[char]) -> (r: Vec<char>)
    ensures
        r@ == extension(name@),
{
    let mut j: usize = name.len();
    while j > 0 && name[j - 1] != '.'
        invariant
            j <= name@.len(),
            extension(name@) == extension_from(name@, j as int),
        decreases j,
    {
        j = j - 1;
    }
    if j == 0 {
        Vec::new()
    } else {
        slice_chars(name, j, name.len())
    }
}

/// The extensions (lowercased) of the files the picker offers: images that may hold
/// QR codes, archives of them, and the export formats of other apps.
pub open spec fn supported_ext(e: Seq<char>) -> bool {
    ||| e == "png"@
    ||| e == "jpg"@
    ||| e == "jpeg"@
    ||| e == "gif"@
    ||| e == "bmp"@
    ||| e == "webp"@
    ||| e == "tiff"@
    ||| e == "zip"@
    ||| e == "json"@
    ||| e == "2fas"@
    ||| e == "csv"@
    ||| e == "txt"@
}

fn same_chars(a: &[char], b: &[char]) -> (r: bool)
    ensures
        r == (a@ == b@),
{
    if a.len() != b.len() {
        return false;
    }
    let mut i: usize = 0;
    while i < a.len()
        invariant
            a@.len() == b@.len(),
            i <= a@.len(),
            forall|k: int| 0 <= k < i ==> a@[k] == b@[k],
        decreases a.len() - i,
    {
        if a[i] != b[i] {
            return false;
        }
        i = i + 1;
    }
    assert(a@ =~= b@);
    true
}

/// Whether the lowercased extension `e` is one the picker offers.
pub fn is_supported_ext(e: &str) -> (r: bool)
    ensures
        r == supported_ext(e@),
{
    let ec = chars_of(e);
    let exts = [
        "png", "jpg", "jpeg", "gif", "bmp", "webp", "tiff", "zip", "json", "2fas", "csv", "txt",
    ];
    let mut i: usize = 0;
    while i < 12
        invariant
            i <= 12,
            ec@ == e@,
            exts@ == seq![
                "png", "jpg", "jpeg", "gif", "bmp", "webp", "tiff", "zip", "json", "2fas", "csv",
                "txt",
            ],
            forall|k: int| 0 <= k < i ==> e@ != #[trigger] exts@[k]@,
        decreases 12 - i,
    {
        if same_chars(ec.as_slice(), chars_of(exts[i]).as_slice()) {
            return true;
        }
        i = i + 1;
    }
    assert(!supported_ext(e@)) by {
        assert(e@ != exts@[0]@ && e@ != exts@[1]@ && e@ != exts@[2]@ && e@ != exts@[3]@);
        assert(e@ != exts@[4]@ && e@ != exts@[5]@ && e@ != exts@[6]@ && e@ != exts@[7]@);
        assert(e@ != exts@[8]@ && e@ != exts@[9]@ && e@ != exts@[10]@ && e@ != exts@[11]@);
    }
    false
}

/// Whether a directory entry is hidden: its name begins with `.`.
pub open spec fn hidden(name: Seq<char>) -> bool {
    name.len() > 0 && name[0] == '.'
}

/// Whether the picker shows a directory entry `(name, is_dir, is_file)` as a directory.
pub open spec fn shown_dir(e: (Seq<char>, bool, bool)) -> bool {
    !hidden(e.0) && e.1
}

/// Whether the picker shows a directory entry `(name, is_dir, is_file)` as a file:
/// a visible plain file with a supported extension, in any case.
pub open spec fn shown_file(e: (Seq<char>, bool, bool)) -> bool {
    !hidden(e.0) && !e.1 && e.2 && supported_ext(lowercase(extension(e.0)))
}

/// The names of the entries of `found` that pass `keep`, in their order.
pub open spec fn kept_names(
    found: Seq<(Seq<char>, bool, bool)>,
    dirs: bool,
) -> Seq<Seq<char>>
    decreases found.len(),
{
    if found.len() == 0 {
        Seq::empty()
    } else {
        let rest = kept_names(found.drop_last(), dirs);
        let e = found.last();
        if (dirs && shown_dir(e)) || (!dirs && shown_file(e)) {
            rest.push(e.0)
        } else {
            rest
        }
    }
}

/// The picker's entries for a directory whose listing is `found` (name,
/// is-directory, is-plain-file): `".."` first when the directory has a parent, then
/// the shown directories in name order, then the shown files in name order.
pub open spec fn listing(has_parent: bool, found: Seq<(Seq<char>, bool, bool)>) -> Seq<(Seq<char>, bool)> {
    let parent: Seq<(Seq<char>, bool)> = if has_parent {
        seq![(".."@, true)]
    } else {
        Seq::empty()
    };
    parent + sorted_names(kept_names(found, true)).map_values(|n: Seq<char>| (n, true))
        + sorted_names(kept_names(found, false)).map_values(|n: Seq<char>| (n, false))
}

fn kept(found: &[(String, bool, bool)], dirs: bool) -> (r: Vec<String>)
    ensures
        texts(r@) == kept_names(found.deep_view(), dirs),
{
    let ghost dv = found.deep_view();
    let mut r: Vec<String> = Vec::new();
    let mut i: usize = 0;
    while i < found.len()
        invariant
            i <= found@.len(),
            dv == found.deep_view(),
            dv.len() == found@.len(),
            texts(r@) == kept_names(dv.take(i as int), dirs),
        decreases found.len() - i,
    {
        let e = &found[i];
        let name = chars_of(e.0.as_str());
        let is_hidden = name.len() > 0 && name[0] == '.';
        let keep = if is_hidden {
            false
        } else if dirs {
            e.1
        } else if e.1 || !e.2 {
            false
        } else {
            let ext = extension_of(name.as_slice());
            let lower = to_lowercase(crate::text::string_of(ext.as_slice()).as_str());
            is_supported_ext(lower.as_str())
        };
        proof {
            assert(dv.take(i + 1).drop_last() =~= dv.take(i as int));
            assert(dv.take(i + 1).last() == dv[i as int]);
            assert(dv[i as int] == (found@[i as int].0@, found@[i as int].1, found@[i as int].2));
        }
        if keep {
            let ghost before = r@;
            r.push(e.0.clone());
            assert(texts(r@) =~= texts(before).push(e.0@));
        }
        i = i + 1;
    }
    assert(dv.take(found.len() as int) =~= dv);
    r
}

/// What the picker lists for a directory with listing `found`; see [`listing`].
pub fn picker_listing(has_parent: bool, found: &[(String, bool, bool)]) -> (r: Vec<(String, bool)>)
    ensures
        r.deep_view() == listing(has_parent, found.deep_view()),
{
    let dirs = sort_names(kept(found, true));
    let files = sort_names(kept(found, false));
    let mut r: Vec<(String, bool)> = Vec::new();
    if has_parent {
        r.push((String::from_str(".."), true));
    }
    let ghost start = r.deep_view();
    let mut i: usize = 0;
    while i < dirs.len()
        invariant
            i <= dirs@.len(),
            start == (if has_parent { seq![(".."@, true)] } else { Seq::<(Seq<char>, bool)>::empty() }),
            r.deep_view() == start + texts(dirs@).take(i as int).map_values(|n: Seq<char>| (n, true)),
        decreases dirs.len() - i,
    {
        let ghost before = r.deep_view();
        r.push((dirs[i].clone(), true));
        assert(r.deep_view() =~= before.push((dirs@[i as int]@, true)));
        assert(texts(dirs@).take(i + 1).map_values(|n: Seq<char>| (n, true)) =~= texts(dirs@).take(
            i as int,
        ).map_values(|n: Seq<char>| (n, true)).push((dirs@[i as int]@, true)));
        i = i + 1;
    }
    assert(texts(dirs@).take(dirs@.len() as int) =~= texts(dirs@));
    let ghost mid = r.deep_view();
    let mut j: usize = 0;
    while j < files.len()
        invariant
            j <= files@.len(),
            r.deep_view() == mid + texts(files@).take(j as int).map_values(|n: Seq<char>| (n, false)),
        decreases files.len() - j,
    {
        let ghost before = r.deep_view();
        r.push((files[j].clone(), false));
        assert(r.deep_view() =~= before.push((files@[j as int]@, false)));
        assert(texts(files@).take(j + 1).map_values(|n: Seq<char>| (n, false)) =~= texts(
            files@,
        ).take(j as int).map_values(|n: Seq<char>| (n, false)).push((files@[j as int]@, false)));
        j = j + 1;
    }
    assert(texts(files@).take(files@.len() as int) =~= texts(files@));
    r
}

} // verus!
