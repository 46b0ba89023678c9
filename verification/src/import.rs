//! Deciding which parsed accounts an import adds and under what names.
use vstd::prelude::*;
use crate::entry::{default_algorithm, default_digits, default_period, OtpSecret, VaultEntry};
use crate::listing::texts;
use crate::naming::{derived_name, imported_fallback, imported_name, name_from_meta};

verus! {

/// The running state of an import after some of the parsed accounts.
pub ghost struct ImportFold {
    /// (name, secret) of every entry the vault would hold by now.
    pub seen: Seq<(Seq<char>, Seq<char>)>,
    /// Indices of the parsed accounts that are added, in order.
    pub added: Seq<int>,
    /// The names they are added under.
    pub names: Seq<Seq<char>>,
    /// How many were skipped as duplicates.
    pub skipped: nat,
}

/// Whether `(name, secret)` is already among `seen`.
pub open spec fn is_duplicate(seen: Seq<(Seq<char>, Seq<char>)>, name: Seq<char>, secret: Seq<char>) -> bool {
    exists|k: int| 0 <= k < seen.len() && #[trigger] seen[k] == (name, secret)
}

/// The import of the first `n` parsed `secrets` into a vault whose entries are
/// `existing` (name, secret) pairs. Each account is named from its issuer and
/// account, or `"imported-<k>"` where `k` is one more than the entries the vault
/// holds at that point; an account whose name and secret are both already present
/// is skipped, otherwise added (and seen by the accounts after it).
pub open spec fn import_fold(existing: Seq<(Seq<char>, Seq<char>)>, secrets: Seq<OtpSecret>, n: int) -> ImportFold
    decreases n,
{
    if n <= 0 {
        ImportFold { seen: existing, added: Seq::empty(), names: Seq::empty(), skipped: 0 }
    } else {
        let f = import_fold(existing, secrets, n - 1);
        let s = secrets[n - 1];
        let name = derived_name(s.meta, imported_name(f.seen.len() + 1));
        if is_duplicate(f.seen, name, s.secret@) {
            ImportFold { skipped: f.skipped + 1, ..f }
        } else {
            ImportFold {
                seen: f.seen.push((name, s.secret@)),
                added: f.added.push(n - 1),
                names: f.names.push(name),
                skipped: f.skipped,
            }
        }
    }
}

proof fn lemma_fold_shape(existing: Seq<(Seq<char>, Seq<char>)>, secrets: Seq<OtpSecret>, n: int)
    requires
        0 <= n,
    ensures
        import_fold(existing, secrets, n).seen.len() == existing.len() + import_fold(existing, secrets, n).added.len(),
        import_fold(existing, secrets, n).names.len() == import_fold(existing, secrets, n).added.len(),
        import_fold(existing, secrets, n).added.len() + import_fold(existing, secrets, n).skipped == n,
        forall|j: int| 0 <= j < import_fold(existing, secrets, n).added.len() ==> 0 <= #[trigger] import_fold(existing, secrets, n).added[j] < n,
    decreases n,
{
    if n > 0 {
        lemma_fold_shape(existing, secrets, n - 1);
    }
}

/// The entries an import adds and its counts.
pub struct ImportPlan {
    pub to_add: Vec<VaultEntry>,
    pub imported: usize,
    pub skipped: usize,
}

impl ImportPlan {
    /// Whether the vault must be saved: unless every account was a duplicate.
    pub fn needs_save(&self) -> (r: bool)
        ensures
            r == !(self.imported == 0 && self.skipped > 0),
    {
        !(self.imported == 0 && self.skipped > 0)
    }
}

/// The (name, secret) pairs of `entries`.
pub open spec fn name_secret_pairs(entries: Seq<VaultEntry>) -> Seq<(Seq<char>, Seq<char>)> {
    entries.map_values(|e: VaultEntry| (e.name@, e.secret@))
}

/// The (name, secret) texts of string pairs.
pub open spec fn pair_texts(v: Seq<(String, String)>) -> Seq<(Seq<char>, Seq<char>)> {
    v.map_values(|p: (String, String)| (p.0@, p.1@))
}

fn contains_pair(seen: &Vec<(String, String)>, name: &String, secret: &String) -> (r: bool)
    ensures
        r == is_duplicate(pair_texts(seen@), name@, secret@),
{
    let ghost dv = pair_texts(seen@);
    let mut i: usize = 0;
    while i < seen.len()
        invariant
            i <= seen.len(),
            dv == pair_texts(seen@),
            forall|k: int| 0 <= k < i ==> dv[k] != (name@, secret@),
        decreases seen.len() - i,
    {
        assert(dv[i as int] == (seen@[i as int].0@, seen@[i as int].1@));
        if seen[i].0 == *name && seen[i].1 == *secret {
            return true;
        }
        i = i + 1;
    }
    false
}

/// Plans importing `secrets` into a vault holding `existing`, dated `today`: which
/// entries to add (in order, with names and defaults filled in) and how many
/// duplicates were skipped.
pub fn plan_import(existing: &[VaultEntry], secrets: &[OtpSecret], today: &String) -> (p: ImportPlan)
    requires
        existing@.len() + secrets@.len() < usize::MAX,
    ensures
        ({
            let f = import_fold(name_secret_pairs(existing@), secrets@, secrets@.len() as int);
            &&& p.imported == f.added.len()
            &&& p.skipped == f.skipped
            &&& p.to_add@.len() == f.added.len()
            &&& forall|j: int| 0 <= j < p.to_add@.len() ==> {
                let e = #[trigger] p.to_add@[j];
                let s = secrets@[f.added[j]];
                &&& e.id@ == Seq::<char>::empty()
                &&& e.name@ == f.names[j]
                &&& e.secret@ == s.secret@
                &&& e.created_at@ == today@
                &&& e.period == default_period(s.meta.period)
                &&& e.digits == default_digits(s.meta.digits)
                &&& e.algorithm@ == default_algorithm(s.meta.algorithm)
                &&& s.meta.period matches Some(p) ==> e.period == p
                &&& s.meta.period is None ==> e.period == 30
                &&& s.meta.digits matches Some(d) ==> e.digits == d
                &&& s.meta.digits is None ==> e.digits == 6
                &&& s.meta.algorithm matches Some(a) ==> e.algorithm@ == a@
            }
        }),
{
    let ghost ex = name_secret_pairs(existing@);
    let mut seen: Vec<(String, String)> = Vec::new();
    let mut k: usize = 0;
    while k < existing.len()
        invariant
            k <= existing.len(),
            ex == name_secret_pairs(existing@),
            seen@.len() == k,
            pair_texts(seen@) == ex.take(k as int),
        decreases existing.len() - k,
    {
        let ghost before = seen@;
        seen.push((existing[k].name.clone(), existing[k].secret.clone()));
        k = k + 1;
        assert forall|j: int| 0 <= j < k implies #[trigger] pair_texts(seen@)[j] == ex.take(k as int)[j] by {
            if j < k - 1 {
                assert(seen@[j] == before[j]);
                assert(pair_texts(before)[j] == ex.take(k - 1)[j]);
            }
        }
        assert(pair_texts(seen@) =~= ex.take(k as int));
    }
    assert(ex.take(existing.len() as int) == ex);
    let mut to_add: Vec<VaultEntry> = Vec::new();
    let mut skipped: usize = 0;
    let mut i: usize = 0;
    while i < secrets.len()
        invariant
            i <= secrets.len(),
            existing@.len() + secrets@.len() < usize::MAX,
            ex == name_secret_pairs(existing@),
            ex.len() == existing@.len(),
            pair_texts(seen@) == import_fold(ex, secrets@, i as int).seen,
            skipped == import_fold(ex, secrets@, i as int).skipped,
            to_add@.len() == import_fold(ex, secrets@, i as int).added.len(),
            forall|j: int| 0 <= j < to_add@.len() ==> {
                let f = import_fold(ex, secrets@, i as int);
                let e = #[trigger] to_add@[j];
                let s = secrets@[f.added[j]];
                &&& e.id@ == Seq::<char>::empty()
                &&& e.name@ == f.names[j]
                &&& e.secret@ == s.secret@
                &&& e.created_at@ == today@
                &&& e.period == default_period(s.meta.period)
                &&& e.digits == default_digits(s.meta.digits)
                &&& e.algorithm@ == default_algorithm(s.meta.algorithm)
            },
        decreases secrets.len() - i,
    {
        proof {
            lemma_fold_shape(ex, secrets@, i as int);
        }
        let ghost f = import_fold(ex, secrets@, i as int);
        let s = &secrets[i];
        assert(seen@.len() < usize::MAX);
        let fallback = imported_fallback(seen.len() as u64 + 1);
        let name = name_from_meta(&s.meta, fallback.as_str());
        assert(name@ == derived_name(secrets@[i as int].meta, imported_name(f.seen.len() + 1)));
        if contains_pair(&seen, &name, &s.secret) {
            skipped = skipped + 1;
        } else {
            let e = VaultEntry {
                id: String::new(),
                name: name.clone(),
                secret: s.secret.clone(),
                created_at: today.clone(),
                period: s.meta.period_or_default(),
                digits: s.meta.digits_or_default(),
                algorithm: s.meta.algorithm_or_default(),
            };
            seen.push((name, s.secret.clone()));
            to_add.push(e);
            assert(pair_texts(seen@) =~= f.seen.push((e.name@, e.secret@)));
        }
        i = i + 1;
    }
    proof {
        lemma_fold_shape(ex, secrets@, secrets@.len() as int);
    }
    let imported = to_add.len();
    ImportPlan { to_add, imported, skipped }
}

} // verus!

verus! {

/// The names the accounts of one scan are added under: the override when the scan
/// found exactly one account and an override was given, otherwise each account's
/// `"issuer:account"`, either part alone, or `"unknown"`.
pub open spec fn scan_names_spec(parsed: Seq<OtpSecret>, name_override: Option<Seq<char>>) -> Seq<Seq<char>> {
    if parsed.len() == 1 && name_override is Some {
        seq![name_override->0]
    } else {
        parsed.map_values(|s: OtpSecret| derived_name(s.meta, "unknown"@))
    }
}

/// Names for the accounts found by a scan (see `scan_names_spec`).
pub fn scan_entry_names(parsed: &[OtpSecret], name_override: Option<&str>) -> (r: Vec<String>)
    ensures
        r@.len() == scan_names_spec(parsed@, match name_override { Some(o) => Some(o@), None => None }).len(),
        forall|i: int| 0 <= i < r@.len() ==> #[trigger] r@[i]@ == scan_names_spec(
            parsed@,
            match name_override { Some(o) => Some(o@), None => None },
        )[i],
{
    let mut r: Vec<String> = Vec::new();
    if parsed.len() == 1 {
        if let Some(o) = name_override {
            r.push(String::from_str(o));
            return r;
        }
    }
    let mut i: usize = 0;
    while i < parsed.len()
        invariant
            i <= parsed.len(),
            !(parsed@.len() == 1 && name_override is Some),
            r@.len() == i,
            forall|k: int| 0 <= k < i ==> #[trigger] r@[k]@ == derived_name(parsed@[k].meta, "unknown"@),
        decreases parsed.len() - i,
    {
        r.push(name_from_meta(&parsed[i].meta, "unknown"));
        i = i + 1;
    }
    r
}

/// The position of the last entry called `name`, as `rposition` finds it.
pub fn last_named(entries: &[VaultEntry], name: &String) -> (r: Option<usize>)
    ensures
        match r {
            Some(i) => i < entries@.len() && entries@[i as int].name@ == name@ && forall|k: int|
                i < k < entries@.len() ==> #[trigger] entries@[k].name@ != name@,
            None => forall|k: int| 0 <= k < entries@.len() ==> #[trigger] entries@[k].name@ != name@,
        },
{
    let mut i = entries.len();
    while i > 0
        invariant
            i <= entries@.len(),
            forall|k: int| i <= k < entries@.len() ==> #[trigger] entries@[k].name@ != name@,
        decreases i,
    {
        if entries[i - 1].name == *name {
            return Some(i - 1);
        }
        i = i - 1;
    }
    None
}

/// Whether some string of `s` reads `t`.
pub open spec fn holds_text(s: Seq<String>, t: Seq<char>) -> bool {
    exists|m: int| 0 <= m < s.len() && #[trigger] s[m]@ == t
}

/// Whether no two strings of `s` read alike.
pub open spec fn all_distinct(s: Seq<String>) -> bool {
    forall|a: int, b: int| 0 <= a < b < s.len() ==> #[trigger] s[a]@ != #[trigger] s[b]@
}

/// `base` followed by each text of `found` that is not already there, in the order
/// of its first sighting.
pub open spec fn with_new(base: Seq<Seq<char>>, found: Seq<Seq<char>>) -> Seq<Seq<char>>
    decreases found.len(),
{
    if found.len() == 0 {
        base
    } else {
        let b = with_new(base, found.drop_last());
        if b.contains(found.last()) {
            b
        } else {
            b.push(found.last())
        }
    }
}

/// Appends to `uris` each of `found` that it does not hold yet, keeping the order in
/// which they were first seen.
pub fn add_new_uris(uris: &mut Vec<String>, found: Vec<String>)
    ensures
        texts(final(uris)@) == with_new(texts(old(uris)@), texts(found@)),
        final(uris)@.len() >= old(uris)@.len(),
        forall|k: int| 0 <= k < old(uris)@.len() ==> #[trigger] final(uris)@[k] == old(uris)@[k],
        forall|k: int| 0 <= k < found@.len() ==> holds_text(final(uris)@, #[trigger] found@[k]@),
        forall|m: int| old(uris)@.len() <= m < final(uris)@.len() ==> holds_text(found@, #[trigger] final(uris)@[m]@),
        all_distinct(old(uris)@) ==> all_distinct(final(uris)@),
{
    let ghost start = uris@;
    let mut i: usize = 0;
    while i < found.len()
        invariant
            i <= found@.len(),
            start.len() <= uris@.len(),
            forall|k: int| 0 <= k < start.len() ==> #[trigger] uris@[k] == start[k],
            texts(uris@) == with_new(texts(start), texts(found@.take(i as int))),
            forall|k: int| 0 <= k < i ==> holds_text(uris@, #[trigger] found@[k]@),
            forall|m: int| start.len() <= m < uris@.len() ==> holds_text(found@.take(i as int), #[trigger] uris@[m]@),
            all_distinct(start) ==> all_distinct(uris@),
        decreases found.len() - i,
    {
        let mut seen = false;
        let mut j: usize = 0;
        while j < uris.len()
            invariant
                j <= uris@.len(),
                i < found@.len(),
                seen == exists|m: int| 0 <= m < j && #[trigger] uris@[m]@ == found@[i as int]@,
            decreases uris.len() - j,
        {
            if uris[j] == found[i] {
                seen = true;
            }
            j = j + 1;
        }
        let ghost before = uris@;
        let ghost fi = found@[i as int]@;
        proof {
            let ft = texts(found@.take(i + 1));
            assert(ft.drop_last() =~= texts(found@.take(i as int)));
            assert(ft.last() == fi);
            if seen {
                let m = choose|m: int| 0 <= m < before.len() && #[trigger] before[m]@ == fi;
                assert(texts(before)[m] == fi);
            } else {
                assert forall|m: int| 0 <= m < texts(before).len() implies texts(before)[m] != fi by {
                    assert(texts(before)[m] == before[m]@);
                }
            }
        }
        if !seen {
            uris.push(found[i].clone());
            assert(uris@[before.len() as int]@ == fi);
            assert(texts(uris@) =~= texts(before).push(fi));
            assert forall|k: int| 0 <= k < i + 1 implies holds_text(uris@, #[trigger] found@[k]@) by {
                if k < i {
                    assert(holds_text(before, found@[k]@));
                    let m = choose|m: int| 0 <= m < before.len() && #[trigger] before[m]@ == found@[k]@;
                    assert(uris@[m] == before[m]);
                } else {
                    assert(uris@[before.len() as int]@ == found@[k]@);
                }
            }
            assert forall|m: int| start.len() <= m < uris@.len() implies holds_text(found@.take(i + 1), #[trigger] uris@[m]@) by {
                if m < before.len() {
                    assert(uris@[m] == before[m]);
                    assert(holds_text(found@.take(i as int), before[m]@));
                    let k = choose|k: int| 0 <= k < i && #[trigger] found@.take(i as int)[k]@ == before[m]@;
                    assert(found@.take(i + 1)[k] == found@.take(i as int)[k]);
                } else {
                    assert(found@.take(i + 1)[i as int]@ == uris@[m]@);
                }
            }
            assert(all_distinct(start) ==> all_distinct(uris@)) by {
                if all_distinct(start) {
                    assert forall|a: int, b: int| 0 <= a < b < uris@.len() implies #[trigger] uris@[a]@ != #[trigger] uris@[b]@ by {
                        if b == before.len() {
                            assert(uris@[a] == before[a]);
                        } else {
                            assert(uris@[a] == before[a]);
                            assert(uris@[b] == before[b]);
                        }
                    }
                }
            }
        } else {
            assert forall|k: int| 0 <= k < i + 1 implies holds_text(uris@, #[trigger] found@[k]@) by {
                if k == i {
                    let m = choose|m: int| 0 <= m < before.len() && #[trigger] before[m]@ == fi;
                    assert(uris@[m]@ == found@[k]@);
                }
            }
            assert forall|m: int| start.len() <= m < uris@.len() implies holds_text(found@.take(i + 1), #[trigger] uris@[m]@) by {
                assert(holds_text(found@.take(i as int), uris@[m]@));
                let k = choose|k: int| 0 <= k < i && #[trigger] found@.take(i as int)[k]@ == uris@[m]@;
                assert(found@.take(i + 1)[k] == found@.take(i as int)[k]);
            }
        }
        i = i + 1;
    }
    assert(found@.take(i as int) =~= found@);
}

} // verus!
