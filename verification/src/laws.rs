//! Properties of the library that span several calls or hold of every input.
use vstd::prelude::*;
use crate::docs::{
    begin_marker, end_marker, heading_from, help_block, joined_lines, replaced_block, scaffold_text,
};
use crate::text::{
    begins_with, find_from, has_substring, lemma_find_from, lemma_newline_from, lines, lines_from,
    lowercase, newline_from, occurs_at, strip_cr, trim,
};
use crate::tui::{
    checked_indices, click_step, delete_adjusted, idle_expired, is_checked, key_step,
    reveal_matches, tick_step, AppView, Effect, Key, PendingVaultAction, Screen, IDLE_LOCK_MS,
};
use crate::lookup::{hits, id_is, id_starts, lemma_hits_first, lookup, name_has};
use crate::entry::{default_algorithm, default_digits, default_period, OtpSecret, VaultEntry};
use crate::import::{import_fold, is_duplicate};
use crate::naming::{derived_name, filename_safe, imported_name, sanitized};

verus! {

proof fn lemma_find_from_exact(s: Seq<char>, p: Seq<char>, i: int, k: int)
    requires
        0 <= i <= k,
        occurs_at(s, p, k),
        forall|m: int| i <= m < k ==> !#[trigger] occurs_at(s, p, m),
    ensures
        find_from(s, p, i) == Some(k),
    decreases k - i,
{
    if i < k {
        assert(!occurs_at(s, p, i));
        lemma_find_from_exact(s, p, i + 1, k);
    }
}

/// Regenerating a page's help block replaces what the previous generation wrote:
/// on a page that has a complete block, writing `x` and then `y` gives the same page
/// as writing `y` directly, provided `x` does not itself contain the end marker.
pub proof fn law_regenerate_block(c: Seq<char>, x: Seq<char>, y: Seq<char>)
    requires
        find_from(c, begin_marker(), 0) matches Some(b) && find_from(c, end_marker(), b
            + begin_marker().len()) is Some,
        !has_substring(x, end_marker()),
    ensures
        replaced_block(replaced_block(c, x), y) == replaced_block(c, y),
{
    let bm = begin_marker();
    let em = end_marker();
    reveal_strlit("<!-- END auto:help -->");
    assert(em.len() == 22);
    assert(forall|j: int| 0 <= j < em.len() ==> em[j] != '\n');
    let b = find_from(c, bm, 0)->0;
    let be = b + bm.len();
    let e = find_from(c, em, be)->0;
    lemma_find_from(c, bm, 0);
    lemma_find_from(c, em, be);
    let r1 = c.take(be) + seq!['\n'] + x + seq!['\n'] + c.skip(e);
    assert(replaced_block(c, x) == r1);
    let e1 = be + 1 + x.len() + 1;
    assert(r1.len() == be + 2 + x.len() + c.len() - e);
    // The begin marker is still first found at `b`.
    assert forall|m: int| 0 <= m <= b implies #[trigger] occurs_at(r1, bm, m) == occurs_at(c, bm, m) by {
        if m + bm.len() <= c.len() {
            assert(r1.subrange(m, m + bm.len()) =~= c.subrange(m, m + bm.len()));
        }
    }
    lemma_find_from_exact(r1, bm, 0, b);
    // The end marker is next found right after the new inner text.
    assert(r1.skip(e1) =~= c.skip(e));
    assert(occurs_at(r1, em, e1)) by {
        assert(r1.subrange(e1, e1 + em.len()) =~= c.subrange(e, e + em.len()));
    }
    assert forall|m: int| be <= m < e1 implies !#[trigger] occurs_at(r1, em, m) by {
        if occurs_at(r1, em, m) {
            let nl = be + 1 + x.len();
            if m == be {
                assert(r1[be] == '\n');
                assert(r1.subrange(m, m + em.len())[0] == em[0]);
            } else if m + em.len() <= nl {
                assert(x.subrange(m - be - 1, m - be - 1 + em.len()) =~= r1.subrange(m, m + em.len()));
                assert(occurs_at(x, em, m - be - 1));
            } else {
                assert(r1[nl] == '\n');
                assert(r1.subrange(m, m + em.len())[nl - m] == em[nl - m]);
            }
        }
    }
    lemma_find_from_exact(r1, em, be, e1);
    assert(r1.take(be) =~= c.take(be));
    assert(replaced_block(r1, y) =~= replaced_block(c, y));
}

/// Regenerating a complete block with the same text changes nothing.
pub proof fn law_block_stable(c: Seq<char>, x: Seq<char>)
    requires
        find_from(c, begin_marker(), 0) matches Some(b) && find_from(c, end_marker(), b
            + begin_marker().len()) is Some,
        !has_substring(x, end_marker()),
    ensures
        replaced_block(replaced_block(c, x), x) == replaced_block(c, x),
{
    law_regenerate_block(c, x, x);
}


/// A pattern without line breaks that `s` does not hold is held by none of its lines.
proof fn lemma_lines_free(s: Seq<char>, p: Seq<char>, i: int)
    requires
        0 <= i,
        !has_substring(s, p),
    ensures
        forall|k: int| 0 <= k < lines_from(s, i).len() ==> !has_substring(#[trigger] lines_from(s, i)[k], p),
    decreases s.len() - i,
{
    if i < s.len() {
        let k = newline_from(s, i);
        lemma_newline_from(s, i);
        let first = if k >= s.len() { s.subrange(i, s.len() as int) } else { strip_cr(s.subrange(i, k)) };
        assert(first.len() <= s.len() - i);
        assert(forall|j: int| 0 <= j < first.len() ==> first[j] == s[i + j]);
        assert forall|m: int| !#[trigger] occurs_at(first, p, m) by {
            if occurs_at(first, p, m) {
                assert(s.subrange(i + m, i + m + p.len()) =~= first.subrange(m, m + p.len()));
                assert(occurs_at(s, p, i + m));
            }
        }
        if k < s.len() {
            lemma_lines_free(s, p, k + 1);
            let rest = lines_from(s, k + 1);
            assert(lines_from(s, i) == seq![first] + rest);
            assert forall|n: int| 0 <= n < lines_from(s, i).len() implies !has_substring(
                #[trigger] lines_from(s, i)[n],
                p,
            ) by {
                if n > 0 {
                    assert(lines_from(s, i)[n] == rest[n - 1]);
                }
            }
        }
    }
}

/// Lines none of which holds a pattern without line breaks, written out one per
/// line, do not hold it either; written out, they end with a line break.
proof fn lemma_joined_free(ls: Seq<Seq<char>>, p: Seq<char>)
    requires
        p.len() > 0,
        forall|j: int| 0 <= j < p.len() ==> p[j] != '\n',
        forall|k: int| 0 <= k < ls.len() ==> !has_substring(#[trigger] ls[k], p),
    ensures
        !has_substring(joined_lines(ls), p),
        joined_lines(ls).len() > 0 ==> joined_lines(ls).last() == '\n',
        joined_lines(ls).len() == 0 ==> ls.len() == 0,
    decreases ls.len(),
{
    if ls.len() > 0 {
        let a = joined_lines(ls.drop_last());
        let l = ls.last();
        lemma_joined_free(ls.drop_last(), p);
        let jn = joined_lines(ls);
        assert(jn == a + l + seq!['\n']);
        assert(!has_substring(l, p)) by {
            assert(ls[ls.len() - 1] == l);
        }
        assert forall|m: int| !#[trigger] occurs_at(jn, p, m) by {
            if occurs_at(jn, p, m) {
                let w = jn.subrange(m, m + p.len());
                if m + p.len() <= a.len() {
                    assert(a.subrange(m, m + p.len()) =~= w);
                    assert(occurs_at(a, p, m));
                } else if m < a.len() {
                    assert(jn[a.len() - 1] == '\n');
                    assert(w[a.len() - 1 - m] == p[a.len() - 1 - m]);
                } else if m + p.len() <= a.len() + l.len() {
                    assert(l.subrange(m - a.len(), m - a.len() + p.len()) =~= w);
                    assert(occurs_at(l, p, m - a.len()));
                } else {
                    let nl: int = (a.len() + l.len()) as int;
                    assert(jn[nl] == '\n');
                    assert(w[nl - m] == p[nl - m]);
                }
            }
        }
    }
}

proof fn lemma_heading_from(ls: Seq<Seq<char>>, i: int)
    requires
        0 <= i,
    ensures
        heading_from(ls, i) matches Some(h) ==> i <= h < ls.len(),
    decreases ls.len() - i,
{
    if i < ls.len() && !begins_with(ls[i], "# "@) {
        lemma_heading_from(ls, i + 1);
    }
}

/// The first generation of a page's help block can be redone at will: on a page
/// without a begin marker, writing `x` and then `y` gives the same page as writing
/// `y` directly, provided `x` does not itself contain the end marker.
#[verifier::spinoff_prover]
#[verifier::rlimit(50)]
pub proof fn law_regenerate_fresh(c: Seq<char>, x: Seq<char>, y: Seq<char>)
    requires
        !has_substring(c, begin_marker()),
        !has_substring(x, end_marker()),
    ensures
        replaced_block(replaced_block(c, x), y) == replaced_block(c, y),
{
    let bm = begin_marker();
    let em = end_marker();
    reveal_strlit("<!-- BEGIN auto:help -->");
    reveal_strlit("<!-- END auto:help -->");
    assert(bm.len() == 24 && em.len() == 22);
    assert(forall|j: int| 0 <= j < bm.len() ==> bm[j] != '\n');
    assert(forall|j: int| 0 <= j < em.len() ==> em[j] != '\n');
    lemma_find_from(c, bm, 0);
    assert(find_from(c, bm, 0) is None) by {
        if let Some(k) = find_from(c, bm, 0) {
            assert(occurs_at(c, bm, k));
        }
    }
    let ls = lines(c);
    lemma_lines_free(c, bm, 0);
    lemma_heading_from(ls, 0);
    let (before, after) = match heading_from(ls, 0) {
        Some(h) => (ls.take(h + 1), ls.skip(h + 1)),
        None => (ls, Seq::<Seq<char>>::empty()),
    };
    assert forall|k: int| 0 <= k < before.len() implies !has_substring(#[trigger] before[k], bm) by {
        assert(before[k] == ls[k]);
    }
    lemma_joined_free(before, bm);
    let jb = joined_lines(before);
    let ja = joined_lines(after);
    assert(after.len() == 0 ==> ja == Seq::<char>::empty());
    assert(replaced_block(c, x) == jb + help_block(x) + ja);
    assert(replaced_block(c, y) == jb + help_block(y) + ja);
    let r1 = jb + help_block(x) + ja;
    let b: int = jb.len() as int + 1;
    assert(r1 =~= jb + seq!['\n'] + bm + seq!['\n'] + x + seq!['\n'] + em + seq!['\n'] + ja);
    assert(occurs_at(r1, bm, b)) by {
        assert(r1.subrange(b, b + bm.len()) =~= bm);
    }
    assert forall|m: int| 0 <= m < b implies !#[trigger] occurs_at(r1, bm, m) by {
        if occurs_at(r1, bm, m) {
            let w = r1.subrange(m, m + bm.len());
            if m + bm.len() <= jb.len() {
                assert(jb.subrange(m, m + bm.len()) =~= w);
                assert(occurs_at(jb, bm, m));
            } else if m < jb.len() {
                assert(r1[jb.len() - 1] == '\n');
                assert(w[jb.len() - 1 - m] == bm[jb.len() - 1 - m]);
            } else {
                assert(r1[jb.len() as int] == '\n');
                assert(w[0] == bm[0]);
            }
        }
    }
    lemma_find_from_exact(r1, bm, 0, b);
    let be: int = b + bm.len();
    let e: int = be + 1 + x.len() + 1;
    assert(occurs_at(r1, em, e)) by {
        assert(r1.subrange(e, e + em.len()) =~= em);
    }
    assert forall|m: int| be <= m < e implies !#[trigger] occurs_at(r1, em, m) by {
        if occurs_at(r1, em, m) {
            let nl: int = be + 1 + x.len();
            if m == be {
                assert(r1[be] == '\n');
                assert(r1.subrange(m, m + em.len())[0] == em[0]);
            } else if m + em.len() <= nl {
                assert(x.subrange(m - be - 1, m - be - 1 + em.len()) =~= r1.subrange(m, m + em.len()));
                assert(occurs_at(x, em, m - be - 1));
            } else {
                assert(r1[nl] == '\n');
                assert(r1.subrange(m, m + em.len())[nl - m] == em[nl - m]);
            }
        }
    }
    lemma_find_from_exact(r1, em, be, e);
    assert(replaced_block(r1, y) =~= jb + help_block(y) + ja);
}

/// Regenerating a page's help block is idempotent: writing `x` twice gives the same
/// page as writing it once, on a page with a complete block or with no begin marker
/// at all, provided `x` does not contain the end marker.
pub proof fn law_regenerate_idempotent(c: Seq<char>, x: Seq<char>)
    requires
        !has_substring(c, begin_marker()) || (find_from(c, begin_marker(), 0) matches Some(b)
            && find_from(c, end_marker(), b + begin_marker().len()) is Some),
        !has_substring(x, end_marker()),
    ensures
        replaced_block(replaced_block(c, x), x) == replaced_block(c, x),
{
    if !has_substring(c, begin_marker()) {
        law_regenerate_fresh(c, x, x);
    } else {
        law_regenerate_block(c, x, x);
    }
}

/// A freshly scaffolded reference page is already up to date: regenerating its
/// block with the same text changes nothing, so a check run right after generation
/// reports no difference. This holds when the subcommand's name holds no begin
/// marker and the block no end marker.
pub proof fn law_scaffold_stable(name: Seq<char>, block: Seq<char>)
    requires
        !has_substring(name, begin_marker()),
        !has_substring(block, end_marker()),
    ensures
        replaced_block(scaffold_text(name, block), block) == scaffold_text(name, block),
{
    let bm = begin_marker();
    let em = end_marker();
    reveal_strlit("<!-- BEGIN auto:help -->");
    reveal_strlit("<!-- END auto:help -->");
    reveal_strlit("# tofa ");
    let t = "# tofa "@;
    assert(bm.len() == 24 && em.len() == 22 && t.len() == 7);
    assert(forall|j: int| 0 <= j < bm.len() ==> bm[j] != '\n');
    assert(forall|j: int| 0 <= j < em.len() ==> em[j] != '\n');
    assert(forall|j: int| 0 <= j < t.len() ==> t[j] != '<');
    let c = scaffold_text(name, block);
    let h = t + name;
    let b: int = h.len() as int + 2;
    assert(c =~= h + seq!['\n'] + seq!['\n'] + bm + seq!['\n'] + block + seq!['\n'] + em + seq!['\n']);
    assert(occurs_at(c, bm, b)) by {
        assert(c.subrange(b, b + bm.len()) =~= bm);
    }
    assert forall|m: int| 0 <= m < b implies !#[trigger] occurs_at(c, bm, m) by {
        if occurs_at(c, bm, m) {
            let nl: int = h.len() as int;
            if m + bm.len() <= nl {
                if m >= 7 {
                    assert(name.subrange(m - 7, m - 7 + bm.len()) =~= c.subrange(m, m + bm.len()));
                    assert(occurs_at(name, bm, m - 7));
                } else {
                    assert(c[m] == t[m]);
                    assert(c.subrange(m, m + bm.len())[0] == bm[0]);
                }
            } else if m <= nl {
                assert(c[nl] == '\n');
                assert(c.subrange(m, m + bm.len())[nl - m] == bm[nl - m]);
            } else {
                assert(c[nl + 1] == '\n');
                assert(c.subrange(m, m + bm.len())[0] == bm[0]);
            }
        }
    }
    lemma_find_from_exact(c, bm, 0, b);
    let be: int = b + bm.len();
    let e: int = be + 1 + block.len() + 1;
    assert(occurs_at(c, em, e)) by {
        assert(c.subrange(e, e + em.len()) =~= em);
    }
    assert forall|m: int| be <= m < e implies !#[trigger] occurs_at(c, em, m) by {
        if occurs_at(c, em, m) {
            let nl: int = be + 1 + block.len();
            if m == be {
                assert(c[be] == '\n');
                assert(c.subrange(m, m + em.len())[0] == em[0]);
            } else if m + em.len() <= nl {
                assert(block.subrange(m - be - 1, m - be - 1 + em.len()) =~= c.subrange(m, m + em.len()));
                assert(occurs_at(block, em, m - be - 1));
            } else {
                assert(c[nl] == '\n');
                assert(c.subrange(m, m + em.len())[nl - m] == em[nl - m]);
            }
        }
    }
    lemma_find_from_exact(c, em, be, e);
    assert(replaced_block(c, block) =~= c);
}

/// The selection points at an entry of a vault with `len` entries (or at 0 when
/// the vault is empty).
pub open spec fn selection_in_range(v: AppView, len: nat) -> bool {
    v.selected_index < len || (len == 0 && v.selected_index == 0)
}

/// No key press moves the selection off the entries of the vault.
pub proof fn law_keys_keep_selection(v: AppView, key: Key, len: nat, now: u64)
    requires
        selection_in_range(v, len),
    ensures
        selection_in_range(key_step(v, key, len, now).0, len),
{
}

/// No click moves the selection off the entries of the vault.
pub proof fn law_click_keeps_selection(v: AppView, row: usize, col: usize, len: nat, width: usize, now: u64)
    requires
        selection_in_range(v, len),
    ensures
        selection_in_range(click_step(v, row, col, len, width, now).0, len),
{
}

/// After deleting an entry the selection still points at an entry.
pub proof fn law_delete_keeps_selection(v: AppView, old_len: nat)
    requires
        old_len > 0,
        v.selected_index < old_len,
    ensures
        selection_in_range(delete_adjusted(v, (old_len - 1) as nat), (old_len - 1) as nat),
{
}

/// A hidden secret is shown only after the vault's passphrase was typed at the
/// reveal prompt of the full-screen view and confirmed with Enter.
pub proof fn law_reveal_needs_passphrase(v: AppView, key: Key, len: nat, now: u64)
    requires
        !v.detail_secret_visible,
        key_step(v, key, len, now).0.detail_secret_visible,
    ensures
        v.screen == Screen::Fullscreen,
        v.detail_revealing,
        key == Key::Enter,
        reveal_matches(v),
{
}

/// Locking with `l` from the list or the full-screen view forgets the cached and the
/// typed passphrase and shows the unlock screen.
pub proof fn law_lock_forgets_passphrase(v: AppView, len: nat, now: u64)
    requires
        (v.screen == Screen::List && v.add_secret_input.len() == 0) || (v.screen
            == Screen::Fullscreen && !v.detail_revealing),
    ensures
        key_step(v, Key::Char('l'), len, now).0.vault_key_cache is None,
        key_step(v, Key::Char('l'), len, now).0.passphrase_input.len() == 0,
        key_step(v, Key::Char('l'), len, now).0.screen == Screen::Unlock,
{
}

/// A message shown without a time ("Saving…", save errors) stays until dismissed
/// (time alone changes nothing then, short of the idle lock); a timed one is gone
/// 1.5 s after it was shown.
pub proof fn law_toast_lifetime(v: AppView, now: u64)
    ensures
        v.status_message_at is None && !idle_expired(v, now) ==> tick_step(v, now) == v,
        v.status_message_at is None ==> tick_step(v, now).status_message == v.status_message,
        v.status_message_at matches Some(at) ==> (now >= at + 1500 ==> tick_step(v, now).status_message is None),
{
}

proof fn lemma_hits_sound(es: Seq<VaultEntry>, n: int, p: spec_fn(VaultEntry) -> bool)
    requires
        0 <= n <= es.len(),
        n <= usize::MAX,
    ensures
        forall|k: int| 0 <= k < hits(es, n, p).len() ==> #[trigger] hits(es, n, p)[k] < n && p(
            es[hits(es, n, p)[k] as int],
        ),
    decreases n,
{
    if n > 0 {
        lemma_hits_sound(es, n - 1, p);
        let prev = hits(es, n - 1, p);
        assert forall|k: int| 0 <= k < hits(es, n, p).len() implies #[trigger] hits(es, n, p)[k]
            < n && p(es[hits(es, n, p)[k] as int]) by {
            if k < prev.len() {
                assert(hits(es, n, p)[k] == prev[k]);
            }
        }
    }
}

/// The account a query finds matches it: by exact id, by id prefix, or by a name
/// that contains it regardless of case.
pub proof fn law_lookup_hit_matches(es: Seq<VaultEntry>, q: Seq<char>, i: usize)
    requires
        es.len() <= usize::MAX,
        lookup(es, q) == Ok::<usize, (int, Seq<usize>)>(i),
    ensures
        i < es.len(),
        es[i as int].id@ == q || (es[i as int].id@.len() > 0 && begins_with(es[i as int].id@, q))
            || has_substring(lowercase(es[i as int].name@), lowercase(q)),
{
    lemma_hits_sound(es, es.len() as int, id_is(q));
    lemma_hits_sound(es, es.len() as int, id_starts(q));
    lemma_hits_sound(es, es.len() as int, name_has(q));
}

/// Renaming for a file leaves only file-name safe characters.
pub proof fn law_sanitized_is_safe(name: Seq<char>)
    ensures
        sanitized(name).len() == name.len(),
        forall|i: int| 0 <= i < name.len() ==> filename_safe(#[trigger] sanitized(name)[i]),
{
}

/// An import never adds an account whose name and secret the vault already holds,
/// nor the same pair twice; every parsed account is either added or skipped.
pub proof fn law_import_no_duplicates(existing: Seq<(Seq<char>, Seq<char>)>, secrets: Seq<OtpSecret>, n: int)
    requires
        0 <= n <= secrets.len(),
    ensures
        import_fold(existing, secrets, n).added.len() + import_fold(existing, secrets, n).skipped == n,
        import_fold(existing, secrets, n).seen.len() == existing.len() + import_fold(existing, secrets, n).added.len(),
        forall|j: int, k: int|
            0 <= j < k < import_fold(existing, secrets, n).seen.len() && k >= existing.len() ==>
                #[trigger] import_fold(existing, secrets, n).seen[j] != #[trigger] import_fold(existing, secrets, n).seen[k],
    decreases n,
{
    if n > 0 {
        law_import_no_duplicates(existing, secrets, n - 1);
        let f = import_fold(existing, secrets, n - 1);
        let g = import_fold(existing, secrets, n);
        assert forall|j: int, k: int|
            0 <= j < k < g.seen.len() && k >= existing.len() implies #[trigger] g.seen[j] != #[trigger] g.seen[k] by {
            if g.seen.len() > f.seen.len() && k == f.seen.len() {
                assert(g.seen[j] == f.seen[j]);
                assert(!is_duplicate(f.seen, g.seen[k].0, g.seen[k].1));
                assert(f.seen[j] != g.seen[k]);
            } else {
                assert(g.seen[j] == f.seen[j]);
                assert(g.seen[k] == f.seen[k]);
            }
        }
    }
}

/// Whether an account has an issuer or an account label, so its name does not
/// depend on the vault it goes into.
pub open spec fn named(s: OtpSecret) -> bool {
    s.meta.issuer is Some || s.meta.account is Some
}

proof fn lemma_fold_keeps_pairs(existing: Seq<(Seq<char>, Seq<char>)>, secrets: Seq<OtpSecret>, n: int)
    requires
        0 <= n <= secrets.len(),
        forall|i: int| 0 <= i < secrets.len() ==> named(#[trigger] secrets[i]),
    ensures
        forall|i: int| 0 <= i < n ==> is_duplicate(
            import_fold(existing, secrets, n).seen,
            derived_name(#[trigger] secrets[i].meta, Seq::empty()),
            secrets[i].secret@,
        ),
    decreases n,
{
    if n > 0 {
        lemma_fold_keeps_pairs(existing, secrets, n - 1);
        let f = import_fold(existing, secrets, n - 1);
        let g = import_fold(existing, secrets, n);
        assert(g.seen.len() >= f.seen.len());
        assert(forall|k: int| 0 <= k < f.seen.len() ==> #[trigger] g.seen[k] == f.seen[k]);
        assert forall|i: int| 0 <= i < n implies is_duplicate(
            g.seen,
            derived_name(#[trigger] secrets[i].meta, Seq::empty()),
            secrets[i].secret@,
        ) by {
            let s = secrets[i];
            let pair = (derived_name(s.meta, Seq::empty()), s.secret@);
            if i < n - 1 {
                let k = choose|k: int| 0 <= k < f.seen.len() && #[trigger] f.seen[k] == pair;
                assert(g.seen[k] == pair);
            } else {
                assert(named(secrets[i]));
                assert(derived_name(s.meta, imported_name(f.seen.len() + 1)) == pair.0);
                if is_duplicate(f.seen, pair.0, pair.1) {
                    let k = choose|k: int| 0 <= k < f.seen.len() && #[trigger] f.seen[k] == pair;
                    assert(g.seen[k] == pair);
                } else {
                    assert(g.seen[f.seen.len() as int] == pair);
                }
            }
        }
    }
}

proof fn lemma_refold_skips(seen: Seq<(Seq<char>, Seq<char>)>, secrets: Seq<OtpSecret>, n: int)
    requires
        0 <= n <= secrets.len(),
        forall|i: int| 0 <= i < secrets.len() ==> named(#[trigger] secrets[i]),
        forall|i: int| 0 <= i < secrets.len() ==> is_duplicate(
            seen,
            derived_name(#[trigger] secrets[i].meta, Seq::empty()),
            secrets[i].secret@,
        ),
    ensures
        import_fold(seen, secrets, n).seen == seen,
        import_fold(seen, secrets, n).added.len() == 0,
        import_fold(seen, secrets, n).skipped == n,
    decreases n,
{
    if n > 0 {
        lemma_refold_skips(seen, secrets, n - 1);
        let s = secrets[n - 1];
        assert(named(secrets[n - 1]));
        assert(derived_name(s.meta, imported_name(seen.len() + 1)) == derived_name(s.meta, Seq::empty()));
    }
}

/// Importing the same accounts a second time adds nothing: when every account has an
/// issuer or an account label, the second import skips each of them as a duplicate
/// and leaves the vault as the first one left it.
pub proof fn law_reimport_adds_nothing(existing: Seq<(Seq<char>, Seq<char>)>, secrets: Seq<OtpSecret>)
    requires
        forall|i: int| 0 <= i < secrets.len() ==> named(#[trigger] secrets[i]),
    ensures
        ({
            let first = import_fold(existing, secrets, secrets.len() as int);
            let second = import_fold(first.seen, secrets, secrets.len() as int);
            &&& second.added.len() == 0
            &&& second.skipped == secrets.len()
            &&& second.seen == first.seen
        }),
{
    let n = secrets.len() as int;
    lemma_fold_keeps_pairs(existing, secrets, n);
    lemma_refold_skips(import_fold(existing, secrets, n).seen, secrets, n);
}

/// An export takes exactly the checked entries of the vault, each once, in vault
/// order: every index it takes is below the vault's size and checked, the indices
/// rise, and every checked entry is taken.
pub proof fn law_export_takes_checked(checked: Seq<bool>, n: int)
    requires
        0 <= n <= usize::MAX,
    ensures
        forall|j: int| 0 <= j < checked_indices(checked, n).len() ==> {
            let i = #[trigger] checked_indices(checked, n)[j];
            i < n && is_checked(checked, i as int)
        },
        forall|a: int, b: int| 0 <= a < b < checked_indices(checked, n).len() ==>
            #[trigger] checked_indices(checked, n)[a] < #[trigger] checked_indices(checked, n)[b],
        forall|i: int| 0 <= i < n && is_checked(checked, i) ==> checked_indices(checked, n).contains(i as usize),
    decreases n,
{
    if n > 0 {
        law_export_takes_checked(checked, n - 1);
        let prev = checked_indices(checked, n - 1);
        let cur = checked_indices(checked, n);
        assert forall|i: int| 0 <= i < n && is_checked(checked, i) implies cur.contains(i as usize) by {
            if i < n - 1 {
                let j = choose|j: int| 0 <= j < prev.len() && prev[j] == i as usize;
                assert(cur[j] == prev[j]);
            } else {
                assert(cur[prev.len() as int] == (n - 1) as usize);
            }
        }
    }
}

/// Clicking an account's row on the list copies that account's code: with no
/// message showing, a left click on the row of entry `k` (line `2 + 2k`, left of
/// the content's right edge) selects entry `k` and asks for its code to be copied.
pub proof fn law_click_row_copies(v: AppView, k: usize, col: usize, len: nat, width: usize, now: u64)
    requires
        v.status_message is None,
        v.screen == Screen::List,
        k < len,
        col < width,
        2 + 2 * k <= usize::MAX,
    ensures
        click_step(v, (2 + 2 * k) as usize, col, len, width, now).0.selected_index == k,
        click_step(v, (2 + 2 * k) as usize, col, len, width, now).1 == Effect::CopySelectedCode,
{
    let row = (2 + 2 * k) as usize;
    assert((row - 2) / 2 == k as int);
    assert((row - 2) % 2 == 0);
}

/// The vault locks itself when idle: an unlocked interface that has seen no key or
/// click for ten minutes is, at the next tick, back on the unlock screen with no
/// cached or typed passphrase.
pub proof fn law_idle_locks(v: AppView, now: u64)
    requires
        v.screen != Screen::Unlock,
        now >= v.last_activity,
        now - v.last_activity >= IDLE_LOCK_MS,
    ensures
        tick_step(v, now).screen == Screen::Unlock,
        tick_step(v, now).vault_key_cache is None,
        tick_step(v, now).passphrase_input.len() == 0,
{
}

/// Activity keeps the vault open: right after a key or a click, no tick before ten
/// more minutes have passed locks it.
pub proof fn law_activity_defers_lock(v: AppView, key: Key, len: nat, at: u64, now: u64)
    requires
        key_step(v, key, len, at).0.screen != Screen::Unlock,
        at <= now,
        now - at < IDLE_LOCK_MS,
    ensures
        tick_step(key_step(v, key, len, at).0, now).screen == key_step(v, key, len, at).0.screen,
        tick_step(key_step(v, key, len, at).0, now).vault_key_cache == key_step(v, key, len, at).0.vault_key_cache,
{
}

/// Confirming a deletion with `y` or `Y` queues the deletion of the selected entry,
/// shows "Saving…" and goes back to the list; `n`, `N` or Esc go back to the list
/// without queueing anything.
pub proof fn law_delete_confirmation(v: AppView, c: char, len: nat, now: u64)
    requires
        v.screen == Screen::DeleteConfirm,
    ensures
        c == 'y' || c == 'Y' ==> {
            let w = key_step(v, Key::Char(c), len, now).0;
            &&& w.pending_vault_action == Some(PendingVaultAction::DeleteEntry(v.selected_index))
            &&& w.status_message == Some("Saving…"@)
            &&& w.screen == Screen::List
            &&& w.selected_index == v.selected_index
        },
        c == 'n' || c == 'N' ==> {
            let w = key_step(v, Key::Char(c), len, now).0;
            &&& w.pending_vault_action == v.pending_vault_action
            &&& w.screen == Screen::List
        },
        key_step(v, Key::Esc, len, now).0.pending_vault_action == v.pending_vault_action,
        key_step(v, Key::Esc, len, now).0.screen == Screen::List,
{
}

/// In the full-screen view (no passphrase prompt open) the down keys show the next
/// entry and the up keys the previous one; at either end the selection stays.
pub proof fn law_fullscreen_moves(v: AppView, len: nat, now: u64)
    requires
        v.screen == Screen::Fullscreen,
        !v.detail_revealing,
        len <= usize::MAX,
    ensures
        v.selected_index + 1 < len ==> key_step(v, Key::Down, len, now).0.selected_index == v.selected_index + 1
            && key_step(v, Key::Char('j'), len, now).0.selected_index == v.selected_index + 1,
        v.selected_index > 0 ==> key_step(v, Key::Up, len, now).0.selected_index == v.selected_index - 1
            && key_step(v, Key::Char('k'), len, now).0.selected_index == v.selected_index - 1,
        v.selected_index + 1 >= len ==> key_step(v, Key::Down, len, now).0.selected_index == v.selected_index,
        v.selected_index == 0 ==> key_step(v, Key::Up, len, now).0.selected_index == 0,
        key_step(v, Key::Down, len, now).0.screen == Screen::Fullscreen,
        key_step(v, Key::Up, len, now).0.screen == Screen::Fullscreen,
{
}

/// A new entry keeps the parameters its account gives: a given period, digit count or
/// algorithm is stored as it is, and only an absent one takes the default (30 s,
/// 6 digits, SHA1).
pub proof fn law_given_parameters_kept(p: u32, d: u8, a: String)
    ensures
        default_period(Some(p)) == p,
        default_period(None) == 30,
        default_digits(Some(d)) == d,
        default_digits(None) == 6,
        default_algorithm(Some(a)) == a@,
        default_algorithm(None) == "SHA1"@,
{
}

/// A query equal to an entry's id finds that entry (the first one with that id),
/// whatever other ids begin with the query or names contain it.
pub proof fn law_exact_id_wins(es: Seq<VaultEntry>, q: Seq<char>, k: int)
    requires
        0 <= k < es.len() <= usize::MAX,
        es[k].id@ == q,
        forall|j: int| 0 <= j < k ==> #[trigger] es[j].id@ != q,
    ensures
        lookup(es, q) == Ok::<usize, (int, Seq<usize>)>(k as usize),
{
    let p = id_is(q);
    assert forall|j: int| 0 <= j < k implies !p(#[trigger] es[j]) by {}
    lemma_hits_first(es, es.len() as int, p, k);
}

/// On the account list (nothing being typed), the down and up keys move the
/// selection by one within the entries, Space opens the full-screen view and `d`
/// the delete confirmation when there are entries, `e` opens the export screen with
/// every entry checked, `y` copies the selected code and `q` quits.
pub proof fn law_list_keys(v: AppView, len: nat, now: u64)
    requires
        v.screen == Screen::List,
        v.add_secret_input.len() == 0,
        len <= usize::MAX,
    ensures
        v.selected_index + 1 < len ==> key_step(v, Key::Down, len, now).0.selected_index == v.selected_index + 1,
        v.selected_index > 0 ==> key_step(v, Key::Up, len, now).0.selected_index == v.selected_index - 1,
        len > 0 ==> key_step(v, Key::Char(' '), len, now).0.screen == Screen::Fullscreen,
        len > 0 ==> key_step(v, Key::Char('d'), len, now).0.screen == Screen::DeleteConfirm,
        len > 0 ==> key_step(v, Key::Char('e'), len, now).0.screen == Screen::Export
            && key_step(v, Key::Char('e'), len, now).0.export_checked.len() == len
            && forall|i: int| 0 <= i < len ==> #[trigger] key_step(v, Key::Char('e'), len, now).0.export_checked[i],
        key_step(v, Key::Char('y'), len, now).1 == Effect::CopySelectedCode,
        key_step(v, Key::Char('q'), len, now).1 == Effect::Quit,
        key_step(v, Key::Char('h'), len, now).0.show_codes == !v.show_codes,
{
}

/// On the export screen, Space flips the checkbox under the cursor and leaves the
/// others; the down and up keys move the cursor by one within the entries; Enter
/// asks for the QR of the checked entries.
pub proof fn law_export_keys(v: AppView, len: nat, now: u64)
    requires
        v.screen == Screen::Export,
        len <= usize::MAX,
    ensures
        v.export_selected < v.export_checked.len() ==> {
            let w = key_step(v, Key::Char(' '), len, now).0;
            &&& w.export_checked.len() == v.export_checked.len()
            &&& w.export_checked[v.export_selected as int] == !v.export_checked[v.export_selected as int]
            &&& forall|i: int| 0 <= i < v.export_checked.len() && i != v.export_selected ==>
                #[trigger] w.export_checked[i] == v.export_checked[i]
        },
        v.export_selected + 1 < len ==> key_step(v, Key::Down, len, now).0.export_selected == v.export_selected + 1,
        v.export_selected > 0 ==> key_step(v, Key::Up, len, now).0.export_selected == v.export_selected - 1,
        key_step(v, Key::Enter, len, now).1 == Effect::ExportQr,
{
}

/// On the naming step, Enter with a name that is not blank queues adding the account
/// under the trimmed name and goes back to the list; a blank name queues nothing and
/// asks for one.
pub proof fn law_add_name_enter(v: AppView, len: nat, now: u64)
    requires
        v.screen == Screen::AddName,
    ensures
        trim(v.add_name).len() > 0 ==> {
            let w = key_step(v, Key::Enter, len, now).0;
            &&& w.pending_vault_action == Some(PendingVaultAction::AddEntry)
            &&& w.add_name == trim(v.add_name)
            &&& w.screen == Screen::List
        },
        trim(v.add_name).len() == 0 ==> {
            let w = key_step(v, Key::Enter, len, now).0;
            &&& w.pending_vault_action == v.pending_vault_action
            &&& w.screen == Screen::AddName
            &&& w.status_message == Some("Name is required."@)
        },
{
}

} // verus!
