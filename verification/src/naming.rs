//! Names given to imported accounts, file names, and recognising pasted input.
use vstd::prelude::*;
use crate::entry::OtpMeta;
use crate::text::{
    begins_with, chars_of, decimal, decimal_chars, lines, lines_of, push_all, starts_with_chars,
    string_of, trim, trim_chars,
};

verus! {

/// The name an account gets from its issuer and account label: `"issuer:account"`,
/// either one alone, or `fallback` when both are missing.
pub open spec fn derived_name(meta: OtpMeta, fallback: Seq<char>) -> Seq<char> {
    match (meta.issuer, meta.account) {
        (Some(i), Some(a)) => i@ + ":"@ + a@,
        (Some(i), None) => i@,
        (None, Some(a)) => a@,
        (None, None) => fallback,
    }
}

/// `"issuer:account"`, either one alone, or `fallback`.
pub fn name_from_meta(meta: &OtpMeta, fallback: &str) -> (r: String)
    ensures
        r@ == derived_name(*meta, fallback@),
{
    match (&meta.issuer, &meta.account) {
        (Some(i), Some(a)) => {
            let mut out = chars_of(i.as_str());
            push_all(&mut out, chars_of(":").as_slice());
            push_all(&mut out, chars_of(a.as_str()).as_slice());
            string_of(out.as_slice())
        },
        (Some(i), None) => i.clone(),
        (None, Some(a)) => a.clone(),
        (None, None) => String::from_str(fallback),
    }
}

/// The fallback name of the `n`-th account of a vault: `"imported-<n>"`.
pub open spec fn imported_name(n: nat) -> Seq<char> {
    "imported-"@ + decimal(n)
}

/// `"imported-<n>"`.
pub fn imported_fallback(n: u64) -> (r: String)
    ensures
        r@ == imported_name(n as nat),
{
    let mut out = chars_of("imported-");
    push_all(&mut out, decimal_chars(n).as_slice());
    string_of(out.as_slice())
}

/// Whether `c` may stand in a file name unchanged: ASCII letters, digits, `-`, `_`, `.`.
pub open spec fn filename_safe(c: char) -> bool {
    ('A' <= c <= 'Z') || ('a' <= c <= 'z') || ('0' <= c <= '9') || c == '-' || c == '_' || c
        == '.'
}

/// `name` with every character that is not file-name safe replaced by `_`.
pub open spec fn sanitized(name: Seq<char>) -> Seq<char> {
    name.map_values(|c: char| if filename_safe(c) { c } else { '_' })
}

/// Replaces path-unsafe characters in an entry name so it can be a file name.
pub fn sanitize_filename(name: &str) -> (r: String)
    ensures
        r@ == sanitized(name@),
{
    let cs = chars_of(name);
    let mut out: Vec<char> = Vec::new();
    let mut i: usize = 0;
    while i < cs.len()
        invariant
            i <= cs.len(),
            cs@ == name@,
            out@ == sanitized(name@).take(i as int),
        decreases cs.len() - i,
    {
        let c = cs[i];
        let ok = ('A' <= c && c <= 'Z') || ('a' <= c && c <= 'z') || ('0' <= c && c <= '9') || c
            == '-' || c == '_' || c == '.';
        out.push(if ok { c } else { '_' });
        i = i + 1;
        assert(out@ == sanitized(name@).take(i as int));
    }
    assert(sanitized(name@).take(cs.len() as int) == sanitized(name@));
    string_of(out.as_slice())
}

/// The number of lines that, once trimmed, start with `"otpauth://"`.
pub open spec fn otpauth_line_count(ls: Seq<Seq<char>>) -> nat
    decreases ls.len(),
{
    if ls.len() == 0 {
        0
    } else {
        otpauth_line_count(ls.drop_last()) + if begins_with(trim(ls.last()), "otpauth://"@) {
            1nat
        } else {
            0nat
        }
    }
}

/// Whether pasted text is a list of `otpauth://` URIs: two or more of its lines
/// (trimmed) start with `otpauth://`.
pub open spec fn spec_multi_otpauth(raw: Seq<char>) -> bool {
    otpauth_line_count(lines(raw)) >= 2
}

/// Whether the add-form input looks like several `otpauth://` URIs, one per line.
pub fn is_multi_otpauth_paste(raw: &str) -> (r: bool)
    ensures
        r == spec_multi_otpauth(raw@),
{
    let ls = lines_of(chars_of(raw).as_slice());
    let ghost lv = lines(raw@);
    let prefix = chars_of("otpauth://");
    let mut count: usize = 0;
    let mut i: usize = 0;
    while i < ls.len()
        invariant
            i <= ls@.len() == lv.len(),
            prefix@ == "otpauth://"@,
            forall|k: int| 0 <= k < ls@.len() ==> #[trigger] ls@[k]@ == lv[k],
            count == otpauth_line_count(lv.take(i as int)),
            count <= i,
        decreases ls.len() - i,
    {
        let t = trim_chars(ls[i].as_slice());
        assert(lv.take(i + 1).drop_last() == lv.take(i as int));
        if starts_with_chars(t.as_slice(), prefix.as_slice()) {
            count = count + 1;
        }
        i = i + 1;
    }
    assert(lv.take(ls.len() as int) == lv);
    count >= 2
}

/// What the add form's submitted text is.
#[derive(Clone, Copy, Debug, PartialEq, Eq, Structural)]
pub enum AddInput {
    /// A path to an existing file: import everything in it.
    File,
    /// A Google Authenticator `otpauth-migration://` export: import every account.
    Migration,
    /// Several `otpauth://` URIs, one per line: import each.
    UriList,
    /// A single URI: parse it and ask for a name.
    SingleUri,
}

/// How submitted text is read: an existing file wins, then a migration URI, then a
/// list of URIs, else a single URI.
pub open spec fn spec_classify(raw: Seq<char>, is_file: bool) -> AddInput {
    if is_file {
        AddInput::File
    } else if begins_with(raw, "otpauth-migration://"@) {
        AddInput::Migration
    } else if spec_multi_otpauth(raw) {
        AddInput::UriList
    } else {
        AddInput::SingleUri
    }
}

/// Decides what the submitted add-form text is; `is_file` tells whether it names an
/// existing file.
pub fn classify_add_input(raw: &str, is_file: bool) -> (r: AddInput)
    ensures
        r == spec_classify(raw@, is_file),
{
    if is_file {
        AddInput::File
    } else if starts_with_chars(chars_of(raw).as_slice(), chars_of("otpauth-migration://").as_slice()) {
        AddInput::Migration
    } else if is_multi_otpauth_paste(raw) {
        AddInput::UriList
    } else {
        AddInput::SingleUri
    }
}

/// Whether a scanned or pasted URI is a migration export (`otpauth-migration://`).
pub fn is_migration_uri(uri: &str) -> (r: bool)
    ensures
        r == begins_with(uri@, "otpauth-migration://"@),
{
    starts_with_chars(chars_of(uri).as_slice(), chars_of("otpauth-migration://").as_slice())
}

} // verus!
