//! Measures of the screens as they are drawn: list labels, widths, progress bars,
//! and the full-screen view of one account.
use vstd::prelude::*;
use crate::entry::VaultEntry;
use crate::text::{chars_of, find_chars, find_from, lemma_find_from, occurs_at, push_all, slice_chars, string_of};

verus! {

/// Where the first `':'` of a name stands, if anywhere.
pub open spec fn colon_at(name: Seq<char>) -> Option<int> {
    find_from(name, seq![':'], 0)
}

/// The list label of an entry name `"issuer:account"`: `"issuer · account"`; a name
/// without a colon, or with nothing after it, is shown as it is.
pub open spec fn list_label_text(name: Seq<char>) -> Seq<char> {
    match colon_at(name) {
        Some(k) => if k + 1 < name.len() {
            name.take(k) + " · "@ + name.skip(k + 1)
        } else {
            name
        },
        None => name,
    }
}

/// The width of that label in characters.
pub open spec fn label_width(name: Seq<char>) -> nat {
    match colon_at(name) {
        Some(k) => if k + 1 < name.len() { name.len() + 2 } else { name.len() },
        None => name.len(),
    }
}

proof fn lemma_colon(name: Seq<char>)
    ensures
        colon_at(name) matches Some(k) ==> 0 <= k < name.len() && name[k] == ':',
{
    lemma_find_from(name, seq![':'], 0);
    if let Some(k) = colon_at(name) {
        assert(name.subrange(k, k + 1)[0] == name[k]);
    }
}

/// The label the list shows for an entry name.
pub fn list_label(name: &str) -> (r: String)
    ensures
        r@ == list_label_text(name@),
        r@.len() == label_width(name@),
{
    let cs = chars_of(name);
    let colon = chars_of(":");
    assert(colon@ == seq![':']) by {
        reveal_strlit(":");
    }
    proof {
        lemma_colon(name@);
    }
    match find_chars(cs.as_slice(), colon.as_slice(), 0) {
        Some(k) => {
            assert(colon_at(name@) == Some(k as int));
            assert(k < cs.len());
            if k + 1 < cs.len() {
                let mut out = slice_chars(cs.as_slice(), 0, k);
                push_all(&mut out, chars_of(" · ").as_slice());
                let rest = slice_chars(cs.as_slice(), k + 1, cs.len());
                push_all(&mut out, rest.as_slice());
                assert(cs@.subrange(0, k as int) == cs@.take(k as int));
                assert(cs@.subrange(k + 1, cs@.len() as int) == cs@.skip(k + 1));
                proof {
                    reveal_strlit(" · ");
                }
                string_of(out.as_slice())
            } else {
                String::from_str(name)
            }
        },
        None => String::from_str(name),
    }
}

/// The widest label among `es`, 0 for none.
pub open spec fn max_label_width(es: Seq<VaultEntry>) -> nat
    decreases es.len(),
{
    if es.len() == 0 {
        0
    } else {
        let w = label_width(es.last().name@);
        let m = max_label_width(es.drop_last());
        if w > m { w } else { m }
    }
}

/// The widest code among `es`: 9 columns for 8-digit codes (`"1234 5678"`), else 7.
pub open spec fn max_code_width(es: Seq<VaultEntry>) -> nat
    decreases es.len(),
{
    if es.len() == 0 {
        7
    } else {
        let w: nat = if es.last().digits == 8 { 9 } else { 7 };
        let m = max_code_width(es.drop_last());
        if w > m { w } else { m }
    }
}

/// The columns a list row takes: cursor (2), label, gap (2), code, bar (1 + 20),
/// space (1) and seconds (3).
pub open spec fn row_width(es: Seq<VaultEntry>) -> nat {
    2 + max_label_width(es) + 2 + max_code_width(es) + 1 + 20 + 1 + 3
}

proof fn lemma_widths_bounded(es: Seq<VaultEntry>, n: nat)
    requires
        forall|k: int| 0 <= k < es.len() ==> #[trigger] es[k].name@.len() <= n,
    ensures
        max_label_width(es) <= n + 2,
        max_code_width(es) <= 9,
    decreases es.len(),
{
    if es.len() > 0 {
        lemma_widths_bounded(es.drop_last(), n);
    }
}

/// How many columns from the left a click can land on an entry's row.
pub fn list_row_content_width(entries: &[VaultEntry]) -> (r: usize)
    requires
        forall|k: int| 0 <= k < entries@.len() ==> #[trigger] entries@[k].name@.len() <= usize::MAX - 64,
    ensures
        r == row_width(entries@),
{
    let mut max_label: usize = 0;
    let mut max_code: usize = 7;
    let mut i: usize = 0;
    while i < entries.len()
        invariant
            i <= entries.len(),
            forall|k: int| 0 <= k < entries@.len() ==> #[trigger] entries@[k].name@.len() <= usize::MAX - 64,
            max_label == max_label_width(entries@.take(i as int)),
            max_code == max_code_width(entries@.take(i as int)),
            max_label <= usize::MAX - 62,
        decreases entries.len() - i,
    {
        assert(entries@.take(i + 1).drop_last() == entries@.take(i as int));
        assert(entries@.take(i + 1).last() == entries@[i as int]);
        let w = list_label(entries[i].name.as_str()).as_str().unicode_len();
        if w > max_label {
            max_label = w;
        }
        let c: usize = if entries[i].digits == 8 { 9 } else { 7 };
        if c > max_code {
            max_code = c;
        }
        i = i + 1;
    }
    assert(entries@.take(entries.len() as int) == entries@);
    proof {
        lemma_widths_bounded(entries@, (usize::MAX - 64) as nat);
    }
    2 + max_label + 2 + max_code + 1 + 20 + 1 + 3
}

/// Cells of a 20-cell bar to fill with `ms_left` of a `period_ms` window left.
pub open spec fn bar_fill(ms_left: nat, period_ms: nat) -> nat {
    (ms_left * 20) / period_ms
}

/// Filled cells of the list's expiry bar: `ms_left * 20 / period_ms`.
pub fn expiry_fill(ms_left: u64, period_ms: u64) -> (r: u64)
    requires
        period_ms > 0,
        ms_left <= period_ms,
        period_ms <= u64::MAX / 20,
    ensures
        r == bar_fill(ms_left as nat, period_ms as nat),
        r <= 20,
{
    assert(ms_left * 20 <= period_ms * 20) by (nonlinear_arith)
        requires
            ms_left <= period_ms,
    ;
    assert((ms_left * 20) / (period_ms as int) <= 20) by (nonlinear_arith)
        requires
            ms_left <= period_ms,
            period_ms > 0,
    ;
    (ms_left * 20) / period_ms
}

/// Filled cells of the watch view's bar for `secs` left of a `period`-second
/// window: `secs * 20 / period`, at most 20.
pub fn watch_fill(secs: u64, period: u32) -> (r: u64)
    requires
        period > 0,
        secs <= u64::MAX / 20,
    ensures
        r == if bar_fill(secs as nat, period as nat) < 20 { bar_fill(secs as nat, period as nat) } else { 20 },
{
    let f = (secs * 20) / (period as u64);
    if f < 20 { f } else { 20 }
}

/// The code shown on a list row: `"ddd ddd"` (a space after the first three
/// characters) when codes are shown or the row is selected, `"••• •••"` otherwise.
pub open spec fn shown_code(code: Seq<char>, show: bool) -> Seq<char> {
    if show {
        code.take(3) + " "@ + code.skip(3)
    } else {
        "••• •••"@
    }
}

/// The code text of a list row.
pub fn list_code_text(code: &str, show: bool) -> (r: String)
    requires
        show ==> code@.len() >= 3,
    ensures
        r@ == shown_code(code@, show),
{
    if show {
        let cs = chars_of(code);
        let mut out = slice_chars(cs.as_slice(), 0, 3);
        push_all(&mut out, chars_of(" ").as_slice());
        push_all(&mut out, slice_chars(cs.as_slice(), 3, cs.len()).as_slice());
        assert(cs@.subrange(0, 3) == cs@.take(3));
        assert(cs@.subrange(3, cs@.len() as int) == cs@.skip(3));
        string_of(out.as_slice())
    } else {
        String::from_str("••• •••")
    }
}

/// The mask shown in place of a hidden secret whose text is `len` bytes long: one
/// `•` per byte, and at least sixteen.
pub open spec fn mask_text(len: nat) -> Seq<char> {
    Seq::new(if len < 16 { 16 } else { len }, |i: int| '•')
}

/// The mask for a hidden secret of `len` bytes.
pub fn secret_mask(len: usize) -> (r: String)
    ensures
        r@ == mask_text(len as nat),
{
    let n: usize = if len < 16 { 16 } else { len };
    let mut out: Vec<char> = Vec::new();
    while out.len() < n
        invariant
            out@.len() <= n,
            forall|k: int| 0 <= k < out@.len() ==> out@[k] == '•',
        decreases n - out@.len(),
    {
        out.push('•');
    }
    assert(out@ =~= mask_text(len as nat));
    string_of(out.as_slice())
}

/// `s` with the first occurrence of `p` replaced by `t`, as `str::replacen(p, t, 1)`
/// gives it.
pub open spec fn replaced_first(s: Seq<char>, p: Seq<char>, t: Seq<char>) -> Seq<char> {
    match find_from(s, p, 0) {
        Some(i) => s.take(i) + t + s.skip(i + p.len()),
        None => s,
    }
}

/// `text` with the first occurrence of `p` replaced by `t`; see [`replaced_first`].
pub fn replace_first(text: &str, p: &str, t: &str) -> (r: String)
    ensures
        r@ == replaced_first(text@, p@, t@),
{
    let tc = chars_of(text);
    let pc = chars_of(p);
    let tl = tc.len();
    match find_chars(tc.as_slice(), pc.as_slice(), 0) {
        Some(i) => {
            proof {
                lemma_find_from(tc@, pc@, 0);
                assert(occurs_at(tc@, pc@, i as int));
            }
            let end: usize = i + pc.len();
            let mut out = slice_chars(tc.as_slice(), 0, i);
            push_all(&mut out, chars_of(t).as_slice());
            let rest = slice_chars(tc.as_slice(), end, tl);
            push_all(&mut out, rest.as_slice());
            assert(out@ =~= replaced_first(text@, p@, t@));
            string_of(out.as_slice())
        },
        None => String::from_str(text),
    }
}

/// The text of a detail row that would show `secret`: the text itself when the
/// secret is revealed, otherwise with the first occurrence of the secret replaced by
/// `mask`.
pub fn detail_text(text: &str, secret: &str, mask: &str, visible: bool) -> (r: String)
    ensures
        r@ == if visible { text@ } else { replaced_first(text@, secret@, mask@) },
{
    if visible {
        String::from_str(text)
    } else {
        replace_first(text, secret, mask)
    }
}

/// The title of the full-screen view: the account's name with its first `:` shown
/// as `" · "` (`"GitHub · carlo"`).
pub fn detail_header(name: &str) -> (r: String)
    ensures
        r@ == replaced_first(name@, ":"@, " · "@),
{
    replace_first(name, ":", " · ")
}

/// Whether a QR code of `qr_w` × `qr_h` cells fits in a `width` × `height` terminal
/// with its frame, title and help line (four more columns and rows).
pub open spec fn qr_fits_spec(width: u16, height: u16, qr_w: u16, qr_h: u16) -> bool {
    width >= qr_w + 4 && height >= qr_h + 4
}

/// Whether a QR code fits; see [`qr_fits_spec`].
pub fn qr_fits(width: u16, height: u16, qr_w: u16, qr_h: u16) -> (r: bool)
    ensures
        r == qr_fits_spec(width, height, qr_w, qr_h),
{
    (width as u32) >= (qr_w as u32) + 4 && (height as u32) >= (qr_h as u32) + 4
}

/// A span of `size` cells centred in the `avail` cells starting at `start`: its length
/// is at most `avail`, and it starts halfway into the room left (as far as a `u16`
/// reaches).
pub open spec fn centered_span_spec(start: u16, avail: u16, size: u16) -> (u16, u16) {
    let len: u16 = if size < avail { size } else { avail };
    let pos: int = start + (avail - len) / 2;
    (if pos <= u16::MAX { pos as u16 } else { u16::MAX }, len)
}

/// Centres a span; see [`centered_span_spec`]. Returns (start, length).
pub fn centered_span(start: u16, avail: u16, size: u16) -> (r: (u16, u16))
    ensures
        r == centered_span_spec(start, avail, size),
{
    let len: u16 = if size < avail { size } else { avail };
    let pos: u32 = (start as u32) + ((avail - len) / 2) as u32;
    (if pos <= 65535 { pos as u16 } else { 65535 }, len)
}

/// Size of the full-screen view of one account in a `width` × `height` terminal:
/// wide enough for half-height digits (80 columns for an eight-digit code, 68
/// otherwise) it is at most 82 or 78 wide and uses them; otherwise at most 60 wide
/// with quarter-size digits. It is 20 rows high (23 while the reveal prompt shows),
/// at most the height less two. Returns (width, height, half-height digits).
pub open spec fn detail_modal_spec(width: u16, height: u16, eight_digits: bool, revealing: bool) -> (u16, u16, bool) {
    let half = width >= if eight_digits { 80u16 } else { 68u16 };
    let cap: u16 = if half { if eight_digits { 82 } else { 78 } } else { 60 };
    let w = if width < cap { width } else { cap };
    let want: u16 = if revealing { 23 } else { 20 };
    let room: u16 = if height >= 2 { (height - 2) as u16 } else { 0 };
    (w, if want < room { want } else { room }, half)
}

/// The size of the full-screen view; see [`detail_modal_spec`].
pub fn detail_modal(width: u16, height: u16, eight_digits: bool, revealing: bool) -> (r: (u16, u16, bool))
    ensures
        r == detail_modal_spec(width, height, eight_digits, revealing),
{
    let half = width >= if eight_digits { 80 } else { 68 };
    let cap: u16 = if half { if eight_digits { 82 } else { 78 } } else { 60 };
    let w = if width < cap { width } else { cap };
    let want: u16 = if revealing { 23 } else { 20 };
    let room: u16 = if height >= 2 { height - 2 } else { 0 };
    (w, if want < room { want } else { room }, half)
}

/// A progress bar of `len` cells whose first `filled` cells are full (`█`) and the
/// rest empty (`░`).
pub open spec fn bar_cells(filled: nat, len: nat) -> Seq<char> {
    Seq::new(len, |i: int| if i < filled { '█' } else { '░' })
}

/// The text of a progress bar; see [`bar_cells`].
pub fn bar_text(filled: u64, len: u64) -> (r: String)
    requires
        filled <= len,
        len <= usize::MAX,
    ensures
        r@ == bar_cells(filled as nat, len as nat),
{
    let mut out: Vec<char> = Vec::new();
    let mut i: u64 = 0;
    while i < len
        invariant
            i <= len,
            out@ =~= bar_cells(filled as nat, i as nat),
        decreases len - i,
    {
        out.push(if i < filled { '█' } else { '░' });
        i = i + 1;
    }
    string_of(out.as_slice())
}

/// A path shown in `width` columns: whole when it fits, otherwise `…` followed by
/// its last `width - 1` characters.
pub open spec fn path_tail(path: Seq<char>, width: nat) -> Seq<char> {
    if path.len() <= width || width == 0 {
        path
    } else {
        seq!['…'] + path.skip(path.len() - (width - 1))
    }
}

/// The picker's current directory as it fits in `width` columns; see [`path_tail`].
pub fn shown_path(path: &str, width: usize) -> (r: String)
    ensures
        r@ == path_tail(path@, width as nat),
{
    let pc = chars_of(path);
    if pc.len() <= width || width == 0 {
        return String::from_str(path);
    }
    let mut out: Vec<char> = Vec::new();
    out.push('…');
    push_all(&mut out, slice_chars(pc.as_slice(), pc.len() - (width - 1), pc.len()).as_slice());
    assert(out@ =~= path_tail(path@, width as nat));
    string_of(out.as_slice())
}

} // verus!
