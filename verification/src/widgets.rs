//! The account-list and code-display widgets: their data and what they show.
use vstd::prelude::*;
use crate::text::{
    chars_of, contains_chars, decimal, decimal_chars, has_substring, padded, push_all, push_padded,
    string_of,
};
use crate::theme::{brand_of, mode_timer_color, text_muted_of, text_of, Rgb, ThemeMode};

verus! {

/// One row of the account list.
pub struct AccountEntry {
    pub issuer: String,
    pub account: String,
    /// The current code; `None` shows it masked.
    pub code: Option<String>,
    pub seconds: u64,
}

/// Which row of the account list is selected, if any.
pub struct AccountListState {
    pub selected: Option<usize>,
}

impl AccountListState {
    /// No row selected.
    pub fn new() -> (s: AccountListState)
        ensures
            s.selected is None,
    {
        AccountListState { selected: None }
    }

    /// Selects row `i`.
    pub fn select(&mut self, i: usize)
        ensures
            final(self).selected == Some(i),
    {
        self.selected = Some(i);
    }

    /// The selected row.
    pub fn selected(&self) -> (r: Option<usize>)
        ensures
            r == self.selected,
    {
        self.selected
    }
}

impl Default for AccountListState {
    /// No row selected, as [`AccountListState::new`].
    fn default() -> (s: AccountListState)
        ensures
            s.selected is None,
    {
        AccountListState::new()
    }
}

/// The account list widget.
pub struct AccountList {
    pub entries: Vec<AccountEntry>,
    pub theme: ThemeMode,
}

/// Text in the code column of a row: the code (or `"──────"` when it is unknown) on the
/// selected row, `"●●●●●●"` on every other row.
pub open spec fn row_code_text(e: AccountEntry, is_selected: bool) -> Seq<char> {
    if is_selected {
        match e.code {
            Some(c) => c@,
            None => "──────"@,
        }
    } else {
        "●●●●●●"@
    }
}

impl AccountList {
    /// A list of `entries` in the dark theme.
    pub fn new(entries: Vec<AccountEntry>) -> (l: AccountList)
        ensures
            l.entries@ == entries@,
            l.theme == ThemeMode::Dark,
    {
        AccountList { entries, theme: ThemeMode::Dark }
    }

    /// The same list in theme `t`.
    pub fn theme(self, t: ThemeMode) -> (l: AccountList)
        ensures
            l.entries@ == self.entries@,
            l.theme == t,
    {
        let mut s = self;
        s.theme = t;
        s
    }

    /// The issuer column of row `i`: the issuer padded to 14 characters.
    pub fn row_label(&self, i: usize) -> (r: String)
        requires
            i < self.entries@.len(),
        ensures
            r@ == padded(self.entries@[i as int].issuer@, 14),
    {
        let mut out: Vec<char> = Vec::new();
        push_padded(&mut out, chars_of(self.entries[i].issuer.as_str()).as_slice(), 14);
        string_of(out.as_slice())
    }

    /// The code column of row `i` when `selected` is the selected row.
    pub fn row_code(&self, i: usize, selected: Option<usize>) -> (r: String)
        requires
            i < self.entries@.len(),
        ensures
            r@ == row_code_text(self.entries@[i as int], selected == Some(i)),
    {
        if selected == Some(i) {
            match &self.entries[i].code {
                Some(c) => c.clone(),
                None => String::from_str("──────"),
            }
        } else {
            String::from_str("●●●●●●")
        }
    }

    /// Colour of the code of a row: brand when selected, muted otherwise.
    pub fn row_code_color(&self, is_selected: bool) -> (c: Rgb)
        ensures
            is_selected ==> c == brand_of(self.theme),
            !is_selected ==> c == text_muted_of(self.theme),
    {
        if is_selected {
            self.theme.brand()
        } else {
            self.theme.text_muted()
        }
    }

    /// Colour of the issuer of a row: text when selected, muted otherwise.
    pub fn row_label_color(&self, is_selected: bool) -> (c: Rgb)
        ensures
            is_selected ==> c == text_of(self.theme),
            !is_selected ==> c == text_muted_of(self.theme),
    {
        if is_selected {
            self.theme.text()
        } else {
            self.theme.text_muted()
        }
    }
}

/// The large code display of one account.
pub struct OtpDisplay {
    pub issuer: String,
    pub account: String,
    /// The formatted code, e.g. `"847 392"`.
    pub code: String,
    /// Seconds left in the TOTP window.
    pub seconds: u64,
    /// The TOTP period, usually 30.
    pub period: u64,
    pub focused: bool,
    pub theme: ThemeMode,
}

impl OtpDisplay {
    /// A display of `code` for issuer and account, unfocused, dark theme.
    pub fn new(issuer: String, account: String, code: String, seconds: u64, period: u64) -> (d:
        OtpDisplay)
        ensures
            d.issuer@ == issuer@,
            d.account@ == account@,
            d.code@ == code@,
            d.seconds == seconds,
            d.period == period,
            !d.focused,
            d.theme == ThemeMode::Dark,
    {
        OtpDisplay { issuer, account, code, seconds, period, focused: false, theme: ThemeMode::Dark }
    }

    /// The same display, focused or not.
    pub fn focused(self, f: bool) -> (d: OtpDisplay)
        ensures
            d == (OtpDisplay { focused: f, ..self }),
    {
        let mut s = self;
        s.focused = f;
        s
    }

    /// The same display in theme `t`.
    pub fn theme(self, t: ThemeMode) -> (d: OtpDisplay)
        ensures
            d == (OtpDisplay { theme: t, ..self }),
    {
        let mut s = self;
        s.theme = t;
        s
    }

    /// The header line: `"<issuer> · <account>"`.
    pub fn header(&self) -> (r: String)
        ensures
            r@ == self.issuer@ + " · "@ + self.account@,
    {
        let mut out = chars_of(self.issuer.as_str());
        push_all(&mut out, chars_of(" · ").as_slice());
        push_all(&mut out, chars_of(self.account.as_str()).as_slice());
        string_of(out.as_slice())
    }

    /// The countdown label: `"<seconds>s remaining"`.
    pub fn seconds_label(&self) -> (r: String)
        ensures
            r@ == decimal(self.seconds as nat) + "s remaining"@,
    {
        let mut out = decimal_chars(self.seconds);
        push_all(&mut out, chars_of("s remaining").as_slice());
        string_of(out.as_slice())
    }

    /// Colour of the code: brand when focused, the countdown colour otherwise.
    pub fn code_color(&self) -> (c: Rgb)
        ensures
            self.focused ==> c == brand_of(self.theme),
            !self.focused ==> c == mode_timer_color(self.theme, self.seconds),
    {
        if self.focused {
            self.theme.brand()
        } else {
            self.theme.timer_color(self.seconds)
        }
    }
}

/// Whether a status message reports a copy: it mentions `Copied` or `copied`.
pub open spec fn reports_copy(msg: Seq<char>) -> bool {
    has_substring(msg, "Copied"@) || has_substring(msg, "copied"@)
}

/// The text of the toast showing `msg`, and whether it is a copy confirmation (shown
/// with a check mark, in the brand colour) rather than an error.
pub fn toast_label(msg: &str) -> (r: (String, bool))
    ensures
        r.1 == reports_copy(msg@),
        r.0@ == if r.1 { "  ✓  "@ + msg@ + "  "@ } else { "  "@ + msg@ + "  "@ },
{
    let mc = chars_of(msg);
    let is_copy = contains_chars(mc.as_slice(), chars_of("Copied").as_slice())
        || contains_chars(mc.as_slice(), chars_of("copied").as_slice());
    let mut out = if is_copy { chars_of("  ✓  ") } else { chars_of("  ") };
    push_all(&mut out, mc.as_slice());
    push_all(&mut out, chars_of("  ").as_slice());
    (string_of(out.as_slice()), is_copy)
}

} // verus!
