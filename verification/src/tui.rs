//! The interactive interface as a state machine: screens, the state they share,
//! and how each key press changes it. The event loop that draws, reads keys and
//! touches the vault, clipboard and file system lives outside the library; the
//! transitions here tell it what to do through an [`Effect`].
use vstd::prelude::*;
use crate::entry::{OtpMeta, OtpSecret, VaultEntry};
use crate::secret::{secret_text, SecretBuf};

verus! {

/// The screens of the interface.
#[derive(Clone, Copy, Debug, PartialEq, Eq, Structural)]
pub enum Screen {
    Unlock,
    List,
    Fullscreen,
    AddForm,
    AddName,
    DeleteConfirm,
    FilePicker,
    Export,
    ExportQr,
    ExportOtpauthList,
    ExportUriList,
    ScanningQr,
}

/// A vault change deferred by one redraw so a "Saving…" toast shows first.
#[derive(Clone, Copy, Debug, PartialEq, Eq, Structural)]
pub enum PendingVaultAction {
    DeleteEntry(usize),
    AddEntry,
}

/// The parts of [`OtpMeta`] the interface keeps, as plain values.
#[verifier::ext_equal]
pub ghost struct MetaView {
    pub issuer: Option<Seq<char>>,
    pub account: Option<Seq<char>>,
    pub algorithm: Option<Seq<char>>,
    pub digits: Option<u8>,
    pub period: Option<u32>,
}

/// The value of an `Option<String>`.
pub open spec fn opt_text(o: Option<String>) -> Option<Seq<char>> {
    match o {
        Some(s) => Some(s@),
        None => None,
    }
}

/// The value of an [`OtpMeta`].
pub open spec fn meta_view(m: OtpMeta) -> MetaView {
    MetaView {
        issuer: opt_text(m.issuer),
        account: opt_text(m.account),
        algorithm: opt_text(m.algorithm),
        digits: m.digits,
        period: m.period,
    }
}

/// All the state the interface keeps between key presses.
pub struct AppState {
    pub screen: Screen,
    pub passphrase_input: SecretBuf,
    pub selected_index: usize,
    pub status_message: Option<String>,
    /// When the current status message was shown (milliseconds on the caller's
    /// monotonic clock); `None` keeps it until dismissed.
    pub status_message_at: Option<u64>,
    pub add_name: String,
    pub add_secret_input: String,
    pub add_parsed_secret: SecretBuf,
    pub add_meta: Option<OtpMeta>,
    pub add_focused_field: usize,
    pub unlock_error: bool,
    pub unlock_error_msg: Option<String>,
    pub is_new_vault: bool,
    pub unlock_confirming: bool,
    pub passphrase_confirm: SecretBuf,
    /// The passphrase of the unlocked vault, kept to save changes and to check a
    /// reveal request.
    pub vault_key_cache: Option<SecretBuf>,
    pub show_codes: bool,
    pub export_checked: Vec<bool>,
    pub export_selected: usize,
    pub export_qr_lines: Vec<String>,
    /// Where Esc on the QR screen returns to.
    pub export_qr_back: Screen,
    pub otpauth_list_qrs: Vec<Vec<String>>,
    pub otpauth_list_titles: Vec<String>,
    pub otpauth_list_index: usize,
    /// (display name, `otpauth://` URI) pairs of the URI-list export.
    pub export_uri_list: Vec<(String, String)>,
    pub export_uri_scroll: u16,
    pub fp_path: String,
    /// (name, is-directory) entries of the picker's current directory.
    pub fp_entries: Vec<(String, bool)>,
    pub fp_selected: usize,
    pub fp_query: String,
    pub fp_checked: Vec<String>,
    pub pending_scan_path: Option<String>,
    pub pending_vault_action: Option<PendingVaultAction>,
    pub detail_revealing: bool,
    pub detail_passphrase: SecretBuf,
    pub detail_secret_visible: bool,
    /// When the last key or click arrived (milliseconds on the caller's clock); the
    /// vault locks itself after [`IDLE_LOCK_MS`] without one.
    pub last_activity: u64,
}

/// The value of an [`AppState`]: every field, with texts as character sequences.
#[verifier::ext_equal]
pub ghost struct AppView {
    pub screen: Screen,
    pub passphrase_input: Seq<char>,
    pub selected_index: usize,
    pub status_message: Option<Seq<char>>,
    pub status_message_at: Option<u64>,
    pub add_name: Seq<char>,
    pub add_secret_input: Seq<char>,
    pub add_parsed_secret: Seq<char>,
    pub add_meta: Option<MetaView>,
    pub add_focused_field: usize,
    pub unlock_error: bool,
    pub unlock_error_msg: Option<Seq<char>>,
    pub is_new_vault: bool,
    pub unlock_confirming: bool,
    pub passphrase_confirm: Seq<char>,
    pub vault_key_cache: Option<Seq<char>>,
    pub show_codes: bool,
    pub export_checked: Seq<bool>,
    pub export_selected: usize,
    pub export_qr_lines: Seq<Seq<char>>,
    pub export_qr_back: Screen,
    pub otpauth_list_qrs: Seq<Seq<Seq<char>>>,
    pub otpauth_list_titles: Seq<Seq<char>>,
    pub otpauth_list_index: usize,
    pub export_uri_list: Seq<(Seq<char>, Seq<char>)>,
    pub export_uri_scroll: u16,
    pub fp_path: Seq<char>,
    pub fp_entries: Seq<(Seq<char>, bool)>,
    pub fp_selected: usize,
    pub fp_query: Seq<char>,
    pub fp_checked: Seq<Seq<char>>,
    pub pending_scan_path: Option<Seq<char>>,
    pub pending_vault_action: Option<PendingVaultAction>,
    pub detail_revealing: bool,
    pub detail_passphrase: Seq<char>,
    pub detail_secret_visible: bool,
    pub last_activity: u64,
}

impl View for AppState {
    type V = AppView;

    open spec fn view(&self) -> AppView {
        AppView {
            screen: self.screen,
            passphrase_input: secret_text(self.passphrase_input),
            selected_index: self.selected_index,
            status_message: opt_text(self.status_message),
            status_message_at: self.status_message_at,
            add_name: self.add_name@,
            add_secret_input: self.add_secret_input@,
            add_parsed_secret: secret_text(self.add_parsed_secret),
            add_meta: match self.add_meta {
                Some(m) => Some(meta_view(m)),
                None => None,
            },
            add_focused_field: self.add_focused_field,
            unlock_error: self.unlock_error,
            unlock_error_msg: opt_text(self.unlock_error_msg),
            is_new_vault: self.is_new_vault,
            unlock_confirming: self.unlock_confirming,
            passphrase_confirm: secret_text(self.passphrase_confirm),
            vault_key_cache: match self.vault_key_cache {
                Some(k) => Some(secret_text(k)),
                None => None,
            },
            show_codes: self.show_codes,
            export_checked: self.export_checked@,
            export_selected: self.export_selected,
            export_qr_lines: self.export_qr_lines.deep_view(),
            export_qr_back: self.export_qr_back,
            otpauth_list_qrs: self.otpauth_list_qrs.deep_view(),
            otpauth_list_titles: self.otpauth_list_titles.deep_view(),
            otpauth_list_index: self.otpauth_list_index,
            export_uri_list: self.export_uri_list.deep_view(),
            export_uri_scroll: self.export_uri_scroll,
            fp_path: self.fp_path@,
            fp_entries: self.fp_entries.deep_view(),
            fp_selected: self.fp_selected,
            fp_query: self.fp_query@,
            fp_checked: self.fp_checked.deep_view(),
            pending_scan_path: opt_text(self.pending_scan_path),
            pending_vault_action: self.pending_vault_action,
            detail_revealing: self.detail_revealing,
            detail_passphrase: secret_text(self.detail_passphrase),
            detail_secret_visible: self.detail_secret_visible,
            last_activity: self.last_activity,
        }
    }
}

/// The state the interface starts in: the unlock screen, nothing typed, codes shown,
/// all lists empty.
pub open spec fn initial_view() -> AppView {
    AppView {
        screen: Screen::Unlock,
        passphrase_input: Seq::empty(),
        selected_index: 0,
        status_message: None,
        status_message_at: None,
        add_name: Seq::empty(),
        add_secret_input: Seq::empty(),
        add_parsed_secret: Seq::empty(),
        add_meta: None,
        add_focused_field: 0,
        unlock_error: false,
        unlock_error_msg: None,
        is_new_vault: false,
        unlock_confirming: false,
        passphrase_confirm: Seq::empty(),
        vault_key_cache: None,
        show_codes: true,
        export_checked: Seq::empty(),
        export_selected: 0,
        export_qr_lines: Seq::empty(),
        export_qr_back: Screen::Export,
        otpauth_list_qrs: Seq::empty(),
        otpauth_list_titles: Seq::empty(),
        otpauth_list_index: 0,
        export_uri_list: Seq::empty(),
        export_uri_scroll: 0,
        fp_path: Seq::empty(),
        fp_entries: Seq::empty(),
        fp_selected: 0,
        fp_query: Seq::empty(),
        fp_checked: Seq::empty(),
        pending_scan_path: None,
        pending_vault_action: None,
        detail_revealing: false,
        detail_passphrase: Seq::empty(),
        detail_secret_visible: false,
        last_activity: 0,
    }
}

/// The add form emptied: no name, input, secret or parameters, first field focused,
/// no status message.
pub open spec fn cleared_add_form(v: AppView) -> AppView {
    AppView {
        add_name: Seq::empty(),
        add_secret_input: Seq::empty(),
        add_parsed_secret: Seq::empty(),
        add_meta: None,
        add_focused_field: 0,
        status_message: None,
        ..v
    }
}

/// The secret hidden again and any reveal prompt closed.
pub open spec fn detail_reset(v: AppView) -> AppView {
    AppView {
        detail_revealing: false,
        detail_passphrase: Seq::empty(),
        detail_secret_visible: false,
        ..v
    }
}

/// Locked: the cached passphrase and any typed passphrase forgotten, unlock errors
/// and the confirmation step cleared, back on the unlock screen.
pub open spec fn locked(v: AppView) -> AppView {
    AppView {
        vault_key_cache: None,
        passphrase_input: Seq::empty(),
        unlock_error: false,
        unlock_error_msg: None,
        unlock_confirming: false,
        screen: Screen::Unlock,
        ..v
    }
}

impl Default for AppState {
    /// The initial state, as [`AppState::new`].
    fn default() -> (s: AppState)
        ensures
            s@ == initial_view(),
    {
        AppState::new()
    }
}

impl AppState {
    /// The initial state.
    pub fn new() -> (s: AppState)
        ensures
            s@ == initial_view(),
    {
        AppState {
            screen: Screen::Unlock,
            passphrase_input: SecretBuf::new(),
            selected_index: 0,
            status_message: None,
            status_message_at: None,
            add_name: String::new(),
            add_secret_input: String::new(),
            add_parsed_secret: SecretBuf::new(),
            add_meta: None,
            add_focused_field: 0,
            unlock_error: false,
            unlock_error_msg: None,
            is_new_vault: false,
            unlock_confirming: false,
            passphrase_confirm: SecretBuf::new(),
            vault_key_cache: None,
            show_codes: true,
            export_checked: Vec::new(),
            export_selected: 0,
            export_qr_lines: Vec::new(),
            export_qr_back: Screen::Export,
            otpauth_list_qrs: Vec::new(),
            otpauth_list_titles: Vec::new(),
            otpauth_list_index: 0,
            export_uri_list: Vec::new(),
            export_uri_scroll: 0,
            fp_path: String::new(),
            fp_entries: Vec::new(),
            fp_selected: 0,
            fp_query: String::new(),
            fp_checked: Vec::new(),
            pending_scan_path: None,
            pending_vault_action: None,
            detail_revealing: false,
            detail_passphrase: SecretBuf::new(),
            detail_secret_visible: false,
            last_activity: 0,
        }
    }

    /// Hides the secret again and closes any reveal prompt.
    pub fn reset_detail_reveal(&mut self)
        ensures
            final(self)@ == detail_reset(old(self)@),
    {
        self.detail_revealing = false;
        self.detail_passphrase = SecretBuf::new();
        self.detail_secret_visible = false;
    }

    /// Empties the add form and its status message.
    pub fn clear_add_form(&mut self)
        ensures
            final(self)@ == cleared_add_form(old(self)@),
    {
        self.add_name = String::new();
        self.add_secret_input = String::new();
        self.add_parsed_secret = SecretBuf::new();
        self.add_meta = None;
        self.add_focused_field = 0;
        self.status_message = None;
    }

    /// Locks the interface: forgets the passphrase and returns to the unlock screen.
    pub fn lock_screen(&mut self)
        ensures
            final(self)@ == locked(old(self)@),
    {
        if let Some(k) = &mut self.vault_key_cache {
            k.wipe();
        }
        self.vault_key_cache = None;
        self.passphrase_input.wipe();
        self.passphrase_input = SecretBuf::new();
        self.unlock_error = false;
        self.unlock_error_msg = None;
        self.unlock_confirming = false;
        self.screen = Screen::Unlock;
    }
}

} // verus!

verus! {

/// A key press, as the interface distinguishes them.
#[derive(Clone, Copy, Debug, PartialEq, Eq, Structural)]
pub enum Key {
    Char(char),
    Enter,
    Esc,
    Backspace,
    Tab,
    Up,
    Down,
    Left,
    Right,
    Other,
}

/// What the event loop must do after a transition.
#[derive(Clone, Copy, Debug, PartialEq, Eq, Structural)]
pub enum Effect {
    /// Nothing beyond redrawing.
    Nothing,
    /// Leave the interface.
    Quit,
    /// Copy the vault's path to the clipboard.
    CopyVaultPath,
    /// Copy the current code of the selected entry, then report with `copy_done`.
    CopySelectedCode,
    /// Copy the `otpauth://` URI of the selected entry, then report with `copy_done`.
    CopySelectedUri,
    /// Copy all URIs of the URI-list export, then report with `copy_done`.
    CopyUriList,
    /// Open the vault with the typed passphrase, then report with `unlock_succeeded`
    /// or `unlock_failed`.
    LoadVault,
    /// Check whether `input_path_candidates` names an existing file, then report a hit
    /// with `input_path_found`.
    ProbeInputPath,
    /// Act on `submitted_input` (see `classify_add_input`).
    SubmitAddInput,
    /// List the working directory, then report with `picker_opened`.
    OpenFilePicker,
    /// Open the entry `picker_choice` names: a directory (`".."` for the parent, then
    /// `picker_entered_dir`) or a file to import.
    OpenPickerEntry,
    /// Build one QR of the `selected_indices` accounts, then `show_export_qr` or
    /// `export_failed`.
    ExportQr,
    /// Build one `otpauth://` QR per selected account, then `show_otpauth_list`.
    ExportOtpauthList,
    /// List the URIs of the selected accounts, then `show_uri_list`.
    ExportUriList,
}

/// Whether `k` is one of the "up" keys (arrow or `k`).
pub open spec fn is_up(k: Key) -> bool {
    k == Key::Up || k == Key::Char('k')
}

/// Whether `k` is one of the "down" keys (arrow or `j`).
pub open spec fn is_down(k: Key) -> bool {
    k == Key::Down || k == Key::Char('j')
}

/// The selection moved up by one, stopping at the first entry.
pub open spec fn moved_up(i: usize) -> usize {
    if i > 0 { (i - 1) as usize } else { i }
}

/// The selection moved down by one, stopping at the last of `len` entries.
pub open spec fn moved_down(i: usize, len: nat) -> usize {
    if len > 0 && i < len - 1 { (i + 1) as usize } else { i }
}

/// The status message `msg`, shown at `now` so it disappears on its own.
pub open spec fn with_toast(v: AppView, msg: Seq<char>, now: u64) -> AppView {
    AppView { status_message: Some(msg), status_message_at: Some(now), ..v }
}

/// The export screen opened with every one of `len` entries checked and the
/// cursor on the selected entry.
pub open spec fn export_opened(v: AppView, len: nat) -> AppView {
    AppView {
        export_checked: Seq::new(len, |i: int| true),
        export_selected: if v.selected_index < len - 1 { v.selected_index } else { (len - 1) as usize },
        screen: Screen::Export,
        ..v
    }
}

/// A key on the account list holding `len` entries. While a dropped file path is
/// being typed (the add input is not empty) only characters (added to it) and Esc
/// (which drops it) count; a path starts with `/` or `~`.
pub open spec fn list_step(v: AppView, key: Key, len: nat) -> (AppView, Effect) {
    if v.add_secret_input.len() > 0 {
        match key {
            Key::Esc => (
                AppView { add_secret_input: Seq::empty(), pending_scan_path: None, ..v },
                Effect::Nothing,
            ),
            Key::Char(c) => (
                AppView { add_secret_input: v.add_secret_input.push(c), ..v },
                Effect::ProbeInputPath,
            ),
            _ => (v, Effect::Nothing),
        }
    } else if key == Key::Char('q') {
        (v, Effect::Quit)
    } else if is_up(key) {
        (AppView { selected_index: moved_up(v.selected_index), ..v }, Effect::Nothing)
    } else if is_down(key) {
        (AppView { selected_index: moved_down(v.selected_index, len), ..v }, Effect::Nothing)
    } else if key == Key::Char(' ') {
        (if len > 0 { AppView { screen: Screen::Fullscreen, ..v } } else { v }, Effect::Nothing)
    } else if key == Key::Char('a') {
        (AppView { screen: Screen::AddForm, ..cleared_add_form(v) }, Effect::Nothing)
    } else if key == Key::Char('d') {
        (if len > 0 { AppView { screen: Screen::DeleteConfirm, ..v } } else { v }, Effect::Nothing)
    } else if key == Key::Char('h') {
        (AppView { show_codes: !v.show_codes, ..v }, Effect::Nothing)
    } else if key == Key::Char('i') {
        (
            if len > 0 { AppView { screen: Screen::Fullscreen, ..detail_reset(v) } } else { v },
            Effect::Nothing,
        )
    } else if key == Key::Char('e') && len > 0 {
        (export_opened(v, len), Effect::Nothing)
    } else if key == Key::Char('y') {
        (v, Effect::CopySelectedCode)
    } else if key == Key::Char('l') {
        (locked(v), Effect::Nothing)
    } else if key == Key::Char('/') || key == Key::Char('~') {
        let c = if key == Key::Char('/') { '/' } else { '~' };
        (AppView { add_secret_input: v.add_secret_input.push(c), ..v }, Effect::ProbeInputPath)
    } else {
        (v, Effect::Nothing)
    }
}

/// `len` copies of `true`.
fn all_checked(len: usize) -> (r: Vec<bool>)
    ensures
        r@ == Seq::new(len as nat, |i: int| true),
{
    let mut r: Vec<bool> = Vec::new();
    while r.len() < len
        invariant
            r@.len() <= len,
            forall|i: int| 0 <= i < r@.len() ==> r@[i],
        decreases len - r@.len(),
    {
        r.push(true);
    }
    assert(r@ =~= Seq::new(len as nat, |i: int| true));
    r
}

impl AppState {
    /// Handles a key on the account list holding `len` entries.
    #[verifier::spinoff_prover]
    #[verifier::rlimit(60)]
    pub fn handle_list_key(&mut self, key: Key, len: usize) -> (eff: Effect)
        ensures
            (final(self)@, eff) == list_step(old(self)@, key, len as nat),
    {
        if !self.add_secret_input.as_str().is_empty() {
            assert(old(self).add_secret_input@.len() > 0);
            return match key {
                Key::Esc => {
                    self.add_secret_input = String::new();
                    self.pending_scan_path = None;
                    Effect::Nothing
                },
                Key::Char(c) => {
                    self.add_secret_input.push(c);
                    Effect::ProbeInputPath
                },
                _ => Effect::Nothing,
            };
        }
        assert(old(self).add_secret_input@.len() == 0);
        if key == Key::Char('q') {
            Effect::Quit
        } else if key == Key::Up || key == Key::Char('k') {
            if self.selected_index > 0 {
                self.selected_index = self.selected_index - 1;
            }
            Effect::Nothing
        } else if key == Key::Down || key == Key::Char('j') {
            if len > 0 && self.selected_index < len - 1 {
                self.selected_index = self.selected_index + 1;
            }
            Effect::Nothing
        } else if key == Key::Char(' ') {
            if len > 0 {
                self.screen = Screen::Fullscreen;
            }
            Effect::Nothing
        } else if key == Key::Char('a') {
            self.clear_add_form();
            self.screen = Screen::AddForm;
            Effect::Nothing
        } else if key == Key::Char('d') {
            if len > 0 {
                self.screen = Screen::DeleteConfirm;
            }
            Effect::Nothing
        } else if key == Key::Char('h') {
            self.show_codes = !self.show_codes;
            Effect::Nothing
        } else if key == Key::Char('i') {
            if len > 0 {
                self.reset_detail_reveal();
                self.screen = Screen::Fullscreen;
            }
            Effect::Nothing
        } else if key == Key::Char('e') && len > 0 {
            self.export_checked = all_checked(len);
            self.export_selected = if self.selected_index < len - 1 {
                self.selected_index
            } else {
                len - 1
            };
            self.screen = Screen::Export;
            Effect::Nothing
        } else if key == Key::Char('y') {
            Effect::CopySelectedCode
        } else if key == Key::Char('l') {
            self.lock_screen();
            Effect::Nothing
        } else if key == Key::Char('/') || key == Key::Char('~') {
            let c = if key == Key::Char('/') { '/' } else { '~' };
            self.add_secret_input.push(c);
            Effect::ProbeInputPath
        } else {
            Effect::Nothing
        }
    }
}

} // verus!

verus! {

/// Whether the reveal passphrase typed on the detail view is the vault's.
pub open spec fn reveal_matches(v: AppView) -> bool {
    match v.vault_key_cache {
        Some(k) => k == v.detail_passphrase,
        None => false,
    }
}

/// A key on the full-screen view of the selected entry (code, parameters, secret
/// and URI), with `len` entries in the vault. While the reveal prompt is open the
/// key edits or submits the passphrase; a wrong one is reported at `now`.
pub open spec fn fullscreen_step(v: AppView, key: Key, len: nat, now: u64) -> (AppView, Effect) {
    if v.detail_revealing {
        match key {
            Key::Esc => (
                AppView { detail_revealing: false, detail_passphrase: Seq::empty(), ..v },
                Effect::Nothing,
            ),
            Key::Char(c) => (
                AppView { detail_passphrase: v.detail_passphrase.push(c), ..v },
                Effect::Nothing,
            ),
            Key::Backspace => (
                AppView { detail_passphrase: crate::text::drop_last_char(v.detail_passphrase), ..v },
                Effect::Nothing,
            ),
            Key::Enter => if reveal_matches(v) {
                (
                    AppView {
                        detail_secret_visible: true,
                        detail_revealing: false,
                        detail_passphrase: Seq::empty(),
                        ..v
                    },
                    Effect::Nothing,
                )
            } else {
                (
                    AppView { detail_passphrase: Seq::empty(), ..with_toast(v, "Wrong passphrase"@, now) },
                    Effect::Nothing,
                )
            },
            _ => (v, Effect::Nothing),
        }
    } else if key == Key::Esc || key == Key::Char('q') || key == Key::Char('i') || key
        == Key::Char(' ') {
        (AppView { screen: Screen::List, ..detail_reset(v) }, Effect::Nothing)
    } else if key == Key::Char('y') {
        (v, Effect::CopySelectedCode)
    } else if key == Key::Char('u') {
        (v, Effect::CopySelectedUri)
    } else if key == Key::Char('l') {
        (locked(v), Effect::Nothing)
    } else if key == Key::Char('s') {
        if v.detail_secret_visible {
            (AppView { detail_secret_visible: false, ..v }, Effect::Nothing)
        } else {
            (AppView { detail_revealing: true, detail_passphrase: Seq::empty(), ..v }, Effect::Nothing)
        }
    } else if is_up(key) && v.selected_index > 0 {
        (
            AppView { selected_index: (v.selected_index - 1) as usize, ..detail_reset(v) },
            Effect::Nothing,
        )
    } else if is_down(key) && len > 0 && v.selected_index < len - 1 {
        (
            AppView { selected_index: (v.selected_index + 1) as usize, ..detail_reset(v) },
            Effect::Nothing,
        )
    } else {
        (v, Effect::Nothing)
    }
}

/// A key on the add form. Typed characters are checked as a possible file path;
/// Enter submits the trimmed input when it is not empty; Tab opens the file picker.
pub open spec fn add_form_step(v: AppView, key: Key) -> (AppView, Effect) {
    match key {
        Key::Esc => (AppView { screen: Screen::List, ..cleared_add_form(v) }, Effect::Nothing),
        Key::Tab => (v, Effect::OpenFilePicker),
        Key::Char(c) => (
            AppView { add_secret_input: v.add_secret_input.push(c), ..v },
            Effect::ProbeInputPath,
        ),
        Key::Backspace => (
            AppView { add_secret_input: crate::text::drop_last_char(v.add_secret_input), ..v },
            Effect::Nothing,
        ),
        Key::Enter => (
            v,
            if crate::text::trim(v.add_secret_input).len() > 0 {
                Effect::SubmitAddInput
            } else {
                Effect::Nothing
            },
        ),
        _ => (v, Effect::Nothing),
    }
}

/// A key on the naming step of a new account. Enter with a non-blank name stores
/// the trimmed name, queues the add, and shows "Saving…" until the save is done.
pub open spec fn add_name_step(v: AppView, key: Key) -> AppView {
    match key {
        Key::Esc => AppView { screen: Screen::AddForm, status_message: None, ..v },
        Key::Char(c) => AppView { add_name: v.add_name.push(c), ..v },
        Key::Backspace => AppView { add_name: crate::text::drop_last_char(v.add_name), ..v },
        Key::Enter => {
            let name = crate::text::trim(v.add_name);
            if name.len() == 0 {
                AppView { status_message: Some("Name is required."@), ..v }
            } else {
                AppView {
                    add_name: name,
                    pending_vault_action: Some(PendingVaultAction::AddEntry),
                    status_message: Some("Saving…"@),
                    status_message_at: None,
                    screen: Screen::List,
                    ..v
                }
            }
        },
        _ => v,
    }
}

/// A key on the delete confirmation: `y` queues deleting the selected entry and
/// shows "Saving…"; `n` or Esc goes back to the list.
pub open spec fn delete_confirm_step(v: AppView, key: Key) -> AppView {
    if key == Key::Char('y') || key == Key::Char('Y') {
        AppView {
            pending_vault_action: Some(PendingVaultAction::DeleteEntry(v.selected_index)),
            status_message: Some("Saving…"@),
            status_message_at: None,
            screen: Screen::List,
            ..v
        }
    } else if key == Key::Char('n') || key == Key::Char('N') || key == Key::Esc {
        AppView { screen: Screen::List, ..v }
    } else {
        v
    }
}

impl AppState {
    /// Handles a key on the full-screen view; `len` entries, `now` the current time.
    pub fn handle_fullscreen_key(&mut self, key: Key, len: usize, now: u64) -> (eff: Effect)
        ensures
            (final(self)@, eff) == fullscreen_step(old(self)@, key, len as nat, now),
            !old(self).detail_revealing && (key == Key::Down || key == Key::Char('j'))
                && old(self).selected_index + 1 < len ==> final(self).selected_index
                == old(self).selected_index + 1,
            !old(self).detail_revealing && (key == Key::Up || key == Key::Char('k'))
                && old(self).selected_index > 0 ==> final(self).selected_index
                == old(self).selected_index - 1,
    {
        if self.detail_revealing {
            match key {
                Key::Esc => {
                    self.detail_revealing = false;
                    self.detail_passphrase.clear();
                },
                Key::Char(c) => {
                    self.detail_passphrase.push(c);
                },
                Key::Backspace => {
                    self.detail_passphrase.pop();
                },
                Key::Enter => {
                    let correct = match &self.vault_key_cache {
                        Some(k) => k.same_text(&self.detail_passphrase),
                        None => false,
                    };
                    if correct {
                        self.detail_secret_visible = true;
                        self.detail_revealing = false;
                        self.detail_passphrase.clear();
                    } else {
                        self.status_message = Some(String::from_str("Wrong passphrase"));
                        self.status_message_at = Some(now);
                        self.detail_passphrase.clear();
                    }
                },
                _ => {},
            }
            return Effect::Nothing;
        }
        if key == Key::Esc || key == Key::Char('q') || key == Key::Char('i') || key == Key::Char(
            ' ',
        ) {
            self.reset_detail_reveal();
            self.screen = Screen::List;
            Effect::Nothing
        } else if key == Key::Char('y') {
            Effect::CopySelectedCode
        } else if key == Key::Char('u') {
            Effect::CopySelectedUri
        } else if key == Key::Char('l') {
            self.lock_screen();
            Effect::Nothing
        } else if key == Key::Char('s') {
            if self.detail_secret_visible {
                self.detail_secret_visible = false;
            } else {
                self.detail_revealing = true;
                self.detail_passphrase.clear();
            }
            Effect::Nothing
        } else if (key == Key::Up || key == Key::Char('k')) && self.selected_index > 0 {
            self.reset_detail_reveal();
            self.selected_index = self.selected_index - 1;
            Effect::Nothing
        } else if (key == Key::Down || key == Key::Char('j')) && len > 0 && self.selected_index
            < len - 1 {
            self.reset_detail_reveal();
            self.selected_index = self.selected_index + 1;
            Effect::Nothing
        } else {
            Effect::Nothing
        }
    }

    /// Handles a key on the add form.
    pub fn handle_add_form_key(&mut self, key: Key) -> (eff: Effect)
        ensures
            (final(self)@, eff) == add_form_step(old(self)@, key),
    {
        match key {
            Key::Esc => {
                self.clear_add_form();
                self.screen = Screen::List;
                Effect::Nothing
            },
            Key::Tab => Effect::OpenFilePicker,
            Key::Char(c) => {
                self.add_secret_input.push(c);
                Effect::ProbeInputPath
            },
            Key::Backspace => {
                self.add_secret_input.pop();
                Effect::Nothing
            },
            Key::Enter => {
                let raw = crate::text::trim_chars(
                    crate::text::chars_of(self.add_secret_input.as_str()).as_slice(),
                );
                if raw.len() > 0 {
                    Effect::SubmitAddInput
                } else {
                    Effect::Nothing
                }
            },
            _ => Effect::Nothing,
        }
    }

    /// Handles a key on the naming step.
    pub fn handle_add_name_key(&mut self, key: Key)
        ensures
            final(self)@ == add_name_step(old(self)@, key),
    {
        match key {
            Key::Esc => {
                self.screen = Screen::AddForm;
                self.status_message = None;
            },
            Key::Char(c) => {
                self.add_name.push(c);
            },
            Key::Backspace => {
                self.add_name.pop();
            },
            Key::Enter => {
                let name = crate::text::trim_chars(
                    crate::text::chars_of(self.add_name.as_str()).as_slice(),
                );
                if name.len() == 0 {
                    self.status_message = Some(String::from_str("Name is required."));
                } else {
                    self.add_name = crate::text::string_of(name.as_slice());
                    self.pending_vault_action = Some(PendingVaultAction::AddEntry);
                    self.status_message = Some(String::from_str("Saving…"));
                    self.status_message_at = None;
                    self.screen = Screen::List;
                }
            },
            _ => {},
        }
    }

    /// Handles a key on the delete confirmation.
    pub fn handle_delete_confirm_key(&mut self, key: Key)
        ensures
            final(self)@ == delete_confirm_step(old(self)@, key),
            key == Key::Char('y') || key == Key::Char('Y') ==> final(self).pending_vault_action
                == Some(PendingVaultAction::DeleteEntry(old(self).selected_index))
                && final(self).screen == Screen::List,
            key == Key::Char('n') || key == Key::Char('N') || key == Key::Esc ==> final(self).screen
                == Screen::List && final(self).pending_vault_action == old(self).pending_vault_action,
    {
        if key == Key::Char('y') || key == Key::Char('Y') {
            self.pending_vault_action = Some(PendingVaultAction::DeleteEntry(self.selected_index));
            self.status_message = Some(String::from_str("Saving…"));
            self.status_message_at = None;
            self.screen = Screen::List;
        } else if key == Key::Char('n') || key == Key::Char('N') || key == Key::Esc {
            self.screen = Screen::List;
        }
    }
}

} // verus!

verus! {

/// Whether entry `i` counts as checked: entries beyond the checkbox list count as checked.
pub open spec fn is_checked(checked: Seq<bool>, i: int) -> bool {
    if 0 <= i < checked.len() { checked[i] } else { true }
}

/// The checked entries among the first `n` of a vault, in order.
pub open spec fn checked_indices(checked: Seq<bool>, n: int) -> Seq<usize>
    decreases n,
{
    if n <= 0 {
        Seq::empty()
    } else if is_checked(checked, n - 1) {
        checked_indices(checked, n - 1).push((n - 1) as usize)
    } else {
        checked_indices(checked, n - 1)
    }
}

/// The export screen left because nothing is selected.
pub open spec fn nothing_selected(v: AppView) -> AppView {
    AppView { status_message: Some("No accounts selected."@), screen: Screen::List, ..v }
}

/// A key on the export screen of a vault with `len` entries: move, toggle the
/// entry under the cursor, or export the checked entries as one QR (Enter), one QR
/// per entry (`m`) or a list of URIs (`u`).
pub open spec fn export_step(v: AppView, key: Key, len: nat) -> (AppView, Effect) {
    let top = if len > 0 { len - 1 } else { 0 };
    if key == Key::Esc {
        (AppView { screen: Screen::List, ..v }, Effect::Nothing)
    } else if is_up(key) && v.export_selected > 0 {
        (AppView { export_selected: (v.export_selected - 1) as usize, ..v }, Effect::Nothing)
    } else if is_down(key) && v.export_selected < top {
        (AppView { export_selected: (v.export_selected + 1) as usize, ..v }, Effect::Nothing)
    } else if key == Key::Char(' ') {
        (
            if v.export_selected < v.export_checked.len() {
                AppView {
                    export_checked: v.export_checked.update(
                        v.export_selected as int,
                        !v.export_checked[v.export_selected as int],
                    ),
                    ..v
                }
            } else {
                v
            },
            Effect::Nothing,
        )
    } else if key == Key::Enter {
        (v, Effect::ExportQr)
    } else if key == Key::Char('m') || key == Key::Char('u') {
        if checked_indices(v.export_checked, len as int).len() == 0 {
            (nothing_selected(v), Effect::Nothing)
        } else {
            (v, if key == Key::Char('m') { Effect::ExportOtpauthList } else { Effect::ExportUriList })
        }
    } else {
        (v, Effect::Nothing)
    }
}

/// A key on the list of per-entry QR codes: left and right page through them.
pub open spec fn otpauth_list_step(v: AppView, key: Key) -> AppView {
    let total = v.otpauth_list_qrs.len();
    if key == Key::Esc {
        AppView { screen: Screen::Export, ..v }
    } else if (key == Key::Left || key == Key::Char('h')) && v.otpauth_list_index > 0 {
        AppView { otpauth_list_index: (v.otpauth_list_index - 1) as usize, ..v }
    } else if (key == Key::Right || key == Key::Char('l')) && total > 0 && v.otpauth_list_index
        < total - 1 {
        AppView { otpauth_list_index: (v.otpauth_list_index + 1) as usize, ..v }
    } else {
        v
    }
}

/// A key on the plain-text URI list: scroll, copy everything (`y`), or go back.
pub open spec fn uri_list_step(v: AppView, key: Key) -> (AppView, Effect) {
    if key == Key::Esc {
        (AppView { screen: Screen::Export, ..v }, Effect::Nothing)
    } else if key == Key::Up {
        (
            AppView {
                export_uri_scroll: if v.export_uri_scroll > 0 { (v.export_uri_scroll - 1) as u16 } else { 0 },
                ..v
            },
            Effect::Nothing,
        )
    } else if key == Key::Down {
        (
            AppView {
                export_uri_scroll: if v.export_uri_scroll < u16::MAX { (v.export_uri_scroll + 1) as u16 } else { u16::MAX },
                ..v
            },
            Effect::Nothing,
        )
    } else if key == Key::Char('y') {
        (v, Effect::CopyUriList)
    } else {
        (v, Effect::Nothing)
    }
}

/// A key on the file picker. Typing narrows the listing (see `picker::visible`);
/// Enter opens the highlighted directory or imports the highlighted file.
pub open spec fn picker_step(v: AppView, key: Key) -> (AppView, Effect) {
    match key {
        Key::Esc | Key::Tab => (AppView { screen: Screen::AddForm, ..v }, Effect::Nothing),
        Key::Backspace => (
            AppView { fp_query: crate::text::drop_last_char(v.fp_query), fp_selected: 0, ..v },
            Effect::Nothing,
        ),
        Key::Up => (
            AppView { fp_selected: moved_up(v.fp_selected), ..v },
            Effect::Nothing,
        ),
        Key::Down => {
            let n = crate::picker::visible(v.fp_entries, v.fp_query).len();
            (AppView { fp_selected: moved_down(v.fp_selected, n), ..v }, Effect::Nothing)
        },
        Key::Enter => (
            v,
            if v.fp_selected < crate::picker::visible(v.fp_entries, v.fp_query).len() {
                Effect::OpenPickerEntry
            } else {
                Effect::Nothing
            },
        ),
        Key::Char(c) => {
            let q = v.fp_query.push(c);
            let n = crate::picker::visible(v.fp_entries, q).len();
            (
                AppView { fp_query: q, fp_selected: if v.fp_selected >= n { 0 } else { v.fp_selected }, ..v },
                Effect::Nothing,
            )
        },
        _ => (v, Effect::Nothing),
    }
}

/// A key on the unlock screen. A new vault asks for the passphrase twice; Enter
/// opens the vault once the passphrase is settled.
pub open spec fn unlock_step(v: AppView, key: Key) -> (AppView, Effect) {
    if key == Key::Tab {
        (v, Effect::CopyVaultPath)
    } else if v.unlock_confirming {
        match key {
            Key::Char(c) => (
                AppView { passphrase_confirm: v.passphrase_confirm.push(c), ..v },
                Effect::Nothing,
            ),
            Key::Backspace => (
                AppView { passphrase_confirm: crate::text::drop_last_char(v.passphrase_confirm), ..v },
                Effect::Nothing,
            ),
            Key::Esc => (
                AppView {
                    unlock_confirming: false,
                    passphrase_confirm: Seq::empty(),
                    unlock_error: false,
                    unlock_error_msg: None,
                    ..v
                },
                Effect::Nothing,
            ),
            Key::Enter => if v.passphrase_input == v.passphrase_confirm {
                (v, Effect::LoadVault)
            } else {
                (
                    AppView {
                        unlock_error: true,
                        unlock_error_msg: Some("Passphrases do not match."@),
                        passphrase_confirm: Seq::empty(),
                        ..v
                    },
                    Effect::Nothing,
                )
            },
            _ => (v, Effect::Nothing),
        }
    } else {
        match key {
            Key::Char(c) => (
                AppView { passphrase_input: v.passphrase_input.push(c), ..v },
                Effect::Nothing,
            ),
            Key::Backspace => (
                AppView { passphrase_input: crate::text::drop_last_char(v.passphrase_input), ..v },
                Effect::Nothing,
            ),
            Key::Enter => if v.is_new_vault {
                (
                    if v.passphrase_input.len() > 0 {
                        AppView {
                            unlock_confirming: true,
                            unlock_error: false,
                            unlock_error_msg: None,
                            ..v
                        }
                    } else {
                        v
                    },
                    Effect::Nothing,
                )
            } else {
                (v, Effect::LoadVault)
            },
            _ => (v, Effect::Nothing),
        }
    }
}

/// The indices of the checked entries among the first `len`.
pub fn checked_selection(checked: &Vec<bool>, len: usize) -> (r: Vec<usize>)
    ensures
        r@ == checked_indices(checked@, len as int),
{
    let mut r: Vec<usize> = Vec::new();
    let mut i: usize = 0;
    while i < len
        invariant
            i <= len,
            r@ == checked_indices(checked@, i as int),
        decreases len - i,
    {
        let keep = if i < checked.len() { checked[i] } else { true };
        if keep {
            r.push(i);
        }
        i = i + 1;
    }
    r
}

impl AppState {
    /// Handles a key on the export screen; `len` entries in the vault.
    pub fn handle_export_key(&mut self, key: Key, len: usize) -> (eff: Effect)
        ensures
            (final(self)@, eff) == export_step(old(self)@, key, len as nat),
    {
        let top = if len > 0 { len - 1 } else { 0 };
        if key == Key::Esc {
            self.screen = Screen::List;
            Effect::Nothing
        } else if (key == Key::Up || key == Key::Char('k')) && self.export_selected > 0 {
            self.export_selected = self.export_selected - 1;
            Effect::Nothing
        } else if (key == Key::Down || key == Key::Char('j')) && self.export_selected < top {
            self.export_selected = self.export_selected + 1;
            Effect::Nothing
        } else if key == Key::Char(' ') {
            if self.export_selected < self.export_checked.len() {
                let b = self.export_checked[self.export_selected];
                self.export_checked.set(self.export_selected, !b);
            }
            Effect::Nothing
        } else if key == Key::Enter {
            Effect::ExportQr
        } else if key == Key::Char('m') || key == Key::Char('u') {
            let sel = checked_selection(&self.export_checked, len);
            if sel.len() == 0 {
                self.status_message = Some(String::from_str("No accounts selected."));
                self.screen = Screen::List;
                Effect::Nothing
            } else if key == Key::Char('m') {
                Effect::ExportOtpauthList
            } else {
                Effect::ExportUriList
            }
        } else {
            Effect::Nothing
        }
    }

    /// Handles a key on the list of per-entry QR codes.
    pub fn handle_otpauth_list_key(&mut self, key: Key)
        ensures
            final(self)@ == otpauth_list_step(old(self)@, key),
    {
        let total = self.otpauth_list_qrs.len();
        if key == Key::Esc {
            self.screen = Screen::Export;
        } else if (key == Key::Left || key == Key::Char('h')) && self.otpauth_list_index > 0 {
            self.otpauth_list_index = self.otpauth_list_index - 1;
        } else if (key == Key::Right || key == Key::Char('l')) && total > 0
            && self.otpauth_list_index < total - 1 {
            self.otpauth_list_index = self.otpauth_list_index + 1;
        }
    }

    /// Handles a key on the URI list.
    pub fn handle_uri_list_key(&mut self, key: Key) -> (eff: Effect)
        ensures
            (final(self)@, eff) == uri_list_step(old(self)@, key),
    {
        if key == Key::Esc {
            self.screen = Screen::Export;
            Effect::Nothing
        } else if key == Key::Up {
            if self.export_uri_scroll > 0 {
                self.export_uri_scroll = self.export_uri_scroll - 1;
            }
            Effect::Nothing
        } else if key == Key::Down {
            if self.export_uri_scroll < u16::MAX {
                self.export_uri_scroll = self.export_uri_scroll + 1;
            }
            Effect::Nothing
        } else if key == Key::Char('y') {
            Effect::CopyUriList
        } else {
            Effect::Nothing
        }
    }

    /// Handles a key on the file picker.
    pub fn handle_picker_key(&mut self, key: Key) -> (eff: Effect)
        ensures
            (final(self)@, eff) == picker_step(old(self)@, key),
    {
        match key {
            Key::Esc | Key::Tab => {
                self.screen = Screen::AddForm;
                Effect::Nothing
            },
            Key::Backspace => {
                self.fp_query.pop();
                self.fp_selected = 0;
                Effect::Nothing
            },
            Key::Up => {
                if self.fp_selected > 0 {
                    self.fp_selected = self.fp_selected - 1;
                }
                Effect::Nothing
            },
            Key::Down => {
                let n = crate::picker::filtered(self.fp_entries.as_slice(), self.fp_query.as_str()).len();
                if n > 0 && self.fp_selected < n - 1 {
                    self.fp_selected = self.fp_selected + 1;
                }
                Effect::Nothing
            },
            Key::Enter => {
                let n = crate::picker::filtered(self.fp_entries.as_slice(), self.fp_query.as_str()).len();
                if self.fp_selected < n {
                    Effect::OpenPickerEntry
                } else {
                    Effect::Nothing
                }
            },
            Key::Char(c) => {
                self.fp_query.push(c);
                let n = crate::picker::filtered(self.fp_entries.as_slice(), self.fp_query.as_str()).len();
                if self.fp_selected >= n {
                    self.fp_selected = 0;
                }
                Effect::Nothing
            },
            _ => Effect::Nothing,
        }
    }

    /// Handles a key on the unlock screen.
    pub fn handle_unlock_key(&mut self, key: Key) -> (eff: Effect)
        ensures
            (final(self)@, eff) == unlock_step(old(self)@, key),
    {
        if key == Key::Tab {
            return Effect::CopyVaultPath;
        }
        if self.unlock_confirming {
            match key {
                Key::Char(c) => {
                    self.passphrase_confirm.push(c);
                    Effect::Nothing
                },
                Key::Backspace => {
                    self.passphrase_confirm.pop();
                    Effect::Nothing
                },
                Key::Esc => {
                    self.unlock_confirming = false;
                    self.passphrase_confirm = SecretBuf::new();
                    self.unlock_error = false;
                    self.unlock_error_msg = None;
                    Effect::Nothing
                },
                Key::Enter => {
                    if self.passphrase_input.same_text(&self.passphrase_confirm) {
                        Effect::LoadVault
                    } else {
                        self.unlock_error = true;
                        self.unlock_error_msg = Some(String::from_str("Passphrases do not match."));
                        self.passphrase_confirm = SecretBuf::new();
                        Effect::Nothing
                    }
                },
                _ => Effect::Nothing,
            }
        } else {
            match key {
                Key::Char(c) => {
                    self.passphrase_input.push(c);
                    Effect::Nothing
                },
                Key::Backspace => {
                    self.passphrase_input.pop();
                    Effect::Nothing
                },
                Key::Enter => {
                    if self.is_new_vault {
                        if !self.passphrase_input.is_empty() {
                            self.unlock_confirming = true;
                            self.unlock_error = false;
                            self.unlock_error_msg = None;
                        }
                        Effect::Nothing
                    } else {
                        Effect::LoadVault
                    }
                },
                _ => Effect::Nothing,
            }
        }
    }
}

} // verus!

verus! {

/// A key on whatever screen is showing, with `len` entries in the vault, pressed at
/// `now`: it counts as activity, then acts as the screen's step says.
pub open spec fn key_step(v: AppView, key: Key, len: nat, now: u64) -> (AppView, Effect) {
    let v = AppView { last_activity: now, ..v };
    match v.screen {
        Screen::Unlock => unlock_step(v, key),
        Screen::List => list_step(v, key, len),
        Screen::Fullscreen => fullscreen_step(v, key, len, now),
        Screen::AddForm => add_form_step(v, key),
        Screen::AddName => (add_name_step(v, key), Effect::Nothing),
        Screen::FilePicker => picker_step(v, key),
        Screen::Export => export_step(v, key, len),
        Screen::ExportQr => (
            if key == Key::Esc { AppView { screen: v.export_qr_back, ..v } } else { v },
            Effect::Nothing,
        ),
        Screen::ExportOtpauthList => (otpauth_list_step(v, key), Effect::Nothing),
        Screen::ExportUriList => uri_list_step(v, key),
        Screen::DeleteConfirm => (delete_confirm_step(v, key), Effect::Nothing),
        Screen::ScanningQr => (v, Effect::Nothing),
    }
}

/// A left click at (`row`, `col`) with `len` entries whose list rows span
/// `content_width` columns. A click first dismisses a shown status message. On the
/// list, rows start at line 2 and each entry takes two lines (its row, then a
/// separator); clicking an entry's row selects it and copies its code. Clicking the
/// full-screen or export view goes back to the list. The click, made at `now`,
/// counts as activity.
pub open spec fn click_step(v: AppView, row: usize, col: usize, len: nat, content_width: usize, now: u64) -> (
    AppView,
    Effect,
) {
    let v = AppView { last_activity: now, ..v };
    if v.status_message is Some {
        (AppView { status_message: None, status_message_at: None, ..v }, Effect::Nothing)
    } else {
        match v.screen {
            Screen::List => if row >= 2 && (row - 2) < 2 * len && col < content_width && (row - 2)
                % 2 == 0 {
                (
                    AppView { selected_index: ((row - 2) / 2) as usize, ..v },
                    Effect::CopySelectedCode,
                )
            } else {
                (v, Effect::Nothing)
            },
            Screen::Fullscreen => (AppView { screen: Screen::List, ..detail_reset(v) }, Effect::Nothing),
            Screen::Export => (AppView { screen: Screen::List, ..v }, Effect::Nothing),
            _ => (v, Effect::Nothing),
        }
    }
}

/// How long the interface may stay without a key or click before the vault locks
/// itself: ten minutes, in milliseconds.
pub const IDLE_LOCK_MS: u64 = 600000;

/// Whether, at `now`, an unlocked interface has seen no key or click for
/// [`IDLE_LOCK_MS`].
pub open spec fn idle_expired(v: AppView, now: u64) -> bool {
    v.screen != Screen::Unlock && now >= v.last_activity && now - v.last_activity >= IDLE_LOCK_MS
}

/// Time passing: a status message shown at `at` goes away once 1500 ms have passed,
/// and after ten idle minutes the vault locks itself (see [`locked`]).
pub open spec fn tick_step(v: AppView, now: u64) -> AppView {
    let w = match v.status_message_at {
        Some(at) => if now >= at && now - at >= 1500 {
            AppView { status_message: None, status_message_at: None, ..v }
        } else {
            v
        },
        None => v,
    };
    if idle_expired(w, now) {
        locked(w)
    } else {
        w
    }
}

impl AppState {
    /// Handles a key press on the current screen.
    pub fn handle_key(&mut self, key: Key, len: usize, now: u64) -> (eff: Effect)
        ensures
            (final(self)@, eff) == key_step(old(self)@, key, len as nat, now),
    {
        self.last_activity = now;
        match self.screen {
            Screen::Unlock => self.handle_unlock_key(key),
            Screen::List => self.handle_list_key(key, len),
            Screen::Fullscreen => self.handle_fullscreen_key(key, len, now),
            Screen::AddForm => self.handle_add_form_key(key),
            Screen::AddName => {
                self.handle_add_name_key(key);
                Effect::Nothing
            },
            Screen::FilePicker => self.handle_picker_key(key),
            Screen::Export => self.handle_export_key(key, len),
            Screen::ExportQr => {
                if key == Key::Esc {
                    self.screen = self.export_qr_back;
                }
                Effect::Nothing
            },
            Screen::ExportOtpauthList => {
                self.handle_otpauth_list_key(key);
                Effect::Nothing
            },
            Screen::ExportUriList => self.handle_uri_list_key(key),
            Screen::DeleteConfirm => {
                self.handle_delete_confirm_key(key);
                Effect::Nothing
            },
            Screen::ScanningQr => Effect::Nothing,
        }
    }

    /// Handles a left click.
    pub fn handle_click(&mut self, row: usize, col: usize, len: usize, content_width: usize, now: u64) -> (eff:
        Effect)
        ensures
            (final(self)@, eff) == click_step(old(self)@, row, col, len as nat, content_width, now),
    {
        self.last_activity = now;
        if self.status_message.is_some() {
            self.status_message = None;
            self.status_message_at = None;
            return Effect::Nothing;
        }
        match self.screen {
            Screen::List => {
                if row >= 2 && (row - 2) / 2 < len && col < content_width && (row - 2) % 2 == 0 {
                    self.selected_index = (row - 2) / 2;
                    Effect::CopySelectedCode
                } else {
                    Effect::Nothing
                }
            },
            Screen::Fullscreen => {
                self.reset_detail_reveal();
                self.screen = Screen::List;
                Effect::Nothing
            },
            Screen::Export => {
                self.screen = Screen::List;
                Effect::Nothing
            },
            _ => Effect::Nothing,
        }
    }

    /// Lets a timed status message expire at time `now`, and locks the vault after ten
    /// idle minutes.
    pub fn tick(&mut self, now: u64)
        ensures
            final(self)@ == tick_step(old(self)@, now),
    {
        if let Some(at) = self.status_message_at {
            if now >= at && now - at >= 1500 {
                self.status_message = None;
                self.status_message_at = None;
            }
        }
        if self.screen != Screen::Unlock && now >= self.last_activity && now - self.last_activity
            >= IDLE_LOCK_MS {
            self.lock_screen();
        }
    }

    /// Shows `msg` until dismissed.
    pub fn set_status(&mut self, msg: String)
        ensures
            final(self)@ == (AppView { status_message: Some(msg@), ..old(self)@ }),
    {
        self.status_message = Some(msg);
    }

    /// Shows `msg`, timed from `now`.
    pub fn set_toast(&mut self, msg: String, now: u64)
        ensures
            final(self)@ == with_toast(old(self)@, msg@, now),
    {
        self.status_message = Some(msg);
        self.status_message_at = Some(now);
    }
}

} // verus!

verus! {

/// How copying to the clipboard went.
pub enum CopyOutcome {
    Copied,
    ClipboardUnavailable,
    /// The code could not be generated; the error's text.
    CodeFailed(String),
}

/// What the scanning step of the event loop does next.
#[derive(Clone, Copy, Debug, PartialEq, Eq, Structural)]
pub enum ScanStep {
    /// Nothing pending.
    Idle,
    /// The loader screen was just switched on; redraw before scanning.
    ShowLoader,
    /// Import the file that was pending (its path is returned alongside).
    Import,
}

/// The message after an import that added `imported` accounts and skipped `skipped`
/// duplicates.
pub open spec fn import_message(imported: nat, skipped: nat) -> Seq<char> {
    if imported == 0 && skipped > 0 {
        "Already imported ("@ + crate::text::decimal(skipped) + " duplicate(s))."@
    } else if skipped > 0 {
        "Imported "@ + crate::text::decimal(imported) + " account(s)."@ + " Skipped "@
            + crate::text::decimal(skipped) + " duplicate(s)."@
    } else {
        "Imported "@ + crate::text::decimal(imported) + " account(s)."@
    }
}

/// The state after a successful unlock of a vault (`empty` when it holds nothing):
/// errors cleared, the passphrase moved into the cache, on the add form for an
/// empty vault and on the list otherwise. Coming from the confirmation step also
/// leaves that step and forgets the confirmation.
pub open spec fn unlocked(v: AppView, empty: bool) -> AppView {
    let base = if empty {
        AppView { screen: Screen::AddForm, ..cleared_add_form(v) }
    } else {
        AppView { screen: Screen::List, ..v }
    };
    let done = AppView {
        unlock_error: false,
        unlock_error_msg: None,
        vault_key_cache: Some(v.passphrase_input),
        passphrase_input: Seq::empty(),
        ..base
    };
    if v.unlock_confirming {
        AppView {
            is_new_vault: false,
            unlock_confirming: false,
            passphrase_confirm: Seq::empty(),
            ..done
        }
    } else {
        done
    }
}

/// The state after the vault refused to open with message `err`. From the
/// confirmation step the error is shown and the confirmation forgotten; otherwise
/// the typed passphrase is forgotten.
pub open spec fn unlock_refused(v: AppView, err: Seq<char>) -> AppView {
    if v.unlock_confirming {
        AppView {
            unlock_error: true,
            unlock_error_msg: Some("Error: "@ + err),
            passphrase_confirm: Seq::empty(),
            ..v
        }
    } else {
        AppView { unlock_error: true, unlock_error_msg: None, passphrase_input: Seq::empty(), ..v }
    }
}

/// After the vault dropped an entry and now holds `new_len`: a selection past the
/// end moves back by one.
pub open spec fn delete_adjusted(v: AppView, new_len: nat) -> AppView {
    if v.selected_index > 0 && v.selected_index >= new_len {
        AppView { selected_index: (v.selected_index - 1) as usize, ..v }
    } else {
        v
    }
}

impl AppState {
    /// The file-path readings of the add input to check, in order: trimmed with
    /// `"\ "` unescaped to a space, then trimmed as typed.
    pub fn input_path_candidates(&self) -> (r: Vec<String>)
        ensures
            r@.len() == 2,
            r@[0]@ == crate::text::replace_all(crate::text::trim(self.add_secret_input@), "\\ "@, " "@),
            r@[1]@ == crate::text::trim(self.add_secret_input@),
    {
        let raw = crate::text::trim_chars(crate::text::chars_of(self.add_secret_input.as_str()).as_slice());
        let pat = crate::text::chars_of("\\ ");
        let sp = crate::text::chars_of(" ");
        assert(pat@.len() > 0) by {
            reveal_strlit("\\ ");
        }
        let unescaped = crate::text::replace_chars(raw.as_slice(), pat.as_slice(), sp.as_slice());
        let mut r: Vec<String> = Vec::new();
        r.push(crate::text::string_of(unescaped.as_slice()));
        r.push(crate::text::string_of(raw.as_slice()));
        r
    }

    /// A typed or dropped path named the file `fp`: it is queued for scanning, and
    /// from the add form the loader screen comes up at once.
    pub fn input_path_found(&mut self, fp: String)
        ensures
            final(self)@ == (AppView {
                pending_scan_path: Some(fp@),
                screen: if old(self).screen == Screen::AddForm { Screen::ScanningQr } else { old(self).screen },
                ..old(self)@
            }),
    {
        self.pending_scan_path = Some(fp);
        if self.screen == Screen::AddForm {
            self.screen = Screen::ScanningQr;
        }
    }

    /// The add-form text as submitted: trimmed.
    pub fn submitted_input(&self) -> (r: String)
        ensures
            r@ == crate::text::trim(self.add_secret_input@),
    {
        let raw = crate::text::trim_chars(crate::text::chars_of(self.add_secret_input.as_str()).as_slice());
        crate::text::string_of(raw.as_slice())
    }

    /// A single URI was parsed: its secret and parameters are kept, its name
    /// proposed, and the naming step shown.
    pub fn accept_parsed_uri(&mut self, otp: OtpSecret)
        ensures
            final(self)@ == (AppView {
                status_message: None,
                add_parsed_secret: otp.secret@,
                add_name: crate::naming::derived_name(otp.meta, Seq::empty()),
                add_meta: Some(meta_view(otp.meta)),
                screen: Screen::AddName,
                ..old(self)@
            }),
    {
        self.status_message = None;
        proof {
            reveal_strlit("");
        }
        self.add_name = crate::naming::name_from_meta(&otp.meta, "");
        self.add_parsed_secret = SecretBuf::from_string(otp.secret);
        self.add_meta = Some(otp.meta);
        self.screen = Screen::AddName;
    }

    /// Submitted text could not be read: a single URI reports `"Error: <err>"`,
    /// any bulk import `"Import failed: <err>"`.
    pub fn add_input_failed(&mut self, single_uri: bool, err: &str)
        ensures
            final(self)@ == (AppView {
                status_message: Some(if single_uri { "Error: "@ + err@ } else { "Import failed: "@ + err@ }),
                ..old(self)@
            }),
    {
        let mut out = if single_uri {
            crate::text::chars_of("Error: ")
        } else {
            crate::text::chars_of("Import failed: ")
        };
        crate::text::push_all(&mut out, crate::text::chars_of(err).as_slice());
        self.status_message = Some(crate::text::string_of(out.as_slice()));
    }

    /// A file could not be imported: the form and filter are cleared, back on the
    /// list with `"Import failed: <err>"`.
    pub fn import_file_failed(&mut self, err: &str)
        ensures
            final(self)@ == (AppView {
                status_message: Some("Import failed: "@ + err@),
                fp_query: Seq::empty(),
                screen: Screen::List,
                ..cleared_add_form(old(self)@)
            }),
    {
        self.clear_add_form();
        self.fp_query = String::new();
        self.screen = Screen::List;
        let mut out = crate::text::chars_of("Import failed: ");
        crate::text::push_all(&mut out, crate::text::chars_of(err).as_slice());
        self.status_message = Some(crate::text::string_of(out.as_slice()));
    }

    /// Before importing parsed accounts: form and filter cleared, back on the list.
    pub fn begin_import(&mut self)
        ensures
            final(self)@ == (AppView { fp_query: Seq::empty(), screen: Screen::List, ..cleared_add_form(old(self)@) }),
    {
        self.clear_add_form();
        self.fp_query = String::new();
        self.screen = Screen::List;
    }

    /// After an import: the counts are reported (see `import_message`).
    pub fn import_done(&mut self, imported: usize, skipped: usize)
        ensures
            final(self)@ == (AppView {
                status_message: Some(import_message(imported as nat, skipped as nat)),
                ..old(self)@
            }),
    {
        let mut out: Vec<char>;
        if imported == 0 && skipped > 0 {
            out = crate::text::chars_of("Already imported (");
            crate::text::push_all(&mut out, crate::text::decimal_chars(skipped as u64).as_slice());
            crate::text::push_all(&mut out, crate::text::chars_of(" duplicate(s)).").as_slice());
        } else {
            out = crate::text::chars_of("Imported ");
            crate::text::push_all(&mut out, crate::text::decimal_chars(imported as u64).as_slice());
            crate::text::push_all(&mut out, crate::text::chars_of(" account(s).").as_slice());
            if skipped > 0 {
                crate::text::push_all(&mut out, crate::text::chars_of(" Skipped ").as_slice());
                crate::text::push_all(&mut out, crate::text::decimal_chars(skipped as u64).as_slice());
                crate::text::push_all(&mut out, crate::text::chars_of(" duplicate(s).").as_slice());
            }
        }
        self.status_message = Some(crate::text::string_of(out.as_slice()));
    }

    /// A save was attempted with no cached passphrase: a lasting error says so.
    pub fn save_locked(&mut self)
        ensures
            final(self)@ == (AppView {
                status_message: Some("SAVE ERROR: vault is locked — changes not persisted!"@),
                status_message_at: None,
                ..old(self)@
            }),
    {
        self.status_message = Some(String::from_str("SAVE ERROR: vault is locked — changes not persisted!"));
        self.status_message_at = None;
    }

    /// Saving failed with `err`: a lasting `"SAVE ERROR: <err>"`.
    pub fn save_failed(&mut self, err: &str)
        ensures
            final(self)@ == (AppView {
                status_message: Some("SAVE ERROR: "@ + err@),
                status_message_at: None,
                ..old(self)@
            }),
    {
        let mut out = crate::text::chars_of("SAVE ERROR: ");
        crate::text::push_all(&mut out, crate::text::chars_of(err).as_slice());
        self.status_message = Some(crate::text::string_of(out.as_slice()));
        self.status_message_at = None;
    }

    /// Reports a clipboard copy at `now`.
    pub fn copy_done(&mut self, outcome: CopyOutcome, now: u64)
        ensures
            final(self)@ == with_toast(
                old(self)@,
                match outcome {
                    CopyOutcome::Copied => "Copied to clipboard"@,
                    CopyOutcome::ClipboardUnavailable => "Clipboard unavailable"@,
                    CopyOutcome::CodeFailed(e) => "Error: "@ + e@,
                },
                now,
            ),
    {
        let msg = match outcome {
            CopyOutcome::Copied => String::from_str("Copied to clipboard"),
            CopyOutcome::ClipboardUnavailable => String::from_str("Clipboard unavailable"),
            CopyOutcome::CodeFailed(e) => {
                let mut out = crate::text::chars_of("Error: ");
                crate::text::push_all(&mut out, crate::text::chars_of(e.as_str()).as_slice());
                crate::text::string_of(out.as_slice())
            },
        };
        self.status_message = Some(msg);
        self.status_message_at = Some(now);
    }

    /// The vault opened; `empty` tells whether it holds no entries.
    pub fn unlock_succeeded(&mut self, empty: bool)
        ensures
            final(self)@ == unlocked(old(self)@, empty),
    {
        let confirming = self.unlock_confirming;
        self.unlock_error = false;
        self.unlock_error_msg = None;
        if confirming {
            self.is_new_vault = false;
            self.unlock_confirming = false;
        }
        if empty {
            self.clear_add_form();
            self.screen = Screen::AddForm;
        } else {
            self.screen = Screen::List;
        }
        self.vault_key_cache = Some(self.passphrase_input.duplicate());
        self.passphrase_input.clear();
        if confirming {
            self.passphrase_confirm = SecretBuf::new();
        }
    }

    /// The vault did not open; `err` is why.
    pub fn unlock_failed(&mut self, err: &str)
        ensures
            final(self)@ == unlock_refused(old(self)@, err@),
    {
        if self.unlock_confirming {
            self.unlock_error = true;
            let mut out = crate::text::chars_of("Error: ");
            crate::text::push_all(&mut out, crate::text::chars_of(err).as_slice());
            self.unlock_error_msg = Some(crate::text::string_of(out.as_slice()));
            self.passphrase_confirm = SecretBuf::new();
        } else {
            self.unlock_error = true;
            self.unlock_error_msg = None;
            self.passphrase_input.clear();
        }
    }
}

} // verus!

verus! {

impl AppState {
    /// The picker opened on directory `path` listing `entries`: filter and cursor reset.
    pub fn picker_opened(&mut self, path: String, entries: Vec<(String, bool)>)
        ensures
            final(self)@ == (AppView {
                fp_path: path@,
                fp_entries: entries.deep_view(),
                fp_selected: 0,
                fp_query: Seq::empty(),
                screen: Screen::FilePicker,
                ..old(self)@
            }),
    {
        self.fp_path = path;
        self.fp_selected = 0;
        self.fp_query = String::new();
        self.fp_entries = entries;
        self.screen = Screen::FilePicker;
    }

    /// The picker moved into directory `path` listing `entries`: filter and cursor reset.
    pub fn picker_entered_dir(&mut self, path: String, entries: Vec<(String, bool)>)
        ensures
            final(self)@ == (AppView {
                fp_path: path@,
                fp_entries: entries.deep_view(),
                fp_selected: 0,
                fp_query: Seq::empty(),
                ..old(self)@
            }),
    {
        self.fp_path = path;
        self.fp_query = String::new();
        self.fp_entries = entries;
        self.fp_selected = 0;
    }

    /// The highlighted picker entry among those the filter shows, if any.
    pub fn picker_choice(&self) -> (r: Option<(String, bool)>)
        ensures
            match r {
                Some(e) => self.fp_selected < crate::picker::visible(self@.fp_entries, self@.fp_query).len()
                    && (e.0@, e.1) == crate::picker::visible(self@.fp_entries, self@.fp_query)[self.fp_selected as int],
                None => self.fp_selected >= crate::picker::visible(self@.fp_entries, self@.fp_query).len(),
            },
    {
        let visible = crate::picker::filtered(self.fp_entries.as_slice(), self.fp_query.as_str());
        if self.fp_selected < visible.len() {
            let e = visible[self.fp_selected];
            Some((e.0.clone(), e.1))
        } else {
            None
        }
    }

    /// The indices of the entries checked for export, out of `len`.
    pub fn selected_indices(&self, len: usize) -> (r: Vec<usize>)
        ensures
            r@ == checked_indices(self@.export_checked, len as int),
    {
        checked_selection(&self.export_checked, len)
    }

    /// The export QR was built: show its `lines`.
    pub fn show_export_qr(&mut self, lines: Vec<String>)
        ensures
            final(self)@ == (AppView { export_qr_lines: lines.deep_view(), screen: Screen::ExportQr, ..old(self)@ }),
    {
        self.export_qr_lines = lines;
        self.screen = Screen::ExportQr;
    }

    /// The export selection was empty: say so on the list.
    pub fn export_empty(&mut self)
        ensures
            final(self)@ == nothing_selected(old(self)@),
    {
        self.status_message = Some(String::from_str("No accounts selected."));
        self.screen = Screen::List;
    }

    /// The export QR could not be built: show `err` on the list.
    pub fn export_failed(&mut self, err: String)
        ensures
            final(self)@ == (AppView { status_message: Some(err@), screen: Screen::List, ..old(self)@ }),
    {
        self.status_message = Some(err);
        self.screen = Screen::List;
    }

    /// One QR per selected entry was built: show the first of them.
    pub fn show_otpauth_list(&mut self, qrs: Vec<Vec<String>>, titles: Vec<String>)
        ensures
            final(self)@ == (AppView {
                otpauth_list_qrs: qrs.deep_view(),
                otpauth_list_titles: titles.deep_view(),
                otpauth_list_index: 0,
                screen: Screen::ExportOtpauthList,
                ..old(self)@
            }),
    {
        self.otpauth_list_qrs = qrs;
        self.otpauth_list_titles = titles;
        self.otpauth_list_index = 0;
        self.screen = Screen::ExportOtpauthList;
    }

    /// The URIs of the selected entries, as (name, URI) pairs: show them from the top.
    pub fn show_uri_list(&mut self, pairs: Vec<(String, String)>)
        ensures
            final(self)@ == (AppView {
                export_uri_list: pairs.deep_view(),
                export_uri_scroll: 0,
                screen: Screen::ExportUriList,
                ..old(self)@
            }),
    {
        self.export_uri_list = pairs;
        self.export_uri_scroll = 0;
        self.screen = Screen::ExportUriList;
    }

    /// Takes the queued vault change, if any.
    pub fn take_pending_action(&mut self) -> (r: Option<PendingVaultAction>)
        ensures
            r == old(self).pending_vault_action,
            final(self)@ == (AppView { pending_vault_action: None, ..old(self)@ }),
    {
        let r = self.pending_vault_action;
        self.pending_vault_action = None;
        r
    }

    /// The vault dropped an entry and now holds `new_len`.
    pub fn after_delete_removed(&mut self, new_len: usize)
        ensures
            final(self)@ == delete_adjusted(old(self)@, new_len as nat),
    {
        if self.selected_index > 0 && self.selected_index >= new_len {
            self.selected_index = self.selected_index - 1;
        }
    }

    /// The deletion was saved at `now`; the vault holds `new_len` entries: an empty
    /// vault goes to the add form, otherwise the list says "Deleted.".
    pub fn after_delete_saved(&mut self, new_len: usize, now: u64)
        ensures
            final(self)@ == if new_len == 0 {
                AppView { screen: Screen::AddForm, ..cleared_add_form(old(self)@) }
            } else {
                AppView { screen: Screen::List, ..with_toast(old(self)@, "Deleted."@, now) }
            },
    {
        if new_len == 0 {
            self.clear_add_form();
            self.screen = Screen::AddForm;
        } else {
            self.screen = Screen::List;
            self.status_message = Some(String::from_str("Deleted."));
            self.status_message_at = Some(now);
        }
    }

    /// The entry the queued add creates, dated `today`: the trimmed name, the parsed
    /// secret and its parameters (defaults for missing ones). The parameters are
    /// taken out of the form.
    pub fn pending_entry(&mut self, today: String) -> (e: VaultEntry)
        ensures
            final(self)@ == (AppView { add_meta: None, ..old(self)@ }),
            e.id@ == Seq::<char>::empty(),
            e.name@ == crate::text::trim(old(self).add_name@),
            e.secret@ == old(self)@.add_parsed_secret,
            e.created_at@ == today@,
            old(self).add_meta matches Some(m) ==> e.period == crate::entry::default_period(m.period)
                && e.digits == crate::entry::default_digits(m.digits)
                && e.algorithm@ == crate::entry::default_algorithm(m.algorithm),
            old(self).add_meta is None ==> e.period == 30 && e.digits == 6 && e.algorithm@ == "SHA1"@,
            old(self).add_meta matches Some(m) ==> (m.period matches Some(p) ==> e.period == p)
                && (m.digits matches Some(d) ==> e.digits == d)
                && (m.algorithm matches Some(a) ==> e.algorithm@ == a@),
    {
        let name = crate::text::string_of(
            crate::text::trim_chars(crate::text::chars_of(self.add_name.as_str()).as_slice()).as_slice(),
        );
        let secret = String::from_str(self.add_parsed_secret.expose());
        let meta = self.add_meta.take();
        let (period, digits, algorithm) = match &meta {
            Some(m) => (m.period_or_default(), m.digits_or_default(), m.algorithm_or_default()),
            None => (30, 6, String::from_str("SHA1")),
        };
        VaultEntry { id: String::new(), name, secret, created_at: today, period, digits, algorithm }
    }

    /// The queued add of `name` was saved at `now`; the vault holds `new_len`
    /// entries: the new (last) entry is selected, the form cleared, and the list
    /// says `"Added: <name>"`.
    pub fn after_add_saved(&mut self, new_len: usize, name: &str, now: u64)
        ensures
            final(self)@ == (AppView {
                selected_index: if new_len > 0 { (new_len - 1) as usize } else { 0 },
                screen: Screen::List,
                ..with_toast(cleared_add_form(old(self)@), "Added: "@ + name@, now)
            }),
    {
        self.selected_index = if new_len > 0 { new_len - 1 } else { 0 };
        self.clear_add_form();
        self.screen = Screen::List;
        let mut out = crate::text::chars_of("Added: ");
        crate::text::push_all(&mut out, crate::text::chars_of(name).as_slice());
        self.status_message = Some(crate::text::string_of(out.as_slice()));
        self.status_message_at = Some(now);
    }

    /// One step of the two-phase scan: a queued file first switches the list or add
    /// form to the loader screen; on the loader screen the queued file is taken for
    /// import.
    pub fn scan_step(&mut self) -> (r: (ScanStep, Option<String>))
        ensures
            (old(self).screen == Screen::List || old(self).screen == Screen::AddForm)
                && old(self).pending_scan_path is Some ==> r.0 == ScanStep::ShowLoader && r.1 is None
                && final(self)@ == (AppView { screen: Screen::ScanningQr, ..old(self)@ }),
            old(self).screen == Screen::ScanningQr ==> final(self)@ == (AppView {
                pending_scan_path: None,
                ..old(self)@
            }) && match old(self).pending_scan_path {
                Some(p) => r.0 == ScanStep::Import && r.1 == Some(p),
                None => r.0 == ScanStep::Idle && r.1 is None,
            },
            !((old(self).screen == Screen::List || old(self).screen == Screen::AddForm)
                && old(self).pending_scan_path is Some) && old(self).screen != Screen::ScanningQr
                ==> r.0 == ScanStep::Idle && r.1 is None && final(self)@ == old(self)@,
    {
        if (self.screen == Screen::List || self.screen == Screen::AddForm)
            && self.pending_scan_path.is_some() {
            self.screen = Screen::ScanningQr;
            return (ScanStep::ShowLoader, None);
        }
        if self.screen == Screen::ScanningQr {
            return match self.pending_scan_path.take() {
                Some(p) => (ScanStep::Import, Some(p)),
                None => (ScanStep::Idle, None),
            };
        }
        (ScanStep::Idle, None)
    }
}

} // verus!
