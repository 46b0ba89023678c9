//! The command line: its arguments and the decisions its commands make.
use vstd::prelude::*;
use crate::entry::VaultEntry;
use crate::naming::sanitized;
use crate::text::{
    chars_of, decimal, decimal_chars, lowercase, push_all, string_of, to_lowercase, trim,
    trim_chars,
};

verus! {

/// Arguments of `tofa add`.
pub struct AddArgs {
    /// Account name (required when using `--secret`).
    pub name: Option<String>,
    /// Base32-encoded TOTP secret.
    pub secret: Option<String>,
    /// `otpauth://` URI.
    pub uri: Option<String>,
    /// Path to a QR code image.
    pub qr: Option<String>,
}

/// Arguments of `tofa cam`.
pub struct CamArgs {
    /// Camera index passed to the browser.
    pub camera: u32,
    /// Override the account name.
    pub name: Option<String>,
}

/// Arguments of `tofa code`.
pub struct CodeArgs {
    /// Entry id or name (partial match).
    pub name: String,
    /// Output bare digits without space.
    pub raw: bool,
    /// Copy to the clipboard.
    pub copy: bool,
    /// Refresh every second until interrupted.
    pub watch: bool,
    /// Print or copy the entry's `otpauth://` URI instead of the code.
    pub uri: bool,
}

/// Shells that completions can be printed for.
#[derive(Clone, Copy, Debug, PartialEq, Eq, Structural)]
pub enum Shell {
    Bash,
    Elvish,
    Fish,
    PowerShell,
    Zsh,
}

/// Arguments of `tofa completions`.
pub struct CompletionsArgs {
    pub shell: Shell,
}

/// Format of `tofa export`.
#[derive(Clone, Copy, Debug, PartialEq, Eq, Structural)]
pub enum ExportFormat {
    /// Native JSON (re-importable, preserves all metadata).
    Json,
    /// Plain-text list of `otpauth://` URIs, one per line.
    Uris,
}

/// Arguments of `tofa export`.
pub struct ExportArgs {
    /// Write to a file instead of the default name.
    pub output: Option<String>,
    pub format: ExportFormat,
}

/// Arguments of `tofa import`.
pub struct ImportArgs {
    pub file: String,
}

/// Arguments of `tofa init` (none).
pub struct InitArgs {}

/// Arguments of `tofa list`.
pub struct ListArgs {
    /// Also display current codes and time remaining.
    pub codes: bool,
}

/// Arguments of `tofa qr`.
pub struct QrArgs {
    /// Entry id or name (partial match).
    pub name: Option<String>,
    /// Export all accounts.
    pub all: bool,
    /// One `otpauth://` QR per entry (needs `--all` and `--output-dir`).
    pub multi: bool,
    /// Save the QR as PNG instead of printing it.
    pub output: Option<String>,
    /// Directory for the per-entry PNGs of `--multi`.
    pub output_dir: Option<String>,
}

/// Arguments of `tofa remove`.
pub struct RemoveArgs {
    pub id: String,
}

/// Arguments of `tofa rename`.
pub struct RenameArgs {
    pub id: String,
    pub new_name: String,
}

/// Arguments of `tofa scan`.
pub struct ScanArgs {
    /// Override the account name (only applied when exactly one entry is found).
    pub name: Option<String>,
}

/// The subcommands.
pub enum Commands {
    Init(InitArgs),
    Destroy,
    List(ListArgs),
    Code(CodeArgs),
    Add(AddArgs),
    Remove(RemoveArgs),
    Rename(RenameArgs),
    Qr(QrArgs),
    Rekey,
    Completions(CompletionsArgs),
    Export(ExportArgs),
    Import(ImportArgs),
    Scan(ScanArgs),
    Cam(CamArgs),
}

/// The whole command line: an optional vault path and an optional subcommand
/// (none opens the interactive interface).
pub struct Cli {
    pub vault: Option<String>,
    pub command: Option<Commands>,
}

/// The vault path to use: the one given, else `default_path`.
pub fn resolve_vault_path(flag: Option<String>, default_path: String) -> (r: String)
    ensures
        r@ == match flag {
            Some(p) => p@,
            None => default_path@,
        },
{
    match flag {
        Some(p) => p,
        None => default_path,
    }
}

/// Routes a subcommand: every command but `completions` works on the vault at the
/// path resolved from `vault_flag` and `default_path`; `completions` needs none.
pub fn dispatch(cmd: Commands, vault_flag: Option<String>, default_path: String) -> (r: (
    Commands,
    Option<String>,
))
    ensures
        r.0 == cmd,
        r.1 matches Some(p) ==> p@ == match vault_flag {
            Some(f) => f@,
            None => default_path@,
        },
        r.1 is None <==> cmd is Completions,
{
    let path = resolve_vault_path(vault_flag, default_path);
    match cmd {
        Commands::Completions(args) => (Commands::Completions(args), None),
        other => (other, Some(path)),
    }
}

/// Where `tofa add` takes the account from.
pub enum AddSource {
    /// Scan the QR image at this path.
    QrImage(String),
    /// Parse this `otpauth://` URI.
    Uri(String),
    /// Store this secret under this name.
    Secret { name: String, secret: String },
}

/// The value of an [`AddSource`] result: (0 = QR image path, 1 = URI, 2 = name and
/// secret), or the error text.
pub open spec fn add_source_view(r: Result<AddSource, String>) -> Result<(int, Seq<char>, Seq<char>), Seq<char>> {
    match r {
        Ok(AddSource::QrImage(p)) => Ok((0, p@, Seq::empty())),
        Ok(AddSource::Uri(u)) => Ok((1, u@, Seq::empty())),
        Ok(AddSource::Secret { name, secret }) => Ok((2, name@, secret@)),
        Err(e) => Err(e@),
    }
}

/// The source `tofa add` uses: `--qr` first, then `--uri`, then `--secret` (which
/// needs `--name`); with none of them, an error.
pub open spec fn add_source_spec(args: AddArgs) -> Result<(int, Seq<char>, Seq<char>), Seq<char>> {
    match (args.qr, args.uri, args.secret) {
        (Some(p), _, _) => Ok((0, p@, Seq::empty())),
        (None, Some(u), _) => Ok((1, u@, Seq::empty())),
        (None, None, Some(s)) => match args.name {
            Some(n) => Ok((2, n@, s@)),
            None => Err("--name is required when using --secret"@),
        },
        (None, None, None) => Err("Provide --secret, --uri, or --qr."@),
    }
}

/// Picks the source of `tofa add`.
pub fn add_source(args: &AddArgs) -> (r: Result<AddSource, String>)
    ensures
        add_source_view(r) == add_source_spec(*args),
{
    if let Some(p) = &args.qr {
        return Ok(AddSource::QrImage(p.clone()));
    }
    if let Some(u) = &args.uri {
        return Ok(AddSource::Uri(u.clone()));
    }
    if let Some(s) = &args.secret {
        return match &args.name {
            Some(n) => Ok(AddSource::Secret { name: n.clone(), secret: s.clone() }),
            None => Err(String::from_str("--name is required when using --secret")),
        };
    }
    Err(String::from_str("Provide --secret, --uri, or --qr."))
}

/// What `tofa qr` produces.
pub enum QrMode {
    /// One PNG per entry in this directory.
    PerEntry(String),
    /// One QR for the whole vault.
    All,
    /// One QR for the entry this query names.
    Single(String),
}

/// The value of a [`QrMode`] result: (0 = per-entry directory, 1 = all, 2 = single
/// query) with its text, or the error text.
pub open spec fn qr_mode_view(r: Result<QrMode, String>) -> Result<(int, Seq<char>), Seq<char>> {
    match r {
        Ok(QrMode::PerEntry(d)) => Ok((0, d@)),
        Ok(QrMode::All) => Ok((1, Seq::empty())),
        Ok(QrMode::Single(n)) => Ok((2, n@)),
        Err(e) => Err(e@),
    }
}

/// The mode `tofa qr` runs in.
pub open spec fn qr_mode_spec(args: QrArgs) -> Result<(int, Seq<char>), Seq<char>> {
    if args.multi {
        match args.output_dir {
            Some(d) => Ok((0, d@)),
            None => Err("--multi requires --output-dir"@),
        }
    } else if args.all {
        Ok((1, Seq::empty()))
    } else {
        match args.name {
            Some(n) => Ok((2, n@)),
            None => Err("provide a name or --all"@),
        }
    }
}

/// Picks the mode of `tofa qr`: `--multi` (which needs `--output-dir`), else
/// `--all`, else a name (which is then needed).
pub fn qr_mode(args: &QrArgs) -> (r: Result<QrMode, String>)
    ensures
        qr_mode_view(r) == qr_mode_spec(*args),
{
    if args.multi {
        return match &args.output_dir {
            Some(d) => Ok(QrMode::PerEntry(d.clone())),
            None => Err(String::from_str("--multi requires --output-dir")),
        };
    }
    if args.all {
        return Ok(QrMode::All);
    }
    match &args.name {
        Some(n) => Ok(QrMode::Single(n.clone())),
        None => Err(String::from_str("provide a name or --all")),
    }
}

/// `n` written with at least two digits, as `{:02}` formats it.
pub open spec fn two_digits(n: nat) -> Seq<char> {
    if n < 10 { "0"@ + decimal(n) } else { decimal(n) }
}

/// The file name of the `i`-th (from 0) per-entry PNG: `"<i+1, two digits>-<name
/// made file-safe>.png"`.
pub open spec fn qr_file_name_spec(i: nat, name: Seq<char>) -> Seq<char> {
    two_digits(i + 1) + "-"@ + sanitized(name) + ".png"@
}

/// The file name of the `i`-th per-entry PNG of `tofa qr --multi`.
pub fn qr_file_name(i: u64, name: &str) -> (r: String)
    requires
        i < u64::MAX,
    ensures
        r@ == qr_file_name_spec(i as nat, name@),
{
    let n = i + 1;
    let mut out = if n < 10 { chars_of("0") } else { Vec::new() };
    push_all(&mut out, decimal_chars(n).as_slice());
    push_all(&mut out, chars_of("-").as_slice());
    push_all(&mut out, chars_of(crate::naming::sanitize_filename(name).as_str()).as_slice());
    push_all(&mut out, chars_of(".png").as_slice());
    string_of(out.as_slice())
}

/// The default export file: `"tofa-export-<date>.json"` or `".txt"` for URI lists.
pub open spec fn export_file_name_spec(date: Seq<char>, format: ExportFormat) -> Seq<char> {
    "tofa-export-"@ + date + "."@ + match format {
        ExportFormat::Json => "json"@,
        ExportFormat::Uris => "txt"@,
    }
}

/// The file `tofa export` writes when no `--output` is given, for `date`.
pub fn export_file_name(date: &str, format: ExportFormat) -> (r: String)
    ensures
        r@ == export_file_name_spec(date@, format),
{
    let mut out = chars_of("tofa-export-");
    push_all(&mut out, chars_of(date).as_slice());
    push_all(&mut out, chars_of(".").as_slice());
    match format {
        ExportFormat::Json => push_all(&mut out, chars_of("json").as_slice()),
        ExportFormat::Uris => push_all(&mut out, chars_of("txt").as_slice()),
    }
    string_of(out.as_slice())
}

/// Whether an answer to a `[y/N]` prompt confirms: trimmed and lowercased, it is `"y"`.
pub open spec fn confirms(answer: Seq<char>) -> bool {
    lowercase(trim(answer)) == "y"@
}

/// Whether the typed answer confirms.
pub fn confirmed(answer: &str) -> (r: bool)
    ensures
        r == confirms(answer@),
{
    let t = string_of(trim_chars(chars_of(answer).as_slice()).as_slice());
    let l = to_lowercase(t.as_str());
    let y = String::from_str("y");
    l == y
}

/// Whether a new account name is acceptable: not blank.
pub fn new_name_ok(new_name: &str) -> (r: bool)
    ensures
        r == (trim(new_name@).len() > 0),
{
    trim_chars(chars_of(new_name).as_slice()).len() > 0
}

/// Whether some entry is already called `name`.
pub fn name_taken(entries: &[VaultEntry], name: &String) -> (r: bool)
    ensures
        r == exists|k: int| 0 <= k < entries@.len() && #[trigger] entries@[k].name@ == name@,
{
    let mut i: usize = 0;
    while i < entries.len()
        invariant
            i <= entries.len(),
            forall|k: int| 0 <= k < i ==> #[trigger] entries@[k].name@ != name@,
        decreases entries.len() - i,
    {
        if entries[i].name == *name {
            return true;
        }
        i = i + 1;
    }
    false
}

/// The line `tofa import` prints: the count imported, and skipped duplicates when any.
pub open spec fn import_summary_spec(imported: nat, skipped: nat) -> Seq<char> {
    "Imported "@ + decimal(imported) + " account(s)."@ + if skipped > 0 {
        " Skipped "@ + decimal(skipped) + " duplicate(s)."@
    } else {
        Seq::empty()
    }
}

/// The summary `tofa import` prints.
pub fn import_summary(imported: u64, skipped: u64) -> (r: String)
    ensures
        r@ == import_summary_spec(imported as nat, skipped as nat),
{
    let mut out = chars_of("Imported ");
    push_all(&mut out, decimal_chars(imported).as_slice());
    push_all(&mut out, chars_of(" account(s).").as_slice());
    if skipped > 0 {
        push_all(&mut out, chars_of(" Skipped ").as_slice());
        push_all(&mut out, decimal_chars(skipped).as_slice());
        push_all(&mut out, chars_of(" duplicate(s).").as_slice());
    }
    string_of(out.as_slice())
}

/// A screenshot tool that `tofa scan` can run on Linux.
#[derive(Clone, Copy, Debug, PartialEq, Eq, Structural)]
pub enum CaptureTool {
    /// `grim <path>`: every Wayland output in one image.
    Grim,
    /// `scrot -m <path>`: every X11 monitor in one image.
    Scrot,
    /// `gnome-screenshot -f <path>`.
    GnomeScreenshot,
}

/// The tools `tofa scan` tries on Linux, in order, given `$XDG_SESSION_TYPE` (empty
/// when unset) and whether `$WAYLAND_DISPLAY` is set: on a Wayland session only
/// `grim`; otherwise `scrot`, then `gnome-screenshot`.
pub fn capture_tools(session_type: &str, wayland_display_set: bool) -> (r: Vec<CaptureTool>)
    ensures
        r@ == if session_type@ == "wayland"@ || wayland_display_set {
            seq![CaptureTool::Grim]
        } else {
            seq![CaptureTool::Scrot, CaptureTool::GnomeScreenshot]
        },
{
    let st = chars_of(session_type);
    let w = chars_of("wayland");
    let mut same = st.len() == w.len();
    let mut i: usize = 0;
    while same && i < st.len()
        invariant
            i <= st@.len(),
            st@ == session_type@,
            w@ == "wayland"@,
            same ==> st@.len() == w@.len() && forall|k: int| 0 <= k < i ==> st@[k] == w@[k],
            !same ==> st@ != w@,
        decreases st.len() - i,
    {
        if st[i] != w[i] {
            same = false;
        }
        i = i + 1;
    }
    if same {
        assert(st@ =~= w@);
    }
    let mut r: Vec<CaptureTool> = Vec::new();
    if same || wayland_display_set {
        r.push(CaptureTool::Grim);
    } else {
        r.push(CaptureTool::Scrot);
        r.push(CaptureTool::GnomeScreenshot);
    }
    r
}

} // verus!
