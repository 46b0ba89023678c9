# tofa

A terminal TOTP manager: a command line for scripts and an interactive
interface with click-to-copy codes, both over one encrypted vault.

This crate is the verified core of the program, written in Verus:

- `src/` — the library. Every function is proved against its contract except the
  trusted items listed below, whose contracts are believed:
  - `tui` — the interactive interface as a state machine: screens, the shared
    state, what each key, click and clock tick does, and the effects the event
    loop must carry out;
  - `lookup`, `cli` — finding an account by id or name, and the decisions of the
    subcommands (argument checks, file names, summaries, routing);
  - `import`, `naming` — which parsed accounts an import adds and under what
    names, duplicate detection, and how pasted input is classified;
  - `listing`, `picker` — what the file picker lists and shows for a query;
  - `layout`, `widgets`, `theme` — labels, widths, progress bars, masks and
    colours of what is drawn;
  - `docs` — the generated help blocks of the command reference pages;
  - `cam` — the local page and the request handling of camera capture;
  - `text`, `secret`, `entry` — character-level helpers, the zeroizing
    passphrase buffer, and the account records;
  - `laws` — properties that span several calls.
- Trusted items (all in `src/`):
  - `secret.rs`: the struct `SecretBuf` (hiding a `zeroize::Zeroizing<String>`),
    the name `secret_text` for its characters, and ten wrappers: `new`,
    `from_string`, `push`, `pop`, `clear`, `wipe`, `is_empty`, `same_text`,
    `duplicate`, `expose`;
  - `docs.rs`: the declaration of `clap::Command`, the names `command_name_of` and
    `command_args_of`, and the wrappers `command_name` and `command_arguments`;
  - `text.rs`: the name `lowercase` with the wrapper `to_lowercase`
    (`str::to_lowercase`), and `assume_specification`s for `String::push` and
    `String::pop`.
- `app/` — the program around the library: argument parsing, terminal I/O, the
  vault file, the clipboard, screenshots, the camera server and drawing.
- `tests/` — tests of the library on concrete values.
