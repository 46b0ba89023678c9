use tofa::cli::{capture_tools, dispatch, CaptureTool, Commands, CompletionsArgs, ListArgs, Shell};
use tofa::import::add_new_uris;
use tofa::layout::{
    bar_text, centered_span, detail_header, detail_modal, detail_text, qr_fits, secret_mask, shown_path,
};
use tofa::listing::{extension_of, is_supported_ext, name_le_chars, picker_listing, sort_names};
use tofa::tui::AppState;
use tofa::widgets::{toast_label, AccountListState};

fn s(v: &str) -> String {
    v.to_string()
}

fn chars(v: &str) -> Vec<char> {
    v.chars().collect()
}

#[test]
fn scan_keeps_first_sighting_of_each_uri() {
    let mut uris = vec![s("otpauth://totp/A?secret=AAAA")];
    add_new_uris(
        &mut uris,
        vec![
            s("otpauth://totp/B?secret=BBBB"),
            s("otpauth://totp/A?secret=AAAA"),
            s("otpauth://totp/B?secret=BBBB"),
            s("otpauth://totp/C?secret=CCCC"),
        ],
    );
    assert_eq!(
        uris,
        vec![
            s("otpauth://totp/A?secret=AAAA"),
            s("otpauth://totp/B?secret=BBBB"),
            s("otpauth://totp/C?secret=CCCC"),
        ]
    );
}

#[test]
fn scan_with_nothing_found_changes_nothing() {
    let mut uris = vec![s("x")];
    add_new_uris(&mut uris, Vec::new());
    assert_eq!(uris, vec![s("x")]);
}

#[test]
fn dispatch_resolves_the_vault_path() {
    let (cmd, path) = dispatch(Commands::List(ListArgs { codes: true }), None, s("/home/u/.config/tofa/vault.enc"));
    assert!(matches!(cmd, Commands::List(ListArgs { codes: true })));
    assert_eq!(path, Some(s("/home/u/.config/tofa/vault.enc")));
    let (_, path) = dispatch(Commands::Destroy, Some(s("/tmp/v.enc")), s("/default"));
    assert_eq!(path, Some(s("/tmp/v.enc")));
}

#[test]
fn dispatch_completions_needs_no_vault() {
    let (cmd, path) = dispatch(Commands::Completions(CompletionsArgs { shell: Shell::Zsh }), Some(s("/tmp/v")), s("/d"));
    assert!(matches!(cmd, Commands::Completions(CompletionsArgs { shell: Shell::Zsh })));
    assert_eq!(path, None);
}

#[test]
fn wayland_session_uses_grim() {
    assert_eq!(capture_tools("wayland", false), vec![CaptureTool::Grim]);
    assert_eq!(capture_tools("x11", true), vec![CaptureTool::Grim]);
}

#[test]
fn x11_session_tries_scrot_then_gnome_screenshot() {
    assert_eq!(capture_tools("x11", false), vec![CaptureTool::Scrot, CaptureTool::GnomeScreenshot]);
    assert_eq!(capture_tools("", false), vec![CaptureTool::Scrot, CaptureTool::GnomeScreenshot]);
    assert_eq!(capture_tools("Wayland", false), vec![CaptureTool::Scrot, CaptureTool::GnomeScreenshot]);
}

#[test]
fn names_compare_like_strings() {
    let pairs = [("a", "b"), ("ab", "a"), ("a", "a"), ("", "x"), ("Zeta", "alpha"), ("é", "z"), ("x1", "x10")];
    for (a, b) in pairs {
        assert_eq!(name_le_chars(&chars(a), &chars(b)), a <= b, "{a} vs {b}");
        assert_eq!(name_le_chars(&chars(b), &chars(a)), b <= a, "{b} vs {a}");
    }
}

#[test]
fn sort_names_sorts_like_std() {
    let input = vec![s("pear"), s("Apple"), s("apple"), s("fig"), s("apple"), s("été"), s("")];
    let mut expected = input.clone();
    expected.sort();
    assert_eq!(sort_names(input), expected);
}

#[test]
fn extension_is_after_the_last_dot() {
    assert_eq!(extension_of(&chars("codes.tar.gz")), chars("gz"));
    assert_eq!(extension_of(&chars("README")), Vec::<char>::new());
    assert_eq!(extension_of(&chars("trailing.")), Vec::<char>::new());
    assert_eq!(extension_of(&chars("a.PNG")), chars("PNG"));
}

#[test]
fn supported_extensions() {
    for e in ["png", "jpg", "jpeg", "gif", "bmp", "webp", "tiff", "zip", "json", "2fas", "csv", "txt"] {
        assert!(is_supported_ext(e), "{e}");
    }
    for e in ["", "PNG", "pdf", "enc", "jpg2"] {
        assert!(!is_supported_ext(e), "{e}");
    }
}

#[test]
fn picker_lists_parent_dirs_then_files() {
    let found = vec![
        (s("zeta.png"), false, true),
        (s("docs"), true, false),
        (s(".hidden"), true, false),
        (s(".secret.json"), false, true),
        (s("Backup.JSON"), false, true),
        (s("notes.pdf"), false, true),
        (s("archive"), true, false),
        (s("export.txt"), false, true),
        (s("socket.png"), false, false),
        (s("README"), false, true),
    ];
    let listed = picker_listing(true, &found);
    assert_eq!(
        listed,
        vec![
            (s(".."), true),
            (s("archive"), true),
            (s("docs"), true),
            (s("Backup.JSON"), false),
            (s("export.txt"), false),
            (s("zeta.png"), false),
        ]
    );
}

#[test]
fn picker_at_root_has_no_parent_entry() {
    let listed = picker_listing(false, &[(s("b.csv"), false, true), (s("a.csv"), false, true)]);
    assert_eq!(listed, vec![(s("a.csv"), false), (s("b.csv"), false)]);
    assert_eq!(picker_listing(false, &[]), Vec::<(String, bool)>::new());
}

#[test]
fn defaults_match_new() {
    let st = AppState::default();
    assert_eq!(st.selected_index, 0);
    assert!(st.show_codes);
    assert!(st.passphrase_input.is_empty());
    assert_eq!(AccountListState::default().selected(), None);
}

#[test]
fn hidden_secret_shows_a_mask_of_at_least_sixteen() {
    assert_eq!(secret_mask(4), "•".repeat(16));
    assert_eq!(secret_mask(20), "•".repeat(20));
    let secret = "JBSWY3DPEHPK3PXP";
    let mask = secret_mask(secret.len());
    assert_eq!(detail_text(secret, secret, &mask, false), mask);
    assert_eq!(detail_text(secret, secret, &mask, true), secret);
}

#[test]
fn hidden_secret_is_masked_in_the_uri() {
    let uri = "otpauth://totp/GitHub:carlo?secret=ABCDEFGH&issuer=GitHub";
    let mask = secret_mask(8);
    let shown = detail_text(uri, "ABCDEFGH", &mask, false);
    assert_eq!(shown, uri.replacen("ABCDEFGH", &mask, 1));
    assert!(!shown.contains("ABCDEFGH"));
    assert_eq!(detail_text(uri, "ZZZZ", &mask, false), uri);
    assert_eq!(detail_text(uri, "ABCDEFGH", &mask, true), uri);
}

#[test]
fn detail_modal_sizes() {
    assert_eq!(detail_modal(120, 40, false, false), (78, 20, true));
    assert_eq!(detail_modal(120, 40, true, true), (82, 23, true));
    assert_eq!(detail_modal(70, 40, true, false), (60, 20, false));
    assert_eq!(detail_modal(50, 10, false, false), (50, 8, false));
    assert_eq!(detail_modal(50, 1, false, false), (50, 0, false));
}

#[test]
fn bar_text_fills_from_the_left() {
    assert_eq!(bar_text(3, 5), "███░░");
    assert_eq!(bar_text(0, 2), "░░");
    assert_eq!(bar_text(4, 4), "████");
}

#[test]
fn toast_marks_copies() {
    assert_eq!(toast_label("Copied to clipboard"), ("  ✓  Copied to clipboard  ".to_string(), true));
    assert_eq!(toast_label("Wrong passphrase"), ("  Wrong passphrase  ".to_string(), false));
    assert_eq!(toast_label("URI copied").1, true);
}

#[test]
fn long_picker_paths_keep_their_tail() {
    assert_eq!(shown_path("/home/u", 20), "/home/u");
    assert_eq!(shown_path("/home/user/projects", 8), "…rojects");
    assert_eq!(shown_path("/abc", 0), "/abc");
}

#[test]
fn fullscreen_title_and_qr_layout() {
    assert_eq!(detail_header("GitHub:carlo"), "GitHub · carlo");
    assert_eq!(detail_header("a:b:c"), "a · b:c");
    assert_eq!(detail_header("plain"), "plain");
    assert!(qr_fits(29, 29, 25, 25));
    assert!(!qr_fits(28, 29, 25, 25));
    assert!(!qr_fits(u16::MAX, u16::MAX, u16::MAX, 1));
    assert_eq!(centered_span(10, 100, 40), (40, 40));
    assert_eq!(centered_span(0, 30, 50), (0, 30));
    assert_eq!(centered_span(u16::MAX - 1, 10, 2), (u16::MAX, 2));
}
