use tofa::cam::{build_html, content_length_after, ends_headers, parse_usize, request_action, RequestAction};
use tofa::cli::{
    add_source, confirmed, export_file_name, import_summary, name_taken, new_name_ok, qr_file_name,
    qr_mode, resolve_vault_path, AddArgs, AddSource, ExportFormat, QrArgs, QrMode,
};
use tofa::entry::{entry_from_secret, OtpMeta, OtpSecret, VaultEntry};
use tofa::import::{last_named, plan_import, scan_entry_names};
use tofa::layout::{expiry_fill, list_code_text, list_label, list_row_content_width, watch_fill};
use tofa::lookup::{find_entry, FindError};
use tofa::naming::{classify_add_input, is_migration_uri, is_multi_otpauth_paste, sanitize_filename, AddInput};
use tofa::picker::filtered;

fn entry(id: &str, name: &str, secret: &str) -> VaultEntry {
    VaultEntry {
        id: id.to_string(),
        name: name.to_string(),
        secret: secret.to_string(),
        created_at: String::new(),
        period: 30,
        digits: 6,
        algorithm: "SHA1".to_string(),
    }
}

fn meta(issuer: Option<&str>, account: Option<&str>) -> OtpMeta {
    OtpMeta {
        issuer: issuer.map(|s| s.to_string()),
        account: account.map(|s| s.to_string()),
        algorithm: None,
        digits: None,
        period: None,
    }
}

fn secret(s: &str, issuer: Option<&str>, account: Option<&str>) -> OtpSecret {
    OtpSecret { secret: s.to_string(), meta: meta(issuer, account) }
}

fn vault() -> Vec<VaultEntry> {
    vec![
        entry("GitHub:carlo@174", "GitHub:carlo", "A"),
        entry("GitHub:work@175", "GitHub:work", "B"),
        entry("Authelia:carlo@176", "Authelia:carlo", "C"),
        entry("", "Legacy Bank", "D"),
    ]
}

#[test]
fn find_entry_prefers_exact_id() {
    let v = vault();
    assert!(matches!(find_entry(&v, "GitHub:work@175"), Ok(1)));
}

#[test]
fn find_entry_unique_id_prefix() {
    let v = vault();
    assert!(matches!(find_entry(&v, "GitHub:carlo"), Ok(0)));
}

#[test]
fn find_entry_ambiguous_prefix_lists_ids() {
    let v = vault();
    match find_entry(&v, "GitHub") {
        Err(e) => {
            assert!(matches!(&e, FindError::AmbiguousId(ix) if ix == &vec![0, 1]));
            assert_eq!(
                e.message(&v, "GitHub"),
                "\"GitHub\" matches multiple accounts:\n  GitHub:carlo@174\n  GitHub:work@175\nUse a more specific id."
            );
        }
        Ok(_) => panic!("expected an ambiguity"),
    }
}

#[test]
fn find_entry_by_name_case_insensitive() {
    let v = vault();
    assert!(matches!(find_entry(&v, "BANK"), Ok(3)));
}

#[test]
fn find_entry_ambiguous_name_and_no_match() {
    let v = vault();
    match find_entry(&v, "CARLO") {
        Err(e) => assert_eq!(
            e.message(&v, "CARLO"),
            "\"CARLO\" matches multiple accounts:\n  GitHub:carlo (id: GitHub:carlo@174)\n  Authelia:carlo (id: Authelia:carlo@176)\nUse the full id to disambiguate."
        ),
        Ok(_) => panic!("expected an ambiguity"),
    }
    match find_entry(&v, "nope") {
        Err(e) => {
            assert!(matches!(e, FindError::NoMatch));
            assert_eq!(e.message(&v, "nope"), "no account matching \"nope\".");
        }
        Ok(_) => panic!("expected no match"),
    }
}

#[test]
fn filtered_is_case_insensitive() {
    let entries = vec![("GitHub.png".to_string(), false), ("docs".to_string(), true)];
    let v = filtered(&entries, "git");
    assert_eq!(v.len(), 1);
    assert_eq!(v[0].0, "GitHub.png");
    assert_eq!(filtered(&entries, "").len(), 2);
    assert_eq!(filtered(&entries, "GIT").len(), 1);
}

#[test]
fn import_skips_duplicates_and_names_unnamed() {
    let existing = vec![entry("x", "GitHub:carlo", "AAAA")];
    let secrets = vec![
        secret("AAAA", Some("GitHub"), Some("carlo")),
        secret("BBBB", None, None),
        secret("CCCC", None, Some("bob")),
        secret("BBBB", None, None),
    ];
    let plan = plan_import(&existing, &secrets, &"2026-01-01".to_string());
    assert_eq!(plan.imported, 3);
    assert_eq!(plan.skipped, 1);
    assert!(plan.needs_save());
    let names: Vec<&str> = plan.to_add.iter().map(|e| e.name.as_str()).collect();
    assert_eq!(names, vec!["imported-2", "bob", "imported-4"]);
    assert_eq!(plan.to_add[0].created_at, "2026-01-01");
    assert_eq!(plan.to_add[0].period, 30);
    assert_eq!(plan.to_add[0].digits, 6);
    assert_eq!(plan.to_add[0].algorithm, "SHA1");
}

#[test]
fn import_of_only_duplicates_needs_no_save() {
    let existing = vec![entry("x", "Solo", "S")];
    let plan = plan_import(&existing, &[secret("S", Some("Solo"), None)], &"d".to_string());
    assert_eq!(plan.imported, 0);
    assert_eq!(plan.skipped, 1);
    assert!(!plan.needs_save());
}

#[test]
fn empty_uri_list_imports_nothing() {
    assert!(scan_entry_names(&[], None).is_empty());
}

#[test]
fn name_override_applies_when_exactly_one_entry_imported() {
    let parsed = vec![secret("JBSWY3DPEHPK3PXP", Some("DerivedName"), Some("alice"))];
    assert_eq!(scan_entry_names(&parsed, Some("MyCustomName")), vec!["MyCustomName".to_string()]);
    assert_eq!(scan_entry_names(&parsed, None), vec!["DerivedName:alice".to_string()]);
}

#[test]
fn name_override_is_ignored_when_multiple_entries_imported() {
    let parsed = vec![
        secret("JBSWY3DPEHPK3PXP", Some("Foo"), Some("alice@example.com")),
        secret("MFRGGZDFM5XW6YTBOI", Some("Bar"), Some("bob@example.com")),
        secret("ORSXG5BA", None, None),
    ];
    let names = scan_entry_names(&parsed, Some("Ignored"));
    assert_eq!(names, vec!["Foo:alice@example.com", "Bar:bob@example.com", "unknown"]);
}

#[test]
fn entry_defaults_and_last_named() {
    let mut m = meta(Some("I"), None);
    m.digits = Some(8);
    m.algorithm = Some("SHA256".to_string());
    let e = entry_from_secret("N".into(), OtpSecret { secret: "S".into(), meta: m }, "d".into());
    assert_eq!((e.digits, e.period, e.algorithm.as_str()), (8, 30, "SHA256"));
    let v = vec![entry("", "a", "1"), entry("", "b", "2"), entry("", "a", "3")];
    assert_eq!(last_named(&v, &"a".to_string()), Some(2));
    assert_eq!(last_named(&v, &"z".to_string()), None);
}

#[test]
fn paste_classification() {
    let list = "otpauth://totp/A?secret=X\n  otpauth://totp/B?secret=Y\r\n";
    assert!(is_multi_otpauth_paste(list));
    assert!(!is_multi_otpauth_paste("otpauth://totp/A?secret=X"));
    assert_eq!(classify_add_input(list, false), AddInput::UriList);
    assert_eq!(classify_add_input(list, true), AddInput::File);
    assert_eq!(classify_add_input("otpauth-migration://offline?data=x", false), AddInput::Migration);
    assert_eq!(classify_add_input("otpauth://totp/A", false), AddInput::SingleUri);
    assert!(is_migration_uri("otpauth-migration://offline?data=x"));
    assert!(!is_migration_uri("otpauth://totp/A"));
}

#[test]
fn sanitize_replaces_unsafe_characters() {
    assert_eq!(sanitize_filename("GitHub:carlo@x.com"), "GitHub_carlo_x.com");
    assert_eq!(sanitize_filename("a b/é"), "a_b__");
}

#[test]
fn layout_measures() {
    assert_eq!(list_label("GitHub:carlo"), "GitHub · carlo");
    assert_eq!(list_label("GitHub:"), "GitHub:");
    assert_eq!(list_label("Plain"), "Plain");
    let mut v = vec![entry("", "GitHub:carlo", "A"), entry("", "AWS", "B")];
    assert_eq!(list_row_content_width(&v), 14 + 7 + 29);
    v[1].digits = 8;
    assert_eq!(list_row_content_width(&v), 14 + 9 + 29);
    assert_eq!(list_row_content_width(&[]), 7 + 29);
    assert_eq!(expiry_fill(15_000, 30_000), 10);
    assert_eq!(watch_fill(30, 30), 20);
    assert_eq!(watch_fill(29, 30), 19);
    assert_eq!(list_code_text("123456", true), "123 456");
    assert_eq!(list_code_text("123456", false), "••• •••");
    assert_eq!(list_code_text("12", false), "••• •••");
}

#[test]
fn vault_path_resolution() {
    assert_eq!(resolve_vault_path(Some("/v".into()), "/d".into()), "/v");
    assert_eq!(resolve_vault_path(None, "/d".into()), "/d");
}

fn add_args(name: Option<&str>, secret: Option<&str>, uri: Option<&str>, qr: Option<&str>) -> AddArgs {
    AddArgs {
        name: name.map(String::from),
        secret: secret.map(String::from),
        uri: uri.map(String::from),
        qr: qr.map(String::from),
    }
}

#[test]
fn add_source_precedence_and_errors() {
    assert!(matches!(add_source(&add_args(None, Some("S"), Some("u"), Some("q.png"))), Ok(AddSource::QrImage(p)) if p == "q.png"));
    assert!(matches!(add_source(&add_args(None, Some("S"), Some("u"), None)), Ok(AddSource::Uri(u)) if u == "u"));
    assert!(matches!(add_source(&add_args(Some("N"), Some("S"), None, None)), Ok(AddSource::Secret { name, secret }) if name == "N" && secret == "S"));
    assert!(matches!(add_source(&add_args(None, Some("S"), None, None)), Err(e) if e == "--name is required when using --secret"));
    assert!(matches!(add_source(&add_args(None, None, None, None)), Err(e) if e == "Provide --secret, --uri, or --qr."));
}

#[test]
fn qr_mode_and_file_names() {
    let base = QrArgs { name: None, all: false, multi: false, output: None, output_dir: None };
    assert!(matches!(qr_mode(&base), Err(e) if e == "provide a name or --all"));
    let multi = QrArgs { multi: true, all: true, ..base };
    assert!(matches!(qr_mode(&multi), Err(e) if e == "--multi requires --output-dir"));
    let multi = QrArgs { output_dir: Some("d".into()), ..multi };
    assert!(matches!(qr_mode(&multi), Ok(QrMode::PerEntry(d)) if d == "d"));
    let all = QrArgs { name: None, all: true, multi: false, output: None, output_dir: None };
    assert!(matches!(qr_mode(&all), Ok(QrMode::All)));
    let one = QrArgs { name: Some("GitHub".into()), all: false, multi: false, output: None, output_dir: None };
    assert!(matches!(qr_mode(&one), Ok(QrMode::Single(n)) if n == "GitHub"));
    assert_eq!(qr_file_name(0, "GitHub:alice"), "01-GitHub_alice.png");
    assert_eq!(qr_file_name(11, "x"), "12-x.png");
    assert_eq!(export_file_name("2026-01-01", ExportFormat::Json), "tofa-export-2026-01-01.json");
    assert_eq!(export_file_name("2026-01-01", ExportFormat::Uris), "tofa-export-2026-01-01.txt");
}

#[test]
fn prompts_and_names() {
    assert!(confirmed(" Y\n"));
    assert!(!confirmed("yes"));
    assert!(!confirmed(""));
    assert!(!new_name_ok("  \t"));
    assert!(new_name_ok(" a "));
    let v = vault();
    assert!(name_taken(&v, &"GitHub:work".to_string()));
    assert!(!name_taken(&v, &"GitHub".to_string()));
    assert_eq!(import_summary(2, 0), "Imported 2 account(s).");
    assert_eq!(import_summary(0, 1), "Imported 0 account(s). Skipped 1 duplicate(s).");
}

#[test]
fn camera_server_requests() {
    assert!(build_html().starts_with("<!DOCTYPE html>"));
    assert!(build_html().contains("fetch('/result'"));
    assert_eq!(content_length_after("Content-Length: 42", 0), 42);
    assert_eq!(content_length_after("Content-Length: x", 7), 0);
    assert_eq!(content_length_after("Host: a", 7), 7);
    assert!(ends_headers("\r\n"));
    assert!(!ends_headers("Host: a\r\n"));
    assert_eq!(request_action("GET / HTTP/1.1\r\n", 0), RequestAction::ServePage);
    assert_eq!(request_action("POST /result HTTP/1.1\r\n", 5), RequestAction::TakeBody);
    assert_eq!(request_action("POST /result HTTP/1.1\r\n", 0), RequestAction::NoContent);
    assert_eq!(request_action("OPTIONS /result HTTP/1.1\r\n", 5), RequestAction::NoContent);
}

#[test]
fn usize_parsing_matches_std() {
    for s in ["0", "+7", "", "+", "-1", "12a", "18446744073709551615", "18446744073709551616", "007"] {
        let cs: Vec<char> = s.chars().collect();
        assert_eq!(parse_usize(&cs), s.parse::<usize>().ok(), "{s}");
    }
}

#[test]
fn reimporting_named_accounts_adds_nothing() {
    let existing = vec![entry("x", "Old", "O")];
    let secrets = vec![
        secret("A", Some("GitHub"), Some("carlo")),
        secret("B", None, Some("bob")),
        secret("A", Some("GitHub"), Some("carlo")),
    ];
    let first = plan_import(&existing, &secrets, &"d".to_string());
    assert_eq!((first.imported, first.skipped), (2, 1));
    let mut vault = existing.clone();
    vault.extend(first.to_add);
    let second = plan_import(&vault, &secrets, &"d".to_string());
    assert_eq!((second.imported, second.skipped), (0, 3));
    assert!(second.to_add.is_empty());
    assert!(!second.needs_save());
}

#[test]
fn reimporting_unnamed_accounts_adds_them_again() {
    let secrets = vec![secret("Z", None, None)];
    let first = plan_import(&[], &secrets, &"d".to_string());
    assert_eq!(first.to_add[0].name, "imported-1");
    let second = plan_import(&first.to_add, &secrets, &"d".to_string());
    assert_eq!(second.imported, 1);
    assert_eq!(second.to_add[0].name, "imported-2");
}
