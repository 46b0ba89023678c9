use tofa::entry::{OtpMeta, OtpSecret};
use tofa::tui::{checked_selection, AppState, CopyOutcome, Effect, Key, PendingVaultAction, ScanStep, Screen};

fn unlocked_state() -> AppState {
    let mut s = AppState::new();
    for c in "pw".chars() {
        s.handle_key(Key::Char(c), 0, 0);
    }
    assert_eq!(s.handle_key(Key::Enter, 0, 0), Effect::LoadVault);
    s.unlock_succeeded(false);
    s
}

#[test]
fn initial_screen_is_unlock() {
    let state = AppState::new();
    assert_eq!(state.screen, Screen::Unlock);
}

#[test]
fn clear_add_form_resets_fields() {
    let mut state = AppState::new();
    state.add_name = "GitHub".to_string();
    state.add_secret_input = "SECRETKEY".to_string();
    state.add_focused_field = 1;

    state.clear_add_form();

    assert!(state.add_name.is_empty());
    assert!(state.add_secret_input.is_empty());
    assert_eq!(state.add_focused_field, 0);
}

#[test]
fn selected_index_default_is_zero() {
    let state = AppState::new();
    assert_eq!(state.selected_index, 0);
}

#[test]
fn unlock_moves_passphrase_into_cache() {
    let s = unlocked_state();
    assert_eq!(s.screen, Screen::List);
    assert!(s.passphrase_input.is_empty());
    assert_eq!(s.vault_key_cache.as_ref().map(|k| k.expose().to_string()), Some("pw".to_string()));
}

#[test]
fn unlock_of_empty_vault_opens_add_form() {
    let mut s = AppState::new();
    s.handle_key(Key::Char('x'), 0, 0);
    s.handle_key(Key::Enter, 0, 0);
    s.unlock_succeeded(true);
    assert_eq!(s.screen, Screen::AddForm);
}

#[test]
fn failed_unlock_clears_input() {
    let mut s = AppState::new();
    s.handle_key(Key::Char('x'), 0, 0);
    s.handle_key(Key::Enter, 0, 0);
    s.unlock_failed("bad");
    assert!(s.unlock_error);
    assert!(s.unlock_error_msg.is_none());
    assert!(s.passphrase_input.is_empty());
}

#[test]
fn new_vault_needs_matching_confirmation() {
    let mut s = AppState::new();
    s.is_new_vault = true;
    s.handle_key(Key::Char('a'), 0, 0);
    assert_eq!(s.handle_key(Key::Enter, 0, 0), Effect::Nothing);
    assert!(s.unlock_confirming);
    s.handle_key(Key::Char('b'), 0, 0);
    assert_eq!(s.handle_key(Key::Enter, 0, 0), Effect::Nothing);
    assert_eq!(s.unlock_error_msg.as_deref(), Some("Passphrases do not match."));
    s.handle_key(Key::Char('a'), 0, 0);
    assert_eq!(s.handle_key(Key::Enter, 0, 0), Effect::LoadVault);
    s.unlock_failed("disk full");
    assert_eq!(s.unlock_error_msg.as_deref(), Some("Error: disk full"));
    s.handle_key(Key::Char('a'), 0, 0);
    s.handle_key(Key::Enter, 0, 0);
    s.unlock_succeeded(false);
    assert!(!s.is_new_vault);
    assert!(!s.unlock_confirming);
    assert_eq!(s.screen, Screen::List);
}

#[test]
fn tab_on_unlock_copies_path() {
    let mut s = AppState::new();
    assert_eq!(s.handle_key(Key::Tab, 0, 0), Effect::CopyVaultPath);
}

#[test]
fn list_navigation_stays_in_bounds() {
    let mut s = unlocked_state();
    s.handle_key(Key::Up, 3, 0);
    assert_eq!(s.selected_index, 0);
    s.handle_key(Key::Down, 3, 0);
    s.handle_key(Key::Char('j'), 3, 0);
    s.handle_key(Key::Down, 3, 0);
    assert_eq!(s.selected_index, 2);
    s.handle_key(Key::Char('k'), 3, 0);
    assert_eq!(s.selected_index, 1);
}

#[test]
fn list_keys_open_screens() {
    let mut s = unlocked_state();
    assert_eq!(s.handle_key(Key::Char('q'), 2, 0), Effect::Quit);
    assert_eq!(s.handle_key(Key::Char('y'), 2, 0), Effect::CopySelectedCode);
    s.handle_key(Key::Char('h'), 2, 0);
    assert!(!s.show_codes);
    s.handle_key(Key::Char('d'), 2, 0);
    assert_eq!(s.screen, Screen::DeleteConfirm);
    s.handle_key(Key::Char('n'), 2, 0);
    assert_eq!(s.screen, Screen::List);
    s.handle_key(Key::Char('e'), 2, 0);
    assert_eq!(s.screen, Screen::Export);
    assert_eq!(s.export_checked, vec![true, true]);
    s.handle_key(Key::Esc, 2, 0);
    s.handle_key(Key::Char(' '), 2, 0);
    assert_eq!(s.screen, Screen::Fullscreen);
}

#[test]
fn typing_a_path_on_the_list_probes_it() {
    let mut s = unlocked_state();
    assert_eq!(s.handle_key(Key::Char('x'), 1, 0), Effect::Nothing);
    assert_eq!(s.handle_key(Key::Char('/'), 1, 0), Effect::ProbeInputPath);
    for c in "my\\ file.png ".chars() {
        s.handle_key(Key::Char(c), 1, 0);
    }
    let c = s.input_path_candidates();
    assert_eq!(c, vec!["/my file.png".to_string(), "/my\\ file.png".to_string()]);
    s.input_path_found("/my file.png".to_string());
    assert_eq!(s.screen, Screen::List);
    assert_eq!(s.scan_step(), (ScanStep::ShowLoader, None));
    assert_eq!(s.screen, Screen::ScanningQr);
    assert_eq!(s.scan_step(), (ScanStep::Import, Some("/my file.png".to_string())));
    assert_eq!(s.scan_step(), (ScanStep::Idle, None));
}

#[test]
fn lock_forgets_passphrase() {
    let mut s = unlocked_state();
    s.handle_key(Key::Char('l'), 1, 0);
    assert_eq!(s.screen, Screen::Unlock);
    assert!(s.vault_key_cache.is_none());
}

#[test]
fn reveal_secret_requires_passphrase() {
    let mut s = unlocked_state();
    s.handle_key(Key::Char('i'), 1, 0);
    assert_eq!(s.screen, Screen::Fullscreen);
    s.handle_key(Key::Char('s'), 1, 0);
    assert!(s.detail_revealing);
    s.handle_key(Key::Char('n'), 1, 0);
    s.handle_key(Key::Enter, 1, 5);
    assert!(!s.detail_secret_visible);
    assert_eq!(s.status_message.as_deref(), Some("Wrong passphrase"));
    assert_eq!(s.status_message_at, Some(5));
    s.handle_key(Key::Char('p'), 1, 0);
    s.handle_key(Key::Char('w'), 1, 0);
    s.handle_key(Key::Enter, 1, 0);
    assert!(s.detail_secret_visible);
    s.handle_key(Key::Char('s'), 1, 0);
    assert!(!s.detail_secret_visible);
    assert_eq!(s.handle_key(Key::Char('u'), 1, 0), Effect::CopySelectedUri);
    s.handle_key(Key::Esc, 1, 0);
    assert_eq!(s.screen, Screen::List);
}

#[test]
fn toast_expires_after_one_and_a_half_seconds() {
    let mut s = unlocked_state();
    s.copy_done(CopyOutcome::Copied, 1000);
    assert_eq!(s.status_message.as_deref(), Some("Copied to clipboard"));
    s.tick(2499);
    assert!(s.status_message.is_some());
    s.tick(2500);
    assert!(s.status_message.is_none());
    s.save_locked();
    s.tick(100_000);
    assert_eq!(
        s.status_message.as_deref(),
        Some("SAVE ERROR: vault is locked — changes not persisted!")
    );
}

#[test]
fn click_selects_row_and_copies() {
    let mut s = unlocked_state();
    assert_eq!(s.handle_click(6, 3, 3, 40, 0), Effect::CopySelectedCode);
    assert_eq!(s.selected_index, 2);
    assert_eq!(s.handle_click(5, 3, 3, 40, 0), Effect::Nothing);
    assert_eq!(s.handle_click(8, 3, 3, 40, 0), Effect::Nothing);
    assert_eq!(s.handle_click(2, 45, 3, 40, 0), Effect::Nothing);
    s.set_status("hi".to_string());
    assert_eq!(s.handle_click(2, 3, 3, 40, 0), Effect::Nothing);
    assert!(s.status_message.is_none());
}

#[test]
fn add_flow_parses_names_and_queues_save() {
    let mut s = unlocked_state();
    s.handle_key(Key::Char('a'), 1, 0);
    assert_eq!(s.screen, Screen::AddForm);
    assert_eq!(s.handle_key(Key::Enter, 1, 0), Effect::Nothing);
    for c in " otpauth://totp/x ".chars() {
        s.handle_key(Key::Char(c), 1, 0);
    }
    assert_eq!(s.handle_key(Key::Enter, 1, 0), Effect::SubmitAddInput);
    assert_eq!(s.submitted_input(), "otpauth://totp/x");
    s.accept_parsed_uri(OtpSecret {
        secret: "JBSWY3DPEHPK3PXP".into(),
        meta: OtpMeta {
            issuer: Some("GitHub".into()),
            account: Some("carlo".into()),
            algorithm: None,
            digits: Some(8),
            period: None,
        },
    });
    assert_eq!(s.screen, Screen::AddName);
    assert_eq!(s.add_name, "GitHub:carlo");
    s.handle_key(Key::Char(' '), 1, 0);
    s.handle_key(Key::Enter, 1, 0);
    assert_eq!(s.screen, Screen::List);
    assert_eq!(s.status_message.as_deref(), Some("Saving…"));
    assert_eq!(s.take_pending_action(), Some(PendingVaultAction::AddEntry));
    let e = s.pending_entry("2026-01-01".to_string());
    assert_eq!(e.name, "GitHub:carlo");
    assert_eq!(e.secret, "JBSWY3DPEHPK3PXP");
    assert_eq!(e.digits, 8);
    assert_eq!(e.period, 30);
    assert_eq!(e.algorithm, "SHA1");
    s.after_add_saved(2, "GitHub:carlo", 7);
    assert_eq!(s.selected_index, 1);
    assert_eq!(s.status_message.as_deref(), Some("Added: GitHub:carlo"));
}

#[test]
fn add_name_requires_a_name() {
    let mut s = unlocked_state();
    s.screen = Screen::AddName;
    s.handle_key(Key::Char(' '), 1, 0);
    s.handle_key(Key::Enter, 1, 0);
    assert_eq!(s.status_message.as_deref(), Some("Name is required."));
    assert_eq!(s.screen, Screen::AddName);
}

#[test]
fn delete_flow_adjusts_selection() {
    let mut s = unlocked_state();
    s.selected_index = 2;
    s.handle_key(Key::Char('d'), 3, 0);
    s.handle_key(Key::Char('Y'), 3, 0);
    assert_eq!(s.take_pending_action(), Some(PendingVaultAction::DeleteEntry(2)));
    s.after_delete_removed(2);
    assert_eq!(s.selected_index, 1);
    s.after_delete_saved(2, 9);
    assert_eq!(s.status_message.as_deref(), Some("Deleted."));
    s.after_delete_removed(0);
    s.after_delete_saved(0, 9);
    assert_eq!(s.screen, Screen::AddForm);
}

#[test]
fn export_screen_selection_and_effects() {
    let mut s = unlocked_state();
    s.handle_key(Key::Char('e'), 2, 0);
    assert_eq!(s.handle_key(Key::Enter, 2, 0), Effect::ExportQr);
    s.handle_key(Key::Char(' '), 2, 0);
    assert_eq!(s.selected_indices(2), vec![1]);
    assert_eq!(s.handle_key(Key::Char('m'), 2, 0), Effect::ExportOtpauthList);
    s.handle_key(Key::Down, 2, 0);
    s.handle_key(Key::Char(' '), 2, 0);
    assert_eq!(s.selected_indices(2), Vec::<usize>::new());
    assert_eq!(s.handle_key(Key::Char('u'), 2, 0), Effect::Nothing);
    assert_eq!(s.status_message.as_deref(), Some("No accounts selected."));
    assert_eq!(s.screen, Screen::List);
}

#[test]
fn otpauth_list_pages_and_uri_list_scrolls() {
    let mut s = unlocked_state();
    s.show_otpauth_list(vec![vec!["a".into()], vec!["b".into()]], vec!["A".into(), "B".into()]);
    s.handle_key(Key::Right, 2, 0);
    s.handle_key(Key::Right, 2, 0);
    assert_eq!(s.otpauth_list_index, 1);
    s.handle_key(Key::Char('h'), 2, 0);
    assert_eq!(s.otpauth_list_index, 0);
    s.handle_key(Key::Esc, 2, 0);
    assert_eq!(s.screen, Screen::Export);
    s.show_uri_list(vec![("A".into(), "otpauth://totp/A".into())]);
    s.handle_key(Key::Up, 2, 0);
    s.handle_key(Key::Down, 2, 0);
    assert_eq!(s.export_uri_scroll, 1);
    assert_eq!(s.handle_key(Key::Char('y'), 2, 0), Effect::CopyUriList);
    s.show_export_qr(vec!["██".into()]);
    assert_eq!(s.screen, Screen::ExportQr);
    s.handle_key(Key::Esc, 2, 0);
    assert_eq!(s.screen, Screen::Export);
}

#[test]
fn picker_filters_and_opens_entries() {
    let mut s = unlocked_state();
    s.screen = Screen::AddForm;
    assert_eq!(s.handle_key(Key::Tab, 1, 0), Effect::OpenFilePicker);
    s.picker_opened(
        "/home".to_string(),
        vec![("..".into(), true), ("Docs".into(), true), ("backup.PNG".into(), false)],
    );
    assert_eq!(s.screen, Screen::FilePicker);
    s.handle_key(Key::Down, 1, 0);
    s.handle_key(Key::Down, 1, 0);
    s.handle_key(Key::Down, 1, 0);
    assert_eq!(s.fp_selected, 2);
    s.handle_key(Key::Char('p'), 1, 0);
    assert_eq!(s.fp_selected, 0);
    assert_eq!(s.picker_choice(), Some(("backup.PNG".to_string(), false)));
    assert_eq!(s.handle_key(Key::Enter, 1, 0), Effect::OpenPickerEntry);
    s.handle_key(Key::Char('z'), 1, 0);
    assert_eq!(s.picker_choice(), None);
    assert_eq!(s.handle_key(Key::Enter, 1, 0), Effect::Nothing);
    s.handle_key(Key::Backspace, 1, 0);
    s.picker_entered_dir("/home/Docs".to_string(), vec![]);
    assert_eq!(s.fp_query, "");
    s.handle_key(Key::Esc, 1, 0);
    assert_eq!(s.screen, Screen::AddForm);
}

#[test]
fn import_results_are_reported() {
    let mut s = unlocked_state();
    s.begin_import();
    s.import_done(0, 2);
    assert_eq!(s.status_message.as_deref(), Some("Already imported (2 duplicate(s))."));
    s.import_done(3, 1);
    assert_eq!(
        s.status_message.as_deref(),
        Some("Imported 3 account(s). Skipped 1 duplicate(s).")
    );
    s.import_done(1, 0);
    assert_eq!(s.status_message.as_deref(), Some("Imported 1 account(s)."));
    s.import_file_failed("bad zip");
    assert_eq!(s.status_message.as_deref(), Some("Import failed: bad zip"));
    s.add_input_failed(true, "no secret");
    assert_eq!(s.status_message.as_deref(), Some("Error: no secret"));
    s.save_failed("disk");
    assert_eq!(s.status_message.as_deref(), Some("SAVE ERROR: disk"));
    s.export_failed("non-30s period".to_string());
    assert_eq!(s.status_message.as_deref(), Some("non-30s period"));
    s.copy_done(CopyOutcome::CodeFailed("bad secret".into()), 1);
    assert_eq!(s.status_message.as_deref(), Some("Error: bad secret"));
    s.copy_done(CopyOutcome::ClipboardUnavailable, 1);
    assert_eq!(s.status_message.as_deref(), Some("Clipboard unavailable"));
    s.export_empty();
    assert_eq!(s.status_message.as_deref(), Some("No accounts selected."));
}

#[test]
fn export_takes_checked_entries_in_order() {
    let checked = vec![true, false, true, false];
    assert_eq!(checked_selection(&checked, 6), vec![0, 2, 4, 5]);
    assert_eq!(checked_selection(&checked, 3), vec![0, 2]);
    assert_eq!(checked_selection(&Vec::new(), 2), vec![0, 1]);
}

#[test]
fn vault_locks_after_ten_idle_minutes() {
    let mut s = unlocked_state();
    assert_eq!(s.screen, Screen::List);
    s.handle_key(Key::Down, 3, 1_000);
    s.tick(600_999);
    assert_eq!(s.screen, Screen::List);
    assert!(s.vault_key_cache.is_some());
    s.tick(601_000);
    assert_eq!(s.screen, Screen::Unlock);
    assert!(s.vault_key_cache.is_none());
    assert!(s.passphrase_input.is_empty());
}

#[test]
fn clicks_and_keys_defer_the_idle_lock() {
    let mut s = unlocked_state();
    s.handle_click(40, 0, 3, 40, 500_000);
    s.tick(900_000);
    assert_eq!(s.screen, Screen::List);
    s.handle_key(Key::Char('h'), 3, 1_000_000);
    s.tick(1_599_999);
    assert_eq!(s.screen, Screen::List);
    s.tick(1_600_000);
    assert_eq!(s.screen, Screen::Unlock);
}

#[test]
fn unlock_screen_is_left_alone_when_idle() {
    let mut s = AppState::new();
    s.tick(10_000_000);
    assert_eq!(s.screen, Screen::Unlock);
}
