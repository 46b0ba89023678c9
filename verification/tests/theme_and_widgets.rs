use tofa::theme::{list_timer_color, mode_from_env, timer_color, timer_color_light, Rgb, ThemeMode};
use tofa::widgets::{AccountEntry, AccountList, AccountListState, OtpDisplay};

const BRAND: Rgb = Rgb { r: 184, g: 158, b: 255 };
const WARNING: Rgb = Rgb { r: 251, g: 191, b: 36 };
const DANGER: Rgb = Rgb { r: 248, g: 113, b: 113 };

#[test]
fn dark_is_default_when_no_env() {
    assert_eq!(mode_from_env(&[None, None, None]), ThemeMode::Dark);
}

#[test]
fn detects_light_from_tofa_theme() {
    assert_eq!(mode_from_env(&[Some("light".to_string()), None, None]), ThemeMode::Light);
}

#[test]
fn detects_dark_from_term_background() {
    assert_eq!(mode_from_env(&[None, Some("dark".to_string()), None]), ThemeMode::Dark);
}

#[test]
fn detects_light_from_first_deciding_variable() {
    assert_eq!(mode_from_env(&[Some("LIGHT".to_string()), None, None]), ThemeMode::Light);
    assert_eq!(
        mode_from_env(&[Some("blue".to_string()), Some("Solarized-Light".to_string()), None]),
        ThemeMode::Light
    );
    assert_eq!(
        mode_from_env(&[None, Some("dark".to_string()), Some("light".to_string())]),
        ThemeMode::Dark
    );
}

#[test]
fn brand_differs_by_mode() {
    assert_ne!(ThemeMode::Dark.brand(), ThemeMode::Light.brand());
}

#[test]
fn timer_color_above_10s() {
    assert_eq!(timer_color(11), BRAND);
    assert_eq!(timer_color(10), BRAND);
}

#[test]
fn timer_color_warning_band() {
    assert_eq!(timer_color(9), WARNING);
    assert_eq!(timer_color(5), WARNING);
}

#[test]
fn timer_color_danger_band() {
    assert_eq!(timer_color(4), DANGER);
    assert_eq!(timer_color(0), DANGER);
}

#[test]
fn light_timer_and_list_timer_bands() {
    assert_eq!(timer_color_light(10), Rgb { r: 117, g: 89, b: 184 });
    assert_eq!(timer_color_light(7), WARNING);
    assert_eq!(list_timer_color(11), Rgb { r: 121, g: 192, b: 255 });
    assert_eq!(list_timer_color(10), Rgb { r: 210, g: 153, b: 34 });
    assert_eq!(list_timer_color(4), Rgb { r: 248, g: 81, b: 73 });
    assert_eq!(ThemeMode::Light.timer_color(3), DANGER);
}

fn make_entries() -> Vec<AccountEntry> {
    vec![
        AccountEntry {
            issuer: "GitHub".into(),
            account: "u@ex.com".into(),
            code: Some("847 392".into()),
            seconds: 20,
        },
        AccountEntry {
            issuer: "AWS".into(),
            account: "root".into(),
            code: Some("128 045".into()),
            seconds: 15,
        },
    ]
}

#[test]
fn selected_entry_shows_code() {
    let mut list_state = AccountListState::new();
    list_state.select(0);
    let w = AccountList::new(make_entries());
    assert_eq!(w.row_code(0, list_state.selected()), "847 392");
    assert_eq!(w.row_label(0), "GitHub        ");
}

#[test]
fn unselected_entry_shows_masked() {
    let mut list_state = AccountListState::new();
    list_state.select(0);
    let w = AccountList::new(make_entries());
    assert!(w.row_code(1, list_state.selected()).contains("●"));
}

#[test]
fn account_list_theme_and_colours() {
    let w = AccountList::new(make_entries()).theme(ThemeMode::Light);
    assert_eq!(w.theme, ThemeMode::Light);
    assert_eq!(w.row_code_color(true), ThemeMode::Light.brand());
    assert_eq!(w.row_label_color(false), ThemeMode::Light.text_muted());
    let none = AccountList::new(vec![AccountEntry {
        issuer: "X".into(),
        account: "y".into(),
        code: None,
        seconds: 1,
    }]);
    assert_eq!(none.row_code(0, Some(0)), "──────");
}

#[test]
fn renders_issuer_and_code() {
    let d = OtpDisplay::new("GitHub".into(), "user@ex.com".into(), "847 392".into(), 20, 30);
    assert!(d.header().contains("GitHub"));
    assert_eq!(d.header(), "GitHub · user@ex.com");
    assert_eq!(d.code, "847 392");
}

#[test]
fn renders_seconds_label() {
    let d = OtpDisplay::new("GitHub".into(), "user@ex.com".into(), "847 392".into(), 19, 30);
    assert!(d.seconds_label().contains("19s remaining"));
}

#[test]
fn otp_display_focus_and_colour() {
    let d = OtpDisplay::new("A".into(), "b".into(), "1".into(), 3, 30);
    assert!(!d.focused);
    assert_eq!(d.code_color(), DANGER);
    let d = d.focused(true).theme(ThemeMode::Light);
    assert!(d.focused);
    assert_eq!(d.code_color(), ThemeMode::Light.brand());
}
