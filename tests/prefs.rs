use console_session::prefs::{Preferences, PreferencesRecord};

#[test]
fn defaults_on_first_start() {
    let p = Preferences::load(None);
    assert_eq!(p.user_input, "");
    assert!(p.auto_scroll);
    assert!(p.refocus_input);
    let d = Preferences::default();
    assert_eq!(d.user_input, "");
    assert!(d.auto_scroll && d.refocus_input);
}

#[test]
fn load_of_save_round_trips() {
    let p = Preferences { user_input: "go north".to_string(), auto_scroll: false, refocus_input: false };
    let q = Preferences::load(Some(p.save()));
    assert_eq!(q.user_input, "go north");
    assert!(!q.auto_scroll);
    assert!(!q.refocus_input);
}

#[test]
fn missing_auto_scroll_defaults_to_true() {
    let r = PreferencesRecord {
        user_input: Some("x".to_string()),
        auto_scroll: None,
        refocus_input: Some(false),
    };
    let p = Preferences::load(Some(r));
    assert!(p.auto_scroll);
    assert_eq!(p.user_input, "x");
    assert!(!p.refocus_input);
}

#[test]
fn record_with_no_fields_loads_defaults() {
    let r = PreferencesRecord { user_input: None, auto_scroll: None, refocus_input: None };
    let p = Preferences::load(Some(r));
    assert_eq!(p.user_input, "");
    assert!(p.auto_scroll && p.refocus_input);
}
