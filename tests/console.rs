use console_session::console::Console;
use console_session::prefs::Preferences;

const ENTER: u64 = 36;

#[test]
fn enter_release_submits_typed_line() {
    let mut c = Console::new(Preferences::new());
    assert!(c.take_focus_request());
    assert!(!c.take_focus_request());
    c.set_user_input("hello".to_string());
    c.begin_frame(vec![ENTER]);
    assert!(!c.end_frame(false, ENTER));
    let d = c.begin_frame(vec![]);
    assert_eq!(d.released, vec![ENTER]);
    assert!(c.end_frame(false, ENTER));
    assert_eq!(c.game().get_user_inputs(), &vec!["hello".to_string()]);
    assert_eq!(c.game().get_history().len(), 1);
    assert_eq!(c.preferences().user_input, "");
    assert!(c.take_focus_request());
}

#[test]
fn send_click_submits_without_keys() {
    let mut c = Console::new(Preferences::new());
    c.set_user_input("b".to_string());
    c.begin_frame(vec![]);
    assert!(c.end_frame(true, ENTER));
    assert_eq!(c.game().row_at(1), Ok("b".to_string()));
    c.begin_frame(vec![]);
    assert!(!c.end_frame(false, ENTER));
    assert_eq!(c.game().total_rows(), 2);
}

#[test]
fn other_key_release_does_not_submit() {
    let mut c = Console::new(Preferences::new());
    c.set_user_input("x".to_string());
    c.begin_frame(vec![5]);
    c.begin_frame(vec![]);
    assert!(!c.end_frame(false, ENTER));
    assert_eq!(c.preferences().user_input, "x");
    assert_eq!(c.game().total_rows(), 0);
}
