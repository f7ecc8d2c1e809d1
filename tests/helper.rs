use workout_iterator::helper::is_true_setting;
use workout_iterator::is_ui_dev;

#[test]
fn ui_dev_reads_true_in_any_case() {
    assert!(is_ui_dev(Some("true")));
    assert!(is_ui_dev(Some("TRUE")));
    assert!(is_ui_dev(Some("True")));
}

#[test]
fn ui_dev_is_off_otherwise() {
    assert!(!is_ui_dev(None));
    assert!(!is_ui_dev(Some("false")));
    assert!(!is_ui_dev(Some("1")));
    assert!(!is_ui_dev(Some("")));
}

#[test]
fn true_setting_needs_lowercase_text() {
    assert!(is_true_setting("true"));
    assert!(!is_true_setting("TRUE"));
}
