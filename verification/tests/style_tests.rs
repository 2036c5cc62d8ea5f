use redit::about::{about_info, about_plan};
use redit::session::EditorError;
use redit::style::{decimal_string, size_string, style_rule};

#[test]
fn decimal_digits() {
    assert_eq!(decimal_string(0).as_str(), "0");
    assert_eq!(decimal_string(7).as_str(), "7");
    assert_eq!(decimal_string(10).as_str(), "10");
    assert_eq!(decimal_string(85).as_str(), "85");
    assert_eq!(decimal_string(1234567890).as_str(), "1234567890");
    assert_eq!(decimal_string(u32::MAX).as_str(), "4294967295");
}

#[test]
fn signed_sizes() {
    assert_eq!(size_string(0).as_str(), "0");
    assert_eq!(size_string(15).as_str(), "15");
    assert_eq!(size_string(-1).as_str(), "-1");
    assert_eq!(size_string(-215).as_str(), "-215");
    assert_eq!(size_string(i32::MAX).as_str(), "2147483647");
    assert_eq!(size_string(i32::MIN).as_str(), "-2147483648");
}

#[test]
fn style_rule_text() {
    assert_eq!(style_rule(15).as_str(), "textview { font-size: 15px; }");
    assert_eq!(style_rule(17).as_str(), "textview { font-size: 17px; }");
    assert_eq!(style_rule(0).as_str(), "textview { font-size: 0px; }");
    assert_eq!(style_rule(-3).as_str(), "textview { font-size: -3px; }");
}

#[test]
fn about_metadata() {
    let info = about_info();
    assert_eq!(info.program_name.as_str(), "Redit");
    assert_eq!(info.version.as_str(), "0.0.1");
    assert_eq!(info.comments.as_str(), "Notepad application written in Rust");
    assert_eq!(info.title.as_str(), "About Redit");
}

#[test]
fn about_plan_degrades_without_logo() {
    let with_logo = about_plan(true);
    assert!(with_logo.show_logo);
    assert!(with_logo.warning.is_none());

    let without_logo = about_plan(false);
    assert!(!without_logo.show_logo);
    assert_eq!(without_logo.warning, Some(EditorError::MissingAssetError));
}
