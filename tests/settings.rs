use bar_bot::error::{ErrorHandler, ErrorType};
use bar_bot::settings::{validate_limit, Lang, SettingsRejection, UserSettings};
use bar_bot::text::parse_u32;

#[test]
fn default_settings() {
    let s = UserSettings::default();
    assert_eq!(s.name.as_deref(), Some("Dear"));
    assert!(s.send_image);
    assert_eq!(s.limit_of_messages, 10);
    assert_eq!(s.lang, Lang::Ukr);
}

#[test]
fn limit_bounds_are_inclusive() {
    assert!(!validate_limit(2));
    assert!(validate_limit(3));
    assert!(validate_limit(80));
    assert!(!validate_limit(81));
}

#[test]
fn limit_update_in_range_is_taken() {
    let mut s = UserSettings::default();
    assert_eq!(s.set_limit("5"), Ok(()));
    assert_eq!(s.limit_of_messages, 5);
    assert_eq!(s.set_limit("80"), Ok(()));
    assert_eq!(s.limit_of_messages, 80);
    assert_eq!(s.set_limit("+3"), Ok(()));
    assert_eq!(s.limit_of_messages, 3);
}

#[test]
fn limit_update_out_of_range_keeps_value() {
    let mut s = UserSettings::default();
    s.set_limit("5").unwrap();
    assert_eq!(s.set_limit("2"), Err(SettingsRejection::OutOfRange));
    assert_eq!(s.limit_of_messages, 5);
    assert_eq!(s.set_limit("81"), Err(SettingsRejection::OutOfRange));
    assert_eq!(s.limit_of_messages, 5);
    for text in ["abc", "", "-5", "4294967296", "5 ", "+"] {
        assert_eq!(s.set_limit(text), Err(SettingsRejection::NotANumber));
        assert_eq!(s.limit_of_messages, 5);
    }
}

#[test]
fn decimal_parse_values() {
    assert_eq!(parse_u32("0"), Some(0));
    assert_eq!(parse_u32("007"), Some(7));
    assert_eq!(parse_u32("4294967295"), Some(u32::MAX));
    assert_eq!(parse_u32("4294967296"), None);
    assert_eq!(parse_u32("+12"), Some(12));
    assert_eq!(parse_u32("1x"), None);
    assert_eq!(parse_u32(""), None);
}

#[test]
fn name_update() {
    let mut s = UserSettings::default();
    assert_eq!(s.set_name(""), Err(SettingsRejection::EmptyName));
    assert_eq!(s.name.as_deref(), Some("Dear"));
    assert_eq!(s.set_name("Олег"), Ok(()));
    assert_eq!(s.name.as_deref(), Some("Олег"));
}

#[test]
fn toggles() {
    let mut s = UserSettings::default();
    s.toggle_images();
    assert!(!s.send_image);
    s.toggle_lang();
    assert_eq!(s.lang, Lang::Eng);
    s.toggle_lang();
    assert_eq!(s.lang, Lang::Ukr);
}

#[test]
fn critical_errors() {
    let e = |ty| ErrorHandler { msg: String::new(), ty };
    assert!(e(ErrorType::Service).is_critical());
    assert!(e(ErrorType::Database).is_critical());
    assert!(!e(ErrorType::Parse).is_critical());
    assert!(!e(ErrorType::Telegramm).is_critical());
}
