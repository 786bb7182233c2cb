use bar_bot::helpers::{random_english_character, random_num_in_range};
use bar_bot::results::MessageHandler;

#[test]
fn all_results_fit() {
    assert_eq!(MessageHandler::get_range(0, 10), (0, 0));
    assert_eq!(MessageHandler::get_range(7, 10), (0, 7));
    assert_eq!(MessageHandler::get_range(10, 10), (0, 10));
}

#[test]
fn results_over_the_limit_are_a_window() {
    for _ in 0..200 {
        let (start, end) = MessageHandler::get_range(12, 5);
        assert_eq!(end - start, 5);
        assert!(end <= 12);
    }
    assert_eq!(MessageHandler::select_range(12, 5, 7), (7, 12));
    assert_eq!(MessageHandler::select_range(12, 5, 0), (0, 5));
    assert_eq!(MessageHandler::select_range(4, 5, 3), (0, 4));
}

#[test]
fn random_values_stay_in_range() {
    for _ in 0..200 {
        let n = random_num_in_range(3, 6);
        assert!((3..6).contains(&n));
        let c = random_english_character().unwrap();
        assert!(c.is_ascii_uppercase());
    }
}
