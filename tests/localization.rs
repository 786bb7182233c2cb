use bar_bot::keyboard::standard_keyboard_as_str_vec;
use bar_bot::localization::{eng_config, ukr_config};
use bar_bot::settings::Lang;

#[test]
pub fn test() {
    assert_eq!(Lang::Ukr.config().send_commands, ukr_config().send_commands)
}

#[test]
fn test3() {
    assert_eq!(eng_config().send_commands, "Here we go: ");
}

#[test]
fn test4() {
    assert_eq!(ukr_config().send_commands, "Поїхали!: ");
}

#[test]
fn main_menu_labels_follow_the_table() {
    let c = eng_config();
    let labels = standard_keyboard_as_str_vec(&c);
    assert_eq!(labels.len(), 8);
    assert_eq!(labels[0], "Find a cocktail");
    assert_eq!(labels[7], "Settings");
}
