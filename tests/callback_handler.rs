use bar_bot::game::CallBackHandler;
use bar_bot::keyboard::Keyboard;
use bar_bot::localization::{eng_config, ukr_config};
use bar_bot::settings::SettingsKeyboard;

#[test]
fn test_char() {
    let char = char::from_u32(90 - 25).unwrap();
    println!("output {}", char);
}

#[test]
fn labels_map_back_to_buttons() {
    let c = eng_config();
    assert_eq!(CallBackHandler::to_button("Cocktail for you", &c), Some(Keyboard::DrinkForYou));
    assert_eq!(CallBackHandler::to_button("Find a cocktail", &c), Some(Keyboard::FindCocktail));
    assert_eq!(CallBackHandler::to_button("nothing like this", &c), None);
    let u = ukr_config();
    assert_eq!(CallBackHandler::to_setting_button("Назад", &u), Some(SettingsKeyboard::Back));
    assert_eq!(CallBackHandler::to_setting_button("Back", &u), None);
}

#[test]
fn keys_parse_to_buttons() {
    assert_eq!(Keyboard::try_from("Settings").unwrap(), Keyboard::Settings);
    assert!(Keyboard::try_from("settings").is_err());
    assert_eq!(SettingsKeyboard::try_from("MessageLimit").unwrap(), SettingsKeyboard::MessageLimit);
    let e = SettingsKeyboard::try_from("Limit").unwrap_err();
    assert_eq!(e.ty, bar_bot::error::ErrorType::Parse);
    for k in Keyboard::as_array() {
        assert_eq!(Keyboard::try_from(k.as_str()).unwrap(), k);
    }
    for k in SettingsKeyboard::as_array() {
        assert_eq!(SettingsKeyboard::try_from(k.as_str()).unwrap(), k);
    }
}
