use bar_bot::drink::{Drink, LangDrink};
use bar_bot::localization::eng_config;
use bar_bot::render::Emojis;
use bar_bot::schemas::{LangList, List};
use bar_bot::settings::{Lang, UserSettings};
use bar_bot::str_builder::{split, vec_to_string, StringBuilder, TELEGRAMM_CHAR_LIMIT};

#[test]
fn builder_lines() {
    let s = StringBuilder::new()
        .add("Name:", Some("Bob".to_string()))
        .add("Skipped:", None)
        .add_many(&vec![("Gin".to_string(), Some("4 cl".to_string())), ("Ice".to_string(), None)])
        .get_str();
    assert_eq!(
        s,
        " - Name: Bob \n ___________________________ \n  - Gin 4 cl \n ___________________________ \n  - Ice  "
    );
    assert_eq!(StringBuilder::new().get_str(), "");
}

#[test]
fn joined_records() {
    let v = vec!["a".to_string(), "b".to_string(), "c".to_string()];
    assert_eq!(vec_to_string(&v, ", "), "a, b, c");
    assert_eq!(vec_to_string(&Vec::new(), ", "), "");
}

#[test]
fn long_messages_are_cut() {
    let short = "hello";
    assert_eq!(split(short), vec!["hello".to_string()]);
    let long: String = "ab\u{0456}c".repeat(5000);
    let parts = split(&long);
    assert!(parts.len() >= 2);
    assert!(parts.iter().all(|p| p.chars().count() < TELEGRAMM_CHAR_LIMIT));
    assert_eq!(parts.concat(), long);
    let exact: String = "x".repeat(TELEGRAMM_CHAR_LIMIT);
    assert_eq!(split(&exact).len(), 2);
}

#[test]
fn settings_view() {
    let mut s = UserSettings::default();
    s.toggle_lang();
    let c = eng_config();
    assert_eq!(
        s.render(&c),
        " - Name: Dear \n ___________________________ \n  - Send images: Yes \n ___________________________ \n  - Language: English \n ___________________________ \n  - Messages per answer (from 3 to 80): 10 "
    );
    assert_eq!(s.to_text(), s.render(&c));
}

#[test]
fn drink_card() {
    let d = LangDrink {
        drink: Drink {
            name: "Gimlet".to_string(),
            ty: None,
            category: Some("Cocktail".to_string()),
            alco: false,
            glass: None,
            instructions: None,
            image: None,
            ingredients: vec![("Gin".to_string(), None)],
        },
        lang: Lang::Eng,
    };
    let card = d.render(&eng_config(), '*');
    assert_eq!(
        card,
        " - Beverage name * : Gimlet \n ___________________________ \n  - Category:  Cocktail \n ___________________________ \n  - With alcohol:  No \n ___________________________ \n  - Gin  "
    );
    let l = LangList { list: List { name: "Rum".to_string() }, lang: Lang::Eng };
    assert_eq!(l.render(&eng_config()), " - Beverage name Rum");
}

#[test]
fn emoji_come_from_their_list() {
    for e in [Emojis::Drink, Emojis::Hello, Emojis::ShitHappens, Emojis::Smile] {
        for _ in 0..30 {
            let c = e.random().unwrap();
            assert!(e.list().contains(&c));
        }
    }
}

#[test]
fn long_messages_are_cut_at_the_middle() {
    let long: String = "y".repeat(5000);
    let parts = split(&long);
    assert_eq!(parts.iter().map(|p| p.chars().count()).collect::<Vec<_>>(), vec![2500, 2500]);
    let longer: String = "\u{0457}".repeat(9000);
    let parts = split(&longer);
    assert_eq!(parts.iter().map(|p| p.chars().count()).collect::<Vec<_>>(), vec![2250, 2250, 2250, 2250]);
}

#[test]
fn settings_view_in_own_locale() {
    let s = UserSettings::default();
    assert!(s.to_text().starts_with(" - Ім'я: Dear "));
    assert!(s.to_text().contains("Українська"));
}
