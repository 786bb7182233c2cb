use bar_bot::codec::{deserialize, serialize, Field};
use bar_bot::drink::{Drink, LangDrink};
use bar_bot::settings::{Lang, SettingsKeyboard, UserSettings};
use bar_bot::state::State;

fn settings() -> UserSettings {
    let mut s = UserSettings::default();
    s.set_limit("42").unwrap();
    s.toggle_lang();
    s
}

fn drink(name: &str) -> LangDrink {
    LangDrink {
        drink: Drink {
            name: name.to_string(),
            ty: Some("IBA".to_string()),
            category: None,
            alco: true,
            glass: Some("Highball".to_string()),
            instructions: None,
            image: Some("http://example.org/x.jpg".to_string()),
            ingredients: vec![("Vodka".to_string(), Some("4 cl".to_string())), ("Ice".to_string(), None)],
        },
        lang: Lang::Ukr,
    }
}

fn all_states() -> Vec<State> {
    let mut nameless = settings();
    nameless.name = None;
    vec![
        State::Start,
        State::Settings(settings()),
        State::SettingsUpdate(settings(), SettingsKeyboard::MessageLimit),
        State::SettingsUpdate(nameless.clone(), SettingsKeyboard::Name),
        State::CallBack(nameless),
        State::FindByName(settings()),
        State::FindIngrByName(settings()),
        State::AllIngredients(settings()),
        State::WithIngredient(settings()),
        State::WithCategory(settings()),
        State::CocktailForYou {
            settings: settings(),
            game: ("Vodka".to_string(), "Ice".to_string()),
            all: vec![drink("A"), drink("B"), LangDrink { drink: Drink { ingredients: Vec::new(), ..drink("C").drink }, lang: Lang::Eng }],
        },
        State::CocktailForYou { settings: settings(), game: (String::new(), String::new()), all: Vec::new() },
        State::Suggestion(UserSettings::default()),
    ]
}

#[test]
fn every_state_reads_back() {
    for s in all_states() {
        let record = serialize(&s);
        let back = deserialize(&record).expect("a record reads back");
        assert_eq!(format!("{:?}", back), format!("{:?}", s));
        assert_eq!(serialize(&back), record);
    }
}

#[test]
fn record_layout() {
    assert_eq!(serialize(&State::Start), vec![Field::Num(0)]);
    assert_eq!(
        serialize(&State::CallBack(UserSettings::default())),
        vec![Field::Num(3), Field::Num(1), Field::Text("Dear".to_string()), Field::Num(1), Field::Num(10), Field::Num(0)]
    );
}

#[test]
fn malformed_records_are_refused() {
    assert!(deserialize(&Vec::new()).is_none());
    assert!(deserialize(&vec![Field::Num(11)]).is_none());
    assert!(deserialize(&vec![Field::Num(0), Field::Num(0)]).is_none());
    assert!(deserialize(&vec![Field::Text("x".to_string())]).is_none());
    // a limit outside the accepted range
    assert!(deserialize(&vec![Field::Num(3), Field::Num(0), Field::Num(1), Field::Num(200), Field::Num(0)]).is_none());
    // a truncated record
    let mut r = serialize(&all_states()[10]);
    r.pop();
    assert!(deserialize(&r).is_none());
}
