use bar_bot::controller::{Action, Event, Intent, Outcome, Prompt, Purpose};
use bar_bot::drink::{Drink, LangDrink};
use bar_bot::game::CallBackHandler;
use bar_bot::keyboard::StartCommands;
use bar_bot::results::MessageHandler;
use bar_bot::settings::{Lang, SettingsKeyboard, SettingsRejection, UserSettings};
use bar_bot::state::State;

fn drink(name: &str, ingredients: &[&str]) -> LangDrink {
    LangDrink {
        drink: Drink {
            name: name.to_string(),
            ty: None,
            category: None,
            alco: true,
            glass: None,
            instructions: None,
            image: Some("http://example.org/i.png".to_string()),
            ingredients: ingredients.iter().map(|i| (i.to_string(), None)).collect(),
        },
        lang: Lang::Eng,
    }
}

fn button(state: State, key: &str) -> (State, Vec<Action>) {
    let t = MessageHandler::on_event(state, Event::Button(key.to_string()));
    (t.next, t.actions)
}

fn text(state: State, s: &str) -> (State, Vec<Action>) {
    let t = MessageHandler::on_event(state, Event::Text(s.to_string()));
    (t.next, t.actions)
}

#[test]
fn scenario_find_by_name_found() {
    let (state, actions) = button(State::CallBack(UserSettings::default()), "FindCocktail");
    assert!(matches!(state, State::FindByName(_)));
    assert!(matches!(actions[..], [Action::Prompt(Prompt::FindCocktail)]));
    let (state, actions) = text(state, "Margarita");
    assert!(matches!(state, State::FindByName(_)));
    match &actions[..] {
        [Action::Query(Intent::FindByName, q)] => assert_eq!(q, "Margarita"),
        other => panic!("{:?}", other),
    }
    let t = MessageHandler::on_query_result(state, Intent::FindByName, Outcome::Found(1));
    assert!(matches!(t.next, State::CallBack(_)));
    assert!(matches!(
        t.actions[..],
        [Action::ShowResults { start: 0, end: 1, combined: false }, Action::ShowMainMenu]
    ));
}

#[test]
fn scenario_find_by_name_not_found() {
    let (state, _) = button(State::CallBack(UserSettings::default()), "FindCocktail");
    let before = format!("{:?}", state);
    let (state, _) = text(state, "qwzxqwzx");
    let t = MessageHandler::on_query_result(state, Intent::FindByName, Outcome::Empty);
    assert_eq!(format!("{:?}", t.next), before);
    assert!(matches!(t.actions[..], [Action::NotFound(Intent::FindByName), Action::ShowMainMenu]));
    let t = MessageHandler::on_query_result(t.next, Intent::FindByName, Outcome::Failed);
    assert_eq!(format!("{:?}", t.next), before);
    assert!(matches!(t.actions[..], [Action::Failure, Action::ShowMainMenu]));
}

#[test]
fn results_without_images_are_combined_and_limited() {
    let mut s = UserSettings::default();
    s.toggle_images();
    s.set_limit("3").unwrap();
    let t = MessageHandler::on_query_result(State::WithCategory(s), Intent::SearchByCategory, Outcome::Found(9));
    match t.actions[..] {
        [Action::ShowResults { start, end, combined: true }, Action::ShowMainMenu] => {
            assert_eq!(end - start, 3);
            assert!(end <= 9);
        }
        _ => panic!("{:?}", t.actions),
    }
}

fn limit_of(state: &State) -> u32 {
    state.get_settings().unwrap().limit_of_messages
}

#[test]
fn scenario_settings_limit() {
    let (state, actions) = button(State::CallBack(UserSettings::default()), "Settings");
    assert!(matches!(state, State::Settings(_)));
    assert!(matches!(actions[..], [Action::ShowSettings]));
    let (state, actions) = button(state, "MessageLimit");
    assert!(matches!(state, State::SettingsUpdate(_, SettingsKeyboard::MessageLimit)));
    assert!(matches!(actions[..], [Action::Prompt(Prompt::SettingsLimit)]));
    let (state, actions) = text(state, "5");
    assert!(matches!(state, State::CallBack(_)));
    assert!(matches!(actions[..], [Action::ShowMainMenu]));
    assert_eq!(limit_of(&state), 5);
    let (state, _) = button(state, "Settings");
    let (state, _) = button(state, "MessageLimit");
    let (state, actions) = text(state, "2");
    assert!(matches!(state, State::SettingsUpdate(_, SettingsKeyboard::MessageLimit)));
    assert!(matches!(actions[..], [Action::Rejected(SettingsRejection::OutOfRange)]));
    assert_eq!(limit_of(&state), 5);
    let (state, actions) = text(state, "five");
    assert!(matches!(actions[..], [Action::Rejected(SettingsRejection::NotANumber)]));
    assert_eq!(limit_of(&state), 5);
}

#[test]
fn settings_buttons_apply_in_place() {
    let (state, _) = button(State::Settings(UserSettings::default()), "Images");
    assert!(matches!(&state, State::Settings(s) if !s.send_image));
    let (state, _) = button(state, "Lang");
    assert!(matches!(&state, State::Settings(s) if s.lang == Lang::Eng));
    let (state, actions) = button(state, "Name");
    assert!(matches!(actions[..], [Action::Prompt(Prompt::SettingsName)]));
    let (state, _) = text(state, "Bob");
    assert_eq!(state.get_settings().unwrap().name.as_deref(), Some("Bob"));
    let (state, _) = button(state, "Settings");
    let (state, actions) = button(state, "Back");
    assert!(matches!(state, State::CallBack(_)));
    assert!(matches!(actions[..], [Action::ShowMainMenu]));
    let (state, actions) = button(State::Settings(UserSettings::default()), "Nope");
    assert!(matches!(state, State::Settings(_)));
    assert!(matches!(actions[..], [Action::Unexpected(_), Action::ShowSettings]));
}

#[test]
fn unexpected_text_returns_to_the_menu() {
    let (state, actions) = text(State::Start, "hello");
    match (&state, &actions[..]) {
        (State::CallBack(s), [Action::Unexpected(t), Action::ShowMainMenu]) => {
            assert_eq!(t, "hello");
            assert_eq!(s.limit_of_messages, 10);
        }
        _ => panic!("{:?}", actions),
    }
}

#[test]
fn commands() {
    let t = MessageHandler::on_event(State::CallBack(UserSettings::default()), Event::Command(StartCommands::Back));
    assert!(matches!(t.next, State::Start));
    let t = MessageHandler::on_event(State::Start, Event::Command(StartCommands::SuggestionAndBags));
    assert!(matches!(t.next, State::Suggestion(_)));
    let (state, actions) = text(t.next, "more drinks");
    assert!(matches!(state, State::CallBack(_)));
    assert!(matches!(&actions[..], [Action::SaveSuggestion(s), Action::ShowMainMenu] if s == "more drinks"));
    let t = MessageHandler::on_event(state, Event::Command(StartCommands::Random));
    assert!(matches!(t.actions[..], [Action::FetchByLetter(Purpose::Random)]));
}

#[test]
fn letter_fetch_retries_then_gives_up() {
    let t = CallBackHandler::on_letter_result(State::CallBack(UserSettings::default()), Purpose::Game, Vec::new(), 1);
    assert!(matches!(t.actions[..], [Action::FetchByLetter(Purpose::Game)]));
    let t = CallBackHandler::on_letter_result(t.next, Purpose::Game, Vec::new(), 5);
    assert!(matches!(t.actions[..], [Action::Failure, Action::ShowMainMenu]));
    let t = CallBackHandler::on_letter_result(t.next, Purpose::Random, vec![drink("A", &["Gin"])], 1);
    match &t.actions[..] {
        [Action::ShowDrink { drink, with_image: true }, Action::ShowMainMenu] => assert_eq!(drink.drink.name, "A"),
        other => panic!("{:?}", other),
    }
}

#[test]
fn scenario_game_through_the_dialogue() {
    let (state, actions) = button(State::CallBack(UserSettings::default()), "DrinkForYou");
    assert!(matches!(actions[..], [Action::FetchByLetter(Purpose::Game)]));
    let drinks = vec![
        drink("Screwdriver", &["Vodka"]),
        drink("Martini", &["Gin"]),
        drink("Mojito", &["Rum"]),
        drink("Cosmopolitan", &["Vodka"]),
    ];
    let t = CallBackHandler::on_letter_result(state, Purpose::Game, drinks, 1);
    match (&t.next, &t.actions[..]) {
        (State::CocktailForYou { all, game, .. }, [Action::OfferOptions(a, b)]) => {
            assert_eq!(all.len(), 4);
            assert_eq!(game, &("Vodka".to_string(), "Gin".to_string()));
            assert_eq!((a.as_str(), b.as_str()), ("Vodka", "Gin"));
        }
        other => panic!("{:?}", other),
    }
    let (state, actions) = button(t.next, "Vodka");
    match &state {
        State::CocktailForYou { all, game, .. } => {
            assert!(all.iter().all(|d| d.drink.ingredients.iter().all(|(i, _)| i != "Vodka")));
            assert_eq!(all.len(), 2);
            assert_eq!(game, &("Gin".to_string(), "Rum".to_string()));
            assert!(matches!(actions[..], [Action::OfferOptions(_, _)]));
        }
        other => panic!("{:?}", other),
    }
    let (state, actions) = button(state, "Gin");
    assert!(matches!(state, State::CallBack(_)));
    match &actions[..] {
        [Action::ShowDrink { drink, with_image: true }, Action::ShowMainMenu] => assert_eq!(drink.drink.name, "Mojito"),
        other => panic!("{:?}", other),
    }
}

#[test]
fn query_outcomes() {
    assert_eq!(MessageHandler::query_outcome(None), Outcome::Empty);
    assert_eq!(MessageHandler::query_outcome(Some(0)), Outcome::Empty);
    assert_eq!(MessageHandler::query_outcome(Some(3)), Outcome::Found(3));
}

#[test]
fn game_ignores_other_buttons() {
    let state = State::CocktailForYou {
        settings: UserSettings::default(),
        game: ("Vodka".to_string(), "Gin".to_string()),
        all: vec![drink("A", &["Vodka"]), drink("B", &["Gin"])],
    };
    let (state, actions) = button(state, "Rum");
    assert!(matches!(&state, State::CocktailForYou { all, .. } if all.len() == 2));
    assert!(matches!(actions[..], [Action::Unexpected(_)]));
}
