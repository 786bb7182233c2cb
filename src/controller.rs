use vstd::prelude::*;

use crate::drink::LangDrink;
use crate::game::{offered, concludes, eliminate, picks_fit, CallBackHandler, GameStep};
use crate::keyboard::{keyboard_keys, Keyboard, StartCommands};
use crate::localization::{tables_wf, LangConfig};
use crate::results::{valid_selection, MessageHandler};
use crate::settings::{limit_in_range, settings_keys, SettingsKeyboard, SettingsRejection, UserSettings};
use crate::state::{is_default_settings, settings_of, State};
use crate::text::{parse_u32_spec, same_text};

verus! {

/// What the user is asked to type.
#[derive(Debug, Clone, Copy, PartialEq, Eq, Structural)]
pub enum Prompt {
    FindCocktail,
    FindIngredient,
    WithIngredient,
    WithCategory,
    SettingsName,
    SettingsLimit,
    Suggestion,
}

/// Which catalog query a typed text is for.
#[derive(Debug, Clone, Copy, PartialEq, Eq, Structural)]
pub enum Intent {
    FindByName,
    FindIngredientByName,
    SearchByIngredient,
    SearchByCategory,
}

/// A full list the catalog can give.
#[derive(Debug, Clone, Copy, PartialEq, Eq, Structural)]
pub enum Listing {
    Ingredients,
    Categories,
}

/// Why drinks are fetched by a random first letter.
#[derive(Debug, Clone, Copy, PartialEq, Eq, Structural)]
pub enum Purpose {
    Game,
    Random,
}

/// How a catalog query went.
#[derive(Debug, Clone, Copy, PartialEq, Eq, Structural)]
pub enum Outcome {
    /// This many records came back.
    Found(usize),
    /// The catalog knows nothing for the query.
    Empty,
    /// The catalog could not be reached or its answer not read.
    Failed,
}

/// An incoming update of a conversation.
#[derive(Debug)]
pub enum Event {
    Command(StartCommands),
    /// The data of a pressed button.
    Button(String),
    Text(String),
}

/// What the bot does for a transition, in order.
#[derive(Debug)]
pub enum Action {
    ShowMainMenu,
    ShowSettings,
    Prompt(Prompt),
    Query(Intent, String),
    ListAll(Listing),
    FetchByLetter(Purpose),
    /// Show the query's records `[start, end)`, one message each with images,
    /// or all in one message when `combined`.
    ShowResults { start: usize, end: usize, combined: bool },
    OfferOptions(String, String),
    /// Show one drink, with its image when `with_image`.
    ShowDrink { drink: LangDrink, with_image: bool },
    Rejected(SettingsRejection),
    Unexpected(String),
    NotFound(Intent),
    Failure,
    SaveSuggestion(String),
}

/// The next state of a conversation and what to do to get there.
#[derive(Debug)]
pub struct Transition {
    pub next: State,
    pub actions: Vec<Action>,
}

/// How many letters are tried before giving up on finding drinks.
pub const MAX_LETTER_ATTEMPTS: u32 = 5;

/// Where a main-menu button leads.
pub open spec fn menu_target(s: UserSettings, k: Keyboard) -> State {
    match k {
        Keyboard::FindCocktail => State::FindByName(s),
        Keyboard::FindIngredient => State::FindIngrByName(s),
        Keyboard::Ingredients => State::CallBack(s),
        Keyboard::Categories => State::CallBack(s),
        Keyboard::WithThisIngredient => State::WithIngredient(s),
        Keyboard::WithThisCategory => State::WithCategory(s),
        Keyboard::DrinkForYou => State::CallBack(s),
        Keyboard::Settings => State::Settings(s),
    }
}

/// What a main-menu button does.
pub open spec fn menu_actions(k: Keyboard) -> Seq<Action> {
    match k {
        Keyboard::FindCocktail => seq![Action::Prompt(Prompt::FindCocktail)],
        Keyboard::FindIngredient => seq![Action::Prompt(Prompt::FindIngredient)],
        Keyboard::Ingredients => seq![Action::ListAll(Listing::Ingredients), Action::ShowMainMenu],
        Keyboard::Categories => seq![Action::ListAll(Listing::Categories), Action::ShowMainMenu],
        Keyboard::WithThisIngredient => seq![Action::Prompt(Prompt::WithIngredient)],
        Keyboard::WithThisCategory => seq![Action::Prompt(Prompt::WithCategory)],
        Keyboard::DrinkForYou => seq![Action::FetchByLetter(Purpose::Game)],
        Keyboard::Settings => seq![Action::ShowSettings],
    }
}

/// `s` with image delivery switched.
pub open spec fn with_images_toggled(s: UserSettings) -> UserSettings {
    UserSettings { send_image: !s.send_image, ..s }
}

/// `s` in the other locale.
pub open spec fn with_lang_toggled(s: UserSettings) -> UserSettings {
    UserSettings { lang: if s.lang == crate::settings::Lang::Ukr { crate::settings::Lang::Eng } else { crate::settings::Lang::Ukr }, ..s }
}

/// Where a settings button leads.
pub open spec fn settings_target(s: UserSettings, k: SettingsKeyboard) -> State {
    match k {
        SettingsKeyboard::Back => State::CallBack(s),
        SettingsKeyboard::Images => State::Settings(with_images_toggled(s)),
        SettingsKeyboard::Lang => State::Settings(with_lang_toggled(s)),
        SettingsKeyboard::MessageLimit => State::SettingsUpdate(s, SettingsKeyboard::MessageLimit),
        SettingsKeyboard::Name => State::SettingsUpdate(s, SettingsKeyboard::Name),
    }
}

/// What a settings button does.
pub open spec fn settings_actions(k: SettingsKeyboard) -> Seq<Action> {
    match k {
        SettingsKeyboard::Back => seq![Action::ShowMainMenu],
        SettingsKeyboard::Images => seq![Action::ShowSettings],
        SettingsKeyboard::Lang => seq![Action::ShowSettings],
        SettingsKeyboard::MessageLimit => seq![Action::Prompt(Prompt::SettingsLimit)],
        SettingsKeyboard::Name => seq![Action::Prompt(Prompt::SettingsName)],
    }
}

/// The query a state waits for text for.
pub open spec fn awaited_intent(s: State) -> Option<Intent> {
    match s {
        State::FindByName(_) => Some(Intent::FindByName),
        State::FindIngrByName(_) => Some(Intent::FindIngredientByName),
        State::WithIngredient(_) => Some(Intent::SearchByIngredient),
        State::WithCategory(_) => Some(Intent::SearchByCategory),
        _ => None,
    }
}

/// `r` is the settings `s` carries, or fresh settings when it carries none.
pub open spec fn carried(s: State, r: UserSettings) -> bool {
    &&& settings_of(s) matches Some(x) ==> r == x
    &&& settings_of(s) is None ==> is_default_settings(r)
}

fn one(a: Action) -> (r: Vec<Action>)
    ensures
        r@ == seq![a],
{
    vec![a]
}

fn two(a: Action, b: Action) -> (r: Vec<Action>)
    ensures
        r@ == seq![a, b],
{
    vec![a, b]
}

impl CallBackHandler {
    /// The main-menu button whose label in `lang` is `response`.
    pub fn to_button(response: &str, lang: &LangConfig) -> (r: Option<Keyboard>)
        ensures
            r matches Some(k) ==> exists|i: int| 0 <= i < lang.buttons.main@.len()
                && (#[trigger] lang.buttons.main@[i]).1@ == response@ && keyboard_keys()[i] == k,
            tables_wf(lang.buttons) ==> (r is None <==> forall|i: int| 0 <= i < lang.buttons.main@.len()
                ==> (#[trigger] lang.buttons.main@[i]).1@ != response@),
    {
        let table = &lang.buttons.main;
        let keys = Keyboard::as_array();
        let mut i: usize = 0;
        while i < table.len()
            invariant
                *table == lang.buttons.main,
                keys@ == keyboard_keys(),
                i <= table.len(),
                tables_wf(lang.buttons) ==> forall|j: int| 0 <= j < i ==> (#[trigger] table@[j]).1@ != response@,
            decreases table.len() - i,
        {
            if same_text(table[i].1.as_str(), response) && i < keys.len() {
                return Some(keys[i]);
            }
            i = i + 1;
        }
        None
    }

    /// The settings button whose label in `lang` is `response`.
    pub fn to_setting_button(response: &str, lang: &LangConfig) -> (r: Option<SettingsKeyboard>)
        ensures
            r matches Some(k) ==> exists|i: int| 0 <= i < lang.buttons.settings@.len()
                && (#[trigger] lang.buttons.settings@[i]).1@ == response@ && settings_keys()[i] == k,
            tables_wf(lang.buttons) ==> (r is None <==> forall|i: int| 0 <= i < lang.buttons.settings@.len()
                ==> (#[trigger] lang.buttons.settings@[i]).1@ != response@),
    {
        let table = &lang.buttons.settings;
        let keys = SettingsKeyboard::as_array();
        let mut i: usize = 0;
        while i < table.len()
            invariant
                *table == lang.buttons.settings,
                keys@ == settings_keys(),
                i <= table.len(),
                tables_wf(lang.buttons) ==> forall|j: int| 0 <= j < i ==> (#[trigger] table@[j]).1@ != response@,
            decreases table.len() - i,
        {
            if same_text(table[i].1.as_str(), response) && i < keys.len() {
                return Some(keys[i]);
            }
            i = i + 1;
        }
        None
    }

    /// Follows a main-menu button.
    pub fn main_commands(s: UserSettings, k: Keyboard) -> (t: Transition)
        ensures
            t.next == menu_target(s, k),
            t.actions@ == menu_actions(k),
    {
        match k {
            Keyboard::FindCocktail => Transition { next: State::FindByName(s), actions: one(Action::Prompt(Prompt::FindCocktail)) },
            Keyboard::FindIngredient => Transition { next: State::FindIngrByName(s), actions: one(Action::Prompt(Prompt::FindIngredient)) },
            Keyboard::Ingredients => Transition {
                next: State::CallBack(s),
                actions: two(Action::ListAll(Listing::Ingredients), Action::ShowMainMenu),
            },
            Keyboard::Categories => Transition {
                next: State::CallBack(s),
                actions: two(Action::ListAll(Listing::Categories), Action::ShowMainMenu),
            },
            Keyboard::WithThisIngredient => Transition { next: State::WithIngredient(s), actions: one(Action::Prompt(Prompt::WithIngredient)) },
            Keyboard::WithThisCategory => Transition { next: State::WithCategory(s), actions: one(Action::Prompt(Prompt::WithCategory)) },
            Keyboard::DrinkForYou => Transition { next: State::CallBack(s), actions: one(Action::FetchByLetter(Purpose::Game)) },
            Keyboard::Settings => Transition { next: State::Settings(s), actions: one(Action::ShowSettings) },
        }
    }

    /// Follows a settings button.
    pub fn callback_settings(s: UserSettings, k: SettingsKeyboard) -> (t: Transition)
        ensures
            t.next == settings_target(s, k),
            t.actions@ == settings_actions(k),
    {
        let mut s = s;
        match k {
            SettingsKeyboard::Back => Transition { next: State::CallBack(s), actions: one(Action::ShowMainMenu) },
            SettingsKeyboard::Images => {
                s.toggle_images();
                Transition { next: State::Settings(s), actions: one(Action::ShowSettings) }
            },
            SettingsKeyboard::Lang => {
                s.toggle_lang();
                Transition { next: State::Settings(s), actions: one(Action::ShowSettings) }
            },
            SettingsKeyboard::MessageLimit => Transition {
                next: State::SettingsUpdate(s, SettingsKeyboard::MessageLimit),
                actions: one(Action::Prompt(Prompt::SettingsLimit)),
            },
            SettingsKeyboard::Name => Transition {
                next: State::SettingsUpdate(s, SettingsKeyboard::Name),
                actions: one(Action::Prompt(Prompt::SettingsName)),
            },
        }
    }
}

/// The state and actions that follow a game round that ended in `r`.
pub open spec fn game_transition(s: UserSettings, r: GameStep, t: Transition) -> bool {
    match r {
        GameStep::Next { all, game } => t.next == (State::CocktailForYou { settings: s, game, all })
            && t.actions@ == seq![Action::OfferOptions(game.0, game.1)],
        GameStep::Winner(d) => t.next == State::CallBack(s)
            && t.actions@ == seq![Action::ShowDrink { drink: d, with_image: s.send_image }, Action::ShowMainMenu],
        GameStep::NoCandidates => t.next == State::CallBack(s)
            && t.actions@ == seq![Action::Failure, Action::ShowMainMenu],
    }
}

/// What typed text does in `state`.
pub open spec fn text_post(state: State, text: String, t: Transition) -> bool {
    match state {
        State::FindByName(_) => t.next == state && t.actions@ == seq![Action::Query(Intent::FindByName, text)],
        State::FindIngrByName(_) => t.next == state
            && t.actions@ == seq![Action::Query(Intent::FindIngredientByName, text)],
        State::WithIngredient(_) => t.next == state
            && t.actions@ == seq![Action::Query(Intent::SearchByIngredient, text)],
        State::WithCategory(_) => t.next == state
            && t.actions@ == seq![Action::Query(Intent::SearchByCategory, text)],
        State::SettingsUpdate(s, SettingsKeyboard::Name) => if text@.len() > 0 {
            &&& t.next matches State::CallBack(x)
            &&& x.name matches Some(n) && n@ == text@
            &&& x.send_image == s.send_image && x.limit_of_messages == s.limit_of_messages && x.lang == s.lang
            &&& t.actions@ == seq![Action::ShowMainMenu]
        } else {
            t.next == state && t.actions@ == seq![Action::Rejected(SettingsRejection::EmptyName)]
        },
        State::SettingsUpdate(s, SettingsKeyboard::MessageLimit) => match parse_u32_spec(text@) {
            Some(n) => if limit_in_range(n as int) {
                t.next == State::CallBack(UserSettings { limit_of_messages: n, ..s })
                    && t.actions@ == seq![Action::ShowMainMenu]
            } else {
                t.next == state && t.actions@ == seq![Action::Rejected(SettingsRejection::OutOfRange)]
            },
            None => t.next == state && t.actions@ == seq![Action::Rejected(SettingsRejection::NotANumber)],
        },
        State::Suggestion(s) => t.next == State::CallBack(s)
            && t.actions@ == seq![Action::SaveSuggestion(text), Action::ShowMainMenu],
        _ => {
            &&& t.next matches State::CallBack(x)
            &&& carried(state, x)
            &&& t.actions@ == seq![Action::Unexpected(text), Action::ShowMainMenu]
        },
    }
}

/// What a pressed button with data `data` does in `state`: in the game the
/// data is an offered ingredient, elsewhere the key of a button.
pub open spec fn button_post(state: State, data: String, t: Transition) -> bool {
    match state {
        State::CocktailForYou { settings, game, all } => if data@ == game.0@ || data@ == game.1@ {
            exists|picks: Seq<usize>, r: GameStep|
                picks_fit(eliminate(all@, data@), picks)
                && #[trigger] concludes(eliminate(all@, data@), offered(eliminate(all@, data@), picks), r)
                && game_transition(settings, r, t)
        } else {
            t.next == state && t.actions@ == seq![Action::Unexpected(data)]
        },
        State::Settings(s) => {
            &&& forall|k: SettingsKeyboard| #[trigger] crate::settings::settings_key_text(k) == data@
                ==> t.next == settings_target(s, k) && t.actions@ == settings_actions(k)
            &&& (forall|k: SettingsKeyboard| #[trigger] crate::settings::settings_key_text(k) != data@)
                ==> t.next == state && t.actions@ == seq![Action::Unexpected(data), Action::ShowSettings]
        },
        _ => {
            &&& forall|k: Keyboard| #[trigger] crate::keyboard::keyboard_key_text(k) == data@
                ==> (settings_of(t.next) matches Some(x) && carried(state, x)
                    && t.next == menu_target(x, k) && t.actions@ == menu_actions(k))
            &&& (forall|k: Keyboard| #[trigger] crate::keyboard::keyboard_key_text(k) != data@)
                ==> (t.next matches State::CallBack(x) && carried(state, x)
                    && t.actions@ == seq![Action::Unexpected(data), Action::ShowMainMenu])
        },
    }
}

/// What a command does in `state`.
pub open spec fn command_post(state: State, c: StartCommands, t: Transition) -> bool {
    match c {
        StartCommands::Back => t.next is Start && t.actions@ == seq![Action::ShowMainMenu],
        StartCommands::Random => t.next matches State::CallBack(x) && carried(state, x)
            && t.actions@ == seq![Action::FetchByLetter(Purpose::Random)],
        StartCommands::SuggestionAndBags => t.next matches State::Suggestion(x) && carried(state, x)
            && t.actions@ == seq![Action::Prompt(Prompt::Suggestion)],
    }
}

/// What an event does in `state`.
pub open spec fn event_post(state: State, e: Event, t: Transition) -> bool {
    match e {
        Event::Command(c) => command_post(state, c, t),
        Event::Button(d) => button_post(state, d, t),
        Event::Text(x) => text_post(state, x, t),
    }
}

/// The query results to show: a valid selection under the limit, one
/// message each with images or all in one message without.
pub open spec fn shows_results(s: UserSettings, n: usize, a: Action) -> bool {
    a matches Action::ShowResults { start, end, combined }
        && combined == !s.send_image
        && valid_selection(n as int, s.limit_of_messages as int, start as int, end as int)
}

impl MessageHandler {
    /// How a catalog query went from what it gave: the number of records
    /// that read, or `None` when the catalog found nothing.
    pub fn query_outcome(found: Option<usize>) -> (r: Outcome)
        ensures
            (found matches Some(n) && n > 0) ==> r == Outcome::Found(found->0),
            !(found matches Some(n) && n > 0) ==> r == Outcome::Empty,
    {
        match found {
            Some(n) => if n > 0 {
                Outcome::Found(n)
            } else {
                Outcome::Empty
            },
            None => Outcome::Empty,
        }
    }

    /// Decides what typed text does.
    pub fn on_text(state: State, text: String) -> (t: Transition)
        ensures
            text_post(state, text, t),
            state.wf() ==> t.next.wf(),
    {
        match state {
            State::FindByName(s) => Transition {
                next: State::FindByName(s),
                actions: one(Action::Query(Intent::FindByName, text)),
            },
            State::FindIngrByName(s) => Transition {
                next: State::FindIngrByName(s),
                actions: one(Action::Query(Intent::FindIngredientByName, text)),
            },
            State::WithIngredient(s) => Transition {
                next: State::WithIngredient(s),
                actions: one(Action::Query(Intent::SearchByIngredient, text)),
            },
            State::WithCategory(s) => Transition {
                next: State::WithCategory(s),
                actions: one(Action::Query(Intent::SearchByCategory, text)),
            },
            State::SettingsUpdate(s, SettingsKeyboard::Name) => {
                let mut s = s;
                match s.set_name(text.as_str()) {
                    Ok(()) => Transition { next: State::CallBack(s), actions: one(Action::ShowMainMenu) },
                    Err(e) => Transition {
                        next: State::SettingsUpdate(s, SettingsKeyboard::Name),
                        actions: one(Action::Rejected(e)),
                    },
                }
            },
            State::SettingsUpdate(s, SettingsKeyboard::MessageLimit) => {
                let mut s = s;
                match s.set_limit(text.as_str()) {
                    Ok(()) => Transition { next: State::CallBack(s), actions: one(Action::ShowMainMenu) },
                    Err(e) => Transition {
                        next: State::SettingsUpdate(s, SettingsKeyboard::MessageLimit),
                        actions: one(Action::Rejected(e)),
                    },
                }
            },
            State::Suggestion(s) => Transition {
                next: State::CallBack(s),
                actions: two(Action::SaveSuggestion(text), Action::ShowMainMenu),
            },
            other => {
                let s = other.into_settings();
                Transition { next: State::CallBack(s), actions: two(Action::Unexpected(text), Action::ShowMainMenu) }
            },
        }
    }

    /// Decides what the outcome of a catalog query for `intent` does.
    pub fn on_query_result(state: State, intent: Intent, outcome: Outcome) -> (t: Transition)
        ensures
            outcome matches Outcome::Found(n) ==> (t.next matches State::CallBack(x) && carried(state, x)
                && t.actions@.len() == 2 && shows_results(x, n, t.actions@[0])
                && t.actions@[1] == Action::ShowMainMenu),
            outcome is Empty ==> t.next == state
                && t.actions@ == seq![Action::NotFound(intent), Action::ShowMainMenu],
            outcome is Failed ==> t.next == state && t.actions@ == seq![Action::Failure, Action::ShowMainMenu],
            state.wf() ==> t.next.wf(),
    {
        match outcome {
            Outcome::Found(n) => {
                let s = state.into_settings();
                let (start, end) = MessageHandler::get_range(n, s.limit_of_messages as usize);
                let combined = !s.send_image;
                Transition {
                    next: State::CallBack(s),
                    actions: two(Action::ShowResults { start, end, combined }, Action::ShowMainMenu),
                }
            },
            Outcome::Empty => Transition { next: state, actions: two(Action::NotFound(intent), Action::ShowMainMenu) },
            Outcome::Failed => Transition { next: state, actions: two(Action::Failure, Action::ShowMainMenu) },
        }
    }
}

impl CallBackHandler {
    /// The state and actions after a game round that ended in `step`.
    pub fn after_round(settings: UserSettings, step: GameStep) -> (t: Transition)
        ensures
            game_transition(settings, step, t),
            settings_of(t.next) == Some(settings),
    {
        match step {
            GameStep::Next { all, game } => {
                let a = game.0.clone();
                let b = game.1.clone();
                Transition {
                    next: State::CocktailForYou { settings, game, all },
                    actions: one(Action::OfferOptions(a, b)),
                }
            },
            GameStep::Winner(d) => {
                let with_image = settings.send_image;
                Transition {
                    next: State::CallBack(settings),
                    actions: two(Action::ShowDrink { drink: d, with_image }, Action::ShowMainMenu),
                }
            },
            GameStep::NoCandidates => Transition {
                next: State::CallBack(settings),
                actions: two(Action::Failure, Action::ShowMainMenu),
            },
        }
    }

    /// Decides what a pressed button does.
    pub fn on_button(state: State, data: String) -> (t: Transition)
        ensures
            button_post(state, data, t),
            state.wf() ==> t.next.wf(),
    {
        proof {
            crate::settings::lemma_settings_key_text_injective();
            crate::keyboard::lemma_keyboard_key_text_injective();
        }
        match state {
            State::CocktailForYou { settings, game, all } => {
                if same_text(data.as_str(), game.0.as_str()) || same_text(data.as_str(), game.1.as_str()) {
                    let ghost cands = eliminate(all@, data@);
                    let step = CallBackHandler::play_round(all, data.as_str());
                    let ghost picks = choose|picks: Seq<usize>| picks_fit(cands, picks) && #[trigger] concludes(cands, offered(cands, picks), step);
                    let t = Self::after_round(settings, step);
                    assert(picks_fit(cands, picks) && concludes(cands, offered(cands, picks), step) && game_transition(settings, step, t));
                    t
                } else {
                    Transition {
                        next: State::CocktailForYou { settings, game, all },
                        actions: one(Action::Unexpected(data)),
                    }
                }
            },
            State::Settings(s) => match SettingsKeyboard::try_from(data.as_str()) {
                Ok(k) => Self::callback_settings(s, k),
                Err(_) => Transition { next: State::Settings(s), actions: two(Action::Unexpected(data), Action::ShowSettings) },
            },
            other => {
                let s = other.into_settings();
                match Keyboard::try_from(data.as_str()) {
                    Ok(k) => Self::main_commands(s, k),
                    Err(_) => Transition {
                        next: State::CallBack(s),
                        actions: two(Action::Unexpected(data), Action::ShowMainMenu),
                    },
                }
            },
        }
    }

    /// Decides what a drinks-by-letter fetch made for `purpose` does; `attempt`
    /// counts the fetches made so far, this one included.
    pub fn on_letter_result(state: State, purpose: Purpose, drinks: Vec<LangDrink>, attempt: u32) -> (t: Transition)
        ensures
            drinks.len() == 0 && attempt < MAX_LETTER_ATTEMPTS ==> t.next == state
                && t.actions@ == seq![Action::FetchByLetter(purpose)],
            drinks.len() == 0 && attempt >= MAX_LETTER_ATTEMPTS ==> (t.next matches State::CallBack(x)
                && carried(state, x) && t.actions@ == seq![Action::Failure, Action::ShowMainMenu]),
            drinks.len() > 0 && purpose == Purpose::Game ==> exists|x: UserSettings, picks: Seq<usize>, r: GameStep|
                carried(state, x)
                && picks_fit(drinks@, picks)
                && #[trigger] concludes(drinks@, offered(drinks@, picks), r)
                && #[trigger] game_transition(x, r, t),
            drinks.len() > 0 && purpose == Purpose::Random ==> (t.next matches State::CallBack(x) && carried(state, x)
                && exists|i: int| 0 <= i < drinks.len() && t.actions@
                    == seq![Action::ShowDrink { drink: #[trigger] drinks@[i], with_image: x.send_image }, Action::ShowMainMenu]),
            state.wf() ==> t.next.wf(),
    {
        if drinks.len() == 0 {
            if attempt < MAX_LETTER_ATTEMPTS {
                return Transition { next: state, actions: one(Action::FetchByLetter(purpose)) };
            }
            let s = state.into_settings();
            return Transition { next: State::CallBack(s), actions: two(Action::Failure, Action::ShowMainMenu) };
        }
        let s = state.into_settings();
        match purpose {
            Purpose::Game => {
                let ghost cands = drinks@;
                let step = CallBackHandler::start_game(drinks);
                let ghost picks = choose|picks: Seq<usize>| picks_fit(cands, picks) && #[trigger] concludes(cands, offered(cands, picks), step);
                let ghost x = s;
                let t = Self::after_round(s, step);
                assert(carried(state, x) && picks_fit(cands, picks) && concludes(cands, offered(cands, picks), step) && game_transition(x, step, t));
                t
            },
            Purpose::Random => {
                let mut drinks = drinks;
                let ghost orig = drinks@;
                let i = crate::helpers::random_num_in_range(0, drinks.len());
                let drink = drinks.remove(i);
                let with_image = s.send_image;
                let t = Transition {
                    next: State::CallBack(s),
                    actions: two(Action::ShowDrink { drink, with_image }, Action::ShowMainMenu),
                };
                assert(t.actions@ == seq![Action::ShowDrink { drink: orig[i as int], with_image: s.send_image }, Action::ShowMainMenu]);
                t
            },
        }
    }
}

impl MessageHandler {
    /// Decides what a command does.
    pub fn on_command(state: State, c: StartCommands) -> (t: Transition)
        ensures
            command_post(state, c, t),
            state.wf() ==> t.next.wf(),
    {
        match c {
            StartCommands::Back => Transition { next: State::Start, actions: one(Action::ShowMainMenu) },
            StartCommands::Random => {
                let s = state.into_settings();
                Transition { next: State::CallBack(s), actions: one(Action::FetchByLetter(Purpose::Random)) }
            },
            StartCommands::SuggestionAndBags => {
                let s = state.into_settings();
                Transition { next: State::Suggestion(s), actions: one(Action::Prompt(Prompt::Suggestion)) }
            },
        }
    }

    /// Decides the next state of a conversation and what to do for an event.
    pub fn on_event(state: State, event: Event) -> (t: Transition)
        ensures
            event_post(state, event, t),
            state.wf() ==> t.next.wf(),
    {
        match event {
            Event::Command(c) => Self::on_command(state, c),
            Event::Button(d) => CallBackHandler::on_button(state, d),
            Event::Text(x) => Self::on_text(state, x),
        }
    }
}

} // verus!
