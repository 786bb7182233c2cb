use vstd::prelude::*;

use crate::drink::LangDrink;
use crate::settings::{SettingsKeyboard, UserSettings};

verus! {

/// The dialogue mode of one conversation, with what it carries.
#[derive(Debug)]
pub enum State {
    /// Nothing has happened yet, or the dialogue was finished.
    Start,
    /// The settings view is shown.
    Settings(UserSettings),
    /// Waiting for a new value of one settings field.
    SettingsUpdate(UserSettings, SettingsKeyboard),
    /// The main menu is shown.
    CallBack(UserSettings),
    /// Waiting for a drink name.
    FindByName(UserSettings),
    /// Waiting for an ingredient name.
    FindIngrByName(UserSettings),
    /// The list of all ingredients was shown.
    AllIngredients(UserSettings),
    /// Waiting for an ingredient to search drinks by.
    WithIngredient(UserSettings),
    /// Waiting for a category to search drinks by.
    WithCategory(UserSettings),
    /// In the narrowing game: the two options offered and the candidates left.
    CocktailForYou { settings: UserSettings, game: (String, String), all: Vec<LangDrink> },
    /// Waiting for a suggestion or bug report.
    Suggestion(UserSettings),
}

/// The settings a state carries; none in `Start`.
pub open spec fn settings_of(s: State) -> Option<UserSettings> {
    match s {
        State::Start => None,
        State::Settings(x) => Some(x),
        State::SettingsUpdate(x, _) => Some(x),
        State::CallBack(x) => Some(x),
        State::FindByName(x) => Some(x),
        State::FindIngrByName(x) => Some(x),
        State::AllIngredients(x) => Some(x),
        State::WithIngredient(x) => Some(x),
        State::WithCategory(x) => Some(x),
        State::CocktailForYou { settings, .. } => Some(settings),
        State::Suggestion(x) => Some(x),
    }
}

/// Whether `s` holds the values of fresh settings.
pub open spec fn is_default_settings(s: UserSettings) -> bool {
    &&& s.name matches Some(n) && n@ == "Dear"@
    &&& s.send_image
    &&& s.limit_of_messages == crate::settings::DEFAULT_LIMIT
    &&& s.lang == crate::settings::Lang::Ukr
}

impl UserSettings {
    /// A copy of these settings.
    pub fn duplicate(&self) -> (r: UserSettings)
        ensures
            r == *self,
    {
        let name = match &self.name {
            Some(n) => Some(n.clone()),
            None => None,
        };
        UserSettings {
            name,
            send_image: self.send_image,
            limit_of_messages: self.limit_of_messages,
            lang: self.lang,
        }
    }
}

impl State {
    /// Settings carried by a state are well formed.
    pub open spec fn wf(&self) -> bool {
        settings_of(*self) matches Some(x) ==> x.wf()
    }

    /// The initial state.
    pub fn default() -> (r: State)
        ensures
            r is Start,
    {
        State::Start
    }

    /// A copy of the settings this state carries.
    pub fn get_settings(&self) -> (r: Option<UserSettings>)
        ensures
            r == settings_of(*self),
    {
        match self {
            State::CallBack(setting) => Some(setting.duplicate()),
            State::FindByName(setting) => Some(setting.duplicate()),
            State::FindIngrByName(setting) => Some(setting.duplicate()),
            State::AllIngredients(setting) => Some(setting.duplicate()),
            State::WithIngredient(setting) => Some(setting.duplicate()),
            State::WithCategory(setting) => Some(setting.duplicate()),
            State::CocktailForYou { settings, .. } => Some(settings.duplicate()),
            State::Settings(setting) => Some(setting.duplicate()),
            State::SettingsUpdate(settings, ..) => Some(settings.duplicate()),
            State::Suggestion(setting) => Some(setting.duplicate()),
            State::Start => None,
        }
    }

    /// The settings this state carries, or fresh settings in `Start`.
    pub fn into_settings(self) -> (r: UserSettings)
        ensures
            settings_of(self) matches Some(x) ==> r == x,
            settings_of(self) is None ==> is_default_settings(r),
            self.wf() ==> r.wf(),
    {
        match self {
            State::CallBack(x) => x,
            State::FindByName(x) => x,
            State::FindIngrByName(x) => x,
            State::AllIngredients(x) => x,
            State::WithIngredient(x) => x,
            State::WithCategory(x) => x,
            State::CocktailForYou { settings, .. } => settings,
            State::Settings(x) => x,
            State::SettingsUpdate(x, ..) => x,
            State::Suggestion(x) => x,
            State::Start => UserSettings::default(),
        }
    }
}

/// Unit type that carries the command operations of the dialogue.
pub struct CommandsHandler;

impl CommandsHandler {
    /// The settings of a conversation: those its state carries, or fresh ones.
    pub fn get_settings(state: &State) -> (r: UserSettings)
        ensures
            settings_of(*state) matches Some(x) ==> r == x,
            settings_of(*state) is None ==> is_default_settings(r),
            state.wf() ==> r.wf(),
    {
        match state.get_settings() {
            Some(settings) => settings,
            None => UserSettings::default(),
        }
    }
}

} // verus!
