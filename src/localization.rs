use vstd::prelude::*;

use crate::keyboard::{keyboard_key_text, keyboard_keys, Keyboard};
use crate::settings::{settings_key_text, settings_keys, Lang, SettingsKeyboard};

verus! {

/// Texts of one locale.
#[derive(Debug)]
pub struct LangConfig {
    pub send_commands: String,
    pub fail_messages: FailMessages,
    pub todo: Todo,
    pub service_responses: ServiceResponses,
    pub settings_descriptions: SettingsDescriptions,
    pub buttons: MainButtons,
}

/// Button labels, as (key, label) pairs in display order.
#[derive(Debug)]
pub struct MainButtons {
    pub main: Vec<(String, String)>,
    pub settings: Vec<(String, String)>,
}

/// Texts of failure messages.
#[derive(Debug)]
pub struct FailMessages {
    pub unexpected: String,
    pub game_limit: String,
    pub need_number: String,
    pub non_results: String,
    pub wrong_category: String,
    pub wrong_ingredient: String,
    pub try_again: String,
    pub suggestion: String,
}

/// Texts that ask the user for something.
#[derive(Debug)]
pub struct Todo {
    pub settings_set_limit: String,
    pub settings_set_name: String,
    pub game_choose: String,
    pub category_write: String,
    pub ingredient_write: String,
    pub find_cocktails_write: String,
    pub find_ingredient_write: String,
    pub suggestion: String,
}

/// Field captions of rendered catalog records.
#[derive(Debug)]
pub struct ServiceResponses {
    pub beverage_name: String,
    pub ty: String,
    pub category: String,
    pub alco: String,
    pub cook: String,
    pub glass: String,
    pub ingredient_name: String,
    pub description: String,
}

/// Captions of the settings view.
#[derive(Debug)]
pub struct SettingsDescriptions {
    pub name: String,
    pub lang: String,
    pub lang_ukr: String,
    pub lang_eng: String,
    pub yes: String,
    pub no: String,
    pub image: String,
    pub limit: String,
    pub limit_name: String,
}

/// The texts of the settings view as plain values.
pub struct DescriptionTexts {
    pub name: Seq<char>,
    pub lang: Seq<char>,
    pub lang_ukr: Seq<char>,
    pub lang_eng: Seq<char>,
    pub yes: Seq<char>,
    pub no: Seq<char>,
    pub image: Seq<char>,
    pub limit: Seq<char>,
}

/// The settings-view texts a configuration holds.
pub open spec fn descriptions_of(c: LangConfig) -> DescriptionTexts {
    let d = c.settings_descriptions;
    DescriptionTexts {
        name: d.name@,
        lang: d.lang@,
        lang_ukr: d.lang_ukr@,
        lang_eng: d.lang_eng@,
        yes: d.yes@,
        no: d.no@,
        image: d.image@,
        limit: d.limit@,
    }
}

/// The settings-view texts of each locale.
pub open spec fn lang_descriptions(l: Lang) -> DescriptionTexts {
    match l {
        Lang::Eng => DescriptionTexts {
            name: "Name:"@,
            lang: "Language:"@,
            lang_ukr: "Ukrainian"@,
            lang_eng: "English"@,
            yes: "Yes"@,
            no: "No"@,
            image: "Send images:"@,
            limit: "Messages per answer (from 3 to 80):"@,
        },
        Lang::Ukr => DescriptionTexts {
            name: "Ім'я:"@,
            lang: "Мова:"@,
            lang_ukr: "Українська"@,
            lang_eng: "Англійська"@,
            yes: "Так"@,
            no: "Ні"@,
            image: "Надсилати зображення:"@,
            limit: "Повідомлень у відповіді (від 3 до 80):"@,
        },
    }
}

/// The main table holds one entry per main-menu button and the settings
/// table one per settings button, keyed by the buttons' keys in display order.
pub open spec fn tables_wf(b: MainButtons) -> bool {
    &&& b.main@.len() == keyboard_keys().len()
    &&& forall|i: int| 0 <= i < b.main@.len() ==> (#[trigger] b.main@[i]).0@ == keyboard_key_text(keyboard_keys()[i])
    &&& b.settings@.len() == settings_keys().len()
    &&& forall|i: int| 0 <= i < b.settings@.len() ==> (#[trigger] b.settings@[i]).0@ == settings_key_text(settings_keys()[i])
}

fn owned(s: &str) -> (r: String)
    ensures
        r@ == s@,
{
    s.to_owned()
}

fn entry(key: &str, label: &str) -> (r: (String, String))
    ensures
        r.0@ == key@,
        r.1@ == label@,
{
    (key.to_owned(), label.to_owned())
}

fn buttons(main: [&str; 8], settings: [&str; 5]) -> (r: MainButtons)
    ensures
        tables_wf(r),
{
    let m = vec![
        entry(Keyboard::FindCocktail.as_str(), main[0]),
        entry(Keyboard::FindIngredient.as_str(), main[1]),
        entry(Keyboard::Ingredients.as_str(), main[2]),
        entry(Keyboard::Categories.as_str(), main[3]),
        entry(Keyboard::WithThisIngredient.as_str(), main[4]),
        entry(Keyboard::WithThisCategory.as_str(), main[5]),
        entry(Keyboard::DrinkForYou.as_str(), main[6]),
        entry(Keyboard::Settings.as_str(), main[7]),
    ];
    let s = vec![
        entry(SettingsKeyboard::Name.as_str(), settings[0]),
        entry(SettingsKeyboard::Images.as_str(), settings[1]),
        entry(SettingsKeyboard::MessageLimit.as_str(), settings[2]),
        entry(SettingsKeyboard::Lang.as_str(), settings[3]),
        entry(SettingsKeyboard::Back.as_str(), settings[4]),
    ];
    MainButtons { main: m, settings: s }
}

/// The English texts.
pub fn eng_config() -> (r: LangConfig)
    ensures
        r.send_commands@ == "Here we go: "@,
        tables_wf(r.buttons),
        descriptions_of(r) == lang_descriptions(Lang::Eng),
{
    LangConfig {
        send_commands: owned("Here we go: "),
        fail_messages: FailMessages {
            unexpected: owned("I did not expect that message"),
            game_limit: owned("The game has run out of drinks"),
            need_number: owned("I need a whole number"),
            non_results: owned("Seems like we don't find anything"),
            wrong_category: owned("Seems like it was wrong category"),
            wrong_ingredient: owned("Seems like it was wrong ingredient"),
            try_again: owned("try again please."),
            suggestion: owned("Thank you for the suggestion!"),
        },
        todo: Todo {
            settings_set_limit: owned("Write how many messages to show, from 3 to 80"),
            settings_set_name: owned("Write how I should call you"),
            game_choose: owned("Which one do you not want?"),
            category_write: owned("Write a category"),
            ingredient_write: owned("Write an ingredient"),
            find_cocktails_write: owned("Write the name of a cocktail"),
            find_ingredient_write: owned("Write the name of an ingredient"),
            suggestion: owned("Write your suggestion or the bug you found"),
        },
        service_responses: ServiceResponses {
            beverage_name: owned("Beverage name"),
            ty: owned("Type"),
            category: owned("Category"),
            alco: owned("With alcohol"),
            cook: owned("How to cook"),
            glass: owned("Glass"),
            ingredient_name: owned("Ingredient"),
            description: owned("Description"),
        },
        settings_descriptions: SettingsDescriptions {
            name: owned("Name:"),
            lang: owned("Language:"),
            lang_ukr: owned("Ukrainian"),
            lang_eng: owned("English"),
            yes: owned("Yes"),
            no: owned("No"),
            image: owned("Send images:"),
            limit: owned("Messages per answer (from 3 to 80):"),
            limit_name: owned("Message limit"),
        },
        buttons: buttons(
            [
                "Find a cocktail",
                "Find an ingredient",
                "All ingredients",
                "All categories",
                "With this ingredient",
                "With this category",
                "Cocktail for you",
                "Settings",
            ],
            ["Name", "Images", "Message limit", "Language", "Back"],
        ),
    }
}

/// The Ukrainian texts.
pub fn ukr_config() -> (r: LangConfig)
    ensures
        r.send_commands@ == "Поїхали!: "@,
        tables_wf(r.buttons),
        descriptions_of(r) == lang_descriptions(Lang::Ukr),
{
    LangConfig {
        send_commands: owned("Поїхали!: "),
        fail_messages: FailMessages {
            unexpected: owned("я не чекав такого повідомлення"),
            game_limit: owned("У грі закінчилися напої"),
            need_number: owned("мені потрібне ціле число"),
            non_results: owned("Схоже, нічого не знайшлося"),
            wrong_category: owned("Схоже, такої категорії немає"),
            wrong_ingredient: owned("Схоже, такого інгредієнта немає"),
            try_again: owned("спробуй ще раз, будь ласка."),
            suggestion: owned("Дякую за пропозицію!"),
        },
        todo: Todo {
            settings_set_limit: owned("Напиши, скільки повідомлень показувати, від 3 до 80"),
            settings_set_name: owned("Напиши, як до тебе звертатися"),
            game_choose: owned("Котрий не хочеш?"),
            category_write: owned("Напиши категорію"),
            ingredient_write: owned("Напиши інгредієнт"),
            find_cocktails_write: owned("Напиши назву коктейлю"),
            find_ingredient_write: owned("Напиши назву інгредієнта"),
            suggestion: owned("Напиши свою пропозицію або знайдену помилку"),
        },
        service_responses: ServiceResponses {
            beverage_name: owned("Назва напою"),
            ty: owned("Тип"),
            category: owned("Категорія"),
            alco: owned("З алкоголем"),
            cook: owned("Як приготувати"),
            glass: owned("Келих"),
            ingredient_name: owned("Інгредієнт"),
            description: owned("Опис"),
        },
        settings_descriptions: SettingsDescriptions {
            name: owned("Ім'я:"),
            lang: owned("Мова:"),
            lang_ukr: owned("Українська"),
            lang_eng: owned("Англійська"),
            yes: owned("Так"),
            no: owned("Ні"),
            image: owned("Надсилати зображення:"),
            limit: owned("Повідомлень у відповіді (від 3 до 80):"),
            limit_name: owned("Ліміт повідомлень"),
        },
        buttons: buttons(
            [
                "Знайти коктейль",
                "Знайти інгредієнт",
                "Усі інгредієнти",
                "Усі категорії",
                "З цим інгредієнтом",
                "З цією категорією",
                "Коктейль для тебе",
                "Налаштування",
            ],
            ["Ім'я", "Зображення", "Ліміт повідомлень", "Мова", "Назад"],
        ),
    }
}

impl Lang {
    /// The texts of this locale.
    pub fn config(&self) -> (r: LangConfig)
        ensures
            tables_wf(r.buttons),
            descriptions_of(r) == lang_descriptions(*self),
            *self == Lang::Eng ==> r.send_commands@ == "Here we go: "@,
            *self == Lang::Ukr ==> r.send_commands@ == "Поїхали!: "@,
    {
        match self {
            Lang::Eng => eng_config(),
            Lang::Ukr => ukr_config(),
        }
    }
}

} // verus!
