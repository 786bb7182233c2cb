use vstd::prelude::*;

use crate::error::{ErrorHandler, ErrorType};
use crate::localization::LangConfig;
use crate::text::same_text;

verus! {

/// Buttons of the main menu.
#[derive(Debug, Clone, Copy, PartialEq, Eq, Structural)]
pub enum Keyboard {
    FindCocktail,
    FindIngredient,
    Ingredients,
    Categories,
    WithThisIngredient,
    WithThisCategory,
    DrinkForYou,
    Settings,
}

/// Key of a main-menu button: the variant's name.
pub open spec fn keyboard_key_text(k: Keyboard) -> Seq<char> {
    match k {
        Keyboard::FindCocktail => "FindCocktail"@,
        Keyboard::FindIngredient => "FindIngredient"@,
        Keyboard::Ingredients => "Ingredients"@,
        Keyboard::Categories => "Categories"@,
        Keyboard::WithThisIngredient => "WithThisIngredient"@,
        Keyboard::WithThisCategory => "WithThisCategory"@,
        Keyboard::DrinkForYou => "DrinkForYou"@,
        Keyboard::Settings => "Settings"@,
    }
}

/// The main-menu buttons in display order.
pub open spec fn keyboard_keys() -> Seq<Keyboard> {
    seq![
        Keyboard::FindCocktail,
        Keyboard::FindIngredient,
        Keyboard::Ingredients,
        Keyboard::Categories,
        Keyboard::WithThisIngredient,
        Keyboard::WithThisCategory,
        Keyboard::DrinkForYou,
        Keyboard::Settings,
    ]
}

/// Different main-menu buttons have different keys.
pub proof fn lemma_keyboard_key_text_injective()
    ensures
        forall|a: Keyboard, b: Keyboard|
            #[trigger] keyboard_key_text(a) == #[trigger] keyboard_key_text(b) ==> a == b,
{
    reveal_strlit("FindCocktail");
    reveal_strlit("FindIngredient");
    reveal_strlit("Ingredients");
    reveal_strlit("Categories");
    reveal_strlit("WithThisIngredient");
    reveal_strlit("WithThisCategory");
    reveal_strlit("DrinkForYou");
    reveal_strlit("Settings");
    assert forall|a: Keyboard, b: Keyboard|
        #[trigger] keyboard_key_text(a) == #[trigger] keyboard_key_text(b) implies a == b by {
        if keyboard_key_text(a) == keyboard_key_text(b) {
            assert(keyboard_key_text(a).len() == keyboard_key_text(b).len());
            assert(keyboard_key_text(a)[0] == keyboard_key_text(b)[0]);
        }
    }
}

impl Keyboard {
    /// Every main-menu button, in display order.
    pub fn as_array() -> (r: Vec<Keyboard>)
        ensures
            r@ == keyboard_keys(),
    {
        vec![
            Keyboard::FindCocktail,
            Keyboard::FindIngredient,
            Keyboard::Ingredients,
            Keyboard::Categories,
            Keyboard::WithThisIngredient,
            Keyboard::WithThisCategory,
            Keyboard::DrinkForYou,
            Keyboard::Settings,
        ]
    }

    /// The button's key.
    pub fn as_str(&self) -> (r: &'static str)
        ensures
            r@ == keyboard_key_text(*self),
    {
        match self {
            Keyboard::FindCocktail => "FindCocktail",
            Keyboard::FindIngredient => "FindIngredient",
            Keyboard::Ingredients => "Ingredients",
            Keyboard::Categories => "Categories",
            Keyboard::WithThisIngredient => "WithThisIngredient",
            Keyboard::WithThisCategory => "WithThisCategory",
            Keyboard::DrinkForYou => "DrinkForYou",
            Keyboard::Settings => "Settings",
        }
    }

    /// The button whose key is `value`; a parse error for any other text.
    pub fn try_from(value: &str) -> (r: Result<Keyboard, ErrorHandler>)
        ensures
            r matches Ok(k) ==> value@ == keyboard_key_text(k),
            r is Err <==> (forall|k: Keyboard| value@ != #[trigger] keyboard_key_text(k)),
            r matches Err(e) ==> e.ty == ErrorType::Parse,
    {
        let keys = Keyboard::as_array();
        let mut i: usize = 0;
        while i < keys.len()
            invariant
                keys@ == keyboard_keys(),
                0 <= i <= keys.len(),
                forall|j: int| 0 <= j < i ==> value@ != #[trigger] keyboard_key_text(keys@[j]),
            decreases keys.len() - i,
        {
            if same_text(keys[i].as_str(), value) {
                return Ok(keys[i]);
            }
            i = i + 1;
        }
        assert forall|k: Keyboard| value@ != #[trigger] keyboard_key_text(k) by {
            let j: int = match k {
                Keyboard::FindCocktail => 0,
                Keyboard::FindIngredient => 1,
                Keyboard::Ingredients => 2,
                Keyboard::Categories => 3,
                Keyboard::WithThisIngredient => 4,
                Keyboard::WithThisCategory => 5,
                Keyboard::DrinkForYou => 6,
                Keyboard::Settings => 7,
            };
            assert(keys@[j] == k);
        }
        Err(ErrorHandler {
            msg: "Fail to create keyboard for string, wrong argument".to_string(),
            ty: ErrorType::Parse,
        })
    }
}

/// The labels of a button table, in table order.
pub open spec fn table_labels(table: Seq<(String, String)>) -> Seq<Seq<char>> {
    table.map_values(|e: (String, String)| e.1@)
}

/// Labels of the main menu in the locale's table order.
pub fn standard_keyboard_as_str_vec(lang: &LangConfig) -> (r: Vec<String>)
    ensures
        r@.map_values(|s: String| s@) == table_labels(lang.buttons.main@),
{
    let table = &lang.buttons.main;
    let mut r: Vec<String> = Vec::new();
    let mut i: usize = 0;
    while i < table.len()
        invariant
            *table == lang.buttons.main,
            i <= table.len(),
            r.len() == i,
            r@.map_values(|s: String| s@) == table_labels(table@.subrange(0, i as int)),
        decreases table.len() - i,
    {
        let ghost prev = r@;
        let label = table[i].1.clone();
        assert(label@ == table@[i as int].1@);
        r.push(label);
        assert forall|j: int| 0 <= j < i implies r@[j]@ == table@[j].1@ by {
            assert(r@[j] == prev[j]);
            assert(prev.map_values(|s: String| s@)[j] == table_labels(table@.subrange(0, i as int))[j]);
        }
        assert(r@.map_values(|s: String| s@) =~= table_labels(table@.subrange(0, i + 1)));
        i = i + 1;
    }
    assert(table@.subrange(0, i as int) =~= table@);
    r
}

/// Commands a user can send at any point.
#[derive(Debug, Clone, Copy, PartialEq, Eq, Structural)]
pub enum StartCommands {
    Back,
    Random,
    SuggestionAndBags,
}

} // verus!
