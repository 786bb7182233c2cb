use vstd::prelude::*;

use crate::drink::{opt_view, LangDrink};
use crate::error::ErrorHandler;
use crate::helpers::random_num_in_range;
use crate::localization::{descriptions_of, lang_descriptions, DescriptionTexts, LangConfig};
use crate::schemas::{LangIngredient, LangLazyDrink, LangList};
use crate::settings::{Lang, UserSettings};
use crate::str_builder::{builder_sep, join, line, or_empty, StringBuilder};
use crate::text::{decimal, decimal_text};

verus! {

/// Relies on std's `ToString` for `char`: the one-character string.
#[verifier::external_body]
fn char_text(c: char) -> (r: String)
    ensures
        r@ == seq![c],
{
    c.to_string()
}

/// `parts` with the line ` - {prefix} {text} ` added when there is a text.
pub open spec fn add_line(parts: Seq<Seq<char>>, prefix: Seq<char>, text: Option<Seq<char>>) -> Seq<Seq<char>> {
    match text {
        Some(t) => parts.push(line(prefix, t)),
        None => parts,
    }
}

/// A field caption: `{name}: `.
pub open spec fn caption(name: Seq<char>) -> Seq<char> {
    name + ": "@
}

/// The localized yes or no.
pub open spec fn yes_no_text(c: LangConfig, b: bool) -> Seq<char> {
    if b {
        c.settings_descriptions.yes@
    } else {
        c.settings_descriptions.no@
    }
}

fn captioned(name: &String) -> (r: String)
    ensures
        r@ == caption(name@),
{
    let mut r = name.clone();
    r.append(": ");
    r
}

fn yes_no(c: &LangConfig, b: bool) -> (r: String)
    ensures
        r@ == yes_no_text(*c, b),
{
    if b {
        c.settings_descriptions.yes.clone()
    } else {
        c.settings_descriptions.no.clone()
    }
}

fn copy_opt(o: &Option<String>) -> (r: Option<String>)
    ensures
        opt_view(r) == opt_view(*o),
{
    match o {
        Some(s) => Some(s.clone()),
        None => None,
    }
}

/// The lines of the settings view in the texts `d`.
pub open spec fn settings_lines(s: UserSettings, d: DescriptionTexts) -> Seq<Seq<char>> {
    seq![
        line(d.name, match s.name { Some(n) => n@, None => "Bro"@ }),
        line(d.image, if s.send_image { d.yes } else { d.no }),
        line(d.lang, match s.lang {
            Lang::Ukr => d.lang_ukr,
            Lang::Eng => d.lang_eng,
        }),
        line(d.limit, decimal(s.limit_of_messages as nat)),
    ]
}

impl UserSettings {
    /// The settings view in the texts of `c`.
    pub fn render(&self, c: &LangConfig) -> (r: String)
        ensures
            r@ == join(settings_lines(*self, descriptions_of(*c)), builder_sep()),
    {
        let d = &c.settings_descriptions;
        let name = match &self.name {
            Some(n) => n.clone(),
            None => "Bro".to_owned(),
        };
        let lang = match self.lang {
            Lang::Ukr => d.lang_ukr.clone(),
            Lang::Eng => d.lang_eng.clone(),
        };
        let b = StringBuilder::new()
            .add(d.name.as_str(), Some(name))
            .add(d.image.as_str(), Some(yes_no(c, self.send_image)))
            .add(d.lang.as_str(), Some(lang))
            .add(d.limit.as_str(), Some(decimal_text(self.limit_of_messages as u64)));
        assert(b@ =~= settings_lines(*self, descriptions_of(*c)));
        b.get_str()
    }

    /// The settings view in the user's own locale.
    pub fn to_text(&self) -> (r: String)
        ensures
            r@ == join(settings_lines(*self, lang_descriptions(self.lang)), builder_sep()),
    {
        let c = self.lang.config();
        self.render(&c)
    }
}

/// The lines of a drink card.
pub open spec fn drink_lines(d: LangDrink, c: LangConfig, emoji: char) -> Seq<Seq<char>> {
    let r = c.service_responses;
    let k = d.drink;
    add_line(add_line(add_line(add_line(seq![
        line(r.beverage_name@ + " "@ + seq![emoji] + " :"@, k.name@)],
        caption(r.ty@), opt_view(k.ty)),
        caption(r.category@), opt_view(k.category)).push(
        line(caption(r.alco@), yes_no_text(c, k.alco))),
        caption(r.glass@), opt_view(k.glass)),
        caption(r.cook@), opt_view(k.instructions))
        + k.ingredients@.map_values(|e: (String, Option<String>)| line(e.0@, or_empty(e.1)))
}

impl LangDrink {
    /// The drink card in the texts of `c`, headed by `emoji`.
    pub fn render(&self, c: &LangConfig, emoji: char) -> (r: String)
        ensures
            r@ == join(drink_lines(*self, *c, emoji), builder_sep()),
    {
        let r = &c.service_responses;
        let k = &self.drink;
        let mut head = r.beverage_name.clone();
        head.append(" ");
        let e = char_text(emoji);
        head.append(e.as_str());
        head.append(" :");
        let b = StringBuilder::new()
            .add(head.as_str(), Some(k.name.clone()))
            .add(captioned(&r.ty).as_str(), copy_opt(&k.ty))
            .add(captioned(&r.category).as_str(), copy_opt(&k.category))
            .add(captioned(&r.alco).as_str(), Some(yes_no(c, k.alco)))
            .add(captioned(&r.glass).as_str(), copy_opt(&k.glass))
            .add(captioned(&r.cook).as_str(), copy_opt(&k.instructions))
            .add_many(&k.ingredients);
        assert(b@ =~= drink_lines(*self, *c, emoji));
        b.get_str()
    }
}

/// The lines of an ingredient card.
pub open spec fn ingredient_lines(i: LangIngredient, c: LangConfig) -> Seq<Seq<char>> {
    let r = c.service_responses;
    let k = i.ingredient;
    add_line(add_line(seq![line(caption(r.ingredient_name@), k.name@)],
        caption(r.description@), opt_view(k.description)),
        caption(r.ty@), opt_view(k.ty)).push(line(caption(r.alco@), yes_no_text(c, k.alco)))
}

impl LangIngredient {
    /// The ingredient card in the texts of `c`.
    pub fn render(&self, c: &LangConfig) -> (r: String)
        ensures
            r@ == join(ingredient_lines(*self, *c), builder_sep()),
    {
        let r = &c.service_responses;
        let k = &self.ingredient;
        let b = StringBuilder::new()
            .add(captioned(&r.ingredient_name).as_str(), Some(k.name.clone()))
            .add(captioned(&r.description).as_str(), copy_opt(&k.description))
            .add(captioned(&r.ty).as_str(), copy_opt(&k.ty))
            .add(captioned(&r.alco).as_str(), Some(yes_no(c, k.alco)));
        assert(b@ =~= ingredient_lines(*self, *c));
        b.get_str()
    }
}

impl LangLazyDrink {
    /// The short drink card in the texts of `c`.
    pub fn render(&self, c: &LangConfig) -> (r: String)
        ensures
            r@ == line(c.service_responses.beverage_name@, self.lazy.name@),
    {
        let b = StringBuilder::new().add(c.service_responses.beverage_name.as_str(), Some(self.lazy.name.clone()));
        assert(b@ =~= seq![line(c.service_responses.beverage_name@, self.lazy.name@)]);
        b.get_str()
    }
}

impl LangList {
    /// The listing line ` - {caption} {name}` in the texts of `c`.
    pub fn render(&self, c: &LangConfig) -> (r: String)
        ensures
            r@ == " - "@ + c.service_responses.beverage_name@ + " "@ + self.list.name@,
    {
        let mut r = String::new();
        r.append(" - ");
        r.append(c.service_responses.beverage_name.as_str());
        r.append(" ");
        r.append(self.list.name.as_str());
        assert(r@ =~= " - "@ + c.service_responses.beverage_name@ + " "@ + self.list.name@);
        r
    }
}

/// Kinds of emoji the bot decorates messages with.
#[derive(Debug, Clone, Copy, PartialEq, Eq, Hash, Structural)]
pub enum Emojis {
    Drink,
    Hello,
    ShitHappens,
    Smile,
}

/// The emoji of each kind.
pub open spec fn emoji_list(e: Emojis) -> Seq<char> {
    match e {
        Emojis::Drink => seq![
            '\u{1F37C}', '\u{1F95B}', '\u{2615}', '\u{1FAD6}', '\u{1F375}', '\u{1F376}', '\u{1F37E}',
            '\u{1F377}', '\u{1F378}', '\u{1F379}', '\u{1F37A}', '\u{1F37B}', '\u{1F942}', '\u{1F943}',
            '\u{1FAD7}', '\u{1F964}', '\u{1F9CB}', '\u{1F9C3}', '\u{1F9C9}', '\u{1F9CA}',
        ],
        Emojis::Hello => seq![
            '\u{1F44}', '\u{1F91}', '\u{1F59}', '\u{270B}', '\u{1F59}', '\u{270C}', '\u{1F91}',
            '\u{1F91}', '\u{1F91}', '\u{1F91}', '\u{270A}', '\u{1F44}', '\u{1F91}', '\u{1F91}',
            '\u{1F91}', '\u{1F44}',
        ],
        Emojis::ShitHappens => seq![
            '\u{1F610}', '\u{1F910}', '\u{1F928}', '\u{1F611}', '\u{1F636}', '\u{1F60F}', '\u{1F612}',
            '\u{1F644}', '\u{1F976}', '\u{1F974}', '\u{1F47F}', '\u{1F480}', '\u{2620}', '\u{1F624}',
            '\u{1F621}', '\u{1F620}', '\u{1F92C}', '\u{1F63F}', '\u{1F63E}',
        ],
        Emojis::Smile => seq![
            '\u{1F600}', '\u{1F603}', '\u{1F604}', '\u{1F601}', '\u{1F606}', '\u{1F605}', '\u{1F923}',
            '\u{1F602}', '\u{1F642}', '\u{1F643}', '\u{1FAE0}', '\u{1F609}', '\u{1F60A}', '\u{1F607}',
        ],
    }
}

impl Emojis {
    /// The emoji of this kind.
    pub fn list(&self) -> (r: Vec<char>)
        ensures
            r@ == emoji_list(*self),
    {
        match self {
            Emojis::Drink => vec![
                '\u{1F37C}', '\u{1F95B}', '\u{2615}', '\u{1FAD6}', '\u{1F375}', '\u{1F376}', '\u{1F37E}',
                '\u{1F377}', '\u{1F378}', '\u{1F379}', '\u{1F37A}', '\u{1F37B}', '\u{1F942}', '\u{1F943}',
                '\u{1FAD7}', '\u{1F964}', '\u{1F9CB}', '\u{1F9C3}', '\u{1F9C9}', '\u{1F9CA}',
            ],
            Emojis::Hello => vec![
                '\u{1F44}', '\u{1F91}', '\u{1F59}', '\u{270B}', '\u{1F59}', '\u{270C}', '\u{1F91}',
                '\u{1F91}', '\u{1F91}', '\u{1F91}', '\u{270A}', '\u{1F44}', '\u{1F91}', '\u{1F91}',
                '\u{1F91}', '\u{1F44}',
            ],
            Emojis::ShitHappens => vec![
                '\u{1F610}', '\u{1F910}', '\u{1F928}', '\u{1F611}', '\u{1F636}', '\u{1F60F}', '\u{1F612}',
                '\u{1F644}', '\u{1F976}', '\u{1F974}', '\u{1F47F}', '\u{1F480}', '\u{2620}', '\u{1F624}',
                '\u{1F621}', '\u{1F620}', '\u{1F92C}', '\u{1F63F}', '\u{1F63E}',
            ],
            Emojis::Smile => vec![
                '\u{1F600}', '\u{1F603}', '\u{1F604}', '\u{1F601}', '\u{1F606}', '\u{1F605}', '\u{1F923}',
                '\u{1F602}', '\u{1F642}', '\u{1F643}', '\u{1FAE0}', '\u{1F609}', '\u{1F60A}', '\u{1F607}',
            ],
        }
    }

    /// An emoji of this kind drawn at random.
    pub fn random(&self) -> (r: Result<char, ErrorHandler>)
        ensures
            r matches Ok(c) && emoji_list(*self).contains(c),
    {
        let l = self.list();
        let i = random_num_in_range(0, l.len());
        let c = l[i];
        assert(emoji_list(*self)[i as int] == c);
        Ok(c)
    }
}

} // verus!
