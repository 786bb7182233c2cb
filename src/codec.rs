use vstd::prelude::*;

use crate::drink::{opt_view, Drink, LangDrink};
use crate::settings::{limit_in_range, Lang, SettingsKeyboard, UserSettings};
use crate::state::State;

verus! {

/// One item of a persisted session record.
#[derive(Debug, Clone, PartialEq, Eq)]
pub enum Field {
    Num(u64),
    Text(String),
}

/// What a record item holds.
pub enum Token {
    Num(int),
    Text(Seq<char>),
}

/// The items of a record.
pub open spec fn tokens(s: Seq<Field>) -> Seq<Token> {
    s.map_values(|f: Field| match f {
        Field::Num(n) => Token::Num(n as int),
        Field::Text(t) => Token::Text(t@),
    })
}

/// Settings as plain values.
pub struct SettingsModel {
    pub name: Option<Seq<char>>,
    pub send_image: bool,
    pub limit: u32,
    pub lang: Lang,
}

/// A drink in a locale as plain values.
pub struct DrinkModel {
    pub name: Seq<char>,
    pub ty: Option<Seq<char>>,
    pub category: Option<Seq<char>>,
    pub alco: bool,
    pub glass: Option<Seq<char>>,
    pub instructions: Option<Seq<char>>,
    pub image: Option<Seq<char>>,
    pub ingredients: Seq<(Seq<char>, Option<Seq<char>>)>,
    pub lang: Lang,
}

/// A session state as plain values.
pub enum StateModel {
    Start,
    Settings(SettingsModel),
    SettingsUpdate(SettingsModel, SettingsKeyboard),
    CallBack(SettingsModel),
    FindByName(SettingsModel),
    FindIngrByName(SettingsModel),
    AllIngredients(SettingsModel),
    WithIngredient(SettingsModel),
    WithCategory(SettingsModel),
    CocktailForYou(SettingsModel, Seq<char>, Seq<char>, Seq<DrinkModel>),
    Suggestion(SettingsModel),
}

pub open spec fn settings_model(s: UserSettings) -> SettingsModel {
    SettingsModel { name: opt_view(s.name), send_image: s.send_image, limit: s.limit_of_messages, lang: s.lang }
}

pub open spec fn ingredient_model(e: (String, Option<String>)) -> (Seq<char>, Option<Seq<char>>) {
    (e.0@, opt_view(e.1))
}

pub open spec fn drink_model(d: LangDrink) -> DrinkModel {
    DrinkModel {
        name: d.drink.name@,
        ty: opt_view(d.drink.ty),
        category: opt_view(d.drink.category),
        alco: d.drink.alco,
        glass: opt_view(d.drink.glass),
        instructions: opt_view(d.drink.instructions),
        image: opt_view(d.drink.image),
        ingredients: d.drink.ingredients@.map_values(|e: (String, Option<String>)| ingredient_model(e)),
        lang: d.lang,
    }
}

pub open spec fn state_model(s: State) -> StateModel {
    match s {
        State::Start => StateModel::Start,
        State::Settings(x) => StateModel::Settings(settings_model(x)),
        State::SettingsUpdate(x, k) => StateModel::SettingsUpdate(settings_model(x), k),
        State::CallBack(x) => StateModel::CallBack(settings_model(x)),
        State::FindByName(x) => StateModel::FindByName(settings_model(x)),
        State::FindIngrByName(x) => StateModel::FindIngrByName(settings_model(x)),
        State::AllIngredients(x) => StateModel::AllIngredients(settings_model(x)),
        State::WithIngredient(x) => StateModel::WithIngredient(settings_model(x)),
        State::WithCategory(x) => StateModel::WithCategory(settings_model(x)),
        State::CocktailForYou { settings, game, all } => StateModel::CocktailForYou(
            settings_model(settings),
            game.0@,
            game.1@,
            all@.map_values(|d: LangDrink| drink_model(d)),
        ),
        State::Suggestion(x) => StateModel::Suggestion(settings_model(x)),
    }
}

// ----- the record layout -----

pub open spec fn enc_opt(o: Option<Seq<char>>) -> Seq<Token> {
    match o {
        None => seq![Token::Num(0)],
        Some(t) => seq![Token::Num(1), Token::Text(t)],
    }
}

pub open spec fn enc_bool(b: bool) -> Seq<Token> {
    seq![Token::Num(if b { 1 } else { 0 })]
}

pub open spec fn lang_code(l: Lang) -> int {
    match l {
        Lang::Ukr => 0,
        Lang::Eng => 1,
    }
}

pub open spec fn field_code(k: SettingsKeyboard) -> int {
    match k {
        SettingsKeyboard::Name => 0,
        SettingsKeyboard::Images => 1,
        SettingsKeyboard::MessageLimit => 2,
        SettingsKeyboard::Lang => 3,
        SettingsKeyboard::Back => 4,
    }
}

pub open spec fn enc_settings(m: SettingsModel) -> Seq<Token> {
    enc_opt(m.name) + enc_bool(m.send_image) + seq![Token::Num(m.limit as int), Token::Num(lang_code(m.lang))]
}

pub open spec fn enc_ingredients(s: Seq<(Seq<char>, Option<Seq<char>>)>) -> Seq<Token>
    decreases s.len(),
{
    if s.len() == 0 {
        Seq::empty()
    } else {
        seq![Token::Text(s[0].0)] + enc_opt(s[0].1) + enc_ingredients(s.drop_first())
    }
}

pub open spec fn enc_drink(d: DrinkModel) -> Seq<Token> {
    seq![Token::Text(d.name)] + enc_opt(d.ty) + enc_opt(d.category) + enc_bool(d.alco) + enc_opt(d.glass)
        + enc_opt(d.instructions) + enc_opt(d.image) + seq![Token::Num(d.ingredients.len() as int)]
        + enc_ingredients(d.ingredients) + seq![Token::Num(lang_code(d.lang))]
}

pub open spec fn enc_drinks(s: Seq<DrinkModel>) -> Seq<Token>
    decreases s.len(),
{
    if s.len() == 0 {
        Seq::empty()
    } else {
        enc_drink(s[0]) + enc_drinks(s.drop_first())
    }
}

/// The record of a session state: a tag, then the payload.
pub open spec fn enc_state(m: StateModel) -> Seq<Token> {
    match m {
        StateModel::Start => seq![Token::Num(0)],
        StateModel::Settings(s) => seq![Token::Num(1)] + enc_settings(s),
        StateModel::SettingsUpdate(s, k) => seq![Token::Num(2)] + enc_settings(s) + seq![Token::Num(field_code(k))],
        StateModel::CallBack(s) => seq![Token::Num(3)] + enc_settings(s),
        StateModel::FindByName(s) => seq![Token::Num(4)] + enc_settings(s),
        StateModel::FindIngrByName(s) => seq![Token::Num(5)] + enc_settings(s),
        StateModel::AllIngredients(s) => seq![Token::Num(6)] + enc_settings(s),
        StateModel::WithIngredient(s) => seq![Token::Num(7)] + enc_settings(s),
        StateModel::WithCategory(s) => seq![Token::Num(8)] + enc_settings(s),
        StateModel::CocktailForYou(s, a, b, all) => seq![Token::Num(9)] + enc_settings(s)
            + seq![Token::Text(a), Token::Text(b), Token::Num(all.len() as int)] + enc_drinks(all),
        StateModel::Suggestion(s) => seq![Token::Num(10)] + enc_settings(s),
    }
}

// ----- reading a record -----

pub open spec fn p_num(t: Seq<Token>, pos: int) -> Option<(int, int)> {
    if 0 <= pos < t.len() {
        match t[pos] {
            Token::Num(n) => Some((n, pos + 1)),
            Token::Text(_) => None,
        }
    } else {
        None
    }
}

pub open spec fn p_text(t: Seq<Token>, pos: int) -> Option<(Seq<char>, int)> {
    if 0 <= pos < t.len() {
        match t[pos] {
            Token::Text(s) => Some((s, pos + 1)),
            Token::Num(_) => None,
        }
    } else {
        None
    }
}

pub open spec fn p_opt(t: Seq<Token>, pos: int) -> Option<(Option<Seq<char>>, int)> {
    match p_num(t, pos) {
        Some((n, p)) => if n == 0 {
            Some((None, p))
        } else if n == 1 {
            match p_text(t, p) {
                Some((s, q)) => Some((Some(s), q)),
                None => None,
            }
        } else {
            None
        },
        None => None,
    }
}

pub open spec fn p_bool(t: Seq<Token>, pos: int) -> Option<(bool, int)> {
    match p_num(t, pos) {
        Some((n, p)) => if n == 0 {
            Some((false, p))
        } else if n == 1 {
            Some((true, p))
        } else {
            None
        },
        None => None,
    }
}

pub open spec fn p_lang(t: Seq<Token>, pos: int) -> Option<(Lang, int)> {
    match p_num(t, pos) {
        Some((n, p)) => if n == 0 {
            Some((Lang::Ukr, p))
        } else if n == 1 {
            Some((Lang::Eng, p))
        } else {
            None
        },
        None => None,
    }
}

pub open spec fn p_settings(t: Seq<Token>, pos: int) -> Option<(SettingsModel, int)> {
    match p_opt(t, pos) {
        Some((name, pos1)) => match p_bool(t, pos1) {
            Some((img, pos2)) => match p_num(t, pos2) {
                Some((limit, pos3)) => if limit_in_range(limit) {
                    match p_lang(t, pos3) {
                        Some((lang, pos4)) => Some((SettingsModel { name, send_image: img, limit: limit as u32, lang }, pos4)),
                        None => None,
                    }
                } else {
                    None
                },
                None => None,
            },
            None => None,
        },
        None => None,
    }
}

pub open spec fn p_ingredients(t: Seq<Token>, pos: int, n: nat) -> Option<(Seq<(Seq<char>, Option<Seq<char>>)>, int)>
    decreases n,
{
    if n == 0 {
        Some((Seq::empty(), pos))
    } else {
        match p_text(t, pos) {
            Some((name, pos1)) => match p_opt(t, pos1) {
                Some((m, pos2)) => match p_ingredients(t, pos2, (n - 1) as nat) {
                    Some((rest, pos3)) => Some((seq![(name, m)] + rest, pos3)),
                    None => None,
                },
                None => None,
            },
            None => None,
        }
    }
}

pub open spec fn p_drink(t: Seq<Token>, pos: int) -> Option<(DrinkModel, int)> {
    match p_text(t, pos) {
        Some((name, pos1)) => match p_opt(t, pos1) {
            Some((ty, pos2)) => match p_opt(t, pos2) {
                Some((category, pos3)) => match p_bool(t, pos3) {
                    Some((alco, pos4)) => match p_opt(t, pos4) {
                        Some((glass, pos5)) => match p_opt(t, pos5) {
                            Some((instructions, pos6)) => match p_opt(t, pos6) {
                                Some((image, pos7)) => match p_num(t, pos7) {
                                    Some((n, pos8)) => if n >= 0 {
                                        match p_ingredients(t, pos8, n as nat) {
                                            Some((ingredients, pos9)) => match p_lang(t, pos9) {
                                                Some((lang, pos10)) => Some((DrinkModel {
                                                    name, ty, category, alco, glass, instructions, image, ingredients, lang,
                                                }, pos10)),
                                                None => None,
                                            },
                                            None => None,
                                        }
                                    } else {
                                        None
                                    },
                                    None => None,
                                },
                                None => None,
                            },
                            None => None,
                        },
                        None => None,
                    },
                    None => None,
                },
                None => None,
            },
            None => None,
        },
        None => None,
    }
}

pub open spec fn p_drinks(t: Seq<Token>, pos: int, n: nat) -> Option<(Seq<DrinkModel>, int)>
    decreases n,
{
    if n == 0 {
        Some((Seq::empty(), pos))
    } else {
        match p_drink(t, pos) {
            Some((d, pos1)) => match p_drinks(t, pos1, (n - 1) as nat) {
                Some((rest, pos2)) => Some((seq![d] + rest, pos2)),
                None => None,
            },
            None => None,
        }
    }
}

pub open spec fn field_of_code(c: int) -> Option<SettingsKeyboard> {
    if c == 0 {
        Some(SettingsKeyboard::Name)
    } else if c == 1 {
        Some(SettingsKeyboard::Images)
    } else if c == 2 {
        Some(SettingsKeyboard::MessageLimit)
    } else if c == 3 {
        Some(SettingsKeyboard::Lang)
    } else if c == 4 {
        Some(SettingsKeyboard::Back)
    } else {
        None
    }
}

/// The state a record holds from `pos` on, and where it ends.
pub open spec fn p_state(t: Seq<Token>, pos: int) -> Option<(StateModel, int)> {
    match p_num(t, pos) {
        Some((tag, p)) => if tag == 0 {
            Some((StateModel::Start, p))
        } else if 1 <= tag <= 10 {
            match p_settings(t, p) {
                Some((s, q)) => if tag == 1 {
                    Some((StateModel::Settings(s), q))
                } else if tag == 2 {
                    match p_num(t, q) {
                        Some((c, r)) => match field_of_code(c) {
                            Some(k) => Some((StateModel::SettingsUpdate(s, k), r)),
                            None => None,
                        },
                        None => None,
                    }
                } else if tag == 3 {
                    Some((StateModel::CallBack(s), q))
                } else if tag == 4 {
                    Some((StateModel::FindByName(s), q))
                } else if tag == 5 {
                    Some((StateModel::FindIngrByName(s), q))
                } else if tag == 6 {
                    Some((StateModel::AllIngredients(s), q))
                } else if tag == 7 {
                    Some((StateModel::WithIngredient(s), q))
                } else if tag == 8 {
                    Some((StateModel::WithCategory(s), q))
                } else if tag == 9 {
                    match p_text(t, q) {
                        Some((a, q1)) => match p_text(t, q1) {
                            Some((b, q2)) => match p_num(t, q2) {
                                Some((n, q3)) => if n >= 0 {
                                    match p_drinks(t, q3, n as nat) {
                                        Some((all, q4)) => Some((StateModel::CocktailForYou(s, a, b, all), q4)),
                                        None => None,
                                    }
                                } else {
                                    None
                                },
                                None => None,
                            },
                            None => None,
                        },
                        None => None,
                    }
                } else {
                    Some((StateModel::Suggestion(s), q))
                },
                None => None,
            }
        } else {
            None
        },
        None => None,
    }
}

/// The state a whole record holds; `None` for a record that is not one.
pub open spec fn decode_spec(t: Seq<Token>) -> Option<StateModel> {
    match p_state(t, 0) {
        Some((m, p)) => if p == t.len() {
            Some(m)
        } else {
            None
        },
        None => None,
    }
}

// ----- the round trip -----

/// `a` stands in `t` from `pos` on.
pub open spec fn at(t: Seq<Token>, pos: int, a: Seq<Token>) -> bool {
    &&& 0 <= pos
    &&& pos + a.len() <= t.len()
    &&& forall|i: int| 0 <= i < a.len() ==> #[trigger] a[i] == t[pos + i]
}

proof fn lemma_at_split(t: Seq<Token>, pos: int, a: Seq<Token>, b: Seq<Token>)
    requires
        at(t, pos, a + b),
    ensures
        at(t, pos, a),
        at(t, pos + a.len(), b),
{
    assert forall|i: int| 0 <= i < a.len() implies #[trigger] a[i] == t[pos + i] by {
        assert((a + b)[i] == t[pos + i]);
    }
    assert forall|i: int| 0 <= i < b.len() implies #[trigger] b[i] == t[pos + a.len() + i] by {
        assert((a + b)[a.len() + i] == t[pos + (a.len() + i)]);
    }
}

proof fn lemma_at_first(t: Seq<Token>, pos: int, a: Seq<Token>)
    requires
        at(t, pos, a),
        a.len() > 0,
    ensures
        t[pos] == a[0],
{
    assert(a[0] == t[pos + 0]);
}

proof fn lemma_opt(t: Seq<Token>, pos: int, o: Option<Seq<char>>)
    requires
        at(t, pos, enc_opt(o)),
    ensures
        p_opt(t, pos) == Some((o, pos + enc_opt(o).len())),
{
    lemma_at_first(t, pos, enc_opt(o));
    if let Some(x) = o {
        assert(enc_opt(o)[1] == t[pos + 1]);
    }
}

proof fn lemma_bool(t: Seq<Token>, pos: int, b: bool)
    requires
        at(t, pos, enc_bool(b)),
    ensures
        p_bool(t, pos) == Some((b, pos + 1)),
{
    lemma_at_first(t, pos, enc_bool(b));
}

proof fn lemma_settings(t: Seq<Token>, pos: int, m: SettingsModel)
    requires
        at(t, pos, enc_settings(m)),
        limit_in_range(m.limit as int),
    ensures
        p_settings(t, pos) == Some((m, pos + enc_settings(m).len())),
{
    let a = enc_opt(m.name);
    let b = enc_bool(m.send_image);
    let c = seq![Token::Num(m.limit as int), Token::Num(lang_code(m.lang))];
    lemma_at_split(t, pos, a + b, c);
    lemma_at_split(t, pos, a, b);
    lemma_opt(t, pos, m.name);
    lemma_bool(t, pos + a.len(), m.send_image);
    let pos2 = pos + a.len() + b.len();
    assert(c[0] == t[pos2 + 0]);
    assert(c[1] == t[pos2 + 1]);
}

proof fn lemma_ingredients(t: Seq<Token>, pos: int, s: Seq<(Seq<char>, Option<Seq<char>>)>)
    requires
        at(t, pos, enc_ingredients(s)),
    ensures
        p_ingredients(t, pos, s.len()) == Some((s, pos + enc_ingredients(s).len())),
    decreases s.len(),
{
    if s.len() > 0 {
        let a = seq![Token::Text(s[0].0)];
        let b = enc_opt(s[0].1);
        let c = enc_ingredients(s.drop_first());
        lemma_at_split(t, pos, a + b, c);
        lemma_at_split(t, pos, a, b);
        lemma_at_first(t, pos, a);
        lemma_opt(t, pos + 1, s[0].1);
        lemma_ingredients(t, pos + 1 + b.len(), s.drop_first());
        assert(seq![(s[0].0, s[0].1)] + s.drop_first() =~= s);
    }
}

proof fn lemma_drink(t: Seq<Token>, pos: int, d: DrinkModel)
    requires
        at(t, pos, enc_drink(d)),
    ensures
        p_drink(t, pos) == Some((d, pos + enc_drink(d).len())),
{
    let s0 = seq![Token::Text(d.name)];
    let s1 = enc_opt(d.ty);
    let s2 = enc_opt(d.category);
    let s3 = enc_bool(d.alco);
    let s4 = enc_opt(d.glass);
    let s5 = enc_opt(d.instructions);
    let s6 = enc_opt(d.image);
    let s7 = seq![Token::Num(d.ingredients.len() as int)];
    let s8 = enc_ingredients(d.ingredients);
    let s9 = seq![Token::Num(lang_code(d.lang))];
    let e1 = s0 + s1;
    let e2 = e1 + s2;
    let e3 = e2 + s3;
    let e4 = e3 + s4;
    let e5 = e4 + s5;
    let e6 = e5 + s6;
    let e7 = e6 + s7;
    let e8 = e7 + s8;
    assert(enc_drink(d) == e8 + s9);
    lemma_at_split(t, pos, e8, s9);
    lemma_at_split(t, pos, e7, s8);
    lemma_at_split(t, pos, e6, s7);
    lemma_at_split(t, pos, e5, s6);
    lemma_at_split(t, pos, e4, s5);
    lemma_at_split(t, pos, e3, s4);
    lemma_at_split(t, pos, e2, s3);
    lemma_at_split(t, pos, e1, s2);
    lemma_at_split(t, pos, s0, s1);
    lemma_at_first(t, pos, s0);
    lemma_opt(t, pos + s0.len(), d.ty);
    lemma_opt(t, pos + e1.len(), d.category);
    lemma_bool(t, pos + e2.len(), d.alco);
    lemma_opt(t, pos + e3.len(), d.glass);
    lemma_opt(t, pos + e4.len(), d.instructions);
    lemma_opt(t, pos + e5.len(), d.image);
    lemma_at_first(t, pos + e6.len(), s7);
    lemma_ingredients(t, pos + e7.len(), d.ingredients);
    lemma_at_first(t, pos + e8.len(), s9);
}

proof fn lemma_drinks(t: Seq<Token>, pos: int, s: Seq<DrinkModel>)
    requires
        at(t, pos, enc_drinks(s)),
    ensures
        p_drinks(t, pos, s.len()) == Some((s, pos + enc_drinks(s).len())),
    decreases s.len(),
{
    if s.len() > 0 {
        lemma_at_split(t, pos, enc_drink(s[0]), enc_drinks(s.drop_first()));
        lemma_drink(t, pos, s[0]);
        lemma_drinks(t, pos + enc_drink(s[0]).len(), s.drop_first());
        assert(seq![s[0]] + s.drop_first() =~= s);
    }
}

/// Every settings model inside the state has its message limit in range.
pub open spec fn model_wf(m: StateModel) -> bool {
    match m {
        StateModel::Start => true,
        StateModel::Settings(s) => limit_in_range(s.limit as int),
        StateModel::SettingsUpdate(s, _) => limit_in_range(s.limit as int),
        StateModel::CallBack(s) => limit_in_range(s.limit as int),
        StateModel::FindByName(s) => limit_in_range(s.limit as int),
        StateModel::FindIngrByName(s) => limit_in_range(s.limit as int),
        StateModel::AllIngredients(s) => limit_in_range(s.limit as int),
        StateModel::WithIngredient(s) => limit_in_range(s.limit as int),
        StateModel::WithCategory(s) => limit_in_range(s.limit as int),
        StateModel::CocktailForYou(s, _, _, _) => limit_in_range(s.limit as int),
        StateModel::Suggestion(s) => limit_in_range(s.limit as int),
    }
}

proof fn lemma_at_whole(t: Seq<Token>)
    ensures
        at(t, 0, t),
{
}

/// Reading back the record of a session state gives that state.
pub proof fn lemma_record_round_trip(m: StateModel)
    requires
        model_wf(m),
    ensures
        decode_spec(enc_state(m)) == Some(m),
{
    let t = enc_state(m);
    lemma_at_whole(t);
    assert(t[0] == t[0int + 0]);
    match m {
        StateModel::Start => {},
        StateModel::SettingsUpdate(s, k) => {
            let h = seq![Token::Num(2)];
            let c = seq![Token::Num(field_code(k))];
            lemma_at_split(t, 0, h + enc_settings(s), c);
            lemma_at_split(t, 0, h, enc_settings(s));
            lemma_settings(t, 1, s);
            lemma_at_first(t, 1int + enc_settings(s).len(), c);
        },
        StateModel::CocktailForYou(s, a, b, all) => {
            let h = seq![Token::Num(9)];
            let g = seq![Token::Text(a), Token::Text(b), Token::Num(all.len() as int)];
            lemma_at_split(t, 0, h + enc_settings(s) + g, enc_drinks(all));
            lemma_at_split(t, 0, h + enc_settings(s), g);
            lemma_at_split(t, 0, h, enc_settings(s));
            lemma_settings(t, 1, s);
            let q: int = 1int + enc_settings(s).len();
            assert(g[0] == t[q + 0]);
            assert(g[1] == t[q + 1]);
            assert(g[2] == t[q + 2]);
            lemma_drinks(t, q + 3, all);
        },
        StateModel::Settings(s) => {
            lemma_at_split(t, 0, seq![Token::Num(1)], enc_settings(s));
            lemma_settings(t, 1, s);
        },
        StateModel::CallBack(s) => {
            lemma_at_split(t, 0, seq![Token::Num(3)], enc_settings(s));
            lemma_settings(t, 1, s);
        },
        StateModel::FindByName(s) => {
            lemma_at_split(t, 0, seq![Token::Num(4)], enc_settings(s));
            lemma_settings(t, 1, s);
        },
        StateModel::FindIngrByName(s) => {
            lemma_at_split(t, 0, seq![Token::Num(5)], enc_settings(s));
            lemma_settings(t, 1, s);
        },
        StateModel::AllIngredients(s) => {
            lemma_at_split(t, 0, seq![Token::Num(6)], enc_settings(s));
            lemma_settings(t, 1, s);
        },
        StateModel::WithIngredient(s) => {
            lemma_at_split(t, 0, seq![Token::Num(7)], enc_settings(s));
            lemma_settings(t, 1, s);
        },
        StateModel::WithCategory(s) => {
            lemma_at_split(t, 0, seq![Token::Num(8)], enc_settings(s));
            lemma_settings(t, 1, s);
        },
        StateModel::Suggestion(s) => {
            lemma_at_split(t, 0, seq![Token::Num(10)], enc_settings(s));
            lemma_settings(t, 1, s);
        },
    }
}

/// A well-formed session state read back from its record is the same state.
pub proof fn lemma_session_round_trip(s: State)
    requires
        s.wf(),
    ensures
        decode_spec(enc_state(state_model(s))) == Some(state_model(s)),
{
    lemma_record_round_trip(state_model(s));
}

// ----- writing a record -----

proof fn lemma_enc_ingredients_push(s: Seq<(Seq<char>, Option<Seq<char>>)>, x: (Seq<char>, Option<Seq<char>>))
    ensures
        enc_ingredients(s.push(x)) == enc_ingredients(s) + (seq![Token::Text(x.0)] + enc_opt(x.1)),
    decreases s.len(),
{
    if s.len() == 0 {
        assert(s.push(x).drop_first() =~= Seq::<(Seq<char>, Option<Seq<char>>)>::empty());
        assert(s.push(x)[0] == x);
        assert(enc_ingredients(s.push(x).drop_first()) == Seq::<Token>::empty());
        assert(enc_ingredients(s.push(x)) =~= seq![Token::Text(x.0)] + enc_opt(x.1));
    } else {
        lemma_enc_ingredients_push(s.drop_first(), x);
        assert(s.push(x).drop_first() =~= s.drop_first().push(x));
        assert(enc_ingredients(s.push(x)) =~= enc_ingredients(s) + (seq![Token::Text(x.0)] + enc_opt(x.1)));
    }
}

proof fn lemma_enc_drinks_push(s: Seq<DrinkModel>, x: DrinkModel)
    ensures
        enc_drinks(s.push(x)) == enc_drinks(s) + enc_drink(x),
    decreases s.len(),
{
    if s.len() == 0 {
        assert(s.push(x).drop_first() =~= Seq::<DrinkModel>::empty());
        assert(s.push(x)[0] == x);
        assert(enc_drinks(s.push(x).drop_first()) == Seq::<Token>::empty());
        assert(enc_drinks(s.push(x)) =~= enc_drink(x));
    } else {
        lemma_enc_drinks_push(s.drop_first(), x);
        assert(s.push(x).drop_first() =~= s.drop_first().push(x));
        assert(enc_drinks(s.push(x)) =~= enc_drinks(s) + enc_drink(x));
    }
}

fn put_num(out: &mut Vec<Field>, n: u64)
    ensures
        tokens(final(out)@) == tokens(old(out)@) + seq![Token::Num(n as int)],
{
    out.push(Field::Num(n));
    assert(tokens(out@) =~= tokens(old(out)@) + seq![Token::Num(n as int)]);
}

fn put_text(out: &mut Vec<Field>, s: &String)
    ensures
        tokens(final(out)@) == tokens(old(out)@) + seq![Token::Text(s@)],
{
    out.push(Field::Text(s.clone()));
    assert(tokens(out@) =~= tokens(old(out)@) + seq![Token::Text(s@)]);
}

fn put_opt(out: &mut Vec<Field>, o: &Option<String>)
    ensures
        tokens(final(out)@) == tokens(old(out)@) + enc_opt(opt_view(*o)),
{
    match o {
        None => put_num(out, 0),
        Some(s) => {
            put_num(out, 1);
            put_text(out, s);
            assert(seq![Token::Num(1)] + seq![Token::Text(s@)] =~= enc_opt(opt_view(*o)));
        },
    }
}

fn put_bool(out: &mut Vec<Field>, b: bool)
    ensures
        tokens(final(out)@) == tokens(old(out)@) + enc_bool(b),
{
    put_num(out, if b { 1 } else { 0 });
}

fn put_lang(out: &mut Vec<Field>, l: Lang)
    ensures
        tokens(final(out)@) == tokens(old(out)@) + seq![Token::Num(lang_code(l))],
{
    match l {
        Lang::Ukr => put_num(out, 0),
        Lang::Eng => put_num(out, 1),
    }
}

fn put_settings(out: &mut Vec<Field>, s: &UserSettings)
    ensures
        tokens(final(out)@) == tokens(old(out)@) + enc_settings(settings_model(*s)),
{
    let ghost start = tokens(out@);
    put_opt(out, &s.name);
    put_bool(out, s.send_image);
    put_num(out, s.limit_of_messages as u64);
    put_lang(out, s.lang);
    assert(tokens(out@) =~= start + enc_settings(settings_model(*s)));
}

fn put_ingredients(out: &mut Vec<Field>, v: &Vec<(String, Option<String>)>)
    ensures
        tokens(final(out)@) == tokens(old(out)@)
            + enc_ingredients(v@.map_values(|e: (String, Option<String>)| ingredient_model(e))),
{
    let ghost start = tokens(out@);
    let ghost m = v@.map_values(|e: (String, Option<String>)| ingredient_model(e));
    let mut i: usize = 0;
    while i < v.len()
        invariant
            i <= v.len(),
            m == v@.map_values(|e: (String, Option<String>)| ingredient_model(e)),
            tokens(out@) == start + enc_ingredients(m.subrange(0, i as int)),
        decreases v.len() - i,
    {
        put_text(out, &v[i].0);
        put_opt(out, &v[i].1);
        proof {
            assert(m.subrange(0, i + 1) =~= m.subrange(0, i as int).push(m[i as int]));
            lemma_enc_ingredients_push(m.subrange(0, i as int), m[i as int]);
            assert(tokens(out@) =~= start + enc_ingredients(m.subrange(0, i + 1)));
        }
        i = i + 1;
    }
    assert(m.subrange(0, i as int) =~= m);
}

fn put_drink(out: &mut Vec<Field>, d: &LangDrink)
    ensures
        tokens(final(out)@) == tokens(old(out)@) + enc_drink(drink_model(*d)),
{
    let ghost start = tokens(out@);
    let ghost m = drink_model(*d);
    let dr = &d.drink;
    put_text(out, &dr.name);
    let ghost e = seq![Token::Text(m.name)];
    put_opt(out, &dr.ty);
    assert(tokens(out@) =~= start + (e + enc_opt(m.ty)));
    let ghost e = e + enc_opt(m.ty);
    put_opt(out, &dr.category);
    assert(tokens(out@) =~= start + (e + enc_opt(m.category)));
    let ghost e = e + enc_opt(m.category);
    put_bool(out, dr.alco);
    assert(tokens(out@) =~= start + (e + enc_bool(m.alco)));
    let ghost e = e + enc_bool(m.alco);
    put_opt(out, &dr.glass);
    assert(tokens(out@) =~= start + (e + enc_opt(m.glass)));
    let ghost e = e + enc_opt(m.glass);
    put_opt(out, &dr.instructions);
    assert(tokens(out@) =~= start + (e + enc_opt(m.instructions)));
    let ghost e = e + enc_opt(m.instructions);
    put_opt(out, &dr.image);
    assert(tokens(out@) =~= start + (e + enc_opt(m.image)));
    let ghost e = e + enc_opt(m.image);
    put_num(out, dr.ingredients.len() as u64);
    assert(tokens(out@) =~= start + (e + seq![Token::Num(m.ingredients.len() as int)]));
    let ghost e = e + seq![Token::Num(m.ingredients.len() as int)];
    put_ingredients(out, &dr.ingredients);
    assert(tokens(out@) =~= start + (e + enc_ingredients(m.ingredients)));
    let ghost e = e + enc_ingredients(m.ingredients);
    put_lang(out, d.lang);
    assert(tokens(out@) =~= start + (e + seq![Token::Num(lang_code(m.lang))]));
}

fn put_drinks(out: &mut Vec<Field>, v: &Vec<LangDrink>)
    ensures
        tokens(final(out)@) == tokens(old(out)@) + enc_drinks(v@.map_values(|d: LangDrink| drink_model(d))),
{
    let ghost start = tokens(out@);
    let ghost m = v@.map_values(|d: LangDrink| drink_model(d));
    let mut i: usize = 0;
    while i < v.len()
        invariant
            i <= v.len(),
            m == v@.map_values(|d: LangDrink| drink_model(d)),
            tokens(out@) == start + enc_drinks(m.subrange(0, i as int)),
        decreases v.len() - i,
    {
        put_drink(out, &v[i]);
        proof {
            assert(m.subrange(0, i + 1) =~= m.subrange(0, i as int).push(m[i as int]));
            lemma_enc_drinks_push(m.subrange(0, i as int), m[i as int]);
            assert(tokens(out@) =~= start + enc_drinks(m.subrange(0, i + 1)));
        }
        i = i + 1;
    }
    assert(m.subrange(0, i as int) =~= m);
}

fn put_tagged(out: &mut Vec<Field>, tag: u64, s: &UserSettings)
    ensures
        tokens(final(out)@) == tokens(old(out)@) + (seq![Token::Num(tag as int)] + enc_settings(settings_model(*s))),
{
    let ghost start = tokens(out@);
    put_num(out, tag);
    put_settings(out, s);
    assert(tokens(out@) =~= start + (seq![Token::Num(tag as int)] + enc_settings(settings_model(*s))));
}

/// The record of a session state.
pub fn serialize(state: &State) -> (r: Vec<Field>)
    ensures
        tokens(r@) == enc_state(state_model(*state)),
{
    let mut out: Vec<Field> = Vec::new();
    assert(tokens(out@) =~= Seq::<Token>::empty());
    match state {
        State::Start => put_num(&mut out, 0),
        State::Settings(s) => put_tagged(&mut out, 1, s),
        State::SettingsUpdate(s, k) => {
            put_tagged(&mut out, 2, s);
            let code: u64 = match k {
                SettingsKeyboard::Name => 0,
                SettingsKeyboard::Images => 1,
                SettingsKeyboard::MessageLimit => 2,
                SettingsKeyboard::Lang => 3,
                SettingsKeyboard::Back => 4,
            };
            put_num(&mut out, code);
        },
        State::CallBack(s) => put_tagged(&mut out, 3, s),
        State::FindByName(s) => put_tagged(&mut out, 4, s),
        State::FindIngrByName(s) => put_tagged(&mut out, 5, s),
        State::AllIngredients(s) => put_tagged(&mut out, 6, s),
        State::WithIngredient(s) => put_tagged(&mut out, 7, s),
        State::WithCategory(s) => put_tagged(&mut out, 8, s),
        State::CocktailForYou { settings, game, all } => {
            put_tagged(&mut out, 9, settings);
            put_text(&mut out, &game.0);
            put_text(&mut out, &game.1);
            put_num(&mut out, all.len() as u64);
            put_drinks(&mut out, all);
        },
        State::Suggestion(s) => put_tagged(&mut out, 10, s),
    }
    assert(tokens(out@) =~= enc_state(state_model(*state)));
    out
}

// ----- reading a record -----

fn get_num(t: &Vec<Field>, pos: usize) -> (r: Option<(u64, usize)>)
    ensures
        match p_num(tokens(t@), pos as int) {
            None => r is None,
            Some((n, p)) => r matches Some((v, q)) && v as int == n && q as int == p,
        },
{
    if pos < t.len() {
        match &t[pos] {
            Field::Num(n) => Some((*n, pos + 1)),
            Field::Text(_) => None,
        }
    } else {
        None
    }
}

fn get_text(t: &Vec<Field>, pos: usize) -> (r: Option<(String, usize)>)
    ensures
        match p_text(tokens(t@), pos as int) {
            None => r is None,
            Some((s, p)) => r matches Some((v, q)) && v@ == s && q as int == p,
        },
{
    if pos < t.len() {
        match &t[pos] {
            Field::Text(s) => Some((s.clone(), pos + 1)),
            Field::Num(_) => None,
        }
    } else {
        None
    }
}

fn get_opt(t: &Vec<Field>, pos: usize) -> (r: Option<(Option<String>, usize)>)
    ensures
        match p_opt(tokens(t@), pos as int) {
            None => r is None,
            Some((o, p)) => r matches Some((v, q)) && opt_view(v) == o && q as int == p,
        },
{
    let (n, p) = match get_num(t, pos) {
        Some(x) => x,
        None => {
            return None;
        },
    };
    if n == 0 {
        Some((None, p))
    } else if n == 1 {
        match get_text(t, p) {
            Some((s, q)) => Some((Some(s), q)),
            None => None,
        }
    } else {
        None
    }
}

fn get_bool(t: &Vec<Field>, pos: usize) -> (r: Option<(bool, usize)>)
    ensures
        match p_bool(tokens(t@), pos as int) {
            None => r is None,
            Some((b, p)) => r matches Some((v, q)) && v == b && q as int == p,
        },
{
    match get_num(t, pos) {
        Some((n, p)) => if n == 0 {
            Some((false, p))
        } else if n == 1 {
            Some((true, p))
        } else {
            None
        },
        None => None,
    }
}

fn get_lang(t: &Vec<Field>, pos: usize) -> (r: Option<(Lang, usize)>)
    ensures
        match p_lang(tokens(t@), pos as int) {
            None => r is None,
            Some((l, p)) => r matches Some((v, q)) && v == l && q as int == p,
        },
{
    match get_num(t, pos) {
        Some((n, p)) => if n == 0 {
            Some((Lang::Ukr, p))
        } else if n == 1 {
            Some((Lang::Eng, p))
        } else {
            None
        },
        None => None,
    }
}

fn get_settings(t: &Vec<Field>, pos: usize) -> (r: Option<(UserSettings, usize)>)
    ensures
        match p_settings(tokens(t@), pos as int) {
            None => r is None,
            Some((m, p)) => r matches Some((v, q)) && settings_model(v) == m && q as int == p && v.wf(),
        },
{
    let (name, pos1) = match get_opt(t, pos) {
        Some(x) => x,
        None => {
            return None;
        },
    };
    let (send_image, pos2) = match get_bool(t, pos1) {
        Some(x) => x,
        None => {
            return None;
        },
    };
    let (limit, pos3) = match get_num(t, pos2) {
        Some(x) => x,
        None => {
            return None;
        },
    };
    if limit < 3 || limit > 80 {
        return None;
    }
    let (lang, pos4) = match get_lang(t, pos3) {
        Some(x) => x,
        None => {
            return None;
        },
    };
    Some((UserSettings { name, send_image, limit_of_messages: limit as u32, lang }, pos4))
}

fn get_ingredients(t: &Vec<Field>, pos: usize, n: u64) -> (r: Option<(Vec<(String, Option<String>)>, usize)>)
    ensures
        match p_ingredients(tokens(t@), pos as int, n as nat) {
            None => r is None,
            Some((m, p)) => r matches Some((v, q))
                && v@.map_values(|e: (String, Option<String>)| ingredient_model(e)) == m && q as int == p,
        },
{
    let ghost tv = tokens(t@);
    let mut acc: Vec<(String, Option<String>)> = Vec::new();
    let mut p: usize = pos;
    let mut k: u64 = 0;
    while k < n
        invariant
            tv == tokens(t@),
            k <= n,
            p_ingredients(tv, pos as int, n as nat) == match p_ingredients(tv, p as int, (n - k) as nat) {
                None => None,
                Some((rest, q)) => Some((acc@.map_values(|e: (String, Option<String>)| ingredient_model(e)) + rest, q)),
            },
        decreases n - k,
    {
        let (name, pos1) = match get_text(t, p) {
            Some(x) => x,
            None => {
                return None;
            },
        };
        let (m, pos2) = match get_opt(t, pos1) {
            Some(x) => x,
            None => {
                return None;
            },
        };
        let ghost before = acc@.map_values(|e: (String, Option<String>)| ingredient_model(e));
        let ghost entry = (name@, opt_view(m));
        acc.push((name, m));
        proof {
            let now = acc@.map_values(|e: (String, Option<String>)| ingredient_model(e));
            assert(now =~= before.push(entry));
            assert forall|rest: Seq<(Seq<char>, Option<Seq<char>>)>|
                before + (seq![entry] + rest) == #[trigger] (now + rest) by {
                assert(before + (seq![entry] + rest) =~= now + rest);
            }
        }
        p = pos2;
        k = k + 1;
    }
    let ghost fin = acc@.map_values(|e: (String, Option<String>)| ingredient_model(e));
    assert(fin + Seq::<(Seq<char>, Option<Seq<char>>)>::empty() =~= fin);
    Some((acc, p))
}

fn get_drink(t: &Vec<Field>, pos: usize) -> (r: Option<(LangDrink, usize)>)
    ensures
        match p_drink(tokens(t@), pos as int) {
            None => r is None,
            Some((m, p)) => r matches Some((v, q)) && drink_model(v) == m && q as int == p,
        },
{
    let (name, pos1) = match get_text(t, pos) {
        Some(x) => x,
        None => {
            return None;
        },
    };
    let (ty, pos2) = match get_opt(t, pos1) {
        Some(x) => x,
        None => {
            return None;
        },
    };
    let (category, pos3) = match get_opt(t, pos2) {
        Some(x) => x,
        None => {
            return None;
        },
    };
    let (alco, pos4) = match get_bool(t, pos3) {
        Some(x) => x,
        None => {
            return None;
        },
    };
    let (glass, pos5) = match get_opt(t, pos4) {
        Some(x) => x,
        None => {
            return None;
        },
    };
    let (instructions, pos6) = match get_opt(t, pos5) {
        Some(x) => x,
        None => {
            return None;
        },
    };
    let (image, pos7) = match get_opt(t, pos6) {
        Some(x) => x,
        None => {
            return None;
        },
    };
    let (n, pos8) = match get_num(t, pos7) {
        Some(x) => x,
        None => {
            return None;
        },
    };
    let (ingredients, pos9) = match get_ingredients(t, pos8, n) {
        Some(x) => x,
        None => {
            return None;
        },
    };
    let (lang, pos10) = match get_lang(t, pos9) {
        Some(x) => x,
        None => {
            return None;
        },
    };
    let drink = Drink { name, ty, category, alco, glass, instructions, image, ingredients };
    Some((LangDrink { drink, lang }, pos10))
}

fn get_drinks(t: &Vec<Field>, pos: usize, n: u64) -> (r: Option<(Vec<LangDrink>, usize)>)
    ensures
        match p_drinks(tokens(t@), pos as int, n as nat) {
            None => r is None,
            Some((m, p)) => r matches Some((v, q)) && v@.map_values(|d: LangDrink| drink_model(d)) == m && q as int == p,
        },
{
    let ghost tv = tokens(t@);
    let mut acc: Vec<LangDrink> = Vec::new();
    let mut p: usize = pos;
    let mut k: u64 = 0;
    while k < n
        invariant
            tv == tokens(t@),
            k <= n,
            p_drinks(tv, pos as int, n as nat) == match p_drinks(tv, p as int, (n - k) as nat) {
                None => None,
                Some((rest, q)) => Some((acc@.map_values(|d: LangDrink| drink_model(d)) + rest, q)),
            },
        decreases n - k,
    {
        let (d, pos1) = match get_drink(t, p) {
            Some(x) => x,
            None => {
                return None;
            },
        };
        let ghost before = acc@.map_values(|d: LangDrink| drink_model(d));
        let ghost entry = drink_model(d);
        acc.push(d);
        proof {
            let now = acc@.map_values(|d: LangDrink| drink_model(d));
            assert(now =~= before.push(entry));
            assert forall|rest: Seq<DrinkModel>| before + (seq![entry] + rest) == #[trigger] (now + rest) by {
                assert(before + (seq![entry] + rest) =~= now + rest);
            }
        }
        p = pos1;
        k = k + 1;
    }
    let ghost fin = acc@.map_values(|d: LangDrink| drink_model(d));
    assert(fin + Seq::<DrinkModel>::empty() =~= fin);
    Some((acc, p))
}

fn get_state(t: &Vec<Field>, pos: usize) -> (r: Option<(State, usize)>)
    ensures
        match p_state(tokens(t@), pos as int) {
            None => r is None,
            Some((m, p)) => r matches Some((v, q)) && state_model(v) == m && q as int == p && v.wf(),
        },
{
    let (tag, p) = match get_num(t, pos) {
        Some(x) => x,
        None => {
            return None;
        },
    };
    if tag == 0 {
        return Some((State::Start, p));
    }
    if tag > 10 {
        return None;
    }
    let (s, q) = match get_settings(t, p) {
        Some(x) => x,
        None => {
            return None;
        },
    };
    if tag == 1 {
        Some((State::Settings(s), q))
    } else if tag == 2 {
        let (c, r) = match get_num(t, q) {
            Some(x) => x,
            None => {
                return None;
            },
        };
        let k = if c == 0 {
            SettingsKeyboard::Name
        } else if c == 1 {
            SettingsKeyboard::Images
        } else if c == 2 {
            SettingsKeyboard::MessageLimit
        } else if c == 3 {
            SettingsKeyboard::Lang
        } else if c == 4 {
            SettingsKeyboard::Back
        } else {
            return None;
        };
        Some((State::SettingsUpdate(s, k), r))
    } else if tag == 3 {
        Some((State::CallBack(s), q))
    } else if tag == 4 {
        Some((State::FindByName(s), q))
    } else if tag == 5 {
        Some((State::FindIngrByName(s), q))
    } else if tag == 6 {
        Some((State::AllIngredients(s), q))
    } else if tag == 7 {
        Some((State::WithIngredient(s), q))
    } else if tag == 8 {
        Some((State::WithCategory(s), q))
    } else if tag == 9 {
        let (a, q1) = match get_text(t, q) {
            Some(x) => x,
            None => {
                return None;
            },
        };
        let (b, q2) = match get_text(t, q1) {
            Some(x) => x,
            None => {
                return None;
            },
        };
        let (n, q3) = match get_num(t, q2) {
            Some(x) => x,
            None => {
                return None;
            },
        };
        let (all, q4) = match get_drinks(t, q3, n) {
            Some(x) => x,
            None => {
                return None;
            },
        };
        Some((State::CocktailForYou { settings: s, game: (a, b), all }, q4))
    } else {
        Some((State::Suggestion(s), q))
    }
}

/// Reads a session state back from its record; `None` when the record is
/// not the record of a state.
pub fn deserialize(fields: &Vec<Field>) -> (r: Option<State>)
    ensures
        match decode_spec(tokens(fields@)) {
            None => r is None,
            Some(m) => r matches Some(s) && state_model(s) == m && s.wf(),
        },
{
    match get_state(fields, 0) {
        Some((s, p)) => if p == fields.len() {
            Some(s)
        } else {
            None
        },
        None => None,
    }
}

} // verus!
