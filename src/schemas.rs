use vstd::prelude::*;

use crate::drink::{lookup, opt_view, optional_text, drink_of, record_ok, LangDrink, RawField, RawRecord, RawValue};
use crate::error::{ErrorHandler, ErrorType};
use crate::settings::Lang;
use crate::text::same_text;

verus! {

/// A short drink record: name and image only.
#[derive(Debug, Clone)]
pub struct LazyDrink {
    pub name: String,
    pub image_url: String,
}

/// A short drink record with the locale it is shown in.
#[derive(Debug, Clone)]
pub struct LangLazyDrink {
    pub lazy: LazyDrink,
    pub lang: Lang,
}

/// A short ingredient record: name and description.
#[derive(Debug, Clone)]
pub struct LazyIngredient {
    pub name: String,
    pub description: String,
}

/// An ingredient record of the catalog.
#[derive(Debug, Clone)]
pub struct Ingredient {
    pub name: String,
    pub description: Option<String>,
    pub ty: Option<String>,
    pub alco: bool,
}

/// An ingredient record with the locale it is shown in.
#[derive(Debug, Clone)]
pub struct LangIngredient {
    pub ingredient: Ingredient,
    pub lang: Lang,
}

/// One name of a catalog listing (a category, a glass or an ingredient).
#[derive(Debug, Clone)]
pub struct List {
    pub name: String,
}

/// A listing name with the locale it is shown in.
#[derive(Debug, Clone)]
pub struct LangList {
    pub list: List,
    pub lang: Lang,
}

/// A catalog answer: its records, or none when the catalog found nothing.
#[derive(Debug)]
pub struct RawDrinkListSchema<T> {
    pub drinks: Option<Vec<T>>,
}

impl<T> RawDrinkListSchema<T> {
    /// Whether the catalog found nothing.
    pub fn is_empty(&self) -> (r: bool)
        ensures
            r == self.drinks is None,
    {
        self.drinks.is_none()
    }
}

/// The text of a field that must hold a string.
pub open spec fn required_text(f: Option<RawField>) -> Option<Seq<char>> {
    match f {
        Some(x) => match x.value {
            RawValue::Text(t) => Some(t@),
            _ => None,
        },
        None => None,
    }
}

/// The two-valued alcohol flag of the catalog: "Yes" or "No".
pub open spec fn yes_no(s: Seq<char>) -> Option<bool> {
    if s == "Yes"@ {
        Some(true)
    } else if s == "No"@ {
        Some(false)
    } else {
        None
    }
}

fn parse_error(msg: &str) -> (e: ErrorHandler)
    ensures
        e.ty == ErrorType::Parse,
{
    ErrorHandler { msg: msg.to_owned(), ty: ErrorType::Parse }
}

/// Reads the catalog's alcohol flag; any text but "Yes" or "No" fails.
pub fn deserialize_bool(s: &str) -> (r: Result<bool, ErrorHandler>)
    ensures
        r matches Ok(b) ==> yes_no(s@) == Some(b),
        r is Err <==> yes_no(s@) is None,
        r matches Err(e) ==> e.ty == ErrorType::Parse,
{
    if same_text(s, "Yes") {
        Ok(true)
    } else if same_text(s, "No") {
        Ok(false)
    } else {
        Err(parse_error("unknown variant, expected Yes or No"))
    }
}

fn required(fields: &Vec<RawField>, key: &str) -> (r: Result<String, ErrorHandler>)
    ensures
        r matches Ok(s) ==> required_text(lookup(fields@, key@)) == Some(s@),
        r is Err <==> required_text(lookup(fields@, key@)) is None,
        r matches Err(e) ==> e.ty == ErrorType::Parse,
{
    match crate::drink::find_field(fields, key) {
        Some(f) => match &f.value {
            RawValue::Text(t) => Ok(t.clone()),
            _ => Err(parse_error("a required field is not a string")),
        },
        None => Err(parse_error("a required field is missing")),
    }
}

fn optional(fields: &Vec<RawField>, key: &str) -> (r: Result<Option<String>, ErrorHandler>)
    ensures
        r matches Ok(o) ==> optional_text(lookup(fields@, key@)) == Some(opt_view(o)),
        r is Err <==> optional_text(lookup(fields@, key@)) is None,
{
    crate::drink::read_optional_text(crate::drink::find_field(fields, key))
}

/// Whether a record is a readable short drink.
pub open spec fn lazy_ok(fields: Seq<RawField>) -> bool {
    required_text(lookup(fields, "strDrink"@)) is Some && required_text(lookup(fields, "strDrinkThumb"@)) is Some
}

/// Whether a record is a readable ingredient.
pub open spec fn ingredient_ok(fields: Seq<RawField>) -> bool {
    &&& required_text(lookup(fields, "strIngredient"@)) is Some
    &&& optional_text(lookup(fields, "strDescription"@)) is Some
    &&& optional_text(lookup(fields, "strType"@)) is Some
    &&& required_text(lookup(fields, "strAlcohol"@)) matches Some(a) && yes_no(a) is Some
}

/// `i` is the ingredient that the fields of a readable record describe.
pub open spec fn ingredient_of(i: Ingredient, fields: Seq<RawField>) -> bool {
    &&& required_text(lookup(fields, "strIngredient"@)) == Some(i.name@)
    &&& optional_text(lookup(fields, "strDescription"@)) == Some(opt_view(i.description))
    &&& optional_text(lookup(fields, "strType"@)) == Some(opt_view(i.ty))
    &&& required_text(lookup(fields, "strAlcohol"@)) matches Some(a) && yes_no(a) == Some(i.alco)
}

impl LazyIngredient {
    /// Reads a short ingredient: name and description are required strings.
    pub fn from_record(input: &RawRecord) -> (r: Result<LazyIngredient, ErrorHandler>)
        ensures
            r is Ok <==> (required_text(lookup(input.fields@, "strIngredient"@)) is Some
                && required_text(lookup(input.fields@, "strDescription"@)) is Some),
            r matches Ok(i) ==> required_text(lookup(input.fields@, "strIngredient"@)) == Some(i.name@)
                && required_text(lookup(input.fields@, "strDescription"@)) == Some(i.description@),
    {
        let name = required(&input.fields, "strIngredient")?;
        let description = required(&input.fields, "strDescription")?;
        Ok(LazyIngredient { name, description })
    }
}

impl LazyDrink {
    /// Reads a short drink: name and image are required strings.
    pub fn from_record(input: &RawRecord) -> (r: Result<LazyDrink, ErrorHandler>)
        ensures
            r is Ok <==> lazy_ok(input.fields@),
            r matches Ok(d) ==> required_text(lookup(input.fields@, "strDrink"@)) == Some(d.name@)
                && required_text(lookup(input.fields@, "strDrinkThumb"@)) == Some(d.image_url@),
    {
        let name = required(&input.fields, "strDrink")?;
        let image_url = required(&input.fields, "strDrinkThumb")?;
        Ok(LazyDrink { name, image_url })
    }
}

impl Ingredient {
    /// Reads an ingredient: name and alcohol flag are required, the flag is
    /// "Yes" or "No"; description and type are optional strings.
    pub fn from_record(input: &RawRecord) -> (r: Result<Ingredient, ErrorHandler>)
        ensures
            r is Ok <==> ingredient_ok(input.fields@),
            r matches Ok(i) ==> ingredient_of(i, input.fields@),
    {
        let fields = &input.fields;
        let name = required(fields, "strIngredient")?;
        let description = optional(fields, "strDescription")?;
        let ty = optional(fields, "strType")?;
        let flag = required(fields, "strAlcohol")?;
        let alco = deserialize_bool(flag.as_str())?;
        Ok(Ingredient { name, description, ty, alco })
    }
}

/// The name of a listing record: the first of its category, glass and
/// first-ingredient fields that is present.
pub open spec fn list_name(fields: Seq<RawField>) -> Option<Seq<char>> {
    if lookup(fields, "strCategory"@) is Some {
        required_text(lookup(fields, "strCategory"@))
    } else if lookup(fields, "strGlass"@) is Some {
        required_text(lookup(fields, "strGlass"@))
    } else {
        required_text(lookup(fields, "strIngredient1"@))
    }
}

impl List {
    /// Reads a listing name.
    pub fn from_record(input: &RawRecord) -> (r: Result<List, ErrorHandler>)
        ensures
            r is Ok <==> list_name(input.fields@) is Some,
            r matches Ok(l) ==> list_name(input.fields@) == Some(l.name@),
    {
        let fields = &input.fields;
        let key = if crate::drink::find_field(fields, "strCategory").is_some() {
            "strCategory"
        } else if crate::drink::find_field(fields, "strGlass").is_some() {
            "strGlass"
        } else {
            "strIngredient1"
        };
        let name = required(fields, key)?;
        Ok(List { name })
    }
}

impl LazyDrink {
    /// The image of the drink.
    pub fn get_url(&self) -> (r: Option<String>)
        ensures
            opt_view(r) == Some(self.image_url@),
    {
        Some(self.image_url.clone())
    }
}

impl crate::drink::Drink {
    /// The image of the drink, if it has one.
    pub fn get_url(&self) -> (r: Option<String>)
        ensures
            opt_view(r) == opt_view(self.image),
    {
        match &self.image {
            Some(u) => Some(u.clone()),
            None => None,
        }
    }
}

impl LangLazyDrink {
    pub fn new(drink: LazyDrink, lang: Lang) -> (r: LangLazyDrink)
        ensures
            r.lazy == drink && r.lang == lang,
    {
        LangLazyDrink { lazy: drink, lang }
    }

    pub fn get_drink(&self) -> (r: &LazyDrink)
        ensures
            *r == self.lazy,
    {
        &self.lazy
    }

    /// The image of the drink.
    pub fn get_url(&self) -> (r: Option<String>)
        ensures
            opt_view(r) == Some(self.lazy.image_url@),
    {
        Some(self.lazy.image_url.clone())
    }
}

impl LangDrink {
    /// The image of the drink, if it has one.
    pub fn get_url(&self) -> (r: Option<String>)
        ensures
            opt_view(r) == opt_view(self.drink.image),
    {
        self.drink.get_url()
    }
}

impl LangIngredient {
    pub fn new(drink: Ingredient, lang: Lang) -> (r: LangIngredient)
        ensures
            r.ingredient == drink && r.lang == lang,
    {
        LangIngredient { ingredient: drink, lang }
    }

    pub fn get_drink(&self) -> (r: &Ingredient)
        ensures
            *r == self.ingredient,
    {
        &self.ingredient
    }
}

impl LangList {
    pub fn new(drink: List, lang: Lang) -> (r: LangList)
        ensures
            r.list == drink && r.lang == lang,
    {
        LangList { list: drink, lang }
    }

    pub fn get_drink(&self) -> (r: &List)
        ensures
            *r == self.list,
    {
        &self.list
    }
}

/// The catalog's records that read as drinks, in order.
pub open spec fn readable_drinks(records: Seq<RawRecord>) -> Seq<RawRecord> {
    records.filter(|x: RawRecord| record_ok(x.fields@))
}

/// The catalog's records that read as ingredients, in order.
pub open spec fn readable_ingredients(records: Seq<RawRecord>) -> Seq<RawRecord> {
    records.filter(|x: RawRecord| ingredient_ok(x.fields@))
}

/// The catalog's records that read as short drinks, in order.
pub open spec fn readable_lazy(records: Seq<RawRecord>) -> Seq<RawRecord> {
    records.filter(|x: RawRecord| lazy_ok(x.fields@))
}

proof fn lemma_filter_push<A>(s: Seq<A>, i: int, p: spec_fn(A) -> bool)
    requires
        0 <= i < s.len(),
    ensures
        s.subrange(0, i + 1).filter(p) == if p(s[i]) {
            s.subrange(0, i).filter(p).push(s[i])
        } else {
            s.subrange(0, i).filter(p)
        },
{
    reveal(Seq::filter);
    assert(s.subrange(0, i + 1).drop_last() =~= s.subrange(0, i));
}

/// Reads catalog answers in one locale, keeping the records that read.
pub struct DrinksService;

impl DrinksService {
    /// The drinks of the readable records, in order, in locale `lang`.
    pub fn to_drinks(records: &Vec<RawRecord>, lang: Lang) -> (r: Vec<LangDrink>)
        ensures
            r@.len() == readable_drinks(records@).len(),
            forall|i: int| 0 <= i < r@.len() ==> drink_of((#[trigger] r@[i]).drink, readable_drinks(records@)[i].fields@)
                && r@[i].lang == lang,
    {
        let mut out: Vec<LangDrink> = Vec::new();
        let mut i: usize = 0;
        while i < records.len()
            invariant
                i <= records.len(),
                out@.len() == readable_drinks(records@.subrange(0, i as int)).len(),
                forall|j: int| 0 <= j < out@.len() ==> drink_of((#[trigger] out@[j]).drink,
                    readable_drinks(records@.subrange(0, i as int))[j].fields@) && out@[j].lang == lang,
            decreases records.len() - i,
        {
            proof {
                lemma_filter_push(records@, i as int, |x: RawRecord| record_ok(x.fields@));
            }
            match LangDrink::drink_from_value(&records[i]) {
                Ok(drink) => {
                    out.push(LangDrink { drink, lang });
                },
                Err(_) => {},
            }
            i = i + 1;
        }
        assert(records@.subrange(0, i as int) =~= records@);
        out
    }

    /// The short drinks of the readable records, in order, in locale `lang`.
    pub fn to_lazy(drinks: &Vec<RawRecord>, lang: Lang) -> (r: Vec<LangLazyDrink>)
        ensures
            r@.len() == readable_lazy(drinks@).len(),
            forall|i: int| 0 <= i < r@.len() ==> {
                &&& required_text(lookup(readable_lazy(drinks@)[i].fields@, "strDrink"@)) == Some((#[trigger] r@[i]).lazy.name@)
                &&& required_text(lookup(readable_lazy(drinks@)[i].fields@, "strDrinkThumb"@)) == Some(r@[i].lazy.image_url@)
                &&& r@[i].lang == lang
            },
    {
        let mut out: Vec<LangLazyDrink> = Vec::new();
        let mut i: usize = 0;
        while i < drinks.len()
            invariant
                i <= drinks.len(),
                out@.len() == readable_lazy(drinks@.subrange(0, i as int)).len(),
                forall|j: int| 0 <= j < out@.len() ==> {
                    &&& required_text(lookup(readable_lazy(drinks@.subrange(0, i as int))[j].fields@, "strDrink"@))
                        == Some((#[trigger] out@[j]).lazy.name@)
                    &&& required_text(lookup(readable_lazy(drinks@.subrange(0, i as int))[j].fields@, "strDrinkThumb"@))
                        == Some(out@[j].lazy.image_url@)
                    &&& out@[j].lang == lang
                },
            decreases drinks.len() - i,
        {
            proof {
                lemma_filter_push(drinks@, i as int, |x: RawRecord| lazy_ok(x.fields@));
            }
            match LazyDrink::from_record(&drinks[i]) {
                Ok(d) => {
                    out.push(LangLazyDrink::new(d, lang));
                },
                Err(_) => {},
            }
            i = i + 1;
        }
        assert(drinks@.subrange(0, i as int) =~= drinks@);
        out
    }

    /// The ingredients of the readable records, in order, in locale `lang`.
    pub fn to_ingredients(records: &Vec<RawRecord>, lang: Lang) -> (r: Vec<LangIngredient>)
        ensures
            r@.len() == readable_ingredients(records@).len(),
            forall|i: int| 0 <= i < r@.len() ==> ingredient_of((#[trigger] r@[i]).ingredient,
                readable_ingredients(records@)[i].fields@) && r@[i].lang == lang,
    {
        let mut out: Vec<LangIngredient> = Vec::new();
        let mut i: usize = 0;
        while i < records.len()
            invariant
                i <= records.len(),
                out@.len() == readable_ingredients(records@.subrange(0, i as int)).len(),
                forall|j: int| 0 <= j < out@.len() ==> ingredient_of((#[trigger] out@[j]).ingredient,
                    readable_ingredients(records@.subrange(0, i as int))[j].fields@) && out@[j].lang == lang,
            decreases records.len() - i,
        {
            proof {
                lemma_filter_push(records@, i as int, |x: RawRecord| ingredient_ok(x.fields@));
            }
            match Ingredient::from_record(&records[i]) {
                Ok(ingredient) => {
                    out.push(LangIngredient::new(ingredient, lang));
                },
                Err(_) => {},
            }
            i = i + 1;
        }
        assert(records@.subrange(0, i as int) =~= records@);
        out
    }
}

} // verus!
