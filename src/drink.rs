use vstd::prelude::*;

use crate::error::{ErrorHandler, ErrorType};
use crate::settings::Lang;
use crate::text::{contains_seq, decimal, decimal_text, same_text, text_contains};

verus! {

/// A full drink record of the catalog.
#[derive(Debug, Clone)]
pub struct Drink {
    pub name: String,
    pub ty: Option<String>,
    pub category: Option<String>,
    pub alco: bool,
    pub glass: Option<String>,
    pub instructions: Option<String>,
    pub image: Option<String>,
    /// Ingredient names with their optional measures, in recipe order.
    pub ingredients: Vec<(String, Option<String>)>,
}

/// A drink record together with the locale it is shown in.
#[derive(Debug, Clone)]
pub struct LangDrink {
    pub drink: Drink,
    pub lang: Lang,
}

impl LangDrink {
    /// The drink record.
    pub fn get_drink(&self) -> (r: &Drink)
        ensures
            *r == self.drink,
    {
        &self.drink
    }
}

/// The value of a field of a catalog record, as the catalog's JSON has it.
#[derive(Debug, Clone)]
pub enum RawValue {
    Null,
    Text(String),
    /// Anything but a string or null.
    Other,
}

/// A named field of a catalog record, with its value written as JSON text.
#[derive(Debug, Clone)]
pub struct RawField {
    pub key: String,
    pub value: RawValue,
    pub json: String,
}

/// A catalog record: its fields in order.
#[derive(Debug, Clone)]
pub struct RawRecord {
    pub fields: Vec<RawField>,
}

/// The first field named `key`.
pub open spec fn lookup(fields: Seq<RawField>, key: Seq<char>) -> Option<RawField>
    decreases fields.len(),
{
    if fields.len() == 0 {
        None
    } else if fields[0].key@ == key {
        Some(fields[0])
    } else {
        lookup(fields.drop_first(), key)
    }
}

/// A field read as an optional string: absent and null give no text, a string
/// gives its text, any other value fails to read (outer `None`).
pub open spec fn optional_text(f: Option<RawField>) -> Option<Option<Seq<char>>> {
    match f {
        None => Some(None),
        Some(x) => match x.value {
            RawValue::Null => Some(None),
            RawValue::Text(t) => Some(Some(t@)),
            RawValue::Other => None,
        },
    }
}

/// The text of an optional string.
pub open spec fn opt_view(o: Option<String>) -> Option<Seq<char>> {
    match o {
        Some(s) => Some(s@),
        None => None,
    }
}

/// Key of the `n`th ingredient name.
pub open spec fn ingredient_key(n: nat) -> Seq<char> {
    "strIngredient"@ + decimal(n)
}

/// Key of the `n`th ingredient measure.
pub open spec fn measure_key(n: nat) -> Seq<char> {
    "strMeasure"@ + decimal(n)
}

/// The ingredients numbered from `n` on, at most `fuel` of them: they run
/// until a number has no ingredient name; `None` when a field fails to read.
pub open spec fn ingredients_from(fields: Seq<RawField>, n: nat, fuel: nat)
    -> Option<Seq<(Seq<char>, Option<Seq<char>>)>>
    decreases fuel,
{
    if fuel == 0 {
        Some(Seq::empty())
    } else {
        match optional_text(lookup(fields, ingredient_key(n))) {
            None => None,
            Some(None) => Some(Seq::empty()),
            Some(Some(name)) => match optional_text(lookup(fields, measure_key(n))) {
                None => None,
                Some(m) => match ingredients_from(fields, n + 1, (fuel - 1) as nat) {
                    None => None,
                    Some(rest) => Some(seq![(name, m)] + rest),
                },
            },
        }
    }
}

/// The ingredients of a record: numbered from one, at most one per field.
pub open spec fn record_ingredients(fields: Seq<RawField>) -> Option<Seq<(Seq<char>, Option<Seq<char>>)>> {
    ingredients_from(fields, 1, fields.len())
}

/// The texts of an ingredient list.
pub open spec fn ingredients_view(v: Seq<(String, Option<String>)>) -> Seq<(Seq<char>, Option<Seq<char>>)> {
    v.map_values(|e: (String, Option<String>)| (e.0@, opt_view(e.1)))
}

/// Whether the record has a string name, readable optional fields and a readable ingredient list.
pub open spec fn record_ok(fields: Seq<RawField>) -> bool {
    &&& lookup(fields, "strDrink"@) matches Some(f) && f.value is Text
    &&& optional_text(lookup(fields, "strTags"@)) is Some
    &&& optional_text(lookup(fields, "strCategory"@)) is Some
    &&& optional_text(lookup(fields, "strGlass"@)) is Some
    &&& optional_text(lookup(fields, "strInstructions"@)) is Some
    &&& optional_text(lookup(fields, "strDrinkThumb"@)) is Some
    &&& record_ingredients(fields) is Some
}

/// Whether the JSON text of the alcohol field says "Alcoholic" (the catalog
/// has no boolean for it; this is a best-effort reading).
pub open spec fn alcoholic(fields: Seq<RawField>) -> bool {
    lookup(fields, "strAlcoholic"@) matches Some(f) && contains_seq(f.json@, "Alcoholic"@)
}

/// `d` is the drink that the fields of a readable record describe.
pub open spec fn drink_of(d: Drink, fields: Seq<RawField>) -> bool {
    &&& lookup(fields, "strDrink"@) matches Some(f) && f.value matches RawValue::Text(n) && d.name@ == n@
    &&& optional_text(lookup(fields, "strTags"@)) == Some(opt_view(d.ty))
    &&& optional_text(lookup(fields, "strCategory"@)) == Some(opt_view(d.category))
    &&& optional_text(lookup(fields, "strGlass"@)) == Some(opt_view(d.glass))
    &&& optional_text(lookup(fields, "strInstructions"@)) == Some(opt_view(d.instructions))
    &&& optional_text(lookup(fields, "strDrinkThumb"@)) == Some(opt_view(d.image))
    &&& d.alco == alcoholic(fields)
    &&& record_ingredients(fields) == Some(ingredients_view(d.ingredients@))
}

/// The first field named `key`.
pub fn find_field<'a>(fields: &'a Vec<RawField>, key: &str) -> (r: Option<&'a RawField>)
    ensures
        r matches Some(f) ==> lookup(fields@, key@) == Some(*f),
        r is None ==> lookup(fields@, key@) is None,
{
    let mut i: usize = 0;
    assert(fields@.subrange(0, fields.len() as int) =~= fields@);
    while i < fields.len()
        invariant
            i <= fields.len(),
            lookup(fields@, key@) == lookup(fields@.subrange(i as int, fields.len() as int), key@),
        decreases fields.len() - i,
    {
        assert(fields@.subrange(i as int, fields.len() as int).drop_first()
            =~= fields@.subrange(i + 1, fields.len() as int));
        if same_text(fields[i].key.as_str(), key) {
            return Some(&fields[i]);
        }
        i = i + 1;
    }
    None
}

fn parse_error() -> (e: ErrorHandler)
    ensures
        e.ty == ErrorType::Parse,
{
    ErrorHandler { msg: "A field of the catalog record is not a string.".to_string(), ty: ErrorType::Parse }
}

/// Reads a field as an optional string.
pub fn read_optional_text(f: Option<&RawField>) -> (r: Result<Option<String>, ErrorHandler>)
    ensures
        r matches Ok(o) ==> optional_text(match f { Some(x) => Some(*x), None => None }) == Some(opt_view(o)),
        r is Err <==> optional_text(match f { Some(x) => Some(*x), None => None }) is None,
        r matches Err(e) ==> e.ty == ErrorType::Parse,
{
    match f {
        None => Ok(None),
        Some(x) => match &x.value {
            RawValue::Null => Ok(None),
            RawValue::Text(t) => Ok(Some(t.clone())),
            RawValue::Other => Err(parse_error()),
        },
    }
}

fn read_key(fields: &Vec<RawField>, key: &str) -> (r: Result<Option<String>, ErrorHandler>)
    ensures
        r matches Ok(o) ==> optional_text(lookup(fields@, key@)) == Some(opt_view(o)),
        r is Err <==> optional_text(lookup(fields@, key@)) is None,
        r matches Err(e) ==> e.ty == ErrorType::Parse,
{
    read_optional_text(find_field(fields, key))
}

fn numbered_key(prefix: &str, n: u64) -> (r: String)
    ensures
        r@ == prefix@ + decimal(n as nat),
{
    let digits = decimal_text(n);
    prefix.to_owned().concat(digits.as_str())
}

/// Reads the ingredient list of a record.
pub fn read_ingredients(fields: &Vec<RawField>) -> (r: Result<Vec<(String, Option<String>)>, ErrorHandler>)
    ensures
        r matches Ok(v) ==> record_ingredients(fields@) == Some(ingredients_view(v@)),
        r is Err <==> record_ingredients(fields@) is None,
        r matches Err(e) ==> e.ty == ErrorType::Parse,
{
    let mut acc: Vec<(String, Option<String>)> = Vec::new();
    let fuel = fields.len();
    while acc.len() < fuel
        invariant
            fuel == fields@.len(),
            acc.len() <= fuel,
            record_ingredients(fields@) == match ingredients_from(fields@, (acc.len() + 1) as nat, (fuel - acc.len()) as nat) {
                None => None,
                Some(rest) => Some(ingredients_view(acc@) + rest),
            },
        decreases fuel - acc.len(),
    {
        let counter: u64 = (acc.len() + 1) as u64;
        let name_key = numbered_key("strIngredient", counter);
        assert(name_key@ == ingredient_key(counter as nat));
        match read_key(fields, name_key.as_str()) {
            Err(e) => {
                return Err(e);
            },
            Ok(None) => {
                assert(ingredients_view(acc@) + Seq::<(Seq<char>, Option<Seq<char>>)>::empty() =~= ingredients_view(acc@));
                return Ok(acc);
            },
            Ok(Some(name)) => {
                let measure_name = numbered_key("strMeasure", counter);
                assert(measure_name@ == measure_key(counter as nat));
                match read_key(fields, measure_name.as_str()) {
                    Err(e) => {
                        return Err(e);
                    },
                    Ok(m) => {
                        let ghost before = acc@;
                        let ghost entry = (name@, opt_view(m));
                        acc.push((name, m));
                        assert(ingredients_view(acc@) =~= ingredients_view(before).push(entry));
                        assert forall|rest: Seq<(Seq<char>, Option<Seq<char>>)>|
                            ingredients_view(before) + (seq![entry] + rest) == #[trigger] (ingredients_view(acc@) + rest) by {
                            assert(ingredients_view(before) + (seq![entry] + rest) =~= ingredients_view(acc@) + rest);
                        }
                    },
                }
            },
        }
    }
    assert(ingredients_view(acc@) + Seq::<(Seq<char>, Option<Seq<char>>)>::empty() =~= ingredients_view(acc@));
    Ok(acc)
}

impl LangDrink {
    /// Reads a drink from a catalog record: the name is required and must be
    /// a string; the other fields are optional strings; the alcohol flag is
    /// whether that field's JSON text says "Alcoholic".
    pub fn drink_from_value(input: &RawRecord) -> (r: Result<Drink, ErrorHandler>)
        ensures
            r is Ok <==> record_ok(input.fields@),
            r matches Ok(d) ==> drink_of(d, input.fields@),
            r matches Err(e) ==> (lookup(input.fields@, "strDrink"@) is None <==> e.ty == ErrorType::Service),
            r matches Err(e) ==> (e.ty == ErrorType::Service || e.ty == ErrorType::Parse),
    {
        let fields = &input.fields;
        let name = match find_field(fields, "strDrink") {
            None => {
                return Err(ErrorHandler { msg: "Service doesn't have a drink name.".to_string(), ty: ErrorType::Service });
            },
            Some(f) => match &f.value {
                RawValue::Text(t) => t.clone(),
                _ => {
                    return Err(parse_error());
                },
            },
        };
        let ty = read_key(fields, "strTags")?;
        let category = read_key(fields, "strCategory")?;
        let alco = match find_field(fields, "strAlcoholic") {
            Some(f) => text_contains(f.json.as_str(), "Alcoholic"),
            None => false,
        };
        let glass = read_key(fields, "strGlass")?;
        let instructions = read_key(fields, "strInstructions")?;
        let image = read_key(fields, "strDrinkThumb")?;
        let ingredients = read_ingredients(fields)?;
        Ok(Drink { name, ty, category, alco, glass, instructions, image, ingredients })
    }

    /// A drink in locale `lang` read from a catalog record.
    pub fn new(value: RawRecord, lang: Lang) -> (r: Result<LangDrink, ErrorHandler>)
        ensures
            r is Ok <==> record_ok(value.fields@),
            r matches Ok(d) ==> drink_of(d.drink, value.fields@) && d.lang == lang,
    {
        let drink = Self::drink_from_value(&value)?;
        Ok(LangDrink { drink, lang })
    }
}

impl Drink {
    /// Reads a drink from a catalog record, as `LangDrink::drink_from_value`.
    pub fn try_from(input: RawRecord) -> (r: Result<Drink, ErrorHandler>)
        ensures
            r is Ok <==> record_ok(input.fields@),
            r matches Ok(d) ==> drink_of(d, input.fields@),
    {
        LangDrink::drink_from_value(&input)
    }
}

} // verus!
