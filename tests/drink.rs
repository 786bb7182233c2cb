use bar_bot::drink::{Drink, LangDrink, RawField, RawRecord, RawValue};
use bar_bot::error::ErrorType;
use bar_bot::schemas::{deserialize_bool, DrinksService, Ingredient, LazyDrink, LazyIngredient, List, RawDrinkListSchema};
use bar_bot::settings::Lang;

fn text(key: &str, v: &str) -> RawField {
    RawField { key: key.to_string(), value: RawValue::Text(v.to_string()), json: format!("{:?}", v) }
}

fn null(key: &str) -> RawField {
    RawField { key: key.to_string(), value: RawValue::Null, json: "null".to_string() }
}

fn margarita() -> RawRecord {
    RawRecord {
        fields: vec![
            text("idDrink", "11007"),
            text("strDrink", "Margarita"),
            null("strTags"),
            text("strCategory", "Ordinary Drink"),
            text("strAlcoholic", "Alcoholic"),
            text("strGlass", "Cocktail glass"),
            text("strInstructions", "Shake."),
            text("strDrinkThumb", "http://example.org/m.jpg"),
            text("strIngredient1", "Tequila"),
            text("strIngredient2", "Triple sec"),
            text("strIngredient3", "Lime juice"),
            null("strIngredient4"),
            text("strMeasure1", "1 1/2 oz "),
            text("strMeasure2", "1/2 oz "),
            null("strMeasure3"),
        ],
    }
}

#[test]
fn drink_from_record() {
    let d = LangDrink::drink_from_value(&margarita()).unwrap();
    assert_eq!(d.name, "Margarita");
    assert_eq!(d.ty, None);
    assert_eq!(d.category.as_deref(), Some("Ordinary Drink"));
    assert!(d.alco);
    assert_eq!(d.glass.as_deref(), Some("Cocktail glass"));
    assert_eq!(d.image.as_deref(), Some("http://example.org/m.jpg"));
    assert_eq!(
        d.ingredients,
        vec![
            ("Tequila".to_string(), Some("1 1/2 oz ".to_string())),
            ("Triple sec".to_string(), Some("1/2 oz ".to_string())),
            ("Lime juice".to_string(), None),
        ]
    );
}

#[test]
fn alcohol_flag_is_a_substring_match() {
    let mut r = margarita();
    r.fields[4] = text("strAlcoholic", "Non alcoholic");
    assert!(!Drink::try_from(r.clone()).unwrap().alco);
    r.fields[4] = text("strAlcoholic", "Optional Alcoholic");
    assert!(Drink::try_from(r.clone()).unwrap().alco);
    r.fields.remove(4);
    assert!(!Drink::try_from(r).unwrap().alco);
}

#[test]
fn drink_record_errors() {
    let mut r = margarita();
    r.fields.remove(1);
    assert_eq!(LangDrink::drink_from_value(&r).unwrap_err().ty, ErrorType::Service);
    let mut r = margarita();
    r.fields[1] = null("strDrink");
    assert_eq!(LangDrink::drink_from_value(&r).unwrap_err().ty, ErrorType::Parse);
    let mut r = margarita();
    r.fields[3] = RawField { key: "strCategory".to_string(), value: RawValue::Other, json: "7".to_string() };
    assert_eq!(LangDrink::drink_from_value(&r).unwrap_err().ty, ErrorType::Parse);
    let d = LangDrink::new(margarita(), Lang::Eng).unwrap();
    assert_eq!(d.lang, Lang::Eng);
    assert_eq!(d.get_url().as_deref(), Some("http://example.org/m.jpg"));
}

#[test]
fn readable_records_are_kept_in_order() {
    let mut bad = margarita();
    bad.fields.remove(1);
    let mut other = margarita();
    other.fields[1] = text("strDrink", "Second");
    let out = DrinksService::to_drinks(&vec![margarita(), bad, other], Lang::Ukr);
    assert_eq!(out.iter().map(|d| d.drink.name.as_str()).collect::<Vec<_>>(), vec!["Margarita", "Second"]);
    let lazy = DrinksService::to_lazy(&vec![margarita(), RawRecord { fields: vec![text("strDrink", "No image")] }], Lang::Eng);
    assert_eq!(lazy.len(), 1);
    assert_eq!(lazy[0].get_url().as_deref(), Some("http://example.org/m.jpg"));
}

#[test]
fn ingredient_records() {
    let r = RawRecord {
        fields: vec![text("strIngredient", "Vodka"), null("strDescription"), text("strType", "Vodka"), text("strAlcohol", "Yes")],
    };
    let i = Ingredient::from_record(&r).unwrap();
    assert_eq!(i.name, "Vodka");
    assert!(i.alco);
    assert_eq!(i.description, None);
    let r = RawRecord { fields: vec![text("strIngredient", "Water"), text("strAlcohol", "Maybe")] };
    assert_eq!(Ingredient::from_record(&r).unwrap_err().ty, ErrorType::Parse);
    assert_eq!(deserialize_bool("No").unwrap(), false);
    assert!(deserialize_bool("yes").is_err());
}

#[test]
fn short_records_and_lists() {
    let r = RawRecord { fields: vec![text("strDrink", "Mojito"), text("strDrinkThumb", "u")] };
    assert_eq!(LazyDrink::from_record(&r).unwrap().name, "Mojito");
    let l = RawRecord { fields: vec![text("strGlass", "Highball glass")] };
    assert_eq!(List::from_record(&l).unwrap().name, "Highball glass");
    let l = RawRecord { fields: vec![text("strIngredient1", "Rum")] };
    assert_eq!(List::from_record(&l).unwrap().name, "Rum");
    assert!(List::from_record(&RawRecord { fields: Vec::new() }).is_err());
    let empty: RawDrinkListSchema<RawRecord> = RawDrinkListSchema { drinks: None };
    assert!(empty.is_empty());
    let full = RawDrinkListSchema { drinks: Some(vec![r]) };
    assert!(!full.is_empty());
}

#[test]
fn readable_ingredients_are_kept_in_order() {
    let good = RawRecord { fields: vec![text("strIngredient", "Gin"), text("strAlcohol", "Yes")] };
    let bad = RawRecord { fields: vec![text("strIngredient", "Water"), text("strAlcohol", "Perhaps")] };
    let other = RawRecord { fields: vec![text("strIngredient", "Milk"), text("strAlcohol", "No")] };
    let out = DrinksService::to_ingredients(&vec![good, bad, other], Lang::Eng);
    assert_eq!(out.iter().map(|i| i.ingredient.name.as_str()).collect::<Vec<_>>(), vec!["Gin", "Milk"]);
    assert!(out[0].ingredient.alco);
    assert!(!out[1].ingredient.alco);
}

#[test]
fn short_ingredient_records() {
    let r = RawRecord { fields: vec![text("strIngredient", "Gin"), text("strDescription", "A spirit.")] };
    let i = LazyIngredient::from_record(&r).unwrap();
    assert_eq!((i.name.as_str(), i.description.as_str()), ("Gin", "A spirit."));
    let r = RawRecord { fields: vec![text("strIngredient", "Gin"), null("strDescription")] };
    assert_eq!(LazyIngredient::from_record(&r).unwrap_err().ty, ErrorType::Parse);
}
