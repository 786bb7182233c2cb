use bar_bot::drink::{Drink, LangDrink};
use bar_bot::game::{CallBackHandler, GameStep};
use bar_bot::settings::Lang;

fn drink(name: &str, ingredients: &[&str]) -> LangDrink {
    LangDrink {
        drink: Drink {
            name: name.to_string(),
            ty: None,
            category: None,
            alco: false,
            glass: None,
            instructions: None,
            image: None,
            ingredients: ingredients.iter().map(|i| (i.to_string(), None)).collect(),
        },
        lang: Lang::Eng,
    }
}

fn names(v: &[LangDrink]) -> Vec<String> {
    v.iter().map(|d| d.drink.name.clone()).collect()
}

#[test]
fn elimination_removes_exactly_the_listing_drinks() {
    let mut all = vec![
        drink("A", &["Vodka", "Lime"]),
        drink("B", &["Gin"]),
        drink("C", &[]),
        drink("D", &["Rum", "Vodka"]),
    ];
    CallBackHandler::filter("Vodka", &mut all);
    assert_eq!(names(&all), vec!["B", "C"]);
    CallBackHandler::filter("Gin", &mut all);
    assert_eq!(names(&all), vec!["C"]);
    CallBackHandler::filter("Water", &mut all);
    assert_eq!(names(&all), vec!["C"]);
}

#[test]
fn every_second_candidate_is_kept() {
    let all = vec![drink("A", &[]), drink("B", &[]), drink("C", &[]), drink("D", &[]), drink("E", &[])];
    assert_eq!(names(&CallBackHandler::make_less(all)), vec!["A", "C", "E"]);
    assert!(CallBackHandler::make_less(Vec::new()).is_empty());
}

fn scenario_drinks() -> Vec<LangDrink> {
    vec![
        drink("Screwdriver", &["Vodka", "Orange juice"]),
        drink("Martini", &["Gin", "Vermouth"]),
        drink("Mojito", &["Rum", "Mint"]),
        drink("Cosmopolitan", &["Vodka", "Cranberry"]),
    ]
}

#[test]
fn options_are_deduplicated_in_order() {
    let all = scenario_drinks();
    let options = CallBackHandler::ingredients_with_picks(&all, &vec![0, 0, 0, 0]);
    assert_eq!(options, vec!["Vodka", "Gin", "Rum"]);
    let options = CallBackHandler::ingredients_with_picks(&all, &vec![1, 2, 0, 3]);
    assert_eq!(options, vec!["Orange juice", "Gin", "Rum", "Cranberry"]);
}

#[test]
fn drinks_without_ingredients_offer_nothing() {
    let all = vec![drink("Empty", &[]), drink("Tonic", &["Tonic"])];
    let options = CallBackHandler::ingredients_with_picks(&all, &vec![5, 7]);
    assert_eq!(options, vec!["Tonic"]);
}

#[test]
fn scenario_narrowing_round() {
    let step = CallBackHandler::start_with_picks(scenario_drinks(), &vec![0, 0, 0, 0]);
    match step {
        GameStep::Next { all, game } => {
            assert_eq!(names(&all), vec!["Screwdriver", "Martini", "Mojito", "Cosmopolitan"]);
            assert_eq!(game, ("Vodka".to_string(), "Gin".to_string()));
        }
        _ => panic!("expected a round"),
    }
    let step = CallBackHandler::play_with_picks(scenario_drinks(), "Vodka", &vec![0, 0, 0, 0]);
    match step {
        GameStep::Next { all, game } => {
            assert_eq!(names(&all), vec!["Martini", "Mojito"]);
            assert_eq!(game, ("Gin".to_string(), "Rum".to_string()));
            match CallBackHandler::play_with_picks(all, "Gin", &vec![0, 0]) {
                GameStep::Winner(d) => assert_eq!(d.drink.name, "Mojito"),
                _ => panic!("expected a winner"),
            }
        }
        _ => panic!("expected a round"),
    }
}

#[test]
fn random_start_keeps_every_drink() {
    for _ in 0..20 {
        match CallBackHandler::start_game(scenario_drinks()) {
            GameStep::Next { all, game } => {
                assert_eq!(all.len(), 4);
                assert_ne!(game.0, game.1);
            }
            _ => panic!("expected a round"),
        }
    }
}

#[test]
fn no_candidates_left() {
    let all = vec![drink("A", &["Vodka", "Gin"]), drink("B", &["Gin", "Vodka"])];
    match CallBackHandler::play_with_picks(all, "Vodka", &vec![0, 0]) {
        GameStep::NoCandidates => {}
        _ => panic!("expected no candidates"),
    }
}

#[test]
fn game_ends_within_candidate_count() {
    let start = vec![
        drink("A", &["Vodka", "Lime"]),
        drink("B", &["Gin", "Tonic"]),
        drink("C", &["Rum", "Lime"]),
        drink("D", &["Tequila"]),
        drink("E", &["Vodka", "Coffee"]),
        drink("F", &[]),
    ];
    let initial = names(&start);
    for first in [true, false] {
        let mut rounds = 0;
        let mut step = CallBackHandler::conclude_round(
            start.clone(),
            CallBackHandler::ingredients_as_str_vec(&start),
        );
        loop {
            match step {
                GameStep::Next { all, game } => {
                    rounds += 1;
                    assert!(rounds <= initial.len());
                    let choice = if first { game.0 } else { game.1 };
                    step = CallBackHandler::play_round(all, &choice);
                }
                GameStep::Winner(d) => {
                    assert!(initial.contains(&d.drink.name));
                    break;
                }
                GameStep::NoCandidates => break,
            }
        }
    }
}

#[test]
fn random_options_come_from_the_candidates() {
    let all = scenario_drinks();
    for _ in 0..20 {
        let options = CallBackHandler::ingredients_as_str_vec(&all);
        assert!(options.len() >= 2 && options.len() <= 4);
        for o in &options {
            assert!(all.iter().any(|d| d.drink.ingredients.iter().any(|(i, _)| i == o)));
        }
    }
}
