//! Tests for the ranking-editor helpers.

use esc_api::ranking::{best_completion, contains_country, move_to_position};

fn names(list: &[&str]) -> Vec<String> {
    list.iter().map(|s| s.to_string()).collect()
}

#[test]
fn membership_check() {
    let countries = names(&["Sweden", "Norway"]);
    assert!(contains_country(&countries, "Norway"));
    assert!(!contains_country(&countries, "Narnia"));
    assert!(!contains_country(&countries, ""));
}

#[test]
fn completion_picks_best_fuzzy_match() {
    let countries = names(&["Switzerland", "Sweden", "Norway"]);
    assert_eq!(best_completion(&countries, "Swed"), Some("Sweden".to_string()));
    assert_eq!(best_completion(&countries, "Nor"), Some("Norway".to_string()));
}

#[test]
fn completion_without_any_match_is_none() {
    let countries = names(&["Sweden", "Norway"]);
    assert_eq!(best_completion(&countries, "qqq"), None);
}

#[test]
fn completion_of_empty_input_is_none() {
    let countries = names(&["Sweden", "Norway"]);
    assert_eq!(best_completion(&countries, ""), None);
}

#[test]
fn move_country_towards_the_front() {
    let mut ranking = names(&["a", "b", "c", "d"]);
    move_to_position(&mut ranking, &"c".to_string(), 0);
    assert_eq!(ranking, names(&["c", "a", "b", "d"]));
}

#[test]
fn move_country_towards_the_back() {
    let mut ranking = names(&["a", "b", "c", "d"]);
    move_to_position(&mut ranking, &"a".to_string(), 2);
    assert_eq!(ranking, names(&["b", "c", "a", "d"]));
}

#[test]
fn move_first_occurrence_only() {
    let mut ranking = names(&["a", "b", "a", "c"]);
    move_to_position(&mut ranking, &"a".to_string(), 3);
    assert_eq!(ranking, names(&["b", "a", "c", "a"]));
}
