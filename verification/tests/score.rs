//! Tests for ranking-difference scoring.

use esc_api::score::{compute_score, country_points, position_of};

fn names(list: &[&str]) -> Vec<String> {
    list.iter().map(|s| s.to_string()).collect()
}

#[test]
fn per_country_points_by_distance() {
    assert_eq!(country_points(0, 0), 3);
    assert_eq!(country_points(0, 1), 2);
    assert_eq!(country_points(3, 1), 1);
    assert_eq!(country_points(0, 3), 0);
    assert_eq!(country_points(9, 2), 0);
}

#[test]
fn perfect_ranking_scores_three_per_country() {
    let result = names(&["Sweden", "Norway", "Finland", "Denmark"]);
    let sc = compute_score(&result.clone(), &result).unwrap();
    assert_eq!(sc.score, 12);
    assert_eq!(sc.detailed.len(), 4);
    for (i, entry) in sc.detailed.iter().enumerate() {
        assert_eq!(entry.0, result[i]);
        assert_eq!(entry.1, 3);
    }
}

#[test]
fn swapped_neighbours_lose_one_point_each() {
    let user = names(&["Norway", "Sweden", "Finland"]);
    let result = names(&["Sweden", "Norway", "Finland"]);
    let sc = compute_score(&user, &result).unwrap();
    // Norway: positions 0 vs 1; Sweden: 1 vs 0; Finland: 2 vs 2.
    assert_eq!(sc.score, 2 + 2 + 3);
    assert_eq!(sc.detailed[0], ("Norway".to_string(), 2));
    assert_eq!(sc.detailed[1], ("Sweden".to_string(), 2));
    assert_eq!(sc.detailed[2], ("Finland".to_string(), 3));
}

#[test]
fn distant_countries_earn_nothing() {
    let user = names(&["Estonia", "Latvia", "Lithuania", "Poland", "Austria"]);
    let result = names(&["Latvia", "Lithuania", "Poland", "Austria", "Estonia"]);
    let sc = compute_score(&user, &result).unwrap();
    // Estonia moved four places: 0 points; the rest moved one place: 2 each.
    assert_eq!(sc.detailed[0], ("Estonia".to_string(), 0));
    assert_eq!(sc.score, 0 + 2 + 2 + 2 + 2);
}

#[test]
fn unknown_country_cannot_be_scored() {
    let user = names(&["Sweden", "Atlantis"]);
    let result = names(&["Sweden", "Norway"]);
    assert!(compute_score(&user, &result).is_none());
}

#[test]
fn empty_ranking_scores_zero() {
    let user: Vec<String> = Vec::new();
    let result = names(&["Sweden"]);
    let sc = compute_score(&user, &result).unwrap();
    assert_eq!(sc.score, 0);
    assert!(sc.detailed.is_empty());
}

#[test]
fn position_of_finds_first_occurrence() {
    let list = names(&["a", "b", "a"]);
    assert_eq!(position_of(&list, &"a".to_string()), Some(0));
    assert_eq!(position_of(&list, &"b".to_string()), Some(1));
    assert_eq!(position_of(&list, &"c".to_string()), None);
}
