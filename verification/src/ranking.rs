//! Ranking-editor helpers.
//!
//! The interactive editor shows the current ranking, lets the operator
//! name a country — completed by fuzzy matching against the ranking and
//! validated as a member of it — and moves that country to a chosen
//! position. The list manipulation and the choice of the best completion
//! are verified here; the terminal prompts stay with the caller.

use vstd::prelude::*;

verus! {

use crate::score::{first_pos, lemma_first_pos, position_of};

/// The fuzzy-match score of `choice` against `pattern`, determined by the
/// two strings alone.
pub uninterp spec fn fuzzy_score_of(choice: Seq<char>, pattern: Seq<char>) -> Option<i64>;

/// Relies on fuzzy_matcher's `SkimMatcherV2::fuzzy_match` under the
/// default configuration: the score depends on the choice and pattern
/// strings alone.
#[verifier::external_body]
fn fuzzy_match(choice: &str, pattern: &str) -> (r: Option<i64>)
    ensures
        r == fuzzy_score_of(choice@, pattern@),
{
    fuzzy_matcher::FuzzyMatcher::fuzzy_match(
        &fuzzy_matcher::skim::SkimMatcherV2::default(),
        choice,
        pattern,
    )
}

/// The suggestion and high score left after folding over `countries` in
/// order: a country displaces the suggestion so far exactly when its
/// fuzzy score is strictly greater than the high score so far, which
/// starts at zero — so unmatched countries displace nothing, and among
/// equally scored countries the first one stands.
pub open spec fn best_fold(countries: Seq<Seq<char>>, pattern: Seq<char>) -> (Seq<char>, i64)
    decreases countries.len(),
{
    if countries.len() == 0 {
        (Seq::<char>::empty(), 0)
    } else {
        let prev = best_fold(countries.drop_last(), pattern);
        match fuzzy_score_of(countries.last(), pattern) {
            Some(score) => if score > prev.1 {
                (countries.last(), score)
            } else {
                prev
            },
            None => prev,
        }
    }
}

/// The country of the ranking that best completes the operator's partial
/// input, or nothing when no country matches it at all.
pub fn best_completion(countries: &Vec<String>, input: &str) -> (r: Option<String>)
    ensures
        ({
            let best = best_fold(countries.deep_view(), input@);
            match r {
                Some(s) => s@ == best.0 && best.0.len() > 0,
                None => best.0.len() == 0,
            }
        }),
{
    let ghost cs = countries.deep_view();
    let mut high_score: i64 = 0;
    let mut suggestion = String::new();
    let mut i: usize = 0;
    assert(cs.take(0) =~= Seq::<Seq<char>>::empty());
    while i < countries.len()
        invariant
            i <= countries.len(),
            cs == countries.deep_view(),
            cs.len() == countries.len(),
            best_fold(cs.take(i as int), input@).0 == suggestion@,
            best_fold(cs.take(i as int), input@).1 == high_score,
        decreases countries.len() - i,
    {
        proof {
            assert(cs.take(i as int + 1).drop_last() =~= cs.take(i as int));
            assert(cs.take(i as int + 1).last() == cs[i as int]);
            assert(cs[i as int] == countries@[i as int]@);
        }
        match fuzzy_match(countries[i].as_str(), input) {
            Some(score) => {
                if score > high_score {
                    suggestion = countries[i].clone();
                    high_score = score;
                }
            },
            None => {},
        }
        i += 1;
    }
    assert(cs.take(i as int) =~= cs);
    if suggestion.as_str().is_empty() {
        None
    } else {
        Some(suggestion)
    }
}

/// Whether the operator's input names a country of the ranking.
pub fn contains_country(countries: &Vec<String>, name: &str) -> (r: bool)
    ensures
        r == countries.deep_view().contains(name@),
{
    let owned = name.to_owned();
    let ghost cs = countries.deep_view();
    let mut i: usize = 0;
    while i < countries.len()
        invariant
            i <= countries.len(),
            cs == countries.deep_view(),
            cs.len() == countries.len(),
            owned@ == name@,
            forall|k: int| 0 <= k < i ==> cs[k] != name@,
        decreases countries.len() - i,
    {
        assert(cs[i as int] == countries@[i as int]@);
        if countries[i] == owned {
            assert(cs.contains(name@));
            return true;
        }
        i += 1;
    }
    assert(forall|k: int| 0 <= k < cs.len() ==> cs[k] != name@);
    false
}

/// Moves the first occurrence of `country` to `position`: it leaves its
/// old place and the rest of the ranking closes up around it.
pub fn move_to_position(ranking: &mut Vec<String>, country: &String, position: usize)
    requires
        old(ranking).deep_view().contains(country@),
        position < old(ranking)@.len(),
    ensures
        final(ranking).deep_view() == old(ranking).deep_view().remove(
            first_pos(old(ranking).deep_view(), country@)->Some_0,
        ).insert(position as int, country@),
{
    let ghost before = ranking.deep_view();
    proof {
        lemma_first_pos(before, country@);
        let w = choose|w: int| 0 <= w < before.len() && before[w] == country@;
        assert(before[w] == country@);
        assert(first_pos(before, country@) is Some);
    }
    let idx = position_of(ranking, country).unwrap();
    let removed = ranking.remove(idx);
    ranking.insert(position, removed);
    proof {
        let ghost j = first_pos(before, country@)->Some_0;
        assert(removed@ == country@);
        assert(ranking.deep_view() =~= before.remove(j).insert(position as int, country@));
    }
}

} // verus!
