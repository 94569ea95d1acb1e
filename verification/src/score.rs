//! Ranking-difference scoring.
//!
//! A user's ranking is scored against the final result: each country
//! earns three points minus the distance between its position in the
//! user's ranking and its position in the result, floored at zero, and
//! the overall score is the sum. A ranking naming a country that the
//! result does not contain cannot be scored.

use vstd::prelude::*;

verus! {

/// Index of the first occurrence of `x` in `s`, if any.
pub open spec fn first_pos(s: Seq<Seq<char>>, x: Seq<char>) -> Option<int>
    decreases s.len(),
{
    if s.len() == 0 {
        None
    } else if s.first() == x {
        Some(0)
    } else {
        match first_pos(s.drop_first(), x) {
            None => None,
            Some(i) => Some(i + 1),
        }
    }
}

/// `first_pos` names the first index holding `x`, and `None` means `x`
/// does not occur.
pub proof fn lemma_first_pos(s: Seq<Seq<char>>, x: Seq<char>)
    ensures
        match first_pos(s, x) {
            Some(i) => 0 <= i < s.len() && s[i] == x && forall|k: int| 0 <= k < i ==> s[k] != x,
            None => forall|k: int| 0 <= k < s.len() ==> s[k] != x,
        },
    decreases s.len(),
{
    if s.len() > 0 && s.first() != x {
        let rest = s.drop_first();
        lemma_first_pos(rest, x);
        match first_pos(rest, x) {
            Some(i) => {
                assert(s[i + 1] == rest[i]);
                assert forall|k: int| 0 <= k < i + 1 implies s[k] != x by {
                    if k == 0 {
                        assert(s[0] == s.first());
                    } else {
                        assert(rest[k - 1] == s[k]);
                    }
                }
            },
            None => {
                assert forall|k: int| 0 <= k < s.len() implies s[k] != x by {
                    if k == 0 {
                        assert(s[0] == s.first());
                    } else {
                        assert(rest[k - 1] == s[k]);
                    }
                }
            },
        }
    }
}

/// Points for one country: three minus the distance between its two
/// positions, never below zero.
pub open spec fn pair_points(user_idx: int, result_idx: int) -> int {
    let diff = if user_idx <= result_idx {
        result_idx - user_idx
    } else {
        user_idx - result_idx
    };
    if diff <= 3 {
        3 - diff
    } else {
        0
    }
}

/// Points earned by the country at `user_idx` of the user's ranking,
/// given where it stands in the result.
pub open spec fn entry_points(user_idx: int, country: Seq<char>, result: Seq<Seq<char>>) -> int {
    match first_pos(result, country) {
        Some(j) => pair_points(user_idx, j),
        None => 0,
    }
}

/// The overall score: the sum of every entry's points.
pub open spec fn total_points(user: Seq<Seq<char>>, result: Seq<Seq<char>>) -> int
    decreases user.len(),
{
    if user.len() == 0 {
        0
    } else {
        total_points(user.drop_last(), result) + entry_points(
            user.len() - 1,
            user.last(),
            result,
        )
    }
}

proof fn lemma_total_points_bound(user: Seq<Seq<char>>, result: Seq<Seq<char>>)
    ensures
        0 <= total_points(user, result) <= 3 * user.len(),
    decreases user.len(),
{
    if user.len() > 0 {
        lemma_total_points_bound(user.drop_last(), result);
    }
}

/// A scored ranking: the overall sum and the per-country points, in the
/// order of the user's ranking.
pub struct Score {
    pub score: usize,
    pub detailed: Vec<(String, usize)>,
}

/// First index of `item` in `list`, scanning from the front.
pub fn position_of(list: &Vec<String>, item: &String) -> (r: Option<usize>)
    ensures
        match r {
            Some(i) => first_pos(list.deep_view(), item@) == Some(i as int),
            None => first_pos(list.deep_view(), item@) is None,
        },
{
    let ghost s = list.deep_view();
    let mut i: usize = 0;
    while i < list.len()
        invariant
            i <= list.len(),
            s == list.deep_view(),
            s.len() == list.len(),
            forall|k: int| 0 <= k < i ==> s[k] != item@,
        decreases list.len() - i,
    {
        assert(s[i as int] == list@[i as int]@);
        if list[i] == *item {
            proof {
                lemma_first_pos(s, item@);
            }
            return Some(i);
        }
        i += 1;
    }
    proof {
        lemma_first_pos(s, item@);
    }
    None
}

/// Points for one country standing at `user_index` in the user's ranking
/// and at `result_index` in the result.
pub fn country_points(user_index: usize, result_index: usize) -> (r: usize)
    ensures
        r == pair_points(user_index as int, result_index as int),
{
    let diff = if user_index <= result_index {
        result_index - user_index
    } else {
        user_index - result_index
    };
    if diff <= 3 {
        3 - diff
    } else {
        0
    }
}

/// Scores the user's ranking against the final result. Succeeds exactly
/// when every ranked country occurs in the result; the details list one
/// entry per ranked country, in ranking order.
pub fn compute_score(user: &Vec<String>, result: &Vec<String>) -> (r: Option<Score>)
    requires
        3 * user@.len() <= usize::MAX,
    ensures
        match r {
            Some(sc) => {
                &&& forall|i: int|
                    0 <= i < user@.len() ==> first_pos(
                        result.deep_view(),
                        user.deep_view()[i],
                    ) is Some
                &&& sc.score == total_points(user.deep_view(), result.deep_view())
                &&& sc.detailed@.len() == user@.len()
                &&& forall|i: int|
                    0 <= i < user@.len() ==> sc.detailed@[i].0@ == user.deep_view()[i]
                        && sc.detailed@[i].1 == entry_points(
                        i,
                        user.deep_view()[i],
                        result.deep_view(),
                    )
            },
            None => exists|i: int|
                0 <= i < user@.len() && first_pos(result.deep_view(), user.deep_view()[i]) is None,
        },
{
    let ghost user_v = user.deep_view();
    let ghost result_v = result.deep_view();
    let mut overall: usize = 0;
    let mut detailed: Vec<(String, usize)> = Vec::new();
    let mut i: usize = 0;
    assert(user_v.take(0) =~= Seq::<Seq<char>>::empty());
    while i < user.len()
        invariant
            i <= user.len(),
            user_v == user.deep_view(),
            result_v == result.deep_view(),
            user_v.len() == user.len(),
            3 * user_v.len() <= usize::MAX,
            overall == total_points(user_v.take(i as int), result_v),
            detailed@.len() == i,
            forall|k: int| 0 <= k < i ==> #[trigger] first_pos(result_v, user_v[k]) is Some,
            forall|k: int|
                0 <= k < i ==> #[trigger] detailed@[k].0@ == user_v[k] && detailed@[k].1
                    == entry_points(k, user_v[k], result_v),
        decreases user.len() - i,
    {
        assert(user_v[i as int] == user@[i as int]@);
        let pts: usize = match position_of(result, &user[i]) {
            Some(j) => country_points(i, j),
            None => {
                return None;
            },
        };
        proof {
            lemma_total_points_bound(user_v.take(i as int), result_v);
            assert(user_v.take(i as int).len() == i);
            assert(user_v.take(i as int + 1).drop_last() =~= user_v.take(i as int));
            assert(user_v.take(i as int + 1).last() == user_v[i as int]);
        }
        detailed.push((user[i].clone(), pts));
        overall = overall + pts;
        i += 1;
    }
    assert(user_v.take(i as int) =~= user_v);
    Some(Score { score: overall, detailed })
}

} // verus!
