//! Drawing by chance: weighted choice among letters, and a sampler that
//! favours low numbers.
//!
//! Chance comes from the `rand` crate. What is stated here of its draws is
//! what holds of every draw; all that is made of a draw is proved.
use super::types::Distribution;
use rand::Rng;
use vstd::arithmetic::div_mod::{lemma_add_mod_noop_right, lemma_small_mod};
use vstd::prelude::*;

verus! {

/// The number of draws after which `power_law` stops stepping.
pub const PATIENCE: usize = 10000;

/// `rand::Rng::gen_range` on the thread's generator: a number below `bound`.
/// Nothing more is known of it.
#[verifier::external_body]
pub(crate) fn random_below(bound: u128) -> (drawn: u128)
    requires
        bound > 0,
    ensures
        drawn < bound,
{
    rand::thread_rng().gen_range(0..bound)
}

/// `rand::random`: a coin flip. Nothing is known of it.
#[verifier::external_body]
pub(crate) fn random_bool() -> bool {
    rand::random::<bool>()
}

/// The sum of the first `upto` weights.
pub open spec fn total(weights: Seq<(Seq<char>, u64)>, upto: int) -> int
    decreases upto,
{
    if upto <= 0 || upto > weights.len() {
        0
    } else {
        total(weights, upto - 1) + weights[upto - 1].1
    }
}

/// The sum of all weights.
pub open spec fn total_weight(weights: Seq<(Seq<char>, u64)>) -> int {
    total(weights, weights.len() as int)
}

/// The first place at or after `from` up to which the weights sum to more
/// than `picked`, or the number of weights.
pub open spec fn landing_from(weights: Seq<(Seq<char>, u64)>, picked: int, from: int) -> int
    decreases weights.len() - from,
{
    if from < 0 || from >= weights.len() {
        weights.len() as int
    } else if picked < total(weights, from + 1) {
        from
    } else {
        landing_from(weights, picked, from + 1)
    }
}

/// The place that the number `picked` falls on: the first up to which the
/// weights sum to more than `picked`; the first place of all if there is
/// none.
pub open spec fn landing(weights: Seq<(Seq<char>, u64)>, picked: int) -> int {
    let at = landing_from(weights, picked, 0);
    if at < weights.len() {
        at
    } else {
        0
    }
}

/// The place that a run of `misses` failed draws leaves `power_law` at.
pub open spec fn stepped(max: int, misses: int) -> int {
    if max > 0 {
        misses % max
    } else {
        0
    }
}

/// Sums of weights grow with the number of weights summed, and stay within
/// what 128 bits hold.
pub proof fn lemma_total_grows(weights: Seq<(Seq<char>, u64)>, fewer: int, more: int)
    requires
        0 <= fewer <= more <= weights.len(),
    ensures
        0 <= total(weights, fewer) <= total(weights, more),
        total(weights, more) <= more * u64::MAX,
    decreases more,
{
    if more > 0 {
        if fewer < more {
            lemma_total_grows(weights, fewer, more - 1);
        } else {
            lemma_total_grows(weights, fewer - 1, more - 1);
        }
        assert(total(weights, more) <= (more - 1) * u64::MAX + u64::MAX);
        assert((more - 1) * u64::MAX + u64::MAX == more * u64::MAX) by (nonlinear_arith);
    }
}

/// Where `landing_from` points, the sum has passed `picked`, and nowhere
/// before.
pub proof fn lemma_landing_from(weights: Seq<(Seq<char>, u64)>, picked: int, from: int)
    requires
        0 <= from <= weights.len(),
    ensures
        from <= landing_from(weights, picked, from) <= weights.len(),
        landing_from(weights, picked, from) < weights.len() ==> picked < total(
            weights,
            landing_from(weights, picked, from) + 1,
        ),
        forall|k: int|
            from <= k < landing_from(weights, picked, from) ==> picked >= #[trigger] total(
                weights,
                k + 1,
            ),
    decreases weights.len() - from,
{
    if from < weights.len() && picked >= total(weights, from + 1) {
        lemma_landing_from(weights, picked, from + 1);
    }
}

/// A number below the sum of the weights never falls on a letter of weight
/// zero.
pub proof fn lemma_no_weight_no_choice(weights: Seq<(Seq<char>, u64)>, picked: int)
    requires
        0 <= picked < total_weight(weights),
    ensures
        0 <= landing(weights, picked) < weights.len(),
        weights[landing(weights, picked)].1 > 0,
{
    lemma_landing_from(weights, picked, 0);
    let at = landing_from(weights, picked, 0);
    if at == weights.len() {
        assert(picked >= total(weights, (weights.len() - 1) + 1));
    } else {
        assert(total(weights, at + 1) == total(weights, at) + weights[at].1);
        if at > 0 {
            assert(picked >= total(weights, (at - 1) + 1));
        } else {
            assert(total(weights, 0) == 0);
        }
    }
}

/// Where only the first letter has a weight, every number below the sum
/// falls on it.
pub proof fn lemma_sole_weight(weights: Seq<(Seq<char>, u64)>, picked: int)
    requires
        weights.len() > 0,
        forall|i: int| 0 < i < weights.len() ==> (#[trigger] weights[i]).1 == 0,
        0 <= picked < total_weight(weights),
    ensures
        landing(weights, picked) == 0,
{
    lemma_no_weight_no_choice(weights, picked);
}

/// The first place at or after `from` whose draw falls below `percentage`,
/// or the number of draws.
pub open spec fn first_hit(draws: Seq<u128>, percentage: int, from: int) -> int
    decreases draws.len() - from,
{
    if from < 0 || from >= draws.len() {
        draws.len() as int
    } else if draws[from] < percentage {
        from
    } else {
        first_hit(draws, percentage, from + 1)
    }
}

/// The number of draws that count as misses: those before the first that
/// falls below `percentage`, and `PATIENCE` at most.
pub open spec fn misses_of(draws: Seq<u128>, percentage: int) -> int {
    if first_hit(draws, percentage, 0) <= PATIENCE {
        first_hit(draws, percentage, 0)
    } else {
        PATIENCE as int
    }
}

/// The place that the given draws lead to: one step, round and round below
/// `max`, for every miss. The place is zero where `max` or `percentage` is
/// zero.
pub open spec fn place_after(max: int, percentage: int, draws: Seq<u128>) -> int {
    if max <= 0 || percentage <= 0 {
        0
    } else {
        stepped(max, misses_of(draws, percentage))
    }
}

/// What one draw makes of a place: the draw that falls below `percentage`
/// ends the stepping, any other leads one place further, round below `max`.
pub open spec fn next_place(max: int, percentage: int, place: int, drawn: int) -> Option<int> {
    if drawn < percentage {
        None
    } else if max > 0 {
        Some((place + 1) % max)
    } else {
        Some(0)
    }
}

/// Where `first_hit` points, a draw falls below the percentage, and none
/// before.
pub proof fn lemma_first_hit(draws: Seq<u128>, percentage: int, from: int)
    requires
        0 <= from <= draws.len(),
    ensures
        from <= first_hit(draws, percentage, from) <= draws.len(),
        first_hit(draws, percentage, from) < draws.len() ==> draws[first_hit(
            draws,
            percentage,
            from,
        )] < percentage,
        forall|k: int|
            from <= k < first_hit(draws, percentage, from) ==> (#[trigger] draws[k]) >= percentage,
    decreases draws.len() - from,
{
    if from < draws.len() && draws[from] >= percentage {
        lemma_first_hit(draws, percentage, from + 1);
    }
}

/// Draws that are all misses, but perhaps the last, have their first hit at
/// the last place or nowhere.
pub proof fn lemma_hit_at_end(draws: Seq<u128>, percentage: int, misses: int)
    requires
        0 <= misses <= draws.len(),
        forall|k: int| 0 <= k < misses ==> (#[trigger] draws[k]) >= percentage,
        misses < draws.len() ==> draws[misses] < percentage,
    ensures
        first_hit(draws, percentage, 0) == misses,
{
    lemma_first_hit(draws, percentage, 0);
    let found = first_hit(draws, percentage, 0);
    if found < misses {
        assert(draws[found] >= percentage);
    }
}

/// One step from the place that a number of misses leads to is the place
/// that one more miss leads to.
pub proof fn lemma_one_more_miss(max: int, misses: int)
    requires
        max > 0,
        misses >= 0,
    ensures
        stepped(max, misses + 1) == (stepped(max, misses) + 1) % max,
        0 <= stepped(max, misses) < max,
{
    lemma_add_mod_noop_right(1, misses, max);
}

/// What one draw makes of a place: nothing more, if the draw falls below
/// `percentage`; else the next place, round below `max`.
pub fn power_law_step(max: usize, percentage: u32, place: usize, drawn: u128) -> (next: Option<
    usize,
>)
    ensures
        match next {
            Some(further) => next_place(max as int, percentage as int, place as int, drawn as int)
                == Some(further as int),
            None => next_place(max as int, percentage as int, place as int, drawn as int)
                is None,
        },
{
    if drawn < percentage as u128 {
        None
    } else if max > 0 {
        let further = (place as u128 + 1) % (max as u128);
        Some(further as usize)
    } else {
        Some(0)
    }
}

/// The place that the given draws lead to.
pub fn power_law_at(max: usize, percentage: u32, draws: &Vec<u128>) -> (place: usize)
    ensures
        place == place_after(max as int, percentage as int, draws@),
{
    if max == 0 || percentage == 0 {
        return 0;
    }
    let mut place: usize = 0;
    let mut misses: usize = 0;
    proof {
        lemma_first_hit(draws@, percentage as int, 0);
    }
    while misses < draws.len() && misses < PATIENCE
        invariant
            max > 0,
            misses <= draws.len(),
            misses <= PATIENCE,
            place == stepped(max as int, misses as int),
            place < max,
            forall|k: int| 0 <= k < misses ==> (#[trigger] draws@[k]) >= percentage,
        decreases draws.len() - misses,
    {
        match power_law_step(max, percentage, place, draws[misses]) {
            None => {
                proof {
                    lemma_hit_at_end(draws@, percentage as int, misses as int);
                }
                return place;
            },
            Some(further) => {
                proof {
                    lemma_one_more_miss(max as int, misses as int);
                }
                place = further;
                misses += 1;
            },
        }
    }
    proof {
        lemma_first_hit(draws@, percentage as int, 0);
        let found = first_hit(draws@, percentage as int, 0);
        if found < misses {
            assert(draws@[found] >= percentage);
        }
    }
    place
}

/// A place chosen by chance in favour of low numbers: starting from zero,
/// one step is taken, round and round below `max`, for every draw out of a
/// hundred that does not fall below `percentage`; the first draw that does
/// ends it. So the place is the number of misses before the first hit, taken
/// round `max`, as `power_law_at` gives it for the numbers drawn.
///
/// Nothing is drawn, and the place is zero, where `max` or `percentage` is
/// zero. There is a limit: after `PATIENCE` misses nothing more is drawn and
/// no more steps are taken, so that the drawing ends whatever is drawn.
pub fn power_law(max: usize, percentage: u32) -> (place: usize)
    ensures
        exists|draws: Seq<u128>|
            draws.len() <= PATIENCE && (forall|i: int|
                0 <= i < draws.len() ==> (#[trigger] draws[i]) < 100) && place == place_after(
                max as int,
                percentage as int,
                draws,
            ),
        max > 0 ==> place < max,
        max == 0 || percentage == 0 || percentage >= 100 ==> place == 0,
{
    if max == 0 || percentage == 0 {
        assert(0 == place_after(max as int, percentage as int, Seq::<u128>::empty()));
        return 0;
    }
    let mut place: usize = 0;
    let mut misses: usize = 0;
    let ghost mut draws: Seq<u128> = Seq::empty();
    while misses < PATIENCE
        invariant_except_break
            draws.len() == misses,
            first_hit(draws, percentage as int, 0) == misses,
            forall|i: int| 0 <= i < draws.len() ==> (#[trigger] draws[i]) >= percentage,
            place == stepped(max as int, misses as int),
            percentage >= 100 ==> misses == 0,
        invariant
            max > 0,
            percentage > 0,
            misses <= PATIENCE,
            place < max,
            forall|i: int| 0 <= i < draws.len() ==> (#[trigger] draws[i]) < 100,
        ensures
            draws.len() <= PATIENCE,
            place == place_after(max as int, percentage as int, draws),
            percentage >= 100 ==> place == 0,
        decreases PATIENCE - misses,
    {
        let drawn = random_below(100);
        let ghost longer = draws.push(drawn);
        match power_law_step(max, percentage, place, drawn) {
            None => {
                proof {
                    lemma_hit_at_end(longer, percentage as int, misses as int);
                    draws = longer;
                    lemma_small_mod(0, max as nat);
                }
                break ;
            },
            Some(further) => {
                proof {
                    lemma_one_more_miss(max as int, misses as int);
                    lemma_hit_at_end(longer, percentage as int, misses + 1);
                    draws = longer;
                }
                place = further;
                misses += 1;
            },
        }
    }
    place
}

/// The letter that the number `picked` falls on.
pub fn select_at(frequency: &Vec<Distribution>, picked: u128) -> (letter: &str)
    requires
        frequency.len() > 0,
    ensures
        letter@ == frequency.deep_view()[landing(frequency.deep_view(), picked as int)].0,
{
    let ghost weights = frequency.deep_view();
    let mut sum: u128 = 0;
    let mut i: usize = 0;
    while i < frequency.len()
        invariant
            i <= frequency.len(),
            weights == frequency.deep_view(),
            sum == total(weights, i as int),
            landing_from(weights, picked as int, 0) == landing_from(
                weights,
                picked as int,
                i as int,
            ),
        decreases frequency.len() - i,
    {
        assert(weights[i as int] == frequency[i as int].deep_view());
        proof {
            lemma_total_grows(weights, i as int, i + 1);
            assert((i + 1) * u64::MAX <= usize::MAX * u64::MAX) by (nonlinear_arith)
                requires
                    i + 1 <= usize::MAX,
            ;
            assert(usize::MAX * u64::MAX < u128::MAX) by (nonlinear_arith)
                requires
                    usize::MAX <= u64::MAX,
            ;
        }
        sum = sum + frequency[i].1 as u128;
        if picked < sum {
            return frequency[i].0.as_str();
        }
        i += 1;
    }
    assert(weights[0] == frequency[0].deep_view());
    frequency[0].0.as_str()
}

/// The sum of all weights.
pub fn sum_of_weights(frequency: &Vec<Distribution>) -> (sum: u128)
    ensures
        sum == total_weight(frequency.deep_view()),
{
    let ghost weights = frequency.deep_view();
    let mut sum: u128 = 0;
    let mut i: usize = 0;
    while i < frequency.len()
        invariant
            i <= frequency.len(),
            weights == frequency.deep_view(),
            sum == total(weights, i as int),
        decreases frequency.len() - i,
    {
        assert(weights[i as int] == frequency[i as int].deep_view());
        proof {
            lemma_total_grows(weights, i as int, i + 1);
            assert((i + 1) * u64::MAX <= usize::MAX * u64::MAX) by (nonlinear_arith)
                requires
                    i + 1 <= usize::MAX,
            ;
            assert(usize::MAX * u64::MAX < u128::MAX) by (nonlinear_arith)
                requires
                    usize::MAX <= u64::MAX,
            ;
        }
        sum = sum + frequency[i].1 as u128;
        i += 1;
    }
    sum
}

/// A letter chosen by chance, each with a chance in proportion to its
/// weight: a number is drawn below the sum of the weights, and the letter it
/// falls on is chosen. Where no letter has a weight the first is chosen.
pub fn select(frequency: &Vec<Distribution>) -> (letter: &str)
    requires
        frequency.len() > 0,
    ensures
        exists|at: int|
            0 <= at < frequency.len() && letter@ == (#[trigger] frequency.deep_view()[at]).0,
        total_weight(frequency.deep_view()) == 0 ==> letter@ == frequency.deep_view()[0].0,
        total_weight(frequency.deep_view()) > 0 ==> exists|picked: int|
            0 <= picked < total_weight(frequency.deep_view()) && letter@
                == frequency.deep_view()[#[trigger] landing(frequency.deep_view(), picked)].0,
{
    let ghost weights = frequency.deep_view();
    let sum = sum_of_weights(frequency);
    if sum == 0 {
        assert(weights[0] == frequency[0].deep_view());
        return frequency[0].0.as_str();
    }
    let picked = random_below(sum);
    proof {
        lemma_no_weight_no_choice(weights, picked as int);
    }
    select_at(frequency, picked)
}

} // verus!
