use vstd::prelude::*;
use itertools::Itertools;

use crate::drink::LangDrink;
use crate::helpers::random_num_in_range;
use crate::text::same_text;

verus! {

/// Unit type that carries the button-callback operations of the dialogue.
pub struct CallBackHandler;

/// Whether `d` lists ingredient `x`.
pub open spec fn has_ingredient(d: LangDrink, x: Seq<char>) -> bool {
    exists|i: int| 0 <= i < d.drink.ingredients@.len() && (#[trigger] d.drink.ingredients@[i]).0@ == x
}

/// The candidates that do not list `x`, in their order.
pub open spec fn eliminate(cands: Seq<LangDrink>, x: Seq<char>) -> Seq<LangDrink> {
    cands.filter(|d: LangDrink| !has_ingredient(d, x))
}

/// The candidates at even positions, in their order.
pub open spec fn every_second(s: Seq<LangDrink>) -> Seq<LangDrink> {
    Seq::new(((s.len() + 1) / 2) as nat, |i: int| s[2 * i])
}

/// The views of a sequence of strings.
pub open spec fn names(s: Seq<String>) -> Seq<Seq<char>> {
    s.map_values(|x: String| x@)
}

/// `s` without repeated items; the first of equal items stays, in order.
pub open spec fn unique_seq(s: Seq<Seq<char>>) -> Seq<Seq<char>>
    decreases s.len(),
{
    if s.len() == 0 {
        s
    } else {
        let p = unique_seq(s.drop_last());
        if p.contains(s.last()) {
            p
        } else {
            p.push(s.last())
        }
    }
}

/// One ingredient name per candidate that has ingredients: for candidate `k`
/// the one at position `picks[k]` modulo the length of its list.
pub open spec fn picked_names(cands: Seq<LangDrink>, picks: Seq<usize>) -> Seq<Seq<char>>
    decreases cands.len(),
{
    if cands.len() == 0 {
        Seq::empty()
    } else {
        let prev = picked_names(cands.drop_last(), picks);
        let d = cands.last();
        let n = d.drink.ingredients@.len();
        if n == 0 {
            prev
        } else {
            prev.push(d.drink.ingredients@[(picks[cands.len() - 1] as int) % (n as int)].0@)
        }
    }
}

/// One position per candidate, inside the candidate's own ingredient list
/// wherever that list is not empty.
pub open spec fn picks_fit(cands: Seq<LangDrink>, picks: Seq<usize>) -> bool {
    &&& picks.len() == cands.len()
    &&& forall|k: int| 0 <= k < cands.len() && (#[trigger] cands[k]).drink.ingredients@.len() > 0
        ==> picks[k] < cands[k].drink.ingredients@.len()
}

/// The options of a round: the picked names without repeats.
pub open spec fn offered(cands: Seq<LangDrink>, picks: Seq<usize>) -> Seq<Seq<char>> {
    unique_seq(picked_names(cands, picks))
}

/// Relies on itertools' `unique`: the items in order, each first occurrence
/// kept and later equal ones dropped (equality of `String` is equality of text).
#[verifier::external_body]
fn unique_strings(v: Vec<String>) -> (r: Vec<String>)
    ensures
        names(r@) == unique_seq(names(v@)),
{
    v.into_iter().unique().collect()
}

/// Whether drink `d` lists ingredient `x`.
pub fn lists_ingredient(d: &LangDrink, x: &str) -> (r: bool)
    ensures
        r == has_ingredient(*d, x@),
{
    let ingredients = &d.drink.ingredients;
    let mut i: usize = 0;
    while i < ingredients.len()
        invariant
            *ingredients == d.drink.ingredients,
            0 <= i <= ingredients.len(),
            forall|j: int| 0 <= j < i ==> (#[trigger] ingredients@[j]).0@ != x@,
        decreases ingredients.len() - i,
    {
        if same_text(ingredients[i].0.as_str(), x) {
            return true;
        }
        i = i + 1;
    }
    false
}

proof fn lemma_filter_step(s: Seq<LangDrink>, i: int, x: Seq<char>)
    requires
        0 <= i < s.len(),
    ensures
        eliminate(s.subrange(0, i + 1), x) == if !has_ingredient(s[i], x) {
            eliminate(s.subrange(0, i), x).push(s[i])
        } else {
            eliminate(s.subrange(0, i), x)
        },
{
    reveal(Seq::filter);
    assert(s.subrange(0, i + 1).drop_last() =~= s.subrange(0, i));
}

impl CallBackHandler {
    /// Removes every candidate that lists ingredient `filter`; the others stay in order.
    pub fn filter(filter: &str, vec: &mut Vec<LangDrink>)
        ensures
            final(vec)@ == eliminate(old(vec)@, filter@),
    {
        let mut rest: Vec<LangDrink> = Vec::new();
        std::mem::swap(vec, &mut rest);
        let ghost orig = rest@;
        let ghost mut i: int = 0;
        while rest.len() > 0
            invariant
                0 <= i <= orig.len(),
                rest@ == orig.subrange(i, orig.len() as int),
                vec@ == eliminate(orig.subrange(0, i), filter@),
            decreases rest.len(),
        {
            let d = rest.remove(0);
            proof {
                lemma_filter_step(orig, i, filter@);
            }
            if !lists_ingredient(&d, filter) {
                vec.push(d);
            }
            proof {
                i = i + 1;
            }
        }
        assert(orig.subrange(0, i) =~= orig);
    }

    /// Keeps the candidates at even positions: a shorter candidate list for a
    /// shorter game, which the game itself does not apply.
    pub fn make_less(vec: Vec<LangDrink>) -> (r: Vec<LangDrink>)
        ensures
            r@ == every_second(vec@),
    {
        let mut rest = vec;
        let ghost orig = rest@;
        let mut out: Vec<LangDrink> = Vec::new();
        let mut i: usize = 0;
        assert(orig.len() == rest.len());
        while rest.len() > 0
            invariant
                i <= orig.len(),
                orig.len() <= usize::MAX,
                rest@ == orig.subrange(i as int, orig.len() as int),
                out@ == every_second(orig.subrange(0, i as int)),
            decreases rest.len(),
        {
            let d = rest.remove(0);
            if i % 2 == 0 {
                out.push(d);
            }
            assert(out@ =~= every_second(orig.subrange(0, i + 1)));
            i = i + 1;
        }
        assert(orig.subrange(0, i as int) =~= orig);
        out
    }

    /// The options of a round for given picks: one ingredient name of each
    /// candidate that has ingredients, then repeats dropped.
    pub fn ingredients_with_picks(raw_drink: &Vec<LangDrink>, picks: &Vec<usize>) -> (r: Vec<String>)
        requires
            picks.len() >= raw_drink.len(),
        ensures
            names(r@) == offered(raw_drink@, picks@),
    {
        let mut picked: Vec<String> = Vec::new();
        let mut k: usize = 0;
        while k < raw_drink.len()
            invariant
                picks.len() >= raw_drink.len(),
                k <= raw_drink.len(),
                names(picked@) == picked_names(raw_drink@.subrange(0, k as int), picks@),
            decreases raw_drink.len() - k,
        {
            let ghost sub = raw_drink@.subrange(0, k + 1);
            assert(sub.drop_last() =~= raw_drink@.subrange(0, k as int));
            let ingredients = &raw_drink[k].drink.ingredients;
            let n = ingredients.len();
            if n > 0 {
                let name = ingredients[picks[k] % n].0.clone();
                picked.push(name);
                assert(names(picked@) =~= picked_names(sub, picks@));
            } else {
                assert(names(picked@) =~= picked_names(sub, picks@));
            }
            k = k + 1;
        }
        assert(raw_drink@.subrange(0, k as int) =~= raw_drink@);
        unique_strings(picked)
    }

    /// The options of a round, with a random ingredient drawn from each
    /// candidate's own list.
    pub fn ingredients_as_str_vec(raw_drink: &Vec<LangDrink>) -> (r: Vec<String>)
        ensures
            exists|picks: Seq<usize>| picks_fit(raw_drink@, picks)
                && names(r@) == #[trigger] offered(raw_drink@, picks),
    {
        let picks = random_picks(raw_drink);
        let r = Self::ingredients_with_picks(raw_drink, &picks);
        assert(picks_fit(raw_drink@, picks@) && names(r@) == offered(raw_drink@, picks@));
        r
    }
}

/// Where the narrowing game goes after a round.
pub enum GameStep {
    /// Two options to offer, with the candidates still in play.
    Next { all: Vec<LangDrink>, game: (String, String) },
    /// Fewer than two options are left: the first candidate wins.
    Winner(LangDrink),
    /// No candidate is left to announce.
    NoCandidates,
}

/// The option the user chose of the two offered.
pub open spec fn chosen(opts: Seq<Seq<char>>, first: bool) -> Seq<char> {
    if first {
        opts[0]
    } else {
        opts[1]
    }
}

/// Whether no round can be played on `cands` with these picks.
pub open spec fn game_over(cands: Seq<LangDrink>, picks: Seq<usize>) -> bool {
    offered(cands, picks).len() < 2
}

/// The candidates left after the game has run over `rounds`; each round is
/// the picks that made its options and whether the user took the first one.
/// The game stops early once fewer than two options remain.
pub open spec fn remaining(cands: Seq<LangDrink>, rounds: Seq<(Seq<usize>, bool)>) -> Seq<LangDrink>
    decreases rounds.len(),
{
    if rounds.len() == 0 || game_over(cands, rounds[0].0) {
        cands
    } else {
        remaining(eliminate(cands, chosen(offered(cands, rounds[0].0), rounds[0].1)), rounds.drop_first())
    }
}

/// How many of `rounds` the game actually plays.
pub open spec fn rounds_played(cands: Seq<LangDrink>, rounds: Seq<(Seq<usize>, bool)>) -> nat
    decreases rounds.len(),
{
    if rounds.len() == 0 || game_over(cands, rounds[0].0) {
        0
    } else {
        1 + rounds_played(eliminate(cands, chosen(offered(cands, rounds[0].0), rounds[0].1)), rounds.drop_first())
    }
}

proof fn lemma_unique_contains(s: Seq<Seq<char>>, x: Seq<char>)
    ensures
        unique_seq(s).contains(x) <==> s.contains(x),
    decreases s.len(),
{
    if s.len() > 0 {
        lemma_unique_contains(s.drop_last(), x);
        let p = unique_seq(s.drop_last());
        if s.contains(x) {
            let i = choose|i: int| 0 <= i < s.len() && s[i] == x;
            if i < s.len() - 1 {
                assert(s.drop_last()[i] == x);
            }
        }
        if s.drop_last().contains(x) {
            let i = choose|i: int| 0 <= i < s.drop_last().len() && s.drop_last()[i] == x;
            assert(s[i] == x);
        }
        if !p.contains(s.last()) && x == s.last() {
            assert(p.push(s.last())[p.len() as int] == x);
        }
        if !p.contains(s.last()) && p.contains(x) {
            let i = choose|i: int| 0 <= i < p.len() && p[i] == x;
            assert(p.push(s.last())[i] == x);
        }
        if !p.contains(s.last()) && p.push(s.last()).contains(x) && x != s.last() {
            let i = choose|i: int| 0 <= i < p.len() + 1 && p.push(s.last())[i] == x;
            assert(p[i] == x);
        }
        if x == s.last() {
            assert(s[s.len() - 1] == x);
        }
    }
}

proof fn lemma_picked_from_candidate(cands: Seq<LangDrink>, picks: Seq<usize>, x: Seq<char>)
    requires
        picked_names(cands, picks).contains(x),
    ensures
        exists|i: int| 0 <= i < cands.len() && cands[i].drink.ingredients@.len() > 0
            && #[trigger] has_ingredient(cands[i], x),
    decreases cands.len(),
{
    let prev = picked_names(cands.drop_last(), picks);
    let d = cands.last();
    let n = d.drink.ingredients@.len();
    if n > 0 && x == d.drink.ingredients@[(picks[cands.len() - 1] as int) % (n as int)].0@ {
        let k = (picks[cands.len() - 1] as int) % (n as int);
        assert(has_ingredient(cands[cands.len() - 1], x)) by {
            assert(d.drink.ingredients@[k].0@ == x);
        }
    } else {
        if n > 0 {
            let whole = prev.push(d.drink.ingredients@[(picks[cands.len() - 1] as int) % (n as int)].0@);
            let j = choose|j: int| 0 <= j < whole.len() && #[trigger] whole[j] == x;
            assert(prev[j] == x);
        }
        lemma_picked_from_candidate(cands.drop_last(), picks, x);
        let i = choose|i: int| 0 <= i < cands.drop_last().len() && cands.drop_last()[i].drink.ingredients@.len() > 0
            && #[trigger] has_ingredient(cands.drop_last()[i], x);
        assert(cands[i] == cands.drop_last()[i]);
    }
}

proof fn lemma_eliminate_shrinks(cands: Seq<LangDrink>, x: Seq<char>, i: int)
    requires
        0 <= i < cands.len(),
        has_ingredient(cands[i], x),
    ensures
        eliminate(cands, x).len() < cands.len(),
    decreases cands.len(),
{
    reveal(Seq::filter);
    broadcast use vstd::seq_lib::group_filter_ensures;
    let rest = cands.drop_last();
    if i == cands.len() - 1 {
        assert(eliminate(rest, x).len() <= rest.len());
    } else {
        assert(rest[i] == cands[i]);
        lemma_eliminate_shrinks(rest, x, i);
    }
}

/// Eliminating against `x` keeps exactly the candidates that do not list
/// `x`, so candidates without ingredients always stay; and every option a
/// round offers is an ingredient of a candidate that has ingredients.
pub proof fn lemma_elimination(cands: Seq<LangDrink>, x: Seq<char>, picks: Seq<usize>)
    ensures
        forall|d: LangDrink| #[trigger] eliminate(cands, x).contains(d)
            <==> (cands.contains(d) && !has_ingredient(d, x)),
        forall|d: LangDrink| cands.contains(d) && d.drink.ingredients@.len() == 0
            ==> #[trigger] eliminate(cands, x).contains(d),
        forall|y: Seq<char>| #[trigger] offered(cands, picks).contains(y)
            ==> exists|i: int| 0 <= i < cands.len() && cands[i].drink.ingredients@.len() > 0
                && #[trigger] has_ingredient(cands[i], y),
{
    broadcast use vstd::seq_lib::group_filter_ensures;
    let pred = |d: LangDrink| !has_ingredient(d, x);
    assert forall|d: LangDrink| #[trigger] eliminate(cands, x).contains(d)
        <==> (cands.contains(d) && !has_ingredient(d, x)) by {
        if eliminate(cands, x).contains(d) {
            cands.lemma_filter_contains_rev(pred, d);
            let j = choose|j: int| 0 <= j < cands.filter(pred).len() && cands.filter(pred)[j] == d;
            assert(pred(cands.filter(pred)[j]));
        }
        if cands.contains(d) && !has_ingredient(d, x) {
            let j = choose|j: int| 0 <= j < cands.len() && cands[j] == d;
            assert(cands.filter(pred).contains(cands[j]));
        }
    }
    assert forall|d: LangDrink| cands.contains(d) && d.drink.ingredients@.len() == 0
        implies #[trigger] eliminate(cands, x).contains(d) by {
        assert(!has_ingredient(d, x));
    }
    assert forall|y: Seq<char>| #[trigger] offered(cands, picks).contains(y)
        implies exists|i: int| 0 <= i < cands.len() && cands[i].drink.ingredients@.len() > 0
            && #[trigger] has_ingredient(cands[i], y) by {
        lemma_unique_contains(picked_names(cands, picks), y);
        lemma_picked_from_candidate(cands, picks, y);
    }
}

/// One played round removes at least one candidate and adds none.
proof fn lemma_round_progress(cands: Seq<LangDrink>, picks: Seq<usize>, first: bool)
    requires
        !game_over(cands, picks),
    ensures
        eliminate(cands, chosen(offered(cands, picks), first)).len() < cands.len(),
        forall|d: LangDrink| #[trigger] eliminate(cands, chosen(offered(cands, picks), first)).contains(d)
            ==> cands.contains(d),
{
    let x = chosen(offered(cands, picks), first);
    let opts = offered(cands, picks);
    assert(opts.contains(x)) by {
        if first {
            assert(opts[0] == x);
        } else {
            assert(opts[1] == x);
        }
    }
    lemma_elimination(cands, x, picks);
    let i = choose|i: int| 0 <= i < cands.len() && cands[i].drink.ingredients@.len() > 0
        && #[trigger] has_ingredient(cands[i], x);
    lemma_eliminate_shrinks(cands, x, i);
}

/// The narrowing game plays at most as many rounds as there are candidates,
/// every candidate left (so any winner) was one of the starting ones, and
/// when fewer rounds are played than were offered the game ended by itself.
pub proof fn lemma_game_terminates(cands: Seq<LangDrink>, rounds: Seq<(Seq<usize>, bool)>)
    ensures
        rounds_played(cands, rounds) + remaining(cands, rounds).len() <= cands.len(),
        rounds_played(cands, rounds) <= cands.len(),
        forall|d: LangDrink| #[trigger] remaining(cands, rounds).contains(d) ==> cands.contains(d),
        rounds_played(cands, rounds) < rounds.len()
            ==> game_over(remaining(cands, rounds), rounds[rounds_played(cands, rounds) as int].0),
    decreases rounds.len(),
{
    if rounds.len() == 0 || game_over(cands, rounds[0].0) {
    } else {
        let next = eliminate(cands, chosen(offered(cands, rounds[0].0), rounds[0].1));
        lemma_round_progress(cands, rounds[0].0, rounds[0].1);
        lemma_game_terminates(next, rounds.drop_first());
        let k = rounds_played(next, rounds.drop_first());
        if k < rounds.drop_first().len() {
            assert(rounds[k + 1int] == rounds.drop_first()[k as int]);
        }
    }
}

/// Takes the first two items of a vector of at least two.
fn first_two(v: Vec<String>) -> (r: (String, String))
    requires
        v.len() >= 2,
    ensures
        r.0 == v@[0],
        r.1 == v@[1],
{
    let mut v = v;
    let a = v.remove(0);
    let b = v.remove(0);
    (a, b)
}

impl CallBackHandler {
    /// Ends a round: offer the first two options while at least two remain,
    /// otherwise announce the first candidate, if any.
    pub fn conclude_round(all: Vec<LangDrink>, options: Vec<String>) -> (r: GameStep)
        ensures
            options.len() >= 2 ==> (r matches GameStep::Next { all: a, game }
                && a@ == all@ && game.0@ == options@[0]@ && game.1@ == options@[1]@),
            options.len() < 2 && all.len() > 0 ==> (r matches GameStep::Winner(d) && d == all@[0]),
            options.len() < 2 && all.len() == 0 ==> r is NoCandidates,
    {
        if options.len() >= 2 {
            let game = first_two(options);
            GameStep::Next { all, game }
        } else if all.len() > 0 {
            let mut all = all;
            GameStep::Winner(all.remove(0))
        } else {
            GameStep::NoCandidates
        }
    }

    /// Starts the game on the drinks of a catalog query with given picks:
    /// every drink stays in play and the first round's options are made.
    pub fn start_with_picks(drinks: Vec<LangDrink>, picks: &Vec<usize>) -> (r: GameStep)
        requires
            picks.len() >= drinks.len(),
        ensures
            concludes(drinks@, offered(drinks@, picks@), r),
    {
        let options = Self::ingredients_with_picks(&drinks, picks);
        Self::conclude_round(drinks, options)
    }

    /// Plays a round with given picks: removes every candidate that lists the
    /// chosen ingredient, then makes the next options from what is left, the
    /// picks standing for the candidates left, in order.
    pub fn play_with_picks(all: Vec<LangDrink>, choice: &str, picks: &Vec<usize>) -> (r: GameStep)
        requires
            picks.len() >= all.len(),
        ensures
            concludes(eliminate(all@, choice@), offered(eliminate(all@, choice@), picks@), r),
    {
        let mut all = all;
        Self::filter(choice, &mut all);
        proof {
            broadcast use vstd::seq_lib::group_filter_ensures;
        }
        Self::start_with_picks(all, picks)
    }
}

/// `r` is how a round ends on candidates `cands` whose options are `opts`.
pub open spec fn concludes(cands: Seq<LangDrink>, opts: Seq<Seq<char>>, r: GameStep) -> bool {
    &&& opts.len() >= 2 ==> (r matches GameStep::Next { all, game }
        && all@ == cands && game.0@ == opts[0] && game.1@ == opts[1])
    &&& opts.len() < 2 && cands.len() > 0 ==> (r matches GameStep::Winner(d) && d == cands[0])
    &&& opts.len() < 2 && cands.len() == 0 ==> r is NoCandidates
}

/// A random ingredient position for each candidate that has ingredients.
fn random_picks(all: &Vec<LangDrink>) -> (r: Vec<usize>)
    ensures
        picks_fit(all@, r@),
{
    let mut picks: Vec<usize> = Vec::new();
    let mut k: usize = 0;
    while k < all.len()
        invariant
            k <= all.len(),
            picks.len() == k,
            forall|j: int| 0 <= j < k && (#[trigger] all@[j]).drink.ingredients@.len() > 0
                ==> picks@[j] < all@[j].drink.ingredients@.len(),
        decreases all.len() - k,
    {
        let n = all[k].drink.ingredients.len();
        if n > 0 {
            picks.push(random_num_in_range(0, n));
        } else {
            picks.push(0);
        }
        k = k + 1;
    }
    picks
}

impl CallBackHandler {
    /// Starts the game on the drinks of a catalog query, drawing each
    /// candidate's ingredient at random from its own list.
    pub fn start_game(drinks: Vec<LangDrink>) -> (r: GameStep)
        ensures
            exists|picks: Seq<usize>| picks_fit(drinks@, picks)
                && #[trigger] concludes(drinks@, offered(drinks@, picks), r),
    {
        let picks = random_picks(&drinks);
        let ghost cands = drinks@;
        let r = Self::start_with_picks(drinks, &picks);
        assert(picks_fit(cands, picks@) && concludes(cands, offered(cands, picks@), r));
        r
    }

    /// Plays a round against the chosen ingredient, drawing each remaining
    /// candidate's ingredient at random from its own list.
    pub fn play_round(all: Vec<LangDrink>, choice: &str) -> (r: GameStep)
        ensures
            exists|picks: Seq<usize>| picks_fit(eliminate(all@, choice@), picks)
                && #[trigger] concludes(eliminate(all@, choice@), offered(eliminate(all@, choice@), picks), r),
    {
        let mut left = all;
        Self::filter(choice, &mut left);
        let picks = random_picks(&left);
        let ghost cands = left@;
        let r = Self::start_with_picks(left, &picks);
        assert(picks_fit(cands, picks@) && concludes(cands, offered(cands, picks@), r));
        r
    }
}

} // verus!
