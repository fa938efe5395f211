//! How simulations are judged: each has a winner or is a draw, and the
//! strategy that wins more simulations wins the batch.

use vstd::prelude::*;

verus! {

/// How one simulation between two strategies ended.
#[derive(Debug, Clone, Copy, PartialEq, Eq, Structural)]
pub enum MatchOutcome {
    /// The first strategy has the higher edge.
    FirstWins,
    /// The second strategy has the higher edge.
    SecondWins,
    /// Both have the same edge.
    Draw,
}

/// How many of `outcomes` are `which`.
pub open spec fn count_of(outcomes: Seq<MatchOutcome>, which: MatchOutcome) -> nat
    decreases outcomes.len(),
{
    if outcomes.len() == 0 {
        0
    } else {
        count_of(outcomes.drop_last(), which) + if outcomes.last() == which {
            1nat
        } else {
            0nat
        }
    }
}

/// Every outcome is counted once: wins of the first, wins of the second and
/// draws add up to the number of simulations.
pub proof fn lemma_counts_add_up(outcomes: Seq<MatchOutcome>)
    ensures
        count_of(outcomes, MatchOutcome::FirstWins) + count_of(outcomes, MatchOutcome::SecondWins)
            + count_of(outcomes, MatchOutcome::Draw) == outcomes.len(),
    decreases outcomes.len(),
{
    if outcomes.len() > 0 {
        lemma_counts_add_up(outcomes.drop_last());
    }
}

/// Count the simulations that each strategy won and the draws.
pub fn win_counts(outcomes: &[MatchOutcome]) -> (r: (u32, u32, u32))
    requires
        outcomes@.len() <= u32::MAX,
    ensures
        r.0 == count_of(outcomes@, MatchOutcome::FirstWins),
        r.1 == count_of(outcomes@, MatchOutcome::SecondWins),
        r.2 == count_of(outcomes@, MatchOutcome::Draw),
        r.0 + r.1 + r.2 == outcomes@.len(),
{
    let mut wins_a: u32 = 0;
    let mut wins_b: u32 = 0;
    let mut draws: u32 = 0;
    let mut i: usize = 0;
    while i < outcomes.len()
        invariant
            i <= outcomes@.len() <= u32::MAX,
            wins_a == count_of(outcomes@.subrange(0, i as int), MatchOutcome::FirstWins),
            wins_b == count_of(outcomes@.subrange(0, i as int), MatchOutcome::SecondWins),
            draws == count_of(outcomes@.subrange(0, i as int), MatchOutcome::Draw),
        decreases outcomes@.len() - i,
    {
        proof {
            let next = outcomes@.subrange(0, i + 1);
            assert(next.drop_last() =~= outcomes@.subrange(0, i as int));
            lemma_counts_add_up(next);
        }
        match outcomes[i] {
            MatchOutcome::FirstWins => {
                wins_a = wins_a + 1;
            },
            MatchOutcome::SecondWins => {
                wins_b = wins_b + 1;
            },
            MatchOutcome::Draw => {
                draws = draws + 1;
            },
        }
        i = i + 1;
    }
    proof {
        assert(outcomes@.subrange(0, i as int) =~= outcomes@);
        lemma_counts_add_up(outcomes@);
    }
    (wins_a, wins_b, draws)
}

/// The batch's result: the strategy that won more simulations, or a draw.
pub fn overall_winner(wins_a: u32, wins_b: u32) -> (r: MatchOutcome)
    ensures
        wins_a > wins_b ==> r == MatchOutcome::FirstWins,
        wins_b > wins_a ==> r == MatchOutcome::SecondWins,
        wins_a == wins_b ==> r == MatchOutcome::Draw,
{
    if wins_a > wins_b {
        MatchOutcome::FirstWins
    } else if wins_b > wins_a {
        MatchOutcome::SecondWins
    } else {
        MatchOutcome::Draw
    }
}

} // verus!
