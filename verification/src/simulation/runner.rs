//! Rules of a batch: how many strategies may compete and how many workers
//! run the simulations.

use crate::simulation::engine::{SimulationError, SimulationErrorView};
use vstd::prelude::*;
use vstd::string::StringExecFns;

verus! {

/// Fewest strategies in an n-way match.
pub const MIN_STRATEGIES: usize = 2;

/// Most strategies in an n-way match.
pub const MAX_STRATEGIES: usize = 10;

/// Most workers taken where the caller names no number.
pub const MAX_DEFAULT_WORKERS: usize = 8;

/// Whether `n` strategies may compete in one match, and the error if not.
pub open spec fn strategy_count_check(n: usize) -> Result<(), SimulationErrorView> {
    if n < MIN_STRATEGIES {
        Err(SimulationErrorView::InvalidConfig("At least 2 strategies required for n-way match"@))
    } else if n > MAX_STRATEGIES {
        Err(SimulationErrorView::InvalidConfig("Maximum 10 strategies allowed for n-way match"@))
    } else {
        Ok(())
    }
}

/// Accept an n-way match of two to ten strategies; refuse any other number.
pub fn validate_strategy_count(n: usize) -> (r: Result<(), SimulationError>)
    ensures
        match r {
            Ok(()) => strategy_count_check(n) == Ok::<(), SimulationErrorView>(()),
            Err(e) => strategy_count_check(n) == Err::<(), SimulationErrorView>(e@),
        },
{
    if n < MIN_STRATEGIES {
        Err(
            SimulationError::InvalidConfig(
                String::from_str("At least 2 strategies required for n-way match"),
            ),
        )
    } else if n > MAX_STRATEGIES {
        Err(
            SimulationError::InvalidConfig(
                String::from_str("Maximum 10 strategies allowed for n-way match"),
            ),
        )
    } else {
        Ok(())
    }
}

/// Workers of a batch: the number asked for, or else as many as the machine
/// runs in parallel, at most eight.
pub fn worker_count(requested: Option<usize>, available: usize) -> (r: usize)
    ensures
        r == (match requested {
            Some(n) => n,
            None => if available < MAX_DEFAULT_WORKERS {
                available
            } else {
                MAX_DEFAULT_WORKERS
            },
        }),
{
    match requested {
        Some(n) => n,
        None => if available < MAX_DEFAULT_WORKERS {
            available
        } else {
            MAX_DEFAULT_WORKERS
        },
    }
}

} // verus!
