//! Errors of a simulation and the seeds of its random streams.

use crate::evm::strategy::{EVMError, EVMErrorView};
use vstd::prelude::*;
use vstd::string::StringExecFns;

verus! {

/// Why a simulation, or a batch, could not run.
#[derive(Debug)]
pub enum SimulationError {
    /// A strategy could not be deployed or initialised; the text of its error.
    EVMError(String),
    /// The batch was set up wrongly.
    InvalidConfig(String),
}

/// A `SimulationError` with its text as a sequence of characters.
pub enum SimulationErrorView {
    EVMError(Seq<char>),
    InvalidConfig(Seq<char>),
}

impl View for SimulationError {
    type V = SimulationErrorView;

    open spec fn view(&self) -> SimulationErrorView {
        match self {
            SimulationError::EVMError(m) => SimulationErrorView::EVMError(m@),
            SimulationError::InvalidConfig(m) => SimulationErrorView::InvalidConfig(m@),
        }
    }
}

impl SimulationErrorView {
    /// The text shown for the error.
    pub open spec fn message(self) -> Seq<char> {
        match self {
            SimulationErrorView::EVMError(m) => "EVM error: "@ + m,
            SimulationErrorView::InvalidConfig(m) => "Invalid config: "@ + m,
        }
    }
}

impl SimulationError {
    /// The text shown for the error.
    pub fn message(&self) -> (r: String)
        ensures
            r@ == self@.message(),
    {
        match self {
            SimulationError::EVMError(m) => String::from_str("EVM error: ").concat(m.as_str()),
            SimulationError::InvalidConfig(m) => String::from_str("Invalid config: ").concat(
                m.as_str(),
            ),
        }
    }

    /// The simulation error that a strategy's error becomes: it carries the
    /// strategy error's text.
    pub fn from_evm(error: &EVMError) -> (r: SimulationError)
        ensures
            r@ == SimulationErrorView::EVMError(error@.message()),
    {
        SimulationError::EVMError(error.message())
    }
}

/// Seeds of the two random streams of a simulation: the price process takes
/// the simulation's seed (zero where none is given), the retail flow the
/// next number, so the two streams never share a seed.
pub fn stream_seeds(seed: Option<u64>) -> (r: (u64, u64))
    requires
        seed != Some(u64::MAX),
    ensures
        r.0 == (match seed {
            Some(s) => s,
            None => 0,
        }),
        r.1 == r.0 + 1,
        r.0 != r.1,
{
    let price_seed: u64 = match seed {
        Some(s) => s,
        None => 0,
    };
    (price_seed, price_seed + 1)
}

/// The character of a decimal digit.
pub open spec fn digit_char(d: nat) -> char
    recommends
        d < 10,
{
    if d == 0 {
        '0'
    } else if d == 1 {
        '1'
    } else if d == 2 {
        '2'
    } else if d == 3 {
        '3'
    } else if d == 4 {
        '4'
    } else if d == 5 {
        '5'
    } else if d == 6 {
        '6'
    } else if d == 7 {
        '7'
    } else if d == 8 {
        '8'
    } else {
        '9'
    }
}

/// A number written in decimal, without leading zeros.
pub open spec fn decimal(n: nat) -> Seq<char>
    decreases n,
{
    if n < 10 {
        seq![digit_char(n)]
    } else {
        decimal(n / 10).push(digit_char(n % 10))
    }
}

/// The name under which a pool is kept, by its place among the pools of a
/// simulation. In a match of two the first is the submission and the second
/// the normalizer; every other pool is `Strategy_` and its place. A
/// strategy's own name is never used: two strategies may report the same.
pub open spec fn pool_name_spec(index: nat, two_way: bool) -> Seq<char> {
    if two_way && index == 0 {
        "submission"@
    } else if two_way && index == 1 {
        "normalizer"@
    } else {
        "Strategy_"@ + decimal(index)
    }
}

/// One decimal digit as a string.
fn digit_str(d: usize) -> (r: &'static str)
    requires
        d < 10,
    ensures
        r@ == seq![digit_char(d as nat)],
{
    proof {
        reveal_strlit("0");
        reveal_strlit("1");
        reveal_strlit("2");
        reveal_strlit("3");
        reveal_strlit("4");
        reveal_strlit("5");
        reveal_strlit("6");
        reveal_strlit("7");
        reveal_strlit("8");
        reveal_strlit("9");
    }
    let r = if d == 0 {
        "0"
    } else if d == 1 {
        "1"
    } else if d == 2 {
        "2"
    } else if d == 3 {
        "3"
    } else if d == 4 {
        "4"
    } else if d == 5 {
        "5"
    } else if d == 6 {
        "6"
    } else if d == 7 {
        "7"
    } else if d == 8 {
        "8"
    } else {
        "9"
    };
    assert(r@ =~= seq![digit_char(d as nat)]);
    r
}

/// A number written in decimal.
pub fn decimal_string(n: usize) -> (r: String)
    ensures
        r@ == decimal(n as nat),
    decreases n,
{
    if n < 10 {
        String::from_str(digit_str(n))
    } else {
        let front = decimal_string(n / 10);
        let r = front.concat(digit_str(n % 10));
        assert(r@ =~= decimal(n as nat));
        r
    }
}

/// The name under which the pool at place `index` is kept.
pub fn pool_name(index: usize, two_way: bool) -> (r: String)
    ensures
        r@ == pool_name_spec(index as nat, two_way),
{
    if two_way && index == 0 {
        String::from_str("submission")
    } else if two_way && index == 1 {
        String::from_str("normalizer")
    } else {
        String::from_str("Strategy_").concat(decimal_string(index).as_str())
    }
}

} // verus!
