//! Fees of a constant-product pool.
//!
//! A pool charges a bid fee when it buys X and an ask fee when it sells X.
//! Its strategy sets both, after initialisation and after every trade; the
//! pool keeps each within `[0, MAX_FEE]` whatever the strategy answers.

use crate::evm::strategy::{
    fee_result_view, unit_result_view, EVMError, EVMErrorView, EVMStrategy, EVMStrategyView,
    GAS_LIMIT_INIT, GAS_LIMIT_TRADE,
};
use crate::types::trade_info::{after_initialize_calldata, after_swap_calldata, TradeInfo};
use crate::types::wad::{clamp_int, Wad, BPS, MAX_FEE};
use vstd::prelude::*;

verus! {

/// Fee in basis points that a pool charges before its strategy has spoken.
pub const STARTING_FEE_BPS: i128 = 30;

/// Fee quote: the bid and the ask fee.
#[derive(Debug, Clone, Copy)]
pub struct FeeQuote {
    /// Fee when the pool buys X.
    pub bid_fee: Wad,
    /// Fee when the pool sells X.
    pub ask_fee: Wad,
}

impl FeeQuote {
    /// True when both fees are within `[0, MAX_FEE]`.
    pub open spec fn in_range(self) -> bool {
        0 <= self.bid_fee.0 <= MAX_FEE && 0 <= self.ask_fee.0 <= MAX_FEE
    }

    /// The quote that a strategy's answer leads to: both fees clamped.
    pub open spec fn clamped_spec(bid_fee: Wad, ask_fee: Wad) -> FeeQuote {
        FeeQuote {
            bid_fee: Wad(clamp_int(bid_fee.0 as int, 0, MAX_FEE as int) as i128),
            ask_fee: Wad(clamp_int(ask_fee.0 as int, 0, MAX_FEE as int) as i128),
        }
    }

    /// The quote in force after a strategy was asked: its answer, clamped, or
    /// the quote as it was where the strategy failed.
    pub open spec fn refreshed_spec(self, answer: Result<(Wad, Wad), EVMErrorView>) -> FeeQuote {
        match answer {
            Ok(pair) => Self::clamped_spec(pair.0, pair.1),
            Err(_) => self,
        }
    }

    /// A quote of the two fees as given.
    pub fn new(bid_fee: Wad, ask_fee: Wad) -> (r: FeeQuote)
        ensures
            r == (FeeQuote { bid_fee, ask_fee }),
    {
        FeeQuote { bid_fee, ask_fee }
    }

    /// A quote with one fee for both sides.
    pub fn symmetric(fee: Wad) -> (r: FeeQuote)
        ensures
            r == (FeeQuote { bid_fee: fee, ask_fee: fee }),
    {
        FeeQuote { bid_fee: fee, ask_fee: fee }
    }

    /// A quote of the two fees, each clamped to `[0, MAX_FEE]`.
    pub fn clamped(bid_fee: Wad, ask_fee: Wad) -> (r: FeeQuote)
        ensures
            r == Self::clamped_spec(bid_fee, ask_fee),
            r.in_range(),
    {
        FeeQuote { bid_fee: bid_fee.clamp_fee(), ask_fee: ask_fee.clamp_fee() }
    }

    /// The quote in force after a strategy was asked for new fees.
    pub fn refreshed(self, answer: &Result<(Wad, Wad), EVMError>) -> (r: FeeQuote)
        ensures
            r == self.refreshed_spec(fee_result_view(*answer)),
            self.in_range() ==> r.in_range(),
    {
        match answer {
            Ok(pair) => FeeQuote::clamped(pair.0, pair.1),
            Err(_) => self,
        }
    }
}

/// A quote that lies within `[0, MAX_FEE]` on both sides.
struct BoundedQuote {
    quote: FeeQuote,
}

impl BoundedQuote {
    #[verifier::type_invariant]
    spec fn bounded(&self) -> bool {
        self.quote.in_range()
    }

    /// The quote held.
    closed spec fn value(&self) -> FeeQuote {
        self.quote
    }

    /// Hold the two fees, each clamped.
    fn clamped(bid_fee: Wad, ask_fee: Wad) -> (r: BoundedQuote)
        ensures
            r.value() == FeeQuote::clamped_spec(bid_fee, ask_fee),
    {
        BoundedQuote { quote: FeeQuote::clamped(bid_fee, ask_fee) }
    }

    /// The quote held, which is in range.
    fn get(&self) -> (r: FeeQuote)
        ensures
            r == self.value(),
            r.in_range(),
    {
        proof {
            use_type_invariant(self);
        }
        self.quote
    }
}

/// The fee side of a pool: its strategy and the quote in force.
pub struct PoolFees {
    /// Strategy that sets the fees.
    strategy: EVMStrategy,
    /// Quote in force.
    current_fees: BoundedQuote,
    /// Whether the strategy has been initialised.
    initialized: bool,
}

impl PoolFees {
    /// The quote in force.
    pub closed spec fn quote(&self) -> FeeQuote {
        self.current_fees.value()
    }

    /// Whether the strategy has been initialised.
    pub closed spec fn initialized(&self) -> bool {
        self.initialized
    }

    /// The strategy, as contracts see it.
    pub closed spec fn strategy_view(&self) -> EVMStrategyView {
        self.strategy@
    }

    /// The fee side of a new pool: the starting fee on both sides, the
    /// strategy not yet initialised.
    pub fn new(strategy: EVMStrategy) -> (r: PoolFees)
        ensures
            !r.initialized(),
            r.quote().in_range(),
            r.quote().bid_fee.0 == STARTING_FEE_BPS * BPS,
            r.quote().ask_fee.0 == STARTING_FEE_BPS * BPS,
            r.strategy_view() == strategy@,
    {
        PoolFees {
            strategy,
            current_fees: BoundedQuote::clamped(
                Wad::from_bps(STARTING_FEE_BPS),
                Wad::from_bps(STARTING_FEE_BPS),
            ),
            initialized: false,
        }
    }

    /// Initialise the strategy with the pool's starting reserves and take its
    /// starting fees: the pair that it answers the `afterInitialize` call
    /// with, clamped. Where the strategy fails, quote and flag stay as they
    /// were and the error is handed on.
    pub fn initialize(&mut self, initial_x: Wad, initial_y: Wad) -> (r: Result<(), EVMError>)
        ensures
            final(self).quote().in_range(),
            final(self).strategy_view() == old(self).strategy_view().after_call(
                after_initialize_calldata(initial_x, initial_y),
                GAS_LIMIT_INIT,
            ),
            match old(self).strategy_view().fee_answer(
                after_initialize_calldata(initial_x, initial_y),
                GAS_LIMIT_INIT,
            ) {
                Ok(pair) => {
                    &&& r is Ok
                    &&& final(self).quote() == FeeQuote::clamped_spec(pair.0, pair.1)
                    &&& final(self).initialized()
                },
                Err(e) => {
                    &&& unit_result_view(r) == Err::<(), EVMErrorView>(e)
                    &&& final(self).quote() == old(self).quote()
                    &&& final(self).initialized() == old(self).initialized()
                },
            },
    {
        let answer = self.strategy.after_initialize(initial_x, initial_y);
        self.take_initial_fees(answer)
    }

    /// Take the strategy's answer to the initialisation: a fee pair becomes
    /// the quote, clamped, and the pool counts as initialised. An error is
    /// handed on and leaves the pool as it was.
    pub fn take_initial_fees(&mut self, answer: Result<(Wad, Wad), EVMError>) -> (r: Result<
        (),
        EVMError,
    >)
        ensures
            final(self).quote().in_range(),
            final(self).strategy_view() == old(self).strategy_view(),
            match answer {
                Ok(pair) => {
                    &&& r is Ok
                    &&& final(self).quote() == FeeQuote::clamped_spec(pair.0, pair.1)
                    &&& final(self).initialized()
                },
                Err(e) => {
                    &&& unit_result_view(r) == Err::<(), EVMErrorView>(e@)
                    &&& final(self).quote() == old(self).quote()
                    &&& final(self).initialized() == old(self).initialized()
                },
            },
    {
        proof {
            use_type_invariant(&self.current_fees);
        }
        match answer {
            Ok(pair) => {
                self.current_fees = BoundedQuote::clamped(pair.0, pair.1);
                self.initialized = true;
                Ok(())
            },
            Err(e) => Err(e),
        }
    }

    /// The quote in force. It is within `[0, MAX_FEE]` at all times: before
    /// and after initialisation, and after every trade, whatever the
    /// strategy answered.
    pub fn fees(&self) -> (r: FeeQuote)
        ensures
            r == self.quote(),
            r.in_range(),
    {
        self.current_fees.get()
    }

    /// Whether the strategy has been initialised.
    pub fn is_initialized(&self) -> (r: bool)
        ensures
            r == self.initialized(),
    {
        self.initialized
    }

    /// The strategy's name.
    pub fn strategy_name(&self) -> (r: &str)
        ensures
            r@ == self.strategy_view().name,
    {
        self.strategy.name()
    }

    /// Tell the strategy of a trade and take its next fees: the pair that it
    /// answers the `afterSwap` call with, clamped. Where the strategy fails,
    /// the quote stays as it was.
    pub fn update_fees(&mut self, trade: &TradeInfo)
        ensures
            final(self).quote().in_range(),
            final(self).quote() == old(self).quote().refreshed_spec(
                old(self).strategy_view().fee_answer(after_swap_calldata(*trade), GAS_LIMIT_TRADE),
            ),
            final(self).initialized() == old(self).initialized(),
            final(self).strategy_view() == old(self).strategy_view().with_calldata(
                after_swap_calldata(*trade),
            ).after_call(after_swap_calldata(*trade), GAS_LIMIT_TRADE),
    {
        let answer = self.strategy.after_swap(trade);
        let next = self.current_fees.get().refreshed(&answer);
        self.current_fees = BoundedQuote::clamped(next.bid_fee, next.ask_fee);
    }

    /// Deploy the strategy anew and mark it as not initialised. The quote
    /// stays until the next initialisation.
    pub fn reset(&mut self) -> (r: Result<(), EVMError>)
        ensures
            final(self).quote() == old(self).quote(),
            final(self).quote().in_range(),
            !final(self).initialized(),
            old(self).strategy_view().redeployed(unit_result_view(r), final(self).strategy_view()),
    {
        proof {
            use_type_invariant(&self.current_fees);
        }
        self.initialized = false;
        self.strategy.reset()
    }
}

} // verus!
