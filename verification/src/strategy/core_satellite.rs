use vstd::prelude::*;

use crate::utility::StrategyType;

verus! {

/// What the core-satellite style does when a candle closes.
#[derive(Debug, Clone, Copy, PartialEq, Eq, Structural)]
pub enum CandleCloseAction {
    /// Nothing to do for this candle.
    Nothing,
    /// Buy the core position with its share of the quote balance.
    BuyCore,
    /// Rebalance the satellite position towards the engulfing signal.
    TradeSatellite,
}

/// The first action at a candle close. Only the engulfing strategy acts;
/// with its first-trade switch on, the core position is bought first while
/// it is still due; the satellite is traded only once the core is bought.
/// Nothing happens before any close is recorded.
pub open spec fn first_action(strategy: StrategyType, core_to_trade: bool, closes_len: nat) -> CandleCloseAction {
    match strategy {
        StrategyType::Engulfing(use_first_time_trade) => {
            if closes_len == 0 {
                CandleCloseAction::Nothing
            } else if use_first_time_trade && core_to_trade {
                CandleCloseAction::BuyCore
            } else if !core_to_trade {
                CandleCloseAction::TradeSatellite
            } else {
                CandleCloseAction::Nothing
            }
        },
        StrategyType::Rsi(_) => CandleCloseAction::Nothing,
    }
}

/// Whether the core purchase is still due after it was sent and the
/// exchange answered `filled`, and what follows in the same candle.
pub open spec fn after_core_buy(filled: bool) -> (bool, CandleCloseAction) {
    if filled {
        (false, CandleCloseAction::TradeSatellite)
    } else {
        (true, CandleCloseAction::Nothing)
    }
}

pub fn candle_close_action(strategy: StrategyType, core_to_trade: bool, closes_len: usize) -> (action: CandleCloseAction)
    ensures
        action == first_action(strategy, core_to_trade, closes_len as nat),
{
    match strategy {
        StrategyType::Engulfing(use_first_time_trade) => {
            if use_first_time_trade && core_to_trade && closes_len > 0 {
                CandleCloseAction::BuyCore
            } else if closes_len > 0 && !core_to_trade {
                CandleCloseAction::TradeSatellite
            } else {
                CandleCloseAction::Nothing
            }
        },
        StrategyType::Rsi(_) => CandleCloseAction::Nothing,
    }
}

/// After the core purchase: returns whether the core is still to be bought
/// and the next action of this candle.
pub fn core_buy_outcome(filled: bool) -> (next: (bool, CandleCloseAction))
    ensures
        next == after_core_buy(filled),
{
    if filled {
        (false, CandleCloseAction::TradeSatellite)
    } else {
        (true, CandleCloseAction::Nothing)
    }
}

/// Whether the core purchase is still due after a candle close whose
/// core order, if one was sent, was answered `filled`.
pub open spec fn core_due_after_close(
    strategy: StrategyType,
    core_to_trade: bool,
    closes_len: nat,
    filled: bool,
) -> bool {
    if first_action(strategy, core_to_trade, closes_len) == CandleCloseAction::BuyCore {
        after_core_buy(filled).0
    } else {
        core_to_trade
    }
}

/// The core position is bought at most once: once it is no longer due no
/// candle close buys it again or makes it due again, and a filled core
/// purchase ends it being due.
pub proof fn lemma_core_bought_at_most_once(
    strategy: StrategyType,
    core_to_trade: bool,
    closes_len: nat,
    filled: bool,
)
    ensures
        !core_to_trade ==> first_action(strategy, core_to_trade, closes_len)
            != CandleCloseAction::BuyCore,
        !core_to_trade ==> !core_due_after_close(strategy, core_to_trade, closes_len, filled),
        first_action(strategy, core_to_trade, closes_len) == CandleCloseAction::BuyCore && filled
            ==> !core_due_after_close(strategy, core_to_trade, closes_len, filled),
{
}

/// The satellite is traded only once the core position is bought, and
/// never before a close is recorded.
pub proof fn lemma_satellite_waits_for_core(strategy: StrategyType, core_to_trade: bool, closes_len: nat)
    ensures
        core_to_trade ==> first_action(strategy, core_to_trade, closes_len)
            != CandleCloseAction::TradeSatellite,
        after_core_buy(false).1 == CandleCloseAction::Nothing,
        closes_len == 0 ==> first_action(strategy, core_to_trade, closes_len)
            == CandleCloseAction::Nothing,
{
}

/// The RSI strategy does nothing at a candle close.
pub proof fn lemma_rsi_idle_at_close(use_in_position: bool, core_to_trade: bool, closes_len: nat)
    ensures
        first_action(StrategyType::Rsi(use_in_position), core_to_trade, closes_len)
            == CandleCloseAction::Nothing,
{
}

/// Under the engulfing strategy, once the core is no longer due, every
/// candle close after the first recorded one trades the satellite, whatever
/// the first-trade switch says.
pub proof fn lemma_satellite_traded_at_every_close_after_core(use_first_time_trade: bool, closes_len: nat)
    requires
        closes_len > 0,
    ensures
        first_action(StrategyType::Engulfing(use_first_time_trade), false, closes_len)
            == CandleCloseAction::TradeSatellite,
{
}

/// With the first-trade switch off the core position is never bought.
pub proof fn lemma_no_core_buy_with_switch_off(core_to_trade: bool, closes_len: nat)
    ensures
        first_action(StrategyType::Engulfing(false), core_to_trade, closes_len)
            != CandleCloseAction::BuyCore,
{
}

/// With the first-trade switch on, the core is bought at every close
/// (after the first recorded one) for as long as it is due.
pub proof fn lemma_core_bought_while_due(closes_len: nat)
    requires
        closes_len > 0,
    ensures
        first_action(StrategyType::Engulfing(true), true, closes_len) == CandleCloseAction::BuyCore,
{
}

/// A filled core purchase ends the core being due and trades the satellite
/// in the same candle; an unfilled one keeps the core due and does nothing
/// more.
pub proof fn lemma_core_buy_outcomes()
    ensures
        after_core_buy(true) == (false, CandleCloseAction::TradeSatellite),
        after_core_buy(false) == (true, CandleCloseAction::Nothing),
{
}

} // verus!
