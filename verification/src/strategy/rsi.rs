use vstd::prelude::*;

use crate::utility::{StrategyType, TransactionType};

verus! {

/// Number of closes the RSI is computed over; the strategy waits until
/// strictly more closes than this have been recorded.
pub const RSI_PERIOD: u8 = 4;

/// Where the latest RSI value lies against the overbought (70) and
/// oversold (30) thresholds: above the first, below the second, or
/// between them (both bounds included).
#[derive(Debug, Clone, Copy, PartialEq, Eq, Structural)]
pub enum RsiZone {
    Overbought,
    Oversold,
    Neutral,
}

/// RSI strategy state: whether the bot currently holds a position.
pub struct RsiTradingStrategy {
    pub in_position: bool,
}

/// The recommendation for a given RSI zone.
pub open spec fn zone_signal(zone: RsiZone) -> TransactionType {
    match zone {
        RsiZone::Overbought => TransactionType::Buy,
        RsiZone::Oversold => TransactionType::Sell,
        RsiZone::Neutral => TransactionType::Hold,
    }
}

/// The recommendation given the number of recorded closes and the zone of
/// the last RSI value (`None` when the indicator produced no value).
pub open spec fn rsi_signal(closes_len: nat, last_zone: Option<RsiZone>) -> TransactionType {
    if closes_len > RSI_PERIOD {
        match last_zone {
            Some(zone) => zone_signal(zone),
            None => TransactionType::Hold,
        }
    } else {
        TransactionType::Hold
    }
}

/// The order the in-position RSI strategy places for a recommendation.
/// Only `Rsi(true)` trades; a sell is placed whenever recommended, a buy
/// only while no position is held.
pub open spec fn rsi_order(strategy: StrategyType, in_position: bool, signal: TransactionType) -> TransactionType {
    match strategy {
        StrategyType::Rsi(true) => match signal {
            TransactionType::Sell => TransactionType::Sell,
            TransactionType::Buy => if in_position {
                TransactionType::Hold
            } else {
                TransactionType::Buy
            },
            TransactionType::Hold => TransactionType::Hold,
        },
        _ => TransactionType::Hold,
    }
}

/// Whether a position is held after `order` was sent and the exchange
/// answered `filled`.
pub open spec fn position_after(in_position: bool, order: TransactionType, filled: bool) -> bool {
    if filled {
        match order {
            TransactionType::Sell => false,
            TransactionType::Buy => true,
            TransactionType::Hold => in_position,
        }
    } else {
        in_position
    }
}

impl RsiTradingStrategy {
    pub fn new(in_position: bool) -> (strategy: Self)
        ensures
            strategy.in_position == in_position,
    {
        Self { in_position: in_position }
    }

    /// Buy when overbought, sell when oversold, hold otherwise.
    pub fn enter_into_position(last_rsi: RsiZone) -> (signal: TransactionType)
        ensures
            signal == zone_signal(last_rsi),
    {
        match last_rsi {
            RsiZone::Overbought => TransactionType::Buy,
            RsiZone::Oversold => TransactionType::Sell,
            RsiZone::Neutral => TransactionType::Hold,
        }
    }

    /// The recommendation once the RSI has been computed: hold until more
    /// than `RSI_PERIOD` closes are known or when the indicator gave no value.
    pub fn call_rsi_logic(closes_len: usize, last_rsi: Option<RsiZone>) -> (signal: TransactionType)
        ensures
            signal == rsi_signal(closes_len as nat, last_rsi),
    {
        if Self::has_enough_closes(closes_len) {
            match last_rsi {
                Some(zone) => Self::enter_into_position(zone),
                None => TransactionType::Hold,
            }
        } else {
            TransactionType::Hold
        }
    }

    /// Whether enough closes are known to compute the RSI.
    pub fn has_enough_closes(closes_len: usize) -> (enough: bool)
        ensures
            enough == (closes_len > RSI_PERIOD),
    {
        closes_len > RSI_PERIOD as usize
    }

    /// The order to place for `signal` under `strategy`, given the
    /// position currently held (`Hold` means no order).
    pub fn order_for(&self, strategy: StrategyType, signal: TransactionType) -> (order: TransactionType)
        ensures
            order == rsi_order(strategy, self.in_position, signal),
    {
        match strategy {
            StrategyType::Rsi(use_in_position) => {
                if use_in_position {
                    match signal {
                        TransactionType::Sell => TransactionType::Sell,
                        TransactionType::Buy => {
                            if self.in_position {
                                TransactionType::Hold
                            } else {
                                TransactionType::Buy
                            }
                        },
                        TransactionType::Hold => TransactionType::Hold,
                    }
                } else {
                    TransactionType::Hold
                }
            },
            StrategyType::Engulfing(_) => TransactionType::Hold,
        }
    }

    /// Records the exchange's answer to `order`: a filled sell leaves the
    /// position, a filled buy enters it, anything else changes nothing.
    pub fn record_fill(&mut self, order: TransactionType, filled: bool)
        ensures
            final(self).in_position == position_after(old(self).in_position, order, filled),
    {
        if filled {
            match order {
                TransactionType::Sell => {
                    self.in_position = false;
                },
                TransactionType::Buy => {
                    self.in_position = true;
                },
                TransactionType::Hold => {},
            }
        }
    }
}

/// While a position is held the strategy never places a buy.
pub proof fn lemma_no_buy_while_in_position(strategy: StrategyType, signal: TransactionType)
    ensures
        rsi_order(strategy, true, signal) != TransactionType::Buy,
{
}

/// Only the in-position RSI strategy (`Rsi(true)`) places orders, and a
/// `Hold` recommendation never leads to one.
pub proof fn lemma_only_in_position_rsi_trades(
    strategy: StrategyType,
    in_position: bool,
    signal: TransactionType,
)
    ensures
        !(strategy matches StrategyType::Rsi(true)) ==> rsi_order(strategy, in_position, signal)
            == TransactionType::Hold,
        rsi_order(strategy, in_position, TransactionType::Hold) == TransactionType::Hold,
{
}

/// Across one decision and its outcome, a position is entered only by a
/// filled buy the strategy placed on a buy recommendation, and left only by
/// a filled sell it placed on a sell recommendation; an unfilled order
/// leaves the position as it was.
pub proof fn lemma_position_changes_only_on_fills(
    strategy: StrategyType,
    in_position: bool,
    signal: TransactionType,
    filled: bool,
)
    ensures
        ({
            let order = rsi_order(strategy, in_position, signal);
            let after = position_after(in_position, order, filled);
            &&& (!in_position && after) ==> (filled && order == TransactionType::Buy && signal
                == TransactionType::Buy)
            &&& (in_position && !after) ==> (filled && order == TransactionType::Sell && signal
                == TransactionType::Sell)
            &&& !filled ==> after == in_position
        }),
{
}

/// With no more than `RSI_PERIOD` closes, or in the neutral zone, the
/// recommendation is to hold.
pub proof fn lemma_holds_without_signal(closes_len: nat, last_zone: Option<RsiZone>)
    ensures
        closes_len <= RSI_PERIOD ==> rsi_signal(closes_len, last_zone) == TransactionType::Hold,
        last_zone == Some(RsiZone::Neutral) ==> rsi_signal(closes_len, last_zone)
            == TransactionType::Hold,
        last_zone is None ==> rsi_signal(closes_len, last_zone) == TransactionType::Hold,
{
}

/// Once more than `RSI_PERIOD` closes are recorded, the recommendation for
/// a known zone depends on the zone alone: oversold sells, overbought buys,
/// neutral holds, at every history length.
pub proof fn lemma_zone_decides_after_period(closes_len: nat, other_len: nat)
    requires
        closes_len > RSI_PERIOD,
        other_len > RSI_PERIOD,
    ensures
        rsi_signal(closes_len, Some(RsiZone::Oversold)) == TransactionType::Sell,
        rsi_signal(closes_len, Some(RsiZone::Overbought)) == TransactionType::Buy,
        rsi_signal(closes_len, Some(RsiZone::Neutral)) == TransactionType::Hold,
        forall|zone: RsiZone| rsi_signal(closes_len, Some(zone)) == rsi_signal(other_len, Some(zone)),
{
}

/// Under `Rsi(true)` a sell recommendation always places a sell, a buy
/// recommendation places a buy exactly when no position is held; a filled
/// buy leaves the bot in position and a filled sell out of it.
pub proof fn lemma_in_position_orders_and_fills(in_position: bool, before: bool)
    ensures
        rsi_order(StrategyType::Rsi(true), in_position, TransactionType::Sell) == TransactionType::Sell,
        (rsi_order(StrategyType::Rsi(true), in_position, TransactionType::Buy) == TransactionType::Buy)
            <==> !in_position,
        position_after(before, TransactionType::Buy, true),
        !position_after(before, TransactionType::Sell, true),
        position_after(before, TransactionType::Hold, true) == before,
{
}

} // verus!
