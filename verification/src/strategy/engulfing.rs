use vstd::prelude::*;

verus! {

/// The engulfing candle pattern. The indicator yields one value per
/// candle: a positive value for a bullish pattern, a negative one for a
/// bearish pattern, 0 when there is none.
pub struct Engulfing {}

/// The pattern value the bot trades on: the one of the latest candle, or
/// 0 when the indicator produced none.
pub open spec fn last_signal_of(signals: Seq<i32>) -> i32 {
    if signals.len() == 0 {
        0
    } else {
        signals.last()
    }
}

impl Engulfing {
    pub fn last_signal(signals: &Vec<i32>) -> (signal: i32)
        ensures
            signal == last_signal_of(signals@),
    {
        if signals.len() == 0 {
            0
        } else {
            signals[signals.len() - 1]
        }
    }
}

/// The traded value is the one at the last index of a non-empty list, even
/// when it is 0 (no pattern on the latest candle), and 0 for an empty list;
/// appending a value makes it the traded one.
pub proof fn lemma_last_signal_is_latest_candle(signals: Seq<i32>, next: i32)
    ensures
        signals.len() > 0 ==> last_signal_of(signals) == signals[signals.len() - 1],
        signals.len() == 0 ==> last_signal_of(signals) == 0,
        last_signal_of(signals.push(next)) == next,
{
}

} // verus!
