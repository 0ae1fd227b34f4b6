use vstd::prelude::*;

verus! {

/// One closed candle of a trading pair, in the price type `P`.
#[derive(Debug, Clone, Copy)]
pub struct Candle<P> {
    pub open: P,
    pub high: P,
    pub low: P,
    pub close: P,
}

/// The closed candles seen so far, oldest first. The open, high, low and
/// close series are read from it, so they always have the same length and
/// their entries at one index belong to the same candle.
pub struct CandleHistory<P> {
    candles: Vec<Candle<P>>,
}

impl<P> View for CandleHistory<P> {
    type V = Seq<Candle<P>>;

    closed spec fn view(&self) -> Seq<Candle<P>> {
        self.candles@
    }
}

pub open spec fn opens_of<P>(candles: Seq<Candle<P>>) -> Seq<P> {
    candles.map_values(|c: Candle<P>| c.open)
}

pub open spec fn highs_of<P>(candles: Seq<Candle<P>>) -> Seq<P> {
    candles.map_values(|c: Candle<P>| c.high)
}

pub open spec fn lows_of<P>(candles: Seq<Candle<P>>) -> Seq<P> {
    candles.map_values(|c: Candle<P>| c.low)
}

pub open spec fn closes_of<P>(candles: Seq<Candle<P>>) -> Seq<P> {
    candles.map_values(|c: Candle<P>| c.close)
}

/// The four series have the length of the history, and their entries at
/// one index are the prices of the candle at that index.
pub proof fn lemma_series_aligned<P>(candles: Seq<Candle<P>>, i: int)
    ensures
        opens_of(candles).len() == candles.len(),
        highs_of(candles).len() == candles.len(),
        lows_of(candles).len() == candles.len(),
        closes_of(candles).len() == candles.len(),
        0 <= i < candles.len() ==> opens_of(candles)[i] == candles[i].open && highs_of(candles)[i]
            == candles[i].high && lows_of(candles)[i] == candles[i].low && closes_of(candles)[i]
            == candles[i].close,
{
}

/// Recording a candle appends its prices to each series and changes no
/// earlier entry.
pub proof fn lemma_push_extends_series<P>(candles: Seq<Candle<P>>, candle: Candle<P>)
    ensures
        opens_of(candles.push(candle)) == opens_of(candles).push(candle.open),
        highs_of(candles.push(candle)) == highs_of(candles).push(candle.high),
        lows_of(candles.push(candle)) == lows_of(candles).push(candle.low),
        closes_of(candles.push(candle)) == closes_of(candles).push(candle.close),
{
    assert(opens_of(candles.push(candle)) =~= opens_of(candles).push(candle.open));
    assert(highs_of(candles.push(candle)) =~= highs_of(candles).push(candle.high));
    assert(lows_of(candles.push(candle)) =~= lows_of(candles).push(candle.low));
    assert(closes_of(candles.push(candle)) =~= closes_of(candles).push(candle.close));
}

impl<P: Copy> CandleHistory<P> {
    pub fn new() -> (history: Self)
        ensures
            history@ == Seq::<Candle<P>>::empty(),
    {
        CandleHistory { candles: Vec::new() }
    }

    /// Records a closed candle after the ones already seen.
    pub fn push_candle(&mut self, candle: Candle<P>)
        ensures
            final(self)@ == old(self)@.push(candle),
    {
        self.candles.push(candle);
    }

    /// Number of candles (and of closes) recorded.
    pub fn len(&self) -> (n: usize)
        ensures
            n == self@.len(),
    {
        self.candles.len()
    }

    /// Whether more than `number` closes are recorded.
    pub fn is_closes_greater_than(&self, number: usize) -> (more: bool)
        ensures
            more == (self@.len() > number),
    {
        self.candles.len() > number
    }

    /// The close of the latest candle.
    pub fn last_close(&self) -> (close: Option<P>)
        ensures
            close == (if self@.len() == 0 {
                None
            } else {
                Some(self@.last().close)
            }),
    {
        if self.candles.len() == 0 {
            None
        } else {
            Some(self.candles[self.candles.len() - 1].close)
        }
    }

    pub fn opens(&self) -> (series: Vec<P>)
        ensures
            series@ == opens_of(self@),
    {
        let mut series: Vec<P> = Vec::new();
        let n = self.candles.len();
        for i in 0..n
            invariant
                n == self@.len(),
                series@ == opens_of(self@.take(i as int)),
        {
            series.push(self.candles[i].open);
            assert(self@.take(i + 1) == self@.take(i as int).push(self@[i as int]));
        }
        assert(self@.take(n as int) == self@);
        series
    }

    pub fn highs(&self) -> (series: Vec<P>)
        ensures
            series@ == highs_of(self@),
    {
        let mut series: Vec<P> = Vec::new();
        let n = self.candles.len();
        for i in 0..n
            invariant
                n == self@.len(),
                series@ == highs_of(self@.take(i as int)),
        {
            series.push(self.candles[i].high);
            assert(self@.take(i + 1) == self@.take(i as int).push(self@[i as int]));
        }
        assert(self@.take(n as int) == self@);
        series
    }

    pub fn lows(&self) -> (series: Vec<P>)
        ensures
            series@ == lows_of(self@),
    {
        let mut series: Vec<P> = Vec::new();
        let n = self.candles.len();
        for i in 0..n
            invariant
                n == self@.len(),
                series@ == lows_of(self@.take(i as int)),
        {
            series.push(self.candles[i].low);
            assert(self@.take(i + 1) == self@.take(i as int).push(self@[i as int]));
        }
        assert(self@.take(n as int) == self@);
        series
    }

    pub fn closes(&self) -> (series: Vec<P>)
        ensures
            series@ == closes_of(self@),
    {
        let mut series: Vec<P> = Vec::new();
        let n = self.candles.len();
        for i in 0..n
            invariant
                n == self@.len(),
                series@ == closes_of(self@.take(i as int)),
        {
            series.push(self.candles[i].close);
            assert(self@.take(i + 1) == self@.take(i as int).push(self@[i as int]));
        }
        assert(self@.take(n as int) == self@);
        series
    }
}

} // verus!
