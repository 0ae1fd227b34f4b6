use vstd::prelude::*;

verus! {

/// The trading rules of a symbol that the bot reads; every other kind of
/// filter the exchange lists is `Other`.
#[derive(Debug)]
pub enum SymbolFilter {
    /// Smallest order value, in the quote asset.
    MinNotional { min_notional: Option<String> },
    /// Smallest order quantity, in the base asset.
    LotSize { min_qty: String },
    Other,
}

/// The smallest base quantity: that of the last `LotSize` filter, empty
/// when there is none.
pub open spec fn base_min_qty_of(filters: Seq<SymbolFilter>) -> Seq<char>
    decreases filters.len(),
{
    if filters.len() == 0 {
        Seq::empty()
    } else {
        match filters.last() {
            SymbolFilter::LotSize { min_qty } => min_qty@,
            _ => base_min_qty_of(filters.drop_last()),
        }
    }
}

/// The smallest quote amount: that of the last `MinNotional` filter, empty
/// when there is none.
pub open spec fn quote_min_qty_of(filters: Seq<SymbolFilter>) -> Seq<char>
    decreases filters.len(),
{
    if filters.len() == 0 {
        Seq::empty()
    } else {
        match filters.last() {
            SymbolFilter::MinNotional { min_notional } => match min_notional {
                Some(q) => q@,
                None => Seq::empty(),
            },
            _ => quote_min_qty_of(filters.drop_last()),
        }
    }
}

/// Every `MinNotional` filter carries its amount.
pub open spec fn min_notionals_given(filters: Seq<SymbolFilter>) -> bool {
    forall|i: int|
        0 <= i < filters.len() ==> (#[trigger] filters[i] matches SymbolFilter::MinNotional {
            min_notional,
        } ==> min_notional is Some)
}

/// The smallest base quantity and the smallest quote amount a symbol's
/// filters allow, as the exchange wrote them; where a kind of filter
/// occurs more than once the last one counts.
pub fn get_min_quantities(filters: &Vec<SymbolFilter>) -> (mins: (String, String))
    requires
        min_notionals_given(filters@),
    ensures
        mins.0@ == base_min_qty_of(filters@),
        mins.1@ == quote_min_qty_of(filters@),
{
    let mut base_min_qty = String::new();
    let mut quote_min_qty = String::new();
    let n = filters.len();
    for i in 0..n
        invariant
            n == filters@.len(),
            min_notionals_given(filters@),
            base_min_qty@ == base_min_qty_of(filters@.take(i as int)),
            quote_min_qty@ == quote_min_qty_of(filters@.take(i as int)),
    {
        let ghost prefix = filters@.take(i + 1);
        assert(prefix.drop_last() == filters@.take(i as int));
        assert(prefix.last() == filters@[i as int]);
        match &filters[i] {
            SymbolFilter::MinNotional { min_notional } => {
                match min_notional {
                    Some(q) => {
                        quote_min_qty = q.clone();
                    },
                    None => {
                        assert(false);
                    },
                }
            },
            SymbolFilter::LotSize { min_qty } => {
                base_min_qty = min_qty.clone();
            },
            SymbolFilter::Other => {},
        }
    }
    assert(filters@.take(n as int) == filters@);
    (base_min_qty, quote_min_qty)
}

/// Appending a filter that is not a `LotSize` leaves the base minimum as it
/// was; appending one that is not a `MinNotional` leaves the quote minimum as
/// it was; appending one of the kind sets that minimum to its value.
pub proof fn lemma_minimums_follow_their_own_kind(filters: Seq<SymbolFilter>, f: SymbolFilter)
    ensures
        !(f is LotSize) ==> base_min_qty_of(filters.push(f)) == base_min_qty_of(filters),
        !(f is MinNotional) ==> quote_min_qty_of(filters.push(f)) == quote_min_qty_of(filters),
        f matches SymbolFilter::LotSize { min_qty } ==> base_min_qty_of(filters.push(f)) == min_qty@,
        f matches SymbolFilter::MinNotional { min_notional: Some(q) } ==> quote_min_qty_of(
            filters.push(f),
        ) == q@,
{
    assert(filters.push(f).drop_last() == filters);
}

/// Filters listed after the last `MinNotional` do not change the quote
/// minimum, and filters after the last `LotSize` do not change the base
/// minimum.
pub proof fn lemma_later_other_kinds_do_not_matter(filters: Seq<SymbolFilter>, later: Seq<SymbolFilter>)
    ensures
        (forall|i: int| 0 <= i < later.len() ==> !(#[trigger] later[i] is MinNotional))
            ==> quote_min_qty_of(filters + later) == quote_min_qty_of(filters),
        (forall|i: int| 0 <= i < later.len() ==> !(#[trigger] later[i] is LotSize))
            ==> base_min_qty_of(filters + later) == base_min_qty_of(filters),
    decreases later.len(),
{
    if later.len() == 0 {
        assert(filters + later == filters);
    } else {
        let init = later.drop_last();
        lemma_later_other_kinds_do_not_matter(filters, init);
        assert(filters + later == (filters + init).push(later.last()));
        lemma_minimums_follow_their_own_kind(filters + init, later.last());
        if forall|i: int| 0 <= i < later.len() ==> !(#[trigger] later[i] is MinNotional) {
            assert forall|i: int| 0 <= i < init.len() implies !(#[trigger] init[i] is MinNotional) by {
                assert(init[i] == later[i]);
            }
            assert(!(later[later.len() - 1] is MinNotional));
        }
        if forall|i: int| 0 <= i < later.len() ==> !(#[trigger] later[i] is LotSize) {
            assert forall|i: int| 0 <= i < init.len() implies !(#[trigger] init[i] is LotSize) by {
                assert(init[i] == later[i]);
            }
            assert(!(later[later.len() - 1] is LotSize));
        }
    }
}

} // verus!
