use vstd::prelude::*;

verus! {

/// Order status the exchange reports for an order executed in full.
pub open spec fn filled_status() -> Seq<char> {
    seq!['F', 'I', 'L', 'L', 'E', 'D']
}

/// Whether an order whose status the exchange reported as `status` was
/// executed: only the status `FILLED` counts.
pub fn is_order_filled(status: &String) -> (filled: bool)
    ensures
        filled == (status@ == filled_status()),
{
    let expected = String::from_str("FILLED");
    proof {
        reveal_strlit("FILLED");
        assert("FILLED"@ =~= filled_status());
    }
    *status == expected
}

/// Result of `str::to_lowercase`: the Unicode lowercase mapping of `s`.
pub uninterp spec fn lowercase_of(s: Seq<char>) -> Seq<char>;

/// Calls `str::to_lowercase`; its result is named `lowercase_of` of the
/// argument's characters.
#[verifier::external_body]
fn to_lowercase(s: &str) -> (lower: String)
    ensures
        lower@ == lowercase_of(s@),
{
    s.to_lowercase()
}

/// Name of the kline stream of a pair: the pair in lower case followed by
/// the kline suffix (such as `@kline_1m`).
pub fn kline_stream_name(pair: &str, kline: &str) -> (name: String)
    ensures
        name@ == lowercase_of(pair@) + kline@,
{
    let mut name = to_lowercase(pair);
    name.append(kline);
    name
}

} // verus!
