use trading_bot::exchange::candles::{Candle, CandleHistory};
use trading_bot::exchange::orders::{is_order_filled, kline_stream_name};
use trading_bot::exchange::symbol::{get_min_quantities, SymbolFilter};

fn candle(open: i64, high: i64, low: i64, close: i64) -> Candle<i64> {
    Candle { open, high, low, close }
}

#[test]
fn empty_history() {
    let h: CandleHistory<i64> = CandleHistory::new();
    assert_eq!(h.len(), 0);
    assert_eq!(h.last_close(), None);
    assert!(h.closes().is_empty());
    assert!(!h.is_closes_greater_than(0));
}

#[test]
fn series_stay_aligned() {
    let mut h = CandleHistory::new();
    h.push_candle(candle(10, 12, 9, 11));
    h.push_candle(candle(11, 15, 10, 14));
    h.push_candle(candle(14, 14, 8, 9));
    assert_eq!(h.len(), 3);
    assert_eq!(h.opens(), vec![10, 11, 14]);
    assert_eq!(h.highs(), vec![12, 15, 14]);
    assert_eq!(h.lows(), vec![9, 10, 8]);
    assert_eq!(h.closes(), vec![11, 14, 9]);
    assert_eq!(h.last_close(), Some(9));
    assert!(h.is_closes_greater_than(2));
    assert!(!h.is_closes_greater_than(3));
}

#[test]
fn float_prices() {
    let mut h = CandleHistory::new();
    h.push_candle(Candle { open: 1.5f64, high: 2.0, low: 1.0, close: 1.75 });
    assert_eq!(h.last_close(), Some(1.75));
    assert_eq!(h.closes(), vec![1.75]);
}

#[test]
fn filled_status() {
    assert!(is_order_filled(&"FILLED".to_string()));
    assert!(!is_order_filled(&"PARTIALLY_FILLED".to_string()));
    assert!(!is_order_filled(&"NEW".to_string()));
    assert!(!is_order_filled(&"filled".to_string()));
    assert!(!is_order_filled(&String::new()));
}

#[test]
fn stream_name_is_lowercase_pair_and_kline() {
    assert_eq!(kline_stream_name("BNBBUSD", "@kline_1m"), "bnbbusd@kline_1m");
    assert_eq!(kline_stream_name("btcusdt", "@kline_5m"), "btcusdt@kline_5m");
}

#[test]
fn min_quantities_from_filters() {
    let filters = vec![
        SymbolFilter::Other,
        SymbolFilter::LotSize { min_qty: "0.00100000".to_string() },
        SymbolFilter::MinNotional { min_notional: Some("10.00000000".to_string()) },
        SymbolFilter::Other,
    ];
    assert_eq!(
        get_min_quantities(&filters),
        ("0.00100000".to_string(), "10.00000000".to_string())
    );
}

#[test]
fn min_quantities_last_filter_wins() {
    let filters = vec![
        SymbolFilter::LotSize { min_qty: "1".to_string() },
        SymbolFilter::MinNotional { min_notional: Some("5".to_string()) },
        SymbolFilter::LotSize { min_qty: "2".to_string() },
        SymbolFilter::MinNotional { min_notional: Some("6".to_string()) },
    ];
    assert_eq!(get_min_quantities(&filters), ("2".to_string(), "6".to_string()));
}

#[test]
fn min_quantities_missing_filters() {
    assert_eq!(get_min_quantities(&vec![]), (String::new(), String::new()));
    assert_eq!(
        get_min_quantities(&vec![SymbolFilter::Other]),
        (String::new(), String::new())
    );
}
