use trading_bot::strategy::rsi::{RsiTradingStrategy, RsiZone, RSI_PERIOD};
use trading_bot::utility::{StrategyType, TransactionType};

#[test]
fn new_keeps_position_flag() {
    assert!(!RsiTradingStrategy::new(false).in_position);
    assert!(RsiTradingStrategy::new(true).in_position);
}

#[test]
fn zones_map_to_signals() {
    assert_eq!(RsiTradingStrategy::enter_into_position(RsiZone::Overbought), TransactionType::Buy);
    assert_eq!(RsiTradingStrategy::enter_into_position(RsiZone::Oversold), TransactionType::Sell);
    assert_eq!(RsiTradingStrategy::enter_into_position(RsiZone::Neutral), TransactionType::Hold);
}

#[test]
fn waits_for_more_than_period_closes() {
    assert_eq!(RSI_PERIOD, 4);
    assert!(!RsiTradingStrategy::has_enough_closes(4));
    assert!(RsiTradingStrategy::has_enough_closes(5));
    assert_eq!(
        RsiTradingStrategy::call_rsi_logic(4, Some(RsiZone::Overbought)),
        TransactionType::Hold
    );
    assert_eq!(
        RsiTradingStrategy::call_rsi_logic(0, Some(RsiZone::Oversold)),
        TransactionType::Hold
    );
}

#[test]
fn last_rsi_decides_once_enough_closes() {
    assert_eq!(
        RsiTradingStrategy::call_rsi_logic(5, Some(RsiZone::Overbought)),
        TransactionType::Buy
    );
    assert_eq!(
        RsiTradingStrategy::call_rsi_logic(10, Some(RsiZone::Oversold)),
        TransactionType::Sell
    );
    assert_eq!(
        RsiTradingStrategy::call_rsi_logic(10, Some(RsiZone::Neutral)),
        TransactionType::Hold
    );
    assert_eq!(RsiTradingStrategy::call_rsi_logic(10, None), TransactionType::Hold);
}

#[test]
fn no_buy_while_in_position() {
    let holding = RsiTradingStrategy::new(true);
    assert_eq!(
        holding.order_for(StrategyType::Rsi(true), TransactionType::Buy),
        TransactionType::Hold
    );
    assert_eq!(
        holding.order_for(StrategyType::Rsi(true), TransactionType::Sell),
        TransactionType::Sell
    );
    let flat = RsiTradingStrategy::new(false);
    assert_eq!(
        flat.order_for(StrategyType::Rsi(true), TransactionType::Buy),
        TransactionType::Buy
    );
    // a sell is placed even without a position
    assert_eq!(
        flat.order_for(StrategyType::Rsi(true), TransactionType::Sell),
        TransactionType::Sell
    );
    assert_eq!(
        flat.order_for(StrategyType::Rsi(true), TransactionType::Hold),
        TransactionType::Hold
    );
}

#[test]
fn only_in_position_rsi_places_orders() {
    let flat = RsiTradingStrategy::new(false);
    assert_eq!(
        flat.order_for(StrategyType::Rsi(false), TransactionType::Buy),
        TransactionType::Hold
    );
    assert_eq!(
        flat.order_for(StrategyType::Engulfing(true), TransactionType::Sell),
        TransactionType::Hold
    );
}

#[test]
fn fills_move_the_position() {
    let mut s = RsiTradingStrategy::new(false);
    s.record_fill(TransactionType::Buy, false);
    assert!(!s.in_position);
    s.record_fill(TransactionType::Buy, true);
    assert!(s.in_position);
    s.record_fill(TransactionType::Hold, true);
    assert!(s.in_position);
    s.record_fill(TransactionType::Sell, false);
    assert!(s.in_position);
    s.record_fill(TransactionType::Sell, true);
    assert!(!s.in_position);
}

#[test]
fn round_trip_of_signals() {
    let strategy = StrategyType::Rsi(true);
    let mut s = RsiTradingStrategy::new(false);
    let signals = [
        TransactionType::Buy,
        TransactionType::Buy,
        TransactionType::Hold,
        TransactionType::Sell,
        TransactionType::Buy,
    ];
    let mut orders = Vec::new();
    for signal in signals {
        let order = s.order_for(strategy, signal);
        s.record_fill(order, true);
        orders.push(order);
    }
    assert_eq!(
        orders,
        vec![
            TransactionType::Buy,
            TransactionType::Hold,
            TransactionType::Hold,
            TransactionType::Sell,
            TransactionType::Buy
        ]
    );
    assert!(s.in_position);
}
