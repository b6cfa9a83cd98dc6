use tca::metrics::{spreads, with_efq, Spreads};
use tca::{
    execution_speed, price_improvement, BookLevel, ExecutionSpeed, Fixed, Order, OrderStatus,
    Quote, Side, TcaError,
};

fn micros(rfc3339: &str) -> i64 {
    chrono::DateTime::parse_from_rfc3339(rfc3339).unwrap().timestamp_micros()
}

fn quote(symbol: &str, bid: Option<Fixed>, ask: Option<Fixed>) -> Quote {
    Quote {
        symbol: symbol.to_string(),
        bid: bid.map(|price| BookLevel { price, size: 100 }),
        ask: ask.map(|price| BookLevel { price, size: 100 }),
        timestamp: 0,
    }
}

fn filled_order(submitted_at: Option<i64>, filled_at: Option<i64>) -> Order {
    Order {
        client_order_id: Some("ed14a845-27b2-4061-a34a-0104f2469ef9".to_string()),
        symbol: "XOM".to_string(),
        side: Side::Buy,
        status: OrderStatus::Filled,
        submitted_at,
        filled_at,
    }
}

#[test]
fn execution_speed_test() {
    let order = filled_order(
        Some(micros("2021-04-08T15:20:03.978566Z")),
        Some(micros("2021-04-08T15:20:04.874214Z")),
    );
    let speed = execution_speed(&order).unwrap();
    assert_eq!(speed.micros, 895648)
}

#[test]
fn price_improvement_test() {
    let quote = quote("AAPL", Some(Fixed::new(90, 0)), Some(Fixed::new(100, 0)));
    let buy_pi = price_improvement(&quote, &Side::Buy, Fixed::new(95, 0)).unwrap();
    assert_eq!(buy_pi.amount, Fixed::new(5, 0));
    assert_eq!(buy_pi.effective_spread, Fixed::new(0, 0));
    assert_eq!(buy_pi.quoted_spread, Fixed::new(10, 0));
    assert_eq!(buy_pi.efq, Fixed::new(0, 0));

    let sell_pi = price_improvement(&quote, &Side::Sell, Fixed::new(94, 0)).unwrap();
    assert_eq!(sell_pi.amount, Fixed::new(4, 0));
    assert_eq!(sell_pi.effective_spread, Fixed::new(2, 0));
    assert_eq!(sell_pi.quoted_spread, Fixed::new(10, 0));
    assert_eq!(sell_pi.efq, Fixed::new(2, 1));
}

#[test]
fn execution_speed_from_offset() {
    let t0: i64 = 1_617_895_203_978_566;
    let order = filled_order(Some(t0), Some(t0 + 895648));
    assert_eq!(execution_speed(&order), Ok(ExecutionSpeed { micros: 895648 }));
}

#[test]
fn execution_speed_negative_passes_through() {
    let order = filled_order(Some(2_000), Some(1_500));
    assert_eq!(execution_speed(&order), Ok(ExecutionSpeed { micros: -500 }));
    let same = filled_order(Some(7), Some(7));
    assert_eq!(execution_speed(&same), Ok(ExecutionSpeed { micros: 0 }));
}

#[test]
fn execution_speed_unfilled_order() {
    for status in [OrderStatus::New, OrderStatus::PartiallyFilled, OrderStatus::Canceled] {
        let mut order = filled_order(Some(1), Some(2));
        order.status = status;
        assert_eq!(execution_speed(&order), Err(TcaError::OrderNotFilled));
    }
}

#[test]
fn execution_speed_missing_timestamp() {
    assert_eq!(execution_speed(&filled_order(None, Some(2))), Err(TcaError::MissingTimestamp));
    assert_eq!(execution_speed(&filled_order(Some(1), None)), Err(TcaError::MissingTimestamp));
}

#[test]
fn execution_speed_overflow() {
    let order = filled_order(Some(i64::MIN), Some(i64::MAX));
    assert_eq!(execution_speed(&order), Err(TcaError::DurationOutOfRange));
}

#[test]
fn missing_book_sides() {
    let no_bid = quote("AAPL", None, Some(Fixed::new(100, 0)));
    assert_eq!(price_improvement(&no_bid, &Side::Buy, Fixed::new(95, 0)), Err(TcaError::MissingBid));
    let no_ask = quote("AAPL", Some(Fixed::new(90, 0)), None);
    assert_eq!(price_improvement(&no_ask, &Side::Sell, Fixed::new(95, 0)), Err(TcaError::MissingAsk));
}

#[test]
fn locked_book_undefined_spread() {
    let locked = quote("AAPL", Some(Fixed::new(100, 0)), Some(Fixed::new(100, 0)));
    assert_eq!(
        price_improvement(&locked, &Side::Buy, Fixed::new(100, 0)),
        Err(TcaError::UndefinedSpread)
    );
    let same_value = quote("AAPL", Some(Fixed::new(1000, 1)), Some(Fixed::new(100, 0)));
    assert_eq!(
        price_improvement(&same_value, &Side::Sell, Fixed::new(99, 0)),
        Err(TcaError::UndefinedSpread)
    );
}

#[test]
fn price_out_of_range() {
    let q = quote("AAPL", Some(Fixed::new(90, 0)), Some(Fixed::new(100, 0)));
    assert_eq!(
        price_improvement(&q, &Side::Buy, Fixed::new(95, 13)),
        Err(TcaError::PriceOutOfRange)
    );
    assert_eq!(
        price_improvement(&q, &Side::Buy, Fixed::new(1_000_000_000_000_001, 0)),
        Err(TcaError::PriceOutOfRange)
    );
}

#[test]
fn decimal_equality_is_by_value() {
    assert_eq!(Fixed::new(20, 2), Fixed::new(2, 1));
    assert_eq!(Fixed::new(-5000, 3), Fixed::new(-5, 0));
    assert_eq!(Fixed::new(0, 0), Fixed::new(0, 28));
    assert_ne!(Fixed::new(5, 0), Fixed::new(-5, 0));
    assert_ne!(Fixed::new(21, 2), Fixed::new(2, 1));
    assert_ne!(Fixed::new(1, 0), Fixed::new(1, 1));
    assert_ne!(Fixed::new(i128::MIN, 0), Fixed::new(i128::MAX, 0));
    assert_ne!(Fixed::new(7, 0), Fixed::new(7, 4_000_000_000));
}

#[test]
fn mixed_scales_are_exact() {
    let q = quote("MSFT", Some(Fixed::new(905, 1)), Some(Fixed::new(10025, 2)));
    let s = spreads(&q, &Side::Buy, Fixed::new(95, 0)).unwrap();
    assert_eq!(
        s,
        Spreads {
            amount: Fixed::new(525, 2),
            effective_spread: Fixed::new(-75, 2),
            quoted_spread: Fixed::new(975, 2),
        }
    );
    let sell = spreads(&q, &Side::Sell, Fixed::new(95, 0)).unwrap();
    assert_eq!(sell.amount, Fixed::new(450, 2));
    assert_eq!(sell.effective_spread, Fixed::new(75, 2));
}

#[test]
fn efq_is_a_true_quotient() {
    let q = quote("MSFT", Some(Fixed::new(90, 0)), Some(Fixed::new(94, 0)));
    let pi = price_improvement(&q, &Side::Sell, Fixed::new(91, 0)).unwrap();
    // effective spread 2 * (92 - 91) = 2 over quoted spread 4
    assert_eq!(pi.effective_spread, Fixed::new(2, 0));
    assert_eq!(pi.efq, Fixed::new(5, 1));
}

#[test]
fn with_efq_overflow_and_value() {
    let s = Spreads {
        amount: Fixed::new(1, 0),
        effective_spread: Fixed::new(2, 0),
        quoted_spread: Fixed::new(4, 0),
    };
    assert_eq!(with_efq(s, None), Err(TcaError::RatioOutOfRange));
    let pi = with_efq(s, Some(Fixed::new(5, 1))).unwrap();
    assert_eq!(pi.efq, Fixed::new(5, 1));
    assert_eq!(pi.amount, Fixed::new(1, 0));
}
