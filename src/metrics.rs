//! The metrics computed for a fill: execution speed, price improvement and spreads.
use vstd::prelude::*;
use crate::error::TcaError;
use crate::fixed::{checked_quotient, decimal_quotient, lemma_pow10_add, lemma_pow10_mono, pow10, Fixed};
use crate::model::{Order, OrderStatus, Quote, Side};

verus! {

/// Time from submission to fill, in microseconds.
#[derive(Clone, Copy, Debug, PartialEq, Eq, Structural)]
pub struct ExecutionSpeed {
    pub micros: i64,
}

/// The execution speed owed for an order.
pub open spec fn execution_speed_spec(order: Order) -> Result<ExecutionSpeed, TcaError> {
    if order.status != OrderStatus::Filled {
        Err(TcaError::OrderNotFilled)
    } else {
        match (order.submitted_at, order.filled_at) {
            (Some(s), Some(f)) => {
                if i64::MIN <= f - s <= i64::MAX {
                    Ok(ExecutionSpeed { micros: (f - s) as i64 })
                } else {
                    Err(TcaError::DurationOutOfRange)
                }
            },
            _ => Err(TcaError::MissingTimestamp),
        }
    }
}

/// Elapsed time between submission and fill of a filled order. A negative or
/// zero duration is returned as computed.
pub fn execution_speed(order: &Order) -> (r: Result<ExecutionSpeed, TcaError>)
    ensures
        r == execution_speed_spec(*order),
{
    if order.status != OrderStatus::Filled {
        return Err(TcaError::OrderNotFilled);
    }
    let filled = match order.filled_at {
        Some(t) => t,
        None => return Err(TcaError::MissingTimestamp),
    };
    let submitted = match order.submitted_at {
        Some(t) => t,
        None => return Err(TcaError::MissingTimestamp),
    };
    let elapsed: i128 = filled as i128 - submitted as i128;
    if elapsed < i64::MIN as i128 || elapsed > i64::MAX as i128 {
        return Err(TcaError::DurationOutOfRange);
    }
    Ok(ExecutionSpeed { micros: elapsed as i64 })
}

/// Price improvement and the spread measures of a fill, all at one scale.
#[derive(Clone, Copy, Debug, PartialEq, Eq)]
pub struct Spreads {
    pub amount: Fixed,
    pub effective_spread: Fixed,
    pub quoted_spread: Fixed,
}

/// Price improvement, spreads and the effective-over-quoted ratio of a fill.
#[derive(Clone, Copy, Debug, PartialEq, Eq)]
pub struct PriceImprovement {
    pub amount: Fixed,
    pub effective_spread: Fixed,
    pub quoted_spread: Fixed,
    pub efq: Fixed,
}

/// The largest of three scales: the scale at which the three prices are compared.
pub open spec fn common_scale(bid: Fixed, ask: Fixed, fill: Fixed) -> nat {
    let s = if bid.scale >= ask.scale { bid.scale } else { ask.scale };
    (if s >= fill.scale { s } else { fill.scale }) as nat
}

/// The spreads of a fill at `fill` against `bid` and `ask`, with mid = (bid + ask) / 2:
/// for a buy, improvement ask - fill and effective spread 2 (fill - mid); for a sell,
/// improvement fill - bid and effective spread 2 (mid - fill); quoted spread ask - bid.
pub open spec fn spreads_at(bid: Fixed, ask: Fixed, side: Side, fill: Fixed) -> Spreads {
    let s = common_scale(bid, ask, fill);
    let b = bid.at_scale(s);
    let a = ask.at_scale(s);
    let f = fill.at_scale(s);
    let amount = match side {
        Side::Buy => a - f,
        Side::Sell => f - b,
    };
    let effective = match side {
        Side::Buy => 2 * f - (a + b),
        Side::Sell => (a + b) - 2 * f,
    };
    Spreads {
        amount: Fixed { mantissa: amount as i128, scale: s as u32 },
        effective_spread: Fixed { mantissa: effective as i128, scale: s as u32 },
        quoted_spread: Fixed { mantissa: (a - b) as i128, scale: s as u32 },
    }
}

/// The spreads owed for a fill against a quote.
pub open spec fn spreads_spec(quote: Quote, side: Side, fill: Fixed) -> Result<Spreads, TcaError> {
    match quote.bid {
        None => Err(TcaError::MissingBid),
        Some(bid) => match quote.ask {
            None => Err(TcaError::MissingAsk),
            Some(ask) => {
                if bid.price.is_price() && ask.price.is_price() && fill.is_price() {
                    Ok(spreads_at(bid.price, ask.price, side, fill))
                } else {
                    Err(TcaError::PriceOutOfRange)
                }
            },
        },
    }
}

/// The result owed for spreads `s` once the ratio `efq` has been computed.
pub open spec fn with_efq_spec(s: Spreads, efq: Option<Fixed>) -> Result<PriceImprovement, TcaError> {
    match efq {
        Some(q) => Ok(
            PriceImprovement {
                amount: s.amount,
                effective_spread: s.effective_spread,
                quoted_spread: s.quoted_spread,
                efq: q,
            },
        ),
        None => Err(TcaError::RatioOutOfRange),
    }
}

/// The price improvement owed for a fill against a quote.
pub open spec fn price_improvement_spec(quote: Quote, side: Side, fill: Fixed) -> Result<
    PriceImprovement,
    TcaError,
> {
    match spreads_spec(quote, side, fill) {
        Err(e) => Err(e),
        Ok(s) => {
            if s.quoted_spread.mantissa == 0 {
                Err(TcaError::UndefinedSpread)
            } else {
                with_efq_spec(s, decimal_quotient(s.effective_spread, s.quoted_spread))
            }
        },
    }
}

/// Price improvement and spreads of a fill at `fill_price` on `side`, measured
/// against the bid and ask of `quote`, exactly at the largest of the three scales.
pub fn spreads(quote: &Quote, side: &Side, fill_price: Fixed) -> (r: Result<Spreads, TcaError>)
    ensures
        r == spreads_spec(*quote, *side, fill_price),
        r matches Ok(s) ==> s.amount.wf() && s.effective_spread.wf() && s.quoted_spread.wf(),
{
    let bid = match quote.bid {
        Some(level) => level.price,
        None => return Err(TcaError::MissingBid),
    };
    let ask = match quote.ask {
        Some(level) => level.price,
        None => return Err(TcaError::MissingAsk),
    };
    if !(bid.check_price() && ask.check_price() && fill_price.check_price()) {
        return Err(TcaError::PriceOutOfRange);
    }
    let mut s: u32 = if bid.scale >= ask.scale { bid.scale } else { ask.scale };
    if fill_price.scale > s {
        s = fill_price.scale;
    }
    let b = bid.rescaled(s);
    let a = ask.rescaled(s);
    let f = fill_price.rescaled(s);
    proof {
        reveal_with_fuel(pow10, 13);
    }
    let amount = match side {
        Side::Buy => a - f,
        Side::Sell => f - b,
    };
    let effective = match side {
        Side::Buy => 2 * f - (a + b),
        Side::Sell => (a + b) - 2 * f,
    };
    Ok(
        Spreads {
            amount: Fixed { mantissa: amount, scale: s },
            effective_spread: Fixed { mantissa: effective, scale: s },
            quoted_spread: Fixed { mantissa: a - b, scale: s },
        },
    )
}

/// Completes spreads `s` with the ratio `efq` of effective to quoted spread, as
/// the decimal division returned it; no ratio means it overflowed.
pub fn with_efq(s: Spreads, efq: Option<Fixed>) -> (r: Result<PriceImprovement, TcaError>)
    ensures
        r == with_efq_spec(s, efq),
{
    match efq {
        Some(q) => Ok(
            PriceImprovement {
                amount: s.amount,
                effective_spread: s.effective_spread,
                quoted_spread: s.quoted_spread,
                efq: q,
            },
        ),
        None => Err(TcaError::RatioOutOfRange),
    }
}

/// Price improvement, spreads and effective-over-quoted ratio of a fill. A zero
/// quoted spread leaves the ratio undefined and fails with `UndefinedSpread`.
pub fn price_improvement(quote: &Quote, side: &Side, fill_price: Fixed) -> (r: Result<
    PriceImprovement,
    TcaError,
>)
    ensures
        r == price_improvement_spec(*quote, *side, fill_price),
        r matches Ok(p) ==> (p.effective_spread.mantissa == 0 ==> p.efq.mantissa == 0),
{
    let s = match spreads(quote, side, fill_price) {
        Ok(s) => s,
        Err(e) => return Err(e),
    };
    if s.quoted_spread.is_zero() {
        return Err(TcaError::UndefinedSpread);
    }
    let efq = checked_quotient(s.effective_spread, s.quoted_spread);
    with_efq(s, efq)
}

/// A locked book (bid and ask denoting the same price, at whatever scales) has
/// a zero quoted spread, so the ratio is undefined and no price improvement is
/// produced.
pub proof fn lemma_locked_book_undefined_spread(quote: Quote, side: Side, fill: Fixed)
    requires
        quote.bid matches Some(b) && quote.ask matches Some(a) && b.price.same_value(a.price)
            && b.price.is_price() && a.price.is_price(),
        fill.is_price(),
    ensures
        price_improvement_spec(quote, side, fill) == Err::<PriceImprovement, TcaError>(
            TcaError::UndefinedSpread,
        ),
{
    let b = quote.bid->Some_0.price;
    let a = quote.ask->Some_0.price;
    let s = common_scale(b, a, fill);
    lemma_same_value_at_scale(b, a, s);
}

/// Two decimals that denote the same number have equal mantissas at any common
/// larger scale.
pub proof fn lemma_same_value_at_scale(x: Fixed, y: Fixed, s: nat)
    requires
        x.same_value(y),
        x.scale <= s,
        y.scale <= s,
    ensures
        x.at_scale(s) == y.at_scale(s),
{
    let dx = (s - x.scale) as nat;
    let dy = (s - y.scale) as nat;
    let px = pow10(x.scale as nat);
    let py = pow10(y.scale as nat);
    let ps = pow10(s);
    lemma_pow10_add(dx, x.scale as nat);
    lemma_pow10_add(dy, y.scale as nat);
    lemma_pow10_mono(0, x.scale as nat);
    lemma_pow10_mono(0, y.scale as nat);
    let u = x.at_scale(s);
    let v = y.at_scale(s);
    let xm = x.mantissa as int;
    let ym = y.mantissa as int;
    assert(u * px * py == v * px * py) by (nonlinear_arith)
        requires
            u == xm * pow10(dx),
            v == ym * pow10(dy),
            pow10(dx) * px == ps,
            pow10(dy) * py == ps,
            xm * py == ym * px,
    ;
    assert(u == v) by (nonlinear_arith)
        requires
            u * px * py == v * px * py,
            px > 0,
            py > 0,
    ;
}

} // verus!
