//! Per-event failures of the analysis.
use vstd::prelude::*;

verus! {

/// Why no metrics were produced for an event.
#[derive(Clone, Copy, Debug, PartialEq, Eq, Structural)]
pub enum TcaError {
    /// The quote has no bid side.
    MissingBid,
    /// The quote has no ask side.
    MissingAsk,
    /// A fill arrived for a symbol whose quote was never seen.
    NoQuoteForSymbol,
    /// The filled order carries no client order identifier.
    MissingClientOrderId,
    /// Execution speed asked of an order that is not filled.
    OrderNotFilled,
    /// The submitted-at or filled-at timestamp is absent.
    MissingTimestamp,
    /// The quoted spread is zero, so the effective-over-quoted ratio is undefined.
    UndefinedSpread,
    /// A bid, ask or fill price lies outside the accepted price range.
    PriceOutOfRange,
    /// The effective-over-quoted ratio is too large for a decimal.
    RatioOutOfRange,
    /// The elapsed time does not fit in 64 bits of microseconds.
    DurationOutOfRange,
}

impl TcaError {
    /// A short description of the failure.
    pub fn message(&self) -> (r: &'static str) {
        match self {
            TcaError::MissingBid => "Missing bid quote",
            TcaError::MissingAsk => "Missing ask quote",
            TcaError::NoQuoteForSymbol => "No last quote",
            TcaError::MissingClientOrderId => "Missing client_order_id",
            TcaError::OrderNotFilled => {
                "Execution speed can't be calculated for unfilled order"
            },
            TcaError::MissingTimestamp => "Missing submitted_at or filled_at value",
            TcaError::UndefinedSpread => "Quoted spread is zero",
            TcaError::PriceOutOfRange => "Price outside the accepted range",
            TcaError::RatioOutOfRange => "Effective over quoted spread overflows",
            TcaError::DurationOutOfRange => "Execution time overflows",
        }
    }
}

} // verus!
