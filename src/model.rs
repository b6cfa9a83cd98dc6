//! Market quotes and order-lifecycle events, as the analysis reads them.
use vstd::prelude::*;
use crate::fixed::Fixed;

verus! {

/// One side of the top of the book.
#[derive(Clone, Copy, Debug, PartialEq, Eq)]
pub struct BookLevel {
    pub price: Fixed,
    pub size: u64,
}

/// Top-of-book snapshot for a symbol; `timestamp` in microseconds since the Unix epoch.
#[derive(Debug)]
pub struct Quote {
    pub symbol: String,
    pub bid: Option<BookLevel>,
    pub ask: Option<BookLevel>,
    pub timestamp: i64,
}

impl Clone for Quote {
    fn clone(&self) -> (r: Quote)
        ensures
            r == *self,
    {
        Quote { symbol: self.symbol.clone(), bid: self.bid, ask: self.ask, timestamp: self.timestamp }
    }
}

#[derive(Clone, Copy, Debug, PartialEq, Eq, Structural)]
pub enum Side {
    Buy,
    Sell,
}

#[derive(Clone, Copy, Debug, PartialEq, Eq, Structural)]
pub enum OrderStatus {
    New,
    PartiallyFilled,
    Filled,
    DoneForDay,
    Canceled,
    Expired,
    Replaced,
    PendingCancel,
    PendingReplace,
    Accepted,
    PendingNew,
    AcceptedForBidding,
    Stopped,
    Rejected,
    Suspended,
    Calculated,
}

/// An order as reported by the broker; timestamps in microseconds since the Unix epoch.
#[derive(Debug)]
pub struct Order {
    pub client_order_id: Option<String>,
    pub symbol: String,
    pub side: Side,
    pub status: OrderStatus,
    pub submitted_at: Option<i64>,
    pub filled_at: Option<i64>,
}

/// What happened to an order.
#[derive(Clone, Copy, Debug, PartialEq, Eq)]
pub enum OrderEvent {
    New,
    Fill { price: Fixed },
    PartialFill { price: Fixed },
    Canceled,
    Expired,
    DoneForDay,
    Replaced,
    Rejected,
    PendingNew,
    Stopped,
    PendingCancel,
    PendingReplace,
    Calculated,
    Suspended,
    OrderReplaceRejected,
    OrderCancelRejected,
}

impl OrderEvent {
    /// The fill price, for a complete fill; no other event (a partial fill
    /// included) triggers the analysis.
    pub open spec fn fill_price_spec(self) -> Option<Fixed> {
        match self {
            OrderEvent::Fill { price } => Some(price),
            _ => None,
        }
    }

    pub fn fill_price(&self) -> (r: Option<Fixed>)
        ensures
            r == self.fill_price_spec(),
    {
        match self {
            OrderEvent::Fill { price } => Some(*price),
            _ => None,
        }
    }
}

/// An order-lifecycle message: the event and the order it concerns.
#[derive(Debug)]
pub struct OrderUpdate {
    pub event: OrderEvent,
    pub order: Order,
}

/// An inbound message: a market quote or an order-lifecycle update.
#[derive(Debug)]
pub enum TcaInput {
    Quote(Quote),
    OrderUpdate(OrderUpdate),
}

} // verus!
