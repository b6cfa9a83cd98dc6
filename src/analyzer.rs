//! Dispatch of inbound messages: quotes feed the cache, fills yield metric records.
use vstd::prelude::*;
use crate::cache::{apply_updates, lemma_unseen_symbol_absent, QuoteCache};
use crate::error::TcaError;
use crate::fixed::Fixed;
use crate::metrics::{
    execution_speed,
    execution_speed_spec,
    price_improvement,
    price_improvement_spec,
    ExecutionSpeed,
    PriceImprovement,
};
use crate::model::{Order, OrderEvent, OrderStatus, OrderUpdate, Quote, TcaInput};

verus! {

/// One metric of a fill.
#[derive(Clone, Copy, Debug, PartialEq, Eq)]
pub enum TcaMetric {
    PriceImprovement(PriceImprovement),
    ExecutionSpeed(ExecutionSpeed),
    EffectiveSpread(Fixed),
    QuotedSpread(Fixed),
    Efq(Fixed),
}

/// A metric record, tagged with the identifier of the order it was computed for.
#[derive(Debug)]
pub struct TcaOutput {
    pub metric: TcaMetric,
    pub client_order_id: String,
}

/// The quote held for `symbol` in a cache with contents `m`.
pub open spec fn latest_quote(m: Map<Seq<char>, Quote>, symbol: Seq<char>) -> Option<Quote> {
    if m.contains_key(symbol) {
        Some(m[symbol])
    } else {
        None
    }
}

/// The records owed for a fill of `order` at `price`, given the quote held for
/// its symbol: execution speed, then price improvement, both tagged with the
/// client order identifier.
pub open spec fn fill_outputs_spec(order: Order, price: Fixed, quote: Option<Quote>) -> Result<
    Seq<TcaOutput>,
    TcaError,
> {
    match order.client_order_id {
        None => Err(TcaError::MissingClientOrderId),
        Some(id) => match quote {
            None => Err(TcaError::NoQuoteForSymbol),
            Some(q) => match execution_speed_spec(order) {
                Err(e) => Err(e),
                Ok(speed) => match price_improvement_spec(q, order.side, price) {
                    Err(e) => Err(e),
                    Ok(pi) => Ok(
                        seq![
                            TcaOutput { metric: TcaMetric::ExecutionSpeed(speed), client_order_id: id },
                            TcaOutput { metric: TcaMetric::PriceImprovement(pi), client_order_id: id },
                        ],
                    ),
                },
            },
        },
    }
}

/// The cache contents after `input`, from contents `m`.
pub open spec fn next_quotes(m: Map<Seq<char>, Quote>, input: TcaInput) -> Map<Seq<char>, Quote> {
    match input {
        TcaInput::Quote(q) => m.insert(q.symbol@, q),
        TcaInput::OrderUpdate(_) => m,
    }
}

/// What handling `input` returns with cache contents `m`: nothing for a quote
/// or an order event other than a fill, the fill's records for a fill.
pub open spec fn handle_spec(m: Map<Seq<char>, Quote>, input: TcaInput) -> Result<
    Option<Seq<TcaOutput>>,
    TcaError,
> {
    match input {
        TcaInput::Quote(_) => Ok(None),
        TcaInput::OrderUpdate(u) => match u.event.fill_price_spec() {
            Some(price) => match fill_outputs_spec(u.order, price, latest_quote(m, u.order.symbol@)) {
                Ok(s) => Ok(Some(s)),
                Err(e) => Err(e),
            },
            None => Ok(None),
        },
    }
}

/// A returned list of records, seen as a sequence.
pub open spec fn outputs_view(r: Result<Vec<TcaOutput>, TcaError>) -> Result<Seq<TcaOutput>, TcaError> {
    match r {
        Ok(v) => Ok(v@),
        Err(e) => Err(e),
    }
}

/// A returned optional list of records, seen as a sequence.
pub open spec fn handled_view(r: Result<Option<Vec<TcaOutput>>, TcaError>) -> Result<
    Option<Seq<TcaOutput>>,
    TcaError,
> {
    match r {
        Ok(Some(v)) => Ok(Some(v@)),
        Ok(None) => Ok(None),
        Err(e) => Err(e),
    }
}

/// The records of a fill of `order` at `fill_price`, computed against `quote`,
/// the quote held for the order's symbol (if any). Any failure yields no record.
pub fn fill_outputs(order: &Order, fill_price: Fixed, quote: Option<Quote>) -> (r: Result<
    Vec<TcaOutput>,
    TcaError,
>)
    ensures
        outputs_view(r) == fill_outputs_spec(*order, fill_price, quote),
{
    let id = match &order.client_order_id {
        Some(id) => id,
        None => return Err(TcaError::MissingClientOrderId),
    };
    let quote = match quote {
        Some(q) => q,
        None => return Err(TcaError::NoQuoteForSymbol),
    };
    let speed = match execution_speed(order) {
        Ok(s) => s,
        Err(e) => return Err(e),
    };
    let improvement = match price_improvement(&quote, &order.side, fill_price) {
        Ok(p) => p,
        Err(e) => return Err(e),
    };
    let mut out: Vec<TcaOutput> = Vec::new();
    out.push(TcaOutput { metric: TcaMetric::ExecutionSpeed(speed), client_order_id: id.clone() });
    out.push(
        TcaOutput { metric: TcaMetric::PriceImprovement(improvement), client_order_id: id.clone() },
    );
    proof {
        let id_spec = order.client_order_id->Some_0;
        assert(out@ =~= seq![
            TcaOutput { metric: TcaMetric::ExecutionSpeed(speed), client_order_id: id_spec },
            TcaOutput { metric: TcaMetric::PriceImprovement(improvement), client_order_id: id_spec },
        ]);
    }
    Ok(out)
}

/// Owns the quote cache and turns each inbound message into metric records.
pub struct TransactionCostAnalyzer {
    quotes: QuoteCache,
}

impl View for TransactionCostAnalyzer {
    type V = Map<Seq<char>, Quote>;

    /// The latest quote of each symbol seen so far.
    closed spec fn view(&self) -> Map<Seq<char>, Quote> {
        self.quotes@
    }
}

impl TransactionCostAnalyzer {
    pub closed spec fn wf(&self) -> bool {
        self.quotes.wf()
    }

    /// An analyzer that has seen no quote.
    pub fn new() -> (r: TransactionCostAnalyzer)
        ensures
            r.wf(),
            r@ == Map::<Seq<char>, Quote>::empty(),
    {
        TransactionCostAnalyzer { quotes: QuoteCache::new() }
    }

    /// The latest quote of `symbol`, if one was seen.
    pub fn last_quote(&self, symbol: &String) -> (r: Option<Quote>)
        requires
            self.wf(),
        ensures
            r == latest_quote(self@, symbol@),
    {
        self.quotes.lookup(symbol)
    }

    /// Handles one message. A quote replaces the cached quote of its symbol and
    /// yields nothing; a fill yields its records, computed against the cached
    /// quote of the order's symbol; any other order event yields nothing.
    pub fn handle_message(&mut self, input: TcaInput) -> (r: Result<Option<Vec<TcaOutput>>, TcaError>)
        requires
            old(self).wf(),
        ensures
            final(self).wf(),
            final(self)@ == next_quotes(old(self)@, input),
            handled_view(r) == handle_spec(old(self)@, input),
    {
        match input {
            TcaInput::Quote(quote) => {
                self.quotes.update(quote);
                Ok(None)
            },
            TcaInput::OrderUpdate(update) => match update.event.fill_price() {
                Some(price) => {
                    let quote = self.quotes.lookup(&update.order.symbol);
                    match fill_outputs(&update.order, price, quote) {
                        Ok(out) => Ok(Some(out)),
                        Err(e) => Err(e),
                    }
                },
                None => Ok(None),
            },
        }
    }

    /// The topic every record is published to.
    pub fn assign_topic(&self, output: &TcaOutput) -> (r: &'static str)
        ensures
            r@ == "tca"@,
    {
        proof {
            reveal_strlit("tca");
        }
        "tca"
    }

    /// The partition key of a record: its client order identifier.
    pub fn assign_key(&self, output: &TcaOutput) -> (r: String)
        ensures
            r@ == output.client_order_id@,
    {
        output.client_order_id.clone()
    }
}

/// The message announcing a fill of `order` at `price`.
pub open spec fn fill_message(order: Order, price: Fixed) -> TcaInput {
    TcaInput::OrderUpdate(OrderUpdate { event: OrderEvent::Fill { price }, order })
}

/// A fill for a symbol that no quote ever named fails with `NoQuoteForSymbol`
/// (when it carries a client order identifier), starting from an empty cache.
pub proof fn lemma_fill_without_quote(quotes: Seq<Quote>, order: Order, price: Fixed)
    requires
        order.client_order_id is Some,
        forall|i: int| 0 <= i < quotes.len() ==> #[trigger] quotes[i].symbol@ != order.symbol@,
    ensures
        latest_quote(apply_updates(Map::empty(), quotes), order.symbol@) is None,
        handle_spec(apply_updates(Map::empty(), quotes), fill_message(order, price)) == Err::<
            Option<Seq<TcaOutput>>,
            TcaError,
        >(TcaError::NoQuoteForSymbol),
{
    lemma_unseen_symbol_absent(Map::empty(), quotes, order.symbol@);
}

/// An order that is not filled has no execution speed, and its fill message
/// yields no record.
pub proof fn lemma_unfilled_order_no_output(m: Map<Seq<char>, Quote>, order: Order, price: Fixed)
    requires
        order.status != OrderStatus::Filled,
    ensures
        execution_speed_spec(order) == Err::<ExecutionSpeed, TcaError>(TcaError::OrderNotFilled),
        handle_spec(m, fill_message(order, price)) is Err,
{
}

} // verus!
