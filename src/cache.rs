//! The most recent quote of each symbol.
use vstd::prelude::*;
use crate::model::Quote;

verus! {

/// Holds the latest quote seen for each symbol; an update replaces the entry
/// of its symbol unconditionally (last write wins).
pub struct QuoteCache {
    entries: Vec<Quote>,
    latest: Ghost<Map<Seq<char>, Quote>>,
}

impl View for QuoteCache {
    type V = Map<Seq<char>, Quote>;

    /// Symbol to its latest quote.
    closed spec fn view(&self) -> Map<Seq<char>, Quote> {
        self.latest@
    }
}

impl QuoteCache {
    /// One entry per symbol, and the entries are exactly the map's contents.
    pub closed spec fn wf(&self) -> bool {
        &&& forall|i: int, j: int|
            0 <= i < j < self.entries@.len() ==> #[trigger] self.entries@[i].symbol@
                != #[trigger] self.entries@[j].symbol@
        &&& forall|i: int|
            0 <= i < self.entries@.len() ==> self.latest@.contains_key(
                #[trigger] self.entries@[i].symbol@,
            ) && self.latest@[self.entries@[i].symbol@] == self.entries@[i]
        &&& forall|k: Seq<char>| #[trigger]
            self.latest@.contains_key(k) ==> exists|i: int|
                0 <= i < self.entries@.len() && #[trigger] self.entries@[i].symbol@ == k
    }

    /// An empty cache.
    pub fn new() -> (r: QuoteCache)
        ensures
            r.wf(),
            r@ == Map::<Seq<char>, Quote>::empty(),
    {
        QuoteCache { entries: Vec::new(), latest: Ghost(Map::empty()) }
    }

    /// Where the entry of `symbol` stands, if there is one.
    fn position(&self, symbol: &String) -> (r: Option<usize>)
        requires
            self.wf(),
        ensures
            r matches Some(i) ==> i < self.entries@.len() && self.entries@[i as int].symbol@
                == symbol@,
            r is None ==> forall|i: int|
                0 <= i < self.entries@.len() ==> #[trigger] self.entries@[i].symbol@ != symbol@,
    {
        let mut i: usize = 0;
        while i < self.entries.len()
            invariant
                i <= self.entries@.len(),
                forall|j: int| 0 <= j < i ==> #[trigger] self.entries@[j].symbol@ != symbol@,
            decreases self.entries@.len() - i,
        {
            if self.entries[i].symbol == *symbol {
                return Some(i);
            }
            i = i + 1;
        }
        None
    }

    /// The latest quote of `symbol`, or `None` if none was ever stored.
    pub fn lookup(&self, symbol: &String) -> (r: Option<Quote>)
        requires
            self.wf(),
        ensures
            r == (if self@.contains_key(symbol@) {
                Some(self@[symbol@])
            } else {
                None
            }),
    {
        match self.position(symbol) {
            Some(i) => Some(self.entries[i].clone()),
            None => {
                assert(!self@.contains_key(symbol@));
                None
            },
        }
    }

    /// Stores `quote` as the latest of its symbol, replacing any earlier one.
    pub fn update(&mut self, quote: Quote)
        requires
            old(self).wf(),
        ensures
            final(self).wf(),
            final(self)@ == old(self)@.insert(quote.symbol@, quote),
    {
        let ghost key = quote.symbol@;
        let ghost q = quote;
        let ghost mut at: int = 0;
        match self.position(&quote.symbol) {
            Some(i) => {
                self.entries.set(i, quote);
                proof {
                    at = i as int;
                }
            },
            None => {
                self.entries.push(quote);
                proof {
                    at = self.entries@.len() - 1;
                }
            },
        }
        self.latest = Ghost(self.latest@.insert(key, q));
        assert(self.entries@[at].symbol@ == key);
        assert forall|k: Seq<char>| #[trigger] self.latest@.contains_key(k) implies exists|i: int|
            0 <= i < self.entries@.len() && #[trigger] self.entries@[i].symbol@ == k by {
            if k != key {
                assert(old(self).latest@.contains_key(k));
                let i = choose|i: int|
                    0 <= i < old(self).entries@.len() && #[trigger] old(self).entries@[i].symbol@
                        == k;
                assert(self.entries@[i].symbol@ == k);
            }
        }
    }
}

/// The contents of a cache holding `m` after `quotes` are applied in order.
pub open spec fn apply_updates(m: Map<Seq<char>, Quote>, quotes: Seq<Quote>) -> Map<
    Seq<char>,
    Quote,
>
    decreases quotes.len(),
{
    if quotes.len() == 0 {
        m
    } else {
        apply_updates(m, quotes.drop_last()).insert(quotes.last().symbol@, quotes.last())
    }
}

/// Last write wins: after a sequence of updates to one symbol, the cache holds
/// exactly the last quote applied for it.
pub proof fn lemma_last_write_wins(m: Map<Seq<char>, Quote>, quotes: Seq<Quote>, symbol: Seq<char>)
    requires
        quotes.len() > 0,
        forall|i: int| 0 <= i < quotes.len() ==> #[trigger] quotes[i].symbol@ == symbol,
    ensures
        apply_updates(m, quotes).contains_key(symbol),
        apply_updates(m, quotes)[symbol] == quotes.last(),
{
    assert(quotes.last().symbol@ == symbol);
}

/// A symbol that no update names stays absent from a cache that started without it.
pub proof fn lemma_unseen_symbol_absent(
    m: Map<Seq<char>, Quote>,
    quotes: Seq<Quote>,
    symbol: Seq<char>,
)
    requires
        !m.contains_key(symbol),
        forall|i: int| 0 <= i < quotes.len() ==> #[trigger] quotes[i].symbol@ != symbol,
    ensures
        !apply_updates(m, quotes).contains_key(symbol),
    decreases quotes.len(),
{
    if quotes.len() > 0 {
        let rest = quotes.drop_last();
        assert forall|i: int| 0 <= i < rest.len() implies #[trigger] rest[i].symbol@ != symbol by {
            assert(rest[i] == quotes[i]);
        }
        lemma_unseen_symbol_absent(m, rest, symbol);
        assert(quotes[quotes.len() - 1].symbol@ != symbol);
    }
}

} // verus!
