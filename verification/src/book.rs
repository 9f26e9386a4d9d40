//! Order books as both venues' feeds are normalised to.

use vstd::prelude::*;
use vstd::pervasive::unreached;
use crate::decimal::{parse_decimal, parse_units};
use crate::units::{quotable, MAX_UNITS};

verus! {

/// One level of an order book: a price and the quantity on offer at it.
///
/// Both are strictly positive and at most [`MAX_UNITS`]; no other value of
/// this type exists.
#[derive(Clone, Copy, Debug, PartialEq, Eq)]
pub struct Data {
    qty: u64,
    price: u64,
}

impl Data {
    /// The price, in price units.
    pub closed spec fn spec_price(&self) -> u64 {
        self.price
    }

    /// The quantity, in quantity units.
    pub closed spec fn spec_qty(&self) -> u64 {
        self.qty
    }

    /// Whether price and quantity are quotable, as they are in every level.
    #[verifier::type_invariant]
    pub open spec fn wf(&self) -> bool {
        quotable(self.spec_price() as int) && quotable(self.spec_qty() as int)
    }

    /// A level with the given price and quantity, if both are quotable.
    pub fn new(price: u64, qty: u64) -> (level: Option<Data>)
        ensures
            level is Some <==> quotable(price as int) && quotable(qty as int),
            level matches Some(d) ==> d.spec_price() == price && d.spec_qty() == qty && d.wf(),
    {
        if 1 <= price && price <= MAX_UNITS && 1 <= qty && qty <= MAX_UNITS {
            Some(Data { qty, price })
        } else {
            None
        }
    }

    /// A level is its price and its quantity, and nothing more.
    pub proof fn lemma_same_quote_same_level(self, other: Data)
        requires
            self.spec_price() == other.spec_price(),
            self.spec_qty() == other.spec_qty(),
        ensures
            self == other,
    {
    }

    /// The price, in price units.
    #[verifier::when_used_as_spec(spec_price)]
    pub fn price(&self) -> (price: u64)
        ensures
            price == self.spec_price(),
            quotable(price as int),
    {
        proof {
            use_type_invariant(self);
        }
        self.price
    }

    /// The quantity, in quantity units.
    #[verifier::when_used_as_spec(spec_qty)]
    pub fn qty(&self) -> (qty: u64)
        ensures
            qty == self.spec_qty(),
            quotable(qty as int),
    {
        proof {
            use_type_invariant(self);
        }
        self.qty
    }
}

/// The bids and asks of one venue for one pair, best first.
#[derive(Debug, PartialEq, Eq)]
pub struct OrderBook {
    pub bids: Vec<Data>,
    pub asks: Vec<Data>,
}

impl Clone for OrderBook {
    fn clone(&self) -> (book: Self)
        ensures
            book.bids@ == self.bids@,
            book.asks@ == self.asks@,
    {
        OrderBook { bids: self.bids.clone(), asks: self.asks.clone() }
    }
}

/// The price and quantity that a pair of unit counts quotes, if both are
/// quotable.
pub open spec fn quote_of_units(pair: [u64; 2]) -> Option<(u64, u64)> {
    if quotable(pair[0] as int) && quotable(pair[1] as int) {
        Some((pair[0], pair[1]))
    } else {
        None
    }
}

/// The price and quantity that a pair of numerals quotes, if both are
/// numerals of quotable value.
pub open spec fn quote_of_strings(pair: [String; 2]) -> Option<(u64, u64)> {
    match (parse_units(pair[0]@), parse_units(pair[1]@)) {
        (Some(price), Some(qty)) => quote_of_units([price, qty]),
        _ => None,
    }
}

/// What each pair of unit counts quotes, in their order.
pub open spec fn quotes_of_units(pairs: Seq<[u64; 2]>) -> Seq<Option<(u64, u64)>> {
    pairs.map_values(|pair: [u64; 2]| quote_of_units(pair))
}

/// What each pair of numerals quotes, in their order.
pub open spec fn quotes_of_strings(pairs: Seq<[String; 2]>) -> Seq<Option<(u64, u64)>> {
    pairs.map_values(|pair: [String; 2]| quote_of_strings(pair))
}

/// Whether `levels` are the quotes, one for one and in their order.
pub open spec fn levels_are(levels: Seq<Data>, quotes: Seq<Option<(u64, u64)>>) -> bool {
    &&& levels.len() == quotes.len()
    &&& forall|i: int|
        0 <= i < quotes.len() ==> #[trigger] quotes[i] == Some(
            (levels[i].price(), levels[i].qty()),
        )
}

/// Whether every quote is there.
pub open spec fn all_quoted(quotes: Seq<Option<(u64, u64)>>) -> bool {
    forall|i: int| 0 <= i < quotes.len() ==> #[trigger] quotes[i] is Some
}

/// Levels that are the first `i` quotes, with the level of the next quote put
/// behind them, are the first `i + 1` quotes.
proof fn lemma_levels_extend(
    levels: Seq<Data>,
    quotes: Seq<Option<(u64, u64)>>,
    i: int,
    level: Data,
)
    requires
        0 <= i < quotes.len(),
        levels_are(levels, quotes.take(i)),
        quotes[i] == Some((level.price(), level.qty())),
    ensures
        levels_are(levels.push(level), quotes.take(i + 1)),
{
    let before = quotes.take(i);
    let after = quotes.take(i + 1);
    let longer = levels.push(level);
    assert forall|k: int| 0 <= k < after.len() implies #[trigger] after[k] == Some(
        (longer[k].price(), longer[k].qty()),
    ) by {
        if k < i {
            assert(before[k] == after[k]);
        } else {
            assert(after[k] == quotes[i]);
        }
    }
}

/// The levels that the pairs of unit counts quote, if every pair quotes one.
fn levels_from_units(pairs: &Vec<[u64; 2]>) -> (levels: Option<Vec<Data>>)
    ensures
        levels is Some <==> all_quoted(quotes_of_units(pairs@)),
        levels matches Some(found) ==> levels_are(found@, quotes_of_units(pairs@)),
{
    let ghost quotes = quotes_of_units(pairs@);
    let mut levels: Vec<Data> = Vec::new();
    let mut i: usize = 0;
    while i < pairs.len()
        invariant
            i <= pairs.len(),
            quotes == quotes_of_units(pairs@),
            levels_are(levels@, quotes.take(i as int)),
        decreases pairs.len() - i,
    {
        let pair = &pairs[i];
        let level = match Data::new(pair[0], pair[1]) {
            Some(level) => level,
            None => {
                assert(quotes[i as int] is None);
                return None;
            },
        };
        proof {
            lemma_levels_extend(levels@, quotes, i as int, level);
        }
        levels.push(level);
        i += 1;
    }
    assert(quotes.take(i as int) =~= quotes);
    Some(levels)
}

/// The levels that the pairs of numerals quote, if every pair quotes one.
fn levels_from_strings(pairs: &Vec<[String; 2]>) -> (levels: Option<Vec<Data>>)
    ensures
        levels is Some <==> all_quoted(quotes_of_strings(pairs@)),
        levels matches Some(found) ==> levels_are(found@, quotes_of_strings(pairs@)),
{
    let ghost quotes = quotes_of_strings(pairs@);
    let mut levels: Vec<Data> = Vec::new();
    let mut i: usize = 0;
    while i < pairs.len()
        invariant
            i <= pairs.len(),
            quotes == quotes_of_strings(pairs@),
            levels_are(levels@, quotes.take(i as int)),
        decreases pairs.len() - i,
    {
        let pair = &pairs[i];
        let price = match parse_decimal(pair[0].as_str()) {
            Some(price) => price,
            None => {
                assert(quotes[i as int] is None);
                return None;
            },
        };
        let qty = match parse_decimal(pair[1].as_str()) {
            Some(qty) => qty,
            None => {
                assert(quotes[i as int] is None);
                return None;
            },
        };
        let level = match Data::new(price, qty) {
            Some(level) => level,
            None => {
                assert(quotes[i as int] is None);
                return None;
            },
        };
        proof {
            lemma_levels_extend(levels@, quotes, i as int, level);
        }
        levels.push(level);
        i += 1;
    }
    assert(quotes.take(i as int) =~= quotes);
    Some(levels)
}

impl OrderBook {
    /// The book that a feed of numerals quotes: each bid and each ask a pair
    /// of numerals, the price first and the quantity second. Nothing if any
    /// of them is no numeral, or is one of a value that is not quotable.
    pub fn try_new_from_string(bids: Vec<[String; 2]>, asks: Vec<[String; 2]>) -> (book: Option<
        Self,
    >)
        ensures
            book is Some <==> all_quoted(quotes_of_strings(bids@)) && all_quoted(
                quotes_of_strings(asks@),
            ),
            book matches Some(found) ==> levels_are(found.bids@, quotes_of_strings(bids@))
                && levels_are(found.asks@, quotes_of_strings(asks@)),
    {
        let bids = match levels_from_strings(&bids) {
            Some(levels) => levels,
            None => {
                return None;
            },
        };
        let asks = match levels_from_strings(&asks) {
            Some(levels) => levels,
            None => {
                return None;
            },
        };
        Some(Self { bids, asks })
    }

    /// The book that a feed of numerals quotes: each bid and each ask a pair
    /// of numerals, the price first and the quantity second.
    ///
    /// That every string is a numeral of quotable value is for the caller
    /// to see to; [`OrderBook::try_new_from_string`] takes any strings.
    pub fn new_from_string(bids: Vec<[String; 2]>, asks: Vec<[String; 2]>) -> (book: Self)
        requires
            all_quoted(quotes_of_strings(bids@)),
            all_quoted(quotes_of_strings(asks@)),
        ensures
            levels_are(book.bids@, quotes_of_strings(bids@)),
            levels_are(book.asks@, quotes_of_strings(asks@)),
    {
        match Self::try_new_from_string(bids, asks) {
            Some(book) => book,
            None => unreached(),
        }
    }

    /// The book that pairs of unit counts quote: each bid and each ask the
    /// price first and the quantity second. Nothing if any count is not
    /// quotable.
    pub fn new_from_units(bids: Vec<[u64; 2]>, asks: Vec<[u64; 2]>) -> (book: Option<Self>)
        ensures
            book is Some <==> all_quoted(quotes_of_units(bids@))
                && all_quoted(quotes_of_units(asks@)),
            book matches Some(found) ==> levels_are(found.bids@, quotes_of_units(bids@))
                && levels_are(found.asks@, quotes_of_units(asks@)),
    {
        let bids = match levels_from_units(&bids) {
            Some(levels) => levels,
            None => {
                return None;
            },
        };
        let asks = match levels_from_units(&asks) {
            Some(levels) => levels,
            None => {
                return None;
            },
        };
        Some(Self { bids, asks })
    }

    /// The highest bid, if there is any bid.
    pub open spec fn spec_best_bid(&self) -> Option<Data> {
        if self.bids@.len() > 0 {
            Some(self.bids@[0])
        } else {
            None
        }
    }

    /// The lowest ask, if there is any ask.
    pub open spec fn spec_best_ask(&self) -> Option<Data> {
        if self.asks@.len() > 0 {
            Some(self.asks@[0])
        } else {
            None
        }
    }

    /// The highest bid, if there is any bid.
    #[verifier::when_used_as_spec(spec_best_bid)]
    pub fn best_bid(&self) -> (level: Option<Data>)
        ensures
            level == self.spec_best_bid(),
    {
        if self.bids.len() > 0 {
            Some(self.bids[0])
        } else {
            None
        }
    }

    /// The lowest ask, if there is any ask.
    #[verifier::when_used_as_spec(spec_best_ask)]
    pub fn best_ask(&self) -> (level: Option<Data>)
        ensures
            level == self.spec_best_ask(),
    {
        if self.asks.len() > 0 {
            Some(self.asks[0])
        } else {
            None
        }
    }
}

} // verus!
