//! The decision: whether the two books cross by more than both venues'
//! fees, which way round, and on what terms.

use vstd::prelude::*;
use crate::book::{Data, OrderBook};
use crate::fees::{fee_rate, notional, spec_fee_rate, Venue};
use crate::market::Symbol;
use crate::units::{quotable, AMOUNT_PER_UNIT, MAX_UNITS};

verus! {

/// The terms of a trade, as mathematical integers.
pub struct Terms {
    /// The price paid on the venue bought on, in price units.
    pub ask_price: int,
    /// The price received on the venue sold on, in price units.
    pub bid_price: int,
    /// The quantity of both legs, in quantity units.
    pub qty: int,
    /// The pair traded.
    pub symbol: Symbol,
    /// Both legs' fees, negated, in amount units.
    pub costs: int,
}

impl Terms {
    /// Whether these terms can be carried out: quotable prices and
    /// quantity, and costs that are a deduction.
    pub open spec fn valid(self) -> bool {
        &&& quotable(self.ask_price)
        &&& quotable(self.bid_price)
        &&& quotable(self.qty)
        &&& i128::MIN <= self.costs <= 0
    }
}

/// The terms on which both legs of a trade are carried out. Every value of
/// this type is valid.
#[derive(Debug, PartialEq, Eq)]
pub struct TradeTerms {
    ask_price: u64,
    bid_price: u64,
    qty: u64,
    symbol: Symbol,
    costs: i128,
}

impl View for TradeTerms {
    type V = Terms;

    closed spec fn view(&self) -> Terms {
        Terms {
            ask_price: self.ask_price as int,
            bid_price: self.bid_price as int,
            qty: self.qty as int,
            symbol: self.symbol,
            costs: self.costs as int,
        }
    }
}

impl TradeTerms {
    /// Whether the terms are valid, as they are in every value of this type.
    #[verifier::type_invariant]
    pub open spec fn wf(&self) -> bool {
        self@.valid()
    }

    /// Terms are what their view shows, and nothing more.
    pub proof fn lemma_same_view_same_terms(self, other: TradeTerms)
        requires
            self@ == other@,
        ensures
            self == other,
    {
    }

    /// The given terms, if they are valid.
    pub fn new(
        ask_price: u64,
        bid_price: u64,
        qty: u64,
        symbol: Symbol,
        costs: i128,
    ) -> (terms: Option<TradeTerms>)
        ensures
            terms is Some <==> (Terms {
                ask_price: ask_price as int,
                bid_price: bid_price as int,
                qty: qty as int,
                symbol,
                costs: costs as int,
            }).valid(),
            terms matches Some(t) ==> t@ == (Terms {
                ask_price: ask_price as int,
                bid_price: bid_price as int,
                qty: qty as int,
                symbol,
                costs: costs as int,
            }),
    {
        if 1 <= ask_price && ask_price <= MAX_UNITS && 1 <= bid_price && bid_price <= MAX_UNITS
            && 1 <= qty && qty <= MAX_UNITS && costs <= 0 {
            Some(TradeTerms { ask_price, bid_price, qty, symbol, costs })
        } else {
            None
        }
    }

    /// The price paid on the venue bought on, in price units.
    pub fn ask_price(&self) -> (price: u64)
        ensures
            price == self@.ask_price,
            self@.valid(),
    {
        proof {
            use_type_invariant(self);
        }
        self.ask_price
    }

    /// The price received on the venue sold on, in price units.
    pub fn bid_price(&self) -> (price: u64)
        ensures
            price == self@.bid_price,
            self@.valid(),
    {
        proof {
            use_type_invariant(self);
        }
        self.bid_price
    }

    /// The quantity of both legs, in quantity units.
    pub fn qty(&self) -> (qty: u64)
        ensures
            qty == self@.qty,
            self@.valid(),
    {
        proof {
            use_type_invariant(self);
        }
        self.qty
    }

    /// The pair traded.
    pub fn symbol(&self) -> (symbol: Symbol)
        ensures
            symbol == self@.symbol,
    {
        self.symbol
    }

    /// Both legs' fees, negated, in amount units.
    pub fn costs(&self) -> (costs: i128)
        ensures
            costs == self@.costs,
            self@.valid(),
    {
        proof {
            use_type_invariant(self);
        }
        self.costs
    }
}

/// The trade to carry out: which venue to sell on, the other being bought
/// on, and the terms.
#[derive(Debug, PartialEq, Eq)]
pub enum TradeAction {
    /// Sell on Binance, buy on Mercado Bitcoin.
    ShortBinance(TradeTerms),
    /// Sell on Mercado Bitcoin, buy on Binance.
    ShortMb(TradeTerms),
}

impl TradeAction {
    /// The venue sold on.
    pub open spec fn spec_short_venue(&self) -> Venue {
        match self {
            TradeAction::ShortBinance(_) => Venue::Binance,
            TradeAction::ShortMb(_) => Venue::Mb,
        }
    }

    /// The terms of both legs.
    pub open spec fn spec_terms(&self) -> TradeTerms {
        match self {
            TradeAction::ShortBinance(terms) => *terms,
            TradeAction::ShortMb(terms) => *terms,
        }
    }

    /// The venue sold on.
    #[verifier::when_used_as_spec(spec_short_venue)]
    pub fn short_venue(&self) -> (venue: Venue)
        ensures
            venue == self.spec_short_venue(),
    {
        match self {
            TradeAction::ShortBinance(_) => Venue::Binance,
            TradeAction::ShortMb(_) => Venue::Mb,
        }
    }

    /// The terms of both legs.
    pub fn terms(&self) -> (terms: &TradeTerms)
        ensures
            *terms == self.spec_terms(),
    {
        match self {
            TradeAction::ShortBinance(terms) => terms,
            TradeAction::ShortMb(terms) => terms,
        }
    }

    /// The trade that sells on `short` on the given terms.
    pub fn new(short: Venue, terms: TradeTerms) -> (action: TradeAction)
        ensures
            action.spec_short_venue() == short,
            action.spec_terms() == terms,
    {
        match short {
            Venue::Binance => TradeAction::ShortBinance(terms),
            Venue::Mb => TradeAction::ShortMb(terms),
        }
    }
}

/// The venue that is not `venue`.
pub open spec fn spec_other(venue: Venue) -> Venue {
    match venue {
        Venue::Binance => Venue::Mb,
        Venue::Mb => Venue::Binance,
    }
}

/// The venue that is not `venue`.
#[verifier::when_used_as_spec(spec_other)]
pub fn other(venue: Venue) -> (across: Venue)
    ensures
        across == spec_other(venue),
{
    match venue {
        Venue::Binance => Venue::Mb,
        Venue::Mb => Venue::Binance,
    }
}

/// The quantity that a bid and an ask can trade against each other: that of
/// the thinner side.
pub open spec fn traded_qty(bid: Data, ask: Data) -> int {
    if bid.qty() <= ask.qty() {
        bid.qty() as int
    } else {
        ask.qty() as int
    }
}

/// The fee that `venue` charges on a leg of `qty` at `price`, in amount
/// units: its rate on the leg's notional, times that notional.
pub open spec fn leg_fee(venue: Venue, price: int, qty: int) -> int {
    spec_fee_rate(venue, price * qty) * (price * qty)
}

/// What selling at `bid` on the venue `short` and buying at `ask` on the
/// other venue comes to.
pub struct Opportunity {
    /// The venue sold on.
    pub short: Venue,
    /// The terms of both legs.
    pub terms: Terms,
    /// The spread less both legs' fees, in amount units.
    pub profit: int,
}

/// The spread between `bid` and `ask`, in amount units: what a trade of them
/// would make if no venue charged a fee.
pub open spec fn raw_spread(bid: Data, ask: Data) -> int {
    (bid.price() - ask.price()) * AMOUNT_PER_UNIT
}

/// The fees of both legs of a trade of `bid`, quoted on the venue `short`,
/// against `ask`, quoted on the other venue, negated: each venue's fee on
/// the traded quantity at its own price.
pub open spec fn total_costs(short: Venue, bid: Data, ask: Data) -> int {
    -leg_fee(short, bid.price() as int, traded_qty(bid, ask)) - leg_fee(
        other(short),
        ask.price() as int,
        traded_qty(bid, ask),
    )
}

/// The trade of `bid`, quoted on the venue `short`, against `ask`, quoted on
/// the other venue.
pub open spec fn opportunity(short: Venue, bid: Data, ask: Data, symbol: Symbol) -> Opportunity {
    Opportunity {
        short,
        terms: Terms {
            ask_price: ask.price() as int,
            bid_price: bid.price() as int,
            qty: traded_qty(bid, ask),
            symbol,
            costs: total_costs(short, bid, ask),
        },
        profit: raw_spread(bid, ask) + total_costs(short, bid, ask),
    }
}

/// The trade of `bid` against `ask` if it does not lose money.
pub open spec fn worthwhile(short: Venue, bid: Data, ask: Data, symbol: Symbol) -> Option<
    Opportunity,
> {
    let found = opportunity(short, bid, ask, symbol);
    if found.profit >= 0 {
        Some(found)
    } else {
        None
    }
}

/// Whether the best bid of `seller` lies above the best ask of `buyer`.
pub open spec fn crosses(seller: OrderBook, buyer: OrderBook) -> bool {
    &&& seller.best_bid() matches Some(bid)
    &&& buyer.best_ask() matches Some(ask)
    &&& bid.price() > ask.price()
}

/// The crossing that two books show, as the venue to sell on, the bid sold
/// to and the ask bought from: none unless each book has a bid and an ask;
/// then Mercado Bitcoin's bid against Binance's ask if it lies above it, else
/// Binance's bid against Mercado Bitcoin's ask if it lies above it.
pub open spec fn spec_crossing(binance: OrderBook, mb: OrderBook) -> Option<(Venue, Data, Data)> {
    if binance.best_bid() is None || binance.best_ask() is None || mb.best_bid() is None
        || mb.best_ask() is None {
        None
    } else if crosses(mb, binance) {
        Some((Venue::Mb, mb.best_bid()->0, binance.best_ask()->0))
    } else if crosses(binance, mb) {
        Some((Venue::Binance, binance.best_bid()->0, mb.best_ask()->0))
    } else {
        None
    }
}

/// The trade that two books offer, whether or not it pays: that of the
/// crossing they show.
pub open spec fn candidate(binance: OrderBook, mb: OrderBook, symbol: Symbol) -> Option<
    Opportunity,
> {
    match spec_crossing(binance, mb) {
        Some((short, bid, ask)) => Some(opportunity(short, bid, ask, symbol)),
        None => None,
    }
}

/// The decision on two books: the trade that they offer, if it does not lose
/// money.
pub open spec fn decision(binance: OrderBook, mb: OrderBook, symbol: Symbol) -> Option<
    Opportunity,
> {
    match candidate(binance, mb, symbol) {
        Some(found) => if found.profit >= 0 {
            Some(found)
        } else {
            None
        },
        None => None,
    }
}

/// Books that cross neither way yield no trade.
pub proof fn lemma_no_crossing_no_trade(binance: OrderBook, mb: OrderBook, symbol: Symbol)
    requires
        !crosses(mb, binance),
        !crosses(binance, mb),
    ensures
        decision(binance, mb, symbol) is None,
{
}

/// A trade is taken exactly when the books offer one whose spread pays for
/// both fees; a spread that equals the fees is enough, and is taken at a
/// profit of zero.
pub proof fn lemma_breakeven_is_taken(binance: OrderBook, mb: OrderBook, symbol: Symbol)
    ensures
        decision(binance, mb, symbol) is Some <==> (candidate(binance, mb, symbol) matches Some(
            found,
        ) && (found.terms.bid_price - found.terms.ask_price) * AMOUNT_PER_UNIT
            >= -found.terms.costs),
        candidate(binance, mb, symbol) matches Some(found) ==> ((found.terms.bid_price
            - found.terms.ask_price) * AMOUNT_PER_UNIT == -found.terms.costs ==> decision(
            binance,
            mb,
            symbol,
        ) == Some(found) && found.profit == 0),
{
}

/// A trade is for the quantity of the thinner of the two levels it consumes,
/// never for more than either offers.
pub proof fn lemma_trades_thinner_side(short: Venue, bid: Data, ask: Data, symbol: Symbol)
    ensures
        opportunity(short, bid, ask, symbol).terms.qty <= bid.qty(),
        opportunity(short, bid, ask, symbol).terms.qty <= ask.qty(),
        opportunity(short, bid, ask, symbol).terms.qty == bid.qty() || opportunity(
            short,
            bid,
            ask,
            symbol,
        ).terms.qty == ask.qty(),
{
}

/// A decision sells on one venue only: on Mercado Bitcoin exactly when its
/// bid crosses Binance's ask, and on Binance only when that is not so and
/// Binance's bid crosses Mercado Bitcoin's ask.
pub proof fn lemma_one_direction(binance: OrderBook, mb: OrderBook, symbol: Symbol)
    ensures
        decision(binance, mb, symbol) matches Some(found) ==> {
            &&& found.short == Venue::Mb <==> crosses(mb, binance)
            &&& found.short == Venue::Binance <==> !crosses(mb, binance) && crosses(binance, mb)
            &&& found.terms.bid_price > found.terms.ask_price
        },
{
}

/// Whether the best bid of `book` does not lie above its own best ask.
pub open spec fn uncrossed(book: OrderBook) -> bool {
    book.best_bid() matches Some(bid) && book.best_ask() matches Some(ask) ==> bid.price()
        <= ask.price()
}

/// Two books that are each uncrossed cannot cross each other both ways.
pub proof fn lemma_crossings_exclude_each_other(binance: OrderBook, mb: OrderBook)
    requires
        uncrossed(binance),
        uncrossed(mb),
    ensures
        !(crosses(mb, binance) && crosses(binance, mb)),
{
}

/// The terms of a trade between two levels are valid, and its fees are a
/// deduction that is never nothing: the profit stays below the spread.
pub proof fn lemma_opportunity_terms(short: Venue, bid: Data, ask: Data, symbol: Symbol)
    requires
        bid.wf(),
        ask.wf(),
    ensures
        opportunity(short, bid, ask, symbol).terms.valid(),
        opportunity(short, bid, ask, symbol).terms.costs < 0,
        opportunity(short, bid, ask, symbol).profit < (bid.price() - ask.price())
            * AMOUNT_PER_UNIT,
{
    let qty = traded_qty(bid, ask);
    lemma_leg_fee_bounds(short, bid.price() as int, qty);
    lemma_leg_fee_bounds(other(short), ask.price() as int, qty);
}

/// The fee on a leg of quotable price and quantity is positive and bounded.
pub proof fn lemma_leg_fee_bounds(venue: Venue, price: int, qty: int)
    requires
        quotable(price),
        quotable(qty),
    ensures
        0 < leg_fee(venue, price, qty) <= 70 * (MAX_UNITS * MAX_UNITS),
{
    let rate = spec_fee_rate(venue, price * qty);
    assert(1 <= price * qty <= MAX_UNITS * MAX_UNITS) by (nonlinear_arith)
        requires
            1 <= price <= MAX_UNITS,
            1 <= qty <= MAX_UNITS,
    ;
    assert(0 < rate * (price * qty) <= 70 * (MAX_UNITS * MAX_UNITS)) by (nonlinear_arith)
        requires
            10 <= rate <= 70,
            1 <= price * qty <= MAX_UNITS * MAX_UNITS,
    ;
}

/// Whether `result` is what the decision `found` asks for.
pub open spec fn carries_out(
    result: Option<(i128, TradeAction)>,
    found: Option<Opportunity>,
) -> bool {
    match found {
        Some(o) => {
            &&& result matches Some((profit, action))
            &&& profit == o.profit
            &&& action.spec_short_venue() == o.short
            &&& action.spec_terms()@ == o.terms
        },
        None => result is None,
    }
}

/// The fee that `venue` charges on a leg of `qty` at `price`, in amount
/// units.
fn fee_of_leg(venue: Venue, price: u64, qty: u64) -> (fee: i128)
    requires
        quotable(price as int),
        quotable(qty as int),
    ensures
        fee == leg_fee(venue, price as int, qty as int),
        0 < fee <= 70 * (MAX_UNITS * MAX_UNITS),
{
    let rate = fee_rate(venue, price, qty);
    let total = notional(price, qty);
    proof {
        lemma_leg_fee_bounds(venue, price as int, qty as int);
    }
    rate as i128 * total as i128
}

/// The figures of a trade of one bid against one ask, in amount units but
/// for the quantity.
#[derive(Clone, Copy, Debug, PartialEq, Eq, Structural)]
pub struct Appraisal {
    /// The quantity traded, in quantity units.
    pub qty: u64,
    /// The spread: the profit if no venue charged a fee.
    pub costless_profit: i128,
    /// Both legs' fees, negated.
    pub costs: i128,
    /// The spread less both legs' fees.
    pub profit: i128,
}

/// Works out what selling at `bid` on the venue `short` and buying at `ask`
/// on the other venue comes to, whether or not it pays.
pub fn appraisal(short: Venue, bid: Data, ask: Data) -> (figures: Appraisal)
    ensures
        figures.qty == traded_qty(bid, ask),
        figures.costless_profit == raw_spread(bid, ask),
        figures.costs == total_costs(short, bid, ask),
        figures.profit == raw_spread(bid, ask) + total_costs(short, bid, ask),
        quotable(figures.qty as int),
        figures.costs < 0,
{
    let qty = if bid.qty() <= ask.qty() {
        bid.qty()
    } else {
        ask.qty()
    };
    let short_fee = fee_of_leg(short, bid.price(), qty);
    let long_fee = fee_of_leg(other(short), ask.price(), qty);
    let costs: i128 = -short_fee - long_fee;
    let spread: i128 = bid.price() as i128 - ask.price() as i128;
    let costless_profit: i128 = spread * AMOUNT_PER_UNIT;
    Appraisal { qty, costless_profit, costs, profit: costless_profit + costs }
}

/// Appraises selling at `bid` on the venue `short` and buying at `ask` on
/// the other venue: the profit and the trade if the spread pays for both
/// fees, exactly or with something over, and nothing otherwise.
pub fn appraise(short: Venue, bid: Data, ask: Data, symbol: Symbol) -> (result: Option<
    (i128, TradeAction),
>)
    ensures
        carries_out(result, worthwhile(short, bid, ask, symbol)),
        bid.price() <= ask.price() ==> result is None,
{
    let figures = appraisal(short, bid, ask);
    if figures.profit >= 0 {
        let terms = TradeTerms {
            ask_price: ask.price(),
            bid_price: bid.price(),
            qty: figures.qty,
            symbol,
            costs: figures.costs,
        };
        Some((figures.profit, TradeAction::new(short, terms)))
    } else {
        None
    }
}

/// Finds the crossing that the two venues' books show: the venue to sell
/// on, the bid sold to and the ask bought from.
pub fn crossing(binance_order_book: &OrderBook, mb_order_book: &OrderBook) -> (found: Option<
    (Venue, Data, Data),
>)
    ensures
        found == spec_crossing(*binance_order_book, *mb_order_book),
{
    let binance_ask = match binance_order_book.best_ask() {
        Some(level) => level,
        None => {
            return None;
        },
    };
    let mb_bid = match mb_order_book.best_bid() {
        Some(level) => level,
        None => {
            return None;
        },
    };
    let mb_ask = match mb_order_book.best_ask() {
        Some(level) => level,
        None => {
            return None;
        },
    };
    let binance_bid = match binance_order_book.best_bid() {
        Some(level) => level,
        None => {
            return None;
        },
    };
    if mb_bid.price() > binance_ask.price() {
        Some((Venue::Mb, mb_bid, binance_ask))
    } else if binance_bid.price() > mb_ask.price() {
        Some((Venue::Binance, binance_bid, mb_ask))
    } else {
        None
    }
}

/// Decides on the two venues' books: the profit and the trade to carry out,
/// or nothing.
pub fn check_arbitrage(
    binance_order_book: OrderBook,
    mb_order_book: OrderBook,
    symbol: Symbol,
) -> (result: Option<(i128, TradeAction)>)
    ensures
        carries_out(result, decision(binance_order_book, mb_order_book, symbol)),
        !crosses(mb_order_book, binance_order_book) && !crosses(binance_order_book, mb_order_book)
            ==> result is None,
{
    match crossing(&binance_order_book, &mb_order_book) {
        Some((short, bid, ask)) => appraise(short, bid, ask, symbol),
        None => None,
    }
}

} // verus!
