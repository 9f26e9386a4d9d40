use arbitrage::arbitrage::{appraisal, appraise, check_arbitrage, crossing, Appraisal, TradeAction};
use arbitrage::book::{Data, OrderBook};
use arbitrage::fees::Venue;
use arbitrage::market::Symbol;
use arbitrage::units::{AMOUNT_PER_WHOLE, UNITS_PER_WHOLE};

const U: u64 = UNITS_PER_WHOLE;
const A: i128 = AMOUNT_PER_WHOLE;

fn level(price: u64, qty: u64) -> Data {
    Data::new(price, qty).expect("a quotable level")
}

/// A book with one bid and one ask, each given as (price, qty) in wholes.
fn book(bid: (u64, u64), ask: (u64, u64)) -> OrderBook {
    OrderBook {
        bids: vec![level(bid.0 * U, bid.1 * U)],
        asks: vec![level(ask.0 * U, ask.1 * U)],
    }
}

#[test]
fn books_that_do_not_cross_yield_no_trade() {
    let binance = book((99, 1), (101, 1));
    let mb = book((100, 1), (102, 1));
    assert_eq!(check_arbitrage(binance, mb, Symbol::BTCBRL), None);
}

#[test]
fn equal_bid_and_ask_across_venues_yield_no_trade() {
    // Mercado Bitcoin bids exactly what Binance asks, and the other way round.
    let binance = book((100, 1), (100, 1));
    let mb = book((100, 1), (100, 1));
    assert_eq!(check_arbitrage(binance, mb, Symbol::BTCBRL), None);
}

#[test]
fn a_book_without_bids_or_asks_yields_no_trade() {
    let full = || book((300, 1), (100, 1));
    let no_bids = || OrderBook { bids: vec![], asks: vec![level(100 * U, U)] };
    let no_asks = || OrderBook { bids: vec![level(300 * U, U)], asks: vec![] };
    assert_eq!(check_arbitrage(no_bids(), full(), Symbol::BTCBRL), None);
    assert_eq!(check_arbitrage(no_asks(), full(), Symbol::BTCBRL), None);
    assert_eq!(check_arbitrage(full(), no_bids(), Symbol::BTCBRL), None);
    assert_eq!(check_arbitrage(full(), no_asks(), Symbol::BTCBRL), None);
    // With all four sides there, the same prices trade.
    assert!(check_arbitrage(full(), full(), Symbol::BTCBRL).is_some());
}

#[test]
fn breakeven_selling_on_mercado_bitcoin_is_taken() {
    // Spread 1125 - 125 = 1000. Fees on 125 units:
    // Binance 0.1% of 125 * 125 = 15.625, Mercado Bitcoin 0.7% of 1125 * 125 = 984.375.
    let binance = book((124, 125), (125, 125));
    let mb = book((1125, 200), (1126, 125));
    let (profit, action) = check_arbitrage(binance, mb, Symbol::BTCBRL).expect("a trade");
    assert_eq!(profit, 0);
    match action {
        TradeAction::ShortMb(terms) => {
            assert_eq!(terms.ask_price(), 125 * U);
            assert_eq!(terms.bid_price(), 1125 * U);
            assert_eq!(terms.qty(), 125 * U);
            assert_eq!(terms.symbol(), Symbol::BTCBRL);
            assert_eq!(terms.costs(), -1000 * A);
        }
        TradeAction::ShortBinance(_) => panic!("sold on the wrong venue"),
    }
}

#[test]
fn breakeven_selling_on_binance_is_taken() {
    // Spread 1125 - 125 = 1000. Fees on 500 units:
    // Binance 0.1% of 1125 * 500 = 562.5, Mercado Bitcoin 0.7% of 125 * 500 = 437.5.
    let binance = book((1125, 500), (1126, 1));
    let mb = book((124, 1), (125, 800));
    let (profit, action) = check_arbitrage(binance, mb, Symbol::ETHBRL).expect("a trade");
    assert_eq!(profit, 0);
    match action {
        TradeAction::ShortBinance(terms) => {
            assert_eq!(terms.ask_price(), 125 * U);
            assert_eq!(terms.bid_price(), 1125 * U);
            assert_eq!(terms.qty(), 500 * U);
            assert_eq!(terms.symbol(), Symbol::ETHBRL);
            assert_eq!(terms.costs(), -1000 * A);
        }
        TradeAction::ShortMb(_) => panic!("sold on the wrong venue"),
    }
}

#[test]
fn one_unit_short_of_breakeven_is_not_taken() {
    let binance = OrderBook {
        bids: vec![level(124 * U, 125 * U)],
        asks: vec![level(125 * U, 125 * U)],
    };
    // The bid of the breakeven case, lowered by the smallest step of price.
    let mb = OrderBook {
        bids: vec![level(1125 * U - 1, 200 * U)],
        asks: vec![level(1126 * U, 125 * U)],
    };
    assert_eq!(check_arbitrage(binance, mb, Symbol::BTCBRL), None);
}

#[test]
fn one_unit_past_breakeven_is_taken_at_its_exact_profit() {
    let binance = OrderBook {
        bids: vec![level(124 * U, 125 * U)],
        asks: vec![level(125 * U, 125 * U)],
    };
    let mb = OrderBook {
        bids: vec![level(1125 * U + 1, 200 * U)],
        asks: vec![level(1126 * U, 125 * U)],
    };
    let (profit, action) = check_arbitrage(binance, mb, Symbol::BTCBRL).expect("a trade");
    // The spread grows by one price unit, 10^12 amount units; the fee on the
    // sale grows by 70 basis points of one price unit times 125 * 10^8
    // quantity units.
    let more_fee: i128 = 70 * 125 * (U as i128);
    assert_eq!(profit, 1_000_000_000_000 - more_fee);
    assert_eq!(action.terms().costs(), -1000 * A - more_fee);
}

#[test]
fn quantity_is_that_of_the_thinner_side() {
    // The bid that triggers offers 2.0, the ask against it 0.5.
    let binance = OrderBook {
        bids: vec![level(90 * U, U)],
        asks: vec![level(100 * U, U / 2)],
    };
    let mb = OrderBook {
        bids: vec![level(200 * U, 2 * U)],
        asks: vec![level(210 * U, U)],
    };
    let (profit, action) = check_arbitrage(binance, mb, Symbol::BTCBRL).expect("a trade");
    assert_eq!(action.short_venue(), Venue::Mb);
    assert_eq!(action.terms().qty(), U / 2);
    // Fees on 0.5: 0.1% of 50 and 0.7% of 100, 0.75 in all.
    assert_eq!(action.terms().costs(), -(A * 3 / 4));
    assert_eq!(profit, 100 * A - A * 3 / 4);
}

#[test]
fn quantity_is_that_of_the_thinner_side_when_the_bid_is_thinner() {
    let binance = OrderBook {
        bids: vec![level(200 * U, U / 2)],
        asks: vec![level(210 * U, U)],
    };
    let mb = OrderBook {
        bids: vec![level(90 * U, U)],
        asks: vec![level(100 * U, 2 * U)],
    };
    let (profit, action) = check_arbitrage(binance, mb, Symbol::USDTBRL).expect("a trade");
    assert_eq!(action.short_venue(), Venue::Binance);
    assert_eq!(action.terms().qty(), U / 2);
    // Fees on 0.5: 0.1% of 100 and 0.7% of 50, 0.45 in all.
    assert_eq!(action.terms().costs(), -(A * 45 / 100));
    assert_eq!(profit, 100 * A - A * 45 / 100);
}

#[test]
fn only_the_best_level_of_each_side_is_read() {
    let binance = OrderBook {
        bids: vec![level(90 * U, U), level(500 * U, U)],
        asks: vec![level(100 * U, U), level(1 * U, U)],
    };
    let mb = OrderBook {
        bids: vec![level(95 * U, U), level(900 * U, U)],
        asks: vec![level(105 * U, U), level(2 * U, U)],
    };
    assert_eq!(check_arbitrage(binance, mb, Symbol::BTCBRL), None);
}

#[test]
fn books_crossing_both_ways_sell_on_mercado_bitcoin_only() {
    // Each book is crossed in itself, so both venues' bids lie above the
    // other venue's ask.
    let binance = book((300, 1), (100, 1));
    let mb = book((250, 1), (120, 1));
    let (profit, action) = check_arbitrage(binance, mb, Symbol::BTCBRL).expect("a trade");
    match action {
        TradeAction::ShortMb(terms) => {
            assert_eq!(terms.bid_price(), 250 * U);
            assert_eq!(terms.ask_price(), 100 * U);
            // 0.1% of 100 and 0.7% of 250.
            assert_eq!(terms.costs(), -(A * 185 / 100));
            assert_eq!(profit, 150 * A - A * 185 / 100);
        }
        TradeAction::ShortBinance(_) => panic!("sold on the wrong venue"),
    }
}

#[test]
fn a_losing_first_crossing_is_not_replaced_by_the_second() {
    // Mercado Bitcoin's bid crosses Binance's ask by 0.01 only, which the
    // fees on 1000 units eat up. Binance's bid crosses Mercado Bitcoin's ask
    // by far more, and is not looked at.
    let binance = OrderBook {
        bids: vec![level(500 * U, 1000 * U)],
        asks: vec![level(100 * U, 1000 * U)],
    };
    let mb = OrderBook {
        bids: vec![level(100 * U + U / 100, 1000 * U)],
        asks: vec![level(101 * U, 1000 * U)],
    };
    assert_eq!(check_arbitrage(binance, mb, Symbol::BTCBRL), None);
}

#[test]
fn a_large_sale_on_mercado_bitcoin_pays_the_rate_of_its_band() {
    // 2 units at 400 000 are a notional of 800 000: 0.6%, not 0.7%.
    let binance = book((299_000, 2), (300_000, 2));
    let mb = book((400_000, 2), (401_000, 2));
    let (profit, action) = check_arbitrage(binance, mb, Symbol::BTCBRL).expect("a trade");
    // 0.1% of 600 000 and 0.6% of 800 000.
    assert_eq!(action.terms().costs(), -(600 + 4800) * A);
    assert_eq!(profit, (100_000 - 5400) * A);
}

#[test]
fn appraise_rejects_a_bid_at_or_below_the_ask() {
    assert_eq!(appraise(Venue::Mb, level(100 * U, U), level(100 * U, U), Symbol::BTCBRL), None);
    assert_eq!(appraise(Venue::Binance, level(99 * U, U), level(100 * U, U), Symbol::BTCBRL), None);
}

#[test]
fn appraise_charges_each_venue_its_own_rate() {
    let bid = level(200 * U, U);
    let ask = level(100 * U, U);
    let (sold_on_mb, _) = appraise(Venue::Mb, bid, ask, Symbol::BTCBRL).expect("a trade");
    let (sold_on_binance, _) = appraise(Venue::Binance, bid, ask, Symbol::BTCBRL).expect("a trade");
    // 0.7% of 200 and 0.1% of 100, against 0.1% of 200 and 0.7% of 100.
    assert_eq!(sold_on_mb, 100 * A - A * 15 / 10);
    assert_eq!(sold_on_binance, 100 * A - A * 9 / 10);
}

#[test]
fn the_largest_quotable_levels_are_appraised_exactly() {
    let top = 100_000_000_000_000_000u64;
    // Fees on 10^9 units at 10^9 exceed any spread.
    assert_eq!(appraise(Venue::Binance, level(top, top), level(1, top), Symbol::BTCBRL), None);
    // On the smallest quantity the spread wins: 0.1% of a notional of 10^17
    // and 0.7% of a notional of 1, in amount units.
    let (profit, action) =
        appraise(Venue::Binance, level(top, 1), level(1, top), Symbol::BTCBRL).expect("a trade");
    let costs: i128 = -(10 * 100_000_000_000_000_000i128 + 70);
    assert_eq!(action.terms().costs(), costs);
    assert_eq!(profit, (top as i128 - 1) * 1_000_000_000_000 + costs);
}

#[test]
fn the_crossing_is_found_whether_or_not_it_pays() {
    // Mercado Bitcoin's bid lies above Binance's ask by 0.01, far less than
    // the fees.
    let binance = OrderBook {
        bids: vec![level(99 * U, 1000 * U)],
        asks: vec![level(100 * U, 1000 * U)],
    };
    let mb = OrderBook {
        bids: vec![level(100 * U + U / 100, 1000 * U)],
        asks: vec![level(101 * U, 1000 * U)],
    };
    assert_eq!(
        crossing(&binance, &mb),
        Some((Venue::Mb, level(100 * U + U / 100, 1000 * U), level(100 * U, 1000 * U)))
    );
    assert_eq!(check_arbitrage(binance, mb, Symbol::BTCBRL), None);
}

#[test]
fn the_crossing_names_the_venue_whose_bid_lies_above_the_other_ask() {
    let low = || book((99, 1), (100, 1));
    let high = || book((200, 2), (201, 2));
    assert_eq!(
        crossing(&low(), &high()),
        Some((Venue::Mb, level(200 * U, 2 * U), level(100 * U, U)))
    );
    assert_eq!(
        crossing(&high(), &low()),
        Some((Venue::Binance, level(200 * U, 2 * U), level(100 * U, U)))
    );
    assert_eq!(crossing(&low(), &low()), None);
    assert_eq!(crossing(&low(), &OrderBook { bids: vec![], asks: vec![] }), None);
}

#[test]
fn an_appraisal_gives_the_figures_of_a_trade_that_loses() {
    // A spread of 0.01 against fees of 0.1% of 100 000 and 0.7% of 100 010.
    let bid = level(100 * U + U / 100, 1000 * U);
    let ask = level(100 * U, 2000 * U);
    let figures = appraisal(Venue::Mb, bid, ask);
    assert_eq!(
        figures,
        Appraisal {
            qty: 1000 * U,
            costless_profit: A / 100,
            costs: -(100 * A + 700 * A + 7 * A / 100),
            profit: A / 100 - 800 * A - 7 * A / 100,
        }
    );
    assert_eq!(appraise(Venue::Mb, bid, ask, Symbol::BTCBRL), None);
}

#[test]
fn an_appraisal_of_a_bid_below_the_ask_has_a_negative_spread() {
    let figures = appraisal(Venue::Binance, level(100 * U, U), level(110 * U, U));
    assert_eq!(figures.costless_profit, -10 * A);
    assert_eq!(figures.costs, -(A / 10 + 77 * A / 100));
    assert_eq!(figures.profit, -10 * A - A / 10 - 77 * A / 100);
}
