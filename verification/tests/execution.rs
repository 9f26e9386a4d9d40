use arbitrage::arbitrage::{TradeAction, TradeTerms};
use arbitrage::execution::{
    advance, begin, long_leg, short_leg, Leg, LegOutcome, Progress, Side, Step,
};
use arbitrage::fees::Venue;
use arbitrage::ledger::Ledger;
use arbitrage::market::{Currency, Symbol};

fn sale_on(short: Venue) -> TradeAction {
    TradeAction::new(short, TradeTerms::new(100, 110, 7, Symbol::ETHBRL, -3).unwrap())
}

#[test]
fn the_sale_goes_to_the_venue_sold_on_at_the_bid_price() {
    let leg = short_leg(&sale_on(Venue::Mb));
    assert_eq!(
        leg,
        Leg { side: Side::Short, venue: Venue::Mb, symbol: Symbol::ETHBRL, qty: 7, price: 110 }
    );
    assert_eq!(short_leg(&sale_on(Venue::Binance)).venue, Venue::Binance);
}

#[test]
fn the_purchase_goes_to_the_other_venue_at_the_ask_price() {
    let leg = long_leg(&sale_on(Venue::Mb));
    assert_eq!(
        leg,
        Leg { side: Side::Long, venue: Venue::Binance, symbol: Symbol::ETHBRL, qty: 7, price: 100 }
    );
    assert_eq!(long_leg(&sale_on(Venue::Binance)).venue, Venue::Mb);
}

#[test]
fn two_filled_legs_settle_the_trade() {
    let action = sale_on(Venue::Binance);
    let (progress, step) = begin(&action);
    assert_eq!(progress, Progress::ShortPending);
    assert_eq!(step, Step::Place(short_leg(&action)));
    let (progress, step) = advance(&action, progress, LegOutcome::Filled);
    assert_eq!(progress, Progress::LongPending);
    assert_eq!(step, Step::Place(long_leg(&action)));
    let (progress, step) = advance(&action, progress, LegOutcome::Filled);
    assert_eq!(progress, Progress::Settled);
    assert_eq!(step, Step::Settle);
}

#[test]
fn a_failed_sale_abandons_the_trade_before_the_purchase() {
    let action = sale_on(Venue::Mb);
    let (progress, _) = begin(&action);
    let (progress, step) = advance(&action, progress, LegOutcome::Failed);
    assert_eq!(progress, Progress::Abandoned);
    assert_eq!(step, Step::Stop);
}

#[test]
fn a_failed_purchase_abandons_the_trade() {
    let action = sale_on(Venue::Mb);
    let (progress, _) = begin(&action);
    let (progress, _) = advance(&action, progress, LegOutcome::Filled);
    let (progress, step) = advance(&action, progress, LegOutcome::Failed);
    assert_eq!(progress, Progress::Abandoned);
    assert_eq!(step, Step::Stop);
}

#[test]
fn an_execution_that_is_over_stays_as_it_is() {
    let action = sale_on(Venue::Mb);
    for outcome in [LegOutcome::Filled, LegOutcome::Failed] {
        assert_eq!(advance(&action, Progress::Settled, outcome), (Progress::Settled, Step::Stop));
        assert_eq!(
            advance(&action, Progress::Abandoned, outcome),
            (Progress::Abandoned, Step::Stop)
        );
    }
}

/// Runs an execution on the given outcomes of the legs, as a caller would,
/// and settles when told to.
fn run(ledger: Ledger, action: TradeAction, outcomes: [LegOutcome; 2]) -> (Ledger, usize) {
    let (mut progress, mut step) = begin(&action);
    let mut placed = 0;
    loop {
        match step {
            Step::Place(_) => {
                let outcome = outcomes[placed];
                placed += 1;
                (progress, step) = advance(&action, progress, outcome);
            }
            Step::Settle => return (ledger.apply(action).expect("in range"), placed),
            Step::Stop => return (ledger, placed),
        }
    }
}

#[test]
fn the_ledger_changes_only_when_both_legs_are_filled() {
    let ledger = Ledger::new(1_000_000, 0, 0, 0);
    let filled = LegOutcome::Filled;
    let failed = LegOutcome::Failed;

    let (after, placed) = run(ledger, sale_on(Venue::Mb), [filled, filled]);
    assert_eq!(placed, 2);
    assert_eq!(after.balance(Currency::BRL), 1_000_000 - 7 * 100 * 10_000 - 3);
    assert_eq!(after.balance(Currency::ETH), 7_000_000_000_000);

    let (after, placed) = run(ledger, sale_on(Venue::Mb), [failed, filled]);
    assert_eq!(placed, 1);
    assert_eq!(after, ledger);

    let (after, placed) = run(ledger, sale_on(Venue::Mb), [filled, failed]);
    assert_eq!(placed, 2);
    assert_eq!(after, ledger);

    let (after, placed) = run(ledger, sale_on(Venue::Mb), [failed, failed]);
    assert_eq!(placed, 1);
    assert_eq!(after, ledger);
}
