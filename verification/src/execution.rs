//! Carrying a trade out: the two legs to place, in what order, and when the
//! trade counts as settled.
//!
//! Placing an order is the caller's business. The caller places what it is
//! told to place, reports how the leg went, and is told what comes next.

use vstd::prelude::*;
use crate::arbitrage::{other, TradeAction};
use crate::fees::Venue;
use crate::market::Symbol;

verus! {

/// Which way a leg goes.
#[derive(Clone, Copy, Debug, PartialEq, Eq, Structural)]
pub enum Side {
    /// A sale.
    Short,
    /// A purchase.
    Long,
}

/// One leg of a trade: an order for the caller to place.
#[derive(Clone, Copy, Debug, PartialEq, Eq, Structural)]
pub struct Leg {
    pub side: Side,
    pub venue: Venue,
    pub symbol: Symbol,
    /// In quantity units.
    pub qty: u64,
    /// In price units.
    pub price: u64,
}

/// How a leg went.
#[derive(Clone, Copy, Debug, PartialEq, Eq, Structural)]
pub enum LegOutcome {
    Filled,
    Failed,
}

/// How far the execution of a trade has got.
#[derive(Clone, Copy, Debug, PartialEq, Eq, Structural)]
pub enum Progress {
    /// The sale has been handed out and not reported on.
    ShortPending,
    /// The sale is filled; the purchase has been handed out.
    LongPending,
    /// Both legs are filled.
    Settled,
    /// A leg failed; the trade is not carried out.
    Abandoned,
}

/// What the caller is to do next.
#[derive(Clone, Copy, Debug, PartialEq, Eq, Structural)]
pub enum Step {
    /// Place this leg and report its outcome.
    Place(Leg),
    /// Both legs are filled: apply the trade to the ledger.
    Settle,
    /// Nothing more: leave the ledger as it is.
    Stop,
}

/// The sale of a trade: on the venue sold on, at the bid price.
pub open spec fn spec_short_leg(action: &TradeAction) -> Leg {
    Leg {
        side: Side::Short,
        venue: action.short_venue(),
        symbol: action.spec_terms()@.symbol,
        qty: action.spec_terms()@.qty as u64,
        price: action.spec_terms()@.bid_price as u64,
    }
}

/// The purchase of a trade: on the other venue, at the ask price.
pub open spec fn spec_long_leg(action: &TradeAction) -> Leg {
    Leg {
        side: Side::Long,
        venue: other(action.short_venue()),
        symbol: action.spec_terms()@.symbol,
        qty: action.spec_terms()@.qty as u64,
        price: action.spec_terms()@.ask_price as u64,
    }
}

/// Where a report of `outcome` leads from `progress`, and what is to be done
/// there: after a filled sale, the purchase; after a filled purchase,
/// settlement; after a failure, or once the execution is over, nothing.
pub open spec fn spec_advance(action: &TradeAction, progress: Progress, outcome: LegOutcome) -> (
    Progress,
    Step,
) {
    match (progress, outcome) {
        (Progress::ShortPending, LegOutcome::Filled) => (
            Progress::LongPending,
            Step::Place(spec_long_leg(action)),
        ),
        (Progress::LongPending, LegOutcome::Filled) => (Progress::Settled, Step::Settle),
        (Progress::ShortPending, LegOutcome::Failed) => (Progress::Abandoned, Step::Stop),
        (Progress::LongPending, LegOutcome::Failed) => (Progress::Abandoned, Step::Stop),
        (Progress::Settled, _) => (Progress::Settled, Step::Stop),
        (Progress::Abandoned, _) => (Progress::Abandoned, Step::Stop),
    }
}

/// The sale of a trade.
#[verifier::when_used_as_spec(spec_short_leg)]
pub fn short_leg(action: &TradeAction) -> (leg: Leg)
    ensures
        leg == spec_short_leg(action),
{
    let terms = action.terms();
    Leg {
        side: Side::Short,
        venue: action.short_venue(),
        symbol: terms.symbol(),
        qty: terms.qty(),
        price: terms.bid_price(),
    }
}

/// The purchase of a trade.
#[verifier::when_used_as_spec(spec_long_leg)]
pub fn long_leg(action: &TradeAction) -> (leg: Leg)
    ensures
        leg == spec_long_leg(action),
{
    let terms = action.terms();
    Leg {
        side: Side::Long,
        venue: other(action.short_venue()),
        symbol: terms.symbol(),
        qty: terms.qty(),
        price: terms.ask_price(),
    }
}

/// Starts the execution of a trade: the sale is placed first.
pub fn begin(action: &TradeAction) -> (start: (Progress, Step))
    ensures
        start == (Progress::ShortPending, Step::Place(spec_short_leg(action))),
{
    (Progress::ShortPending, Step::Place(short_leg(action)))
}

/// Takes the report on the leg that was placed last, and says where the
/// execution stands and what is to be done next.
#[verifier::when_used_as_spec(spec_advance)]
pub fn advance(action: &TradeAction, progress: Progress, outcome: LegOutcome) -> (next: (
    Progress,
    Step,
))
    ensures
        next == spec_advance(action, progress, outcome),
{
    match progress {
        Progress::ShortPending => match outcome {
            LegOutcome::Filled => (Progress::LongPending, Step::Place(long_leg(action))),
            LegOutcome::Failed => (Progress::Abandoned, Step::Stop),
        },
        Progress::LongPending => match outcome {
            LegOutcome::Filled => (Progress::Settled, Step::Settle),
            LegOutcome::Failed => (Progress::Abandoned, Step::Stop),
        },
        Progress::Settled => (Progress::Settled, Step::Stop),
        Progress::Abandoned => (Progress::Abandoned, Step::Stop),
    }
}

/// The caller is told to settle on the report that fills the purchase and
/// on no other, and a report of failure is answered with nothing but to
/// stop.
pub proof fn lemma_settle_follows_filled_purchase(
    action: &TradeAction,
    progress: Progress,
    outcome: LegOutcome,
)
    ensures
        spec_advance(action, progress, outcome).1 == Step::Settle <==> progress
            == Progress::LongPending && outcome == LegOutcome::Filled,
        outcome == LegOutcome::Failed ==> spec_advance(action, progress, outcome).1 == Step::Stop,
        spec_advance(action, progress, outcome).1 is Place <==> progress == Progress::ShortPending
            && outcome == LegOutcome::Filled,
{
}

/// From its start, the execution of a trade is settled exactly when both
/// legs are filled; if the sale fails, the purchase is never placed.
pub proof fn lemma_settled_iff_both_filled(
    action: &TradeAction,
    short: LegOutcome,
    long: LegOutcome,
)
    ensures
        ({
            let after_short = spec_advance(action, Progress::ShortPending, short);
            let after_long = spec_advance(action, after_short.0, long);
            &&& after_long.0 == Progress::Settled <==> short == LegOutcome::Filled && long
                == LegOutcome::Filled
            &&& after_long.0 == Progress::Abandoned <==> short == LegOutcome::Failed || long
                == LegOutcome::Failed
            &&& short == LegOutcome::Failed ==> after_short.1 == Step::Stop && after_long.1
                == Step::Stop
            &&& short == LegOutcome::Filled ==> after_short.1 == Step::Place(spec_long_leg(action))
        }),
{
}

} // verus!
