//! The fixed decimal units in which every figure is counted.
//!
//! | figure                  | one unit is                         |
//! |-------------------------|-------------------------------------|
//! | price                   | 10^-8 of the quote currency         |
//! | quantity                | 10^-8 of the base asset             |
//! | notional (price x qty)  | 10^-16 of the quote currency        |
//! | fee rate                | one basis point, 10^-4              |
//! | cost, profit, balance   | 10^-20 of the currency it is held in|
//!
//! A notional times a rate is therefore a cost with nothing rounded away.

use vstd::prelude::*;

verus! {

/// Price units, or quantity units, in one whole.
pub const UNITS_PER_WHOLE: u64 = 100_000_000;

/// The largest price or quantity that a quote may carry: 10^9 wholes.
///
/// With both factors of a notional held under this bound, every cost and
/// every settlement amount fits a signed 128-bit integer.
pub const MAX_UNITS: u64 = 100_000_000_000_000_000;

/// Notional units in one whole of the quote currency.
pub const NOTIONAL_PER_WHOLE: u128 = 10_000_000_000_000_000;

/// Amount units in one price unit or one quantity unit.
pub const AMOUNT_PER_UNIT: i128 = 1_000_000_000_000;

/// Amount units in one notional unit.
pub const AMOUNT_PER_NOTIONAL: i128 = 10_000;

/// Amount units in one whole of a currency.
pub const AMOUNT_PER_WHOLE: i128 = 100_000_000_000_000_000_000;

/// Whether `units` can stand as a price or a quantity: strictly positive and
/// no larger than [`MAX_UNITS`].
pub open spec fn quotable(units: int) -> bool {
    1 <= units <= MAX_UNITS
}

} // verus!
