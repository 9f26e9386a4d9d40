//! Cross-venue arbitrage decisions in exact fixed-point arithmetic.
//!
//! Two venues, Binance and Mercado Bitcoin, quote the same pair. Given the
//! top of both order books, the engine decides whether selling on one venue
//! and buying on the other pays for both venues' fees, says which way round
//! and at what price and quantity, and computes what the settled trade does
//! to a ledger of balances.
//!
//! Every figure is an integer count of a fixed decimal unit (see [`units`]),
//! so that sums and products are exact and a break-even trade is recognised
//! as such.

pub mod arbitrage;
pub mod book;
pub mod decimal;
pub mod execution;
pub mod fees;
pub mod ledger;
pub mod market;
pub mod units;

pub use arbitrage::{check_arbitrage, TradeAction, TradeTerms};
pub use book::{Data, OrderBook};
pub use fees::{get_mb_fee_rate, Venue, BINANCE_FEE_RATE};
pub use ledger::{get_default_balance, Ledger};
pub use market::{Currency, Symbol};
