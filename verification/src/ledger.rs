//! The ledger of balances, and what a settled trade does to it.

use vstd::prelude::*;
use crate::arbitrage::{Terms, TradeAction};
use crate::fees::notional;
use crate::market::Currency;
use crate::units::{AMOUNT_PER_NOTIONAL, AMOUNT_PER_UNIT, AMOUNT_PER_WHOLE, MAX_UNITS};

verus! {

/// The balance held in each currency, in amount units. A balance may be
/// negative.
#[derive(Clone, Copy, Debug, PartialEq, Eq, Structural)]
pub struct Ledger {
    pub brl: i128,
    pub btc: i128,
    pub usdt: i128,
    pub eth: i128,
}

impl View for Ledger {
    type V = Map<Currency, int>;

    /// The balances as a map that holds every currency.
    open spec fn view(&self) -> Map<Currency, int> {
        Map::total(
            |currency: Currency|
                match currency {
                    Currency::BRL => self.brl as int,
                    Currency::BTC => self.btc as int,
                    Currency::USDT => self.usdt as int,
                    Currency::ETH => self.eth as int,
                },
        )
    }
}

/// What is paid for a purchase on the given terms, in amount units of the
/// quote currency: the quantity at the ask price, and both legs' fees on top.
/// The costs being the fees negated, that is the purchase less the costs.
pub open spec fn debit(terms: Terms) -> int {
    terms.qty * terms.ask_price * AMOUNT_PER_NOTIONAL - terms.costs
}

/// What a purchase on the given terms delivers, in amount units of the base
/// asset.
pub open spec fn credit(terms: Terms) -> int {
    terms.qty * AMOUNT_PER_UNIT
}

/// The balances once a trade on the given terms has settled: the quote
/// currency less the purchase and less the fees, the base asset more by the
/// quantity, every other balance as it was.
pub open spec fn settled(balances: Map<Currency, int>, terms: Terms) -> Map<Currency, int> {
    let quote = terms.symbol.quote();
    let base = terms.symbol.base();
    balances.insert(quote, balances[quote] - debit(terms)).insert(
        base,
        balances[base] + credit(terms),
    )
}

/// Whether a ledger can hold these balances.
pub open spec fn representable(balances: Map<Currency, int>) -> bool {
    forall|currency: Currency| i128::MIN <= #[trigger] balances[currency] <= i128::MAX
}

/// Settlement touches two balances and no other: the quote currency's, which
/// falls by the purchase and by the fees, and the base asset's, which rises
/// by the quantity.
pub proof fn lemma_settled_balances(balances: Map<Currency, int>, terms: Terms, currency: Currency)
    ensures
        currency == terms.symbol.quote() ==> settled(balances, terms)[currency]
            == balances[currency] - terms.qty * terms.ask_price * AMOUNT_PER_NOTIONAL
            + terms.costs,
        currency == terms.symbol.base() ==> settled(balances, terms)[currency]
            == balances[currency] + terms.qty * AMOUNT_PER_UNIT,
        currency != terms.symbol.quote() && currency != terms.symbol.base() ==> settled(
            balances,
            terms,
        )[currency] == balances[currency],
        settled(balances, terms).dom() == balances.dom().insert(terms.symbol.quote()).insert(
            terms.symbol.base(),
        ),
{
}

/// Fees never make a purchase cheaper: on valid terms the debit is at least
/// the quantity at the ask price, and more by exactly the fees.
pub proof fn lemma_fees_enlarge_the_debit(terms: Terms)
    requires
        terms.valid(),
    ensures
        debit(terms) == terms.qty * terms.ask_price * AMOUNT_PER_NOTIONAL + (-terms.costs),
        debit(terms) >= terms.qty * terms.ask_price * AMOUNT_PER_NOTIONAL,
        debit(terms) > 0,
{
    assert(terms.qty * terms.ask_price >= 1) by (nonlinear_arith)
        requires
            terms.qty >= 1,
            terms.ask_price >= 1,
    ;
}

impl Ledger {
    /// The ledger with the given balances.
    pub fn new(brl: i128, btc: i128, usdt: i128, eth: i128) -> (ledger: Ledger)
        ensures
            ledger == (Ledger { brl, btc, usdt, eth }),
    {
        Ledger { brl, btc, usdt, eth }
    }

    /// The balance held in `currency`.
    pub fn balance(&self, currency: Currency) -> (amount: i128)
        ensures
            amount == self@[currency],
    {
        match currency {
            Currency::BRL => self.brl,
            Currency::BTC => self.btc,
            Currency::USDT => self.usdt,
            Currency::ETH => self.eth,
        }
    }

    /// This ledger with the balance of `currency` replaced by `amount`.
    pub fn with_balance(&self, currency: Currency, amount: i128) -> (ledger: Ledger)
        ensures
            ledger@ == self@.insert(currency, amount as int),
    {
        let ledger = match currency {
            Currency::BRL => Ledger { brl: amount, btc: self.btc, usdt: self.usdt, eth: self.eth },
            Currency::BTC => Ledger { brl: self.brl, btc: amount, usdt: self.usdt, eth: self.eth },
            Currency::USDT => Ledger { brl: self.brl, btc: self.btc, usdt: amount, eth: self.eth },
            Currency::ETH => Ledger { brl: self.brl, btc: self.btc, usdt: self.usdt, eth: amount },
        };
        assert(ledger@ =~= self@.insert(currency, amount as int));
        ledger
    }

    /// The ledger after `action` has settled, this ledger being left as it
    /// is; nothing if a balance would leave the range that a ledger holds.
    pub fn apply(&self, action: TradeAction) -> (result: Option<Ledger>)
        ensures
            result is Some <==> representable(settled(self@, action.spec_terms()@)),
            result matches Some(ledger) ==> ledger@ == settled(self@, action.spec_terms()@),
    {
        let terms = action.terms();
        let quote = terms.symbol().quote();
        let base = terms.symbol().base();
        let qty = terms.qty();
        let ask_price = terms.ask_price();
        let costs = terms.costs();
        let purchase = notional(qty, ask_price);
        assert(purchase <= MAX_UNITS * MAX_UNITS) by (nonlinear_arith)
            requires
                purchase == qty as int * ask_price as int,
                1 <= qty <= MAX_UNITS,
                1 <= ask_price <= MAX_UNITS,
        ;
        let bought: i128 = purchase as i128 * AMOUNT_PER_NOTIONAL;
        let delivered: i128 = qty as i128 * AMOUNT_PER_UNIT;
        let ghost after = settled(self@, terms@);
        assert(after[quote] == self@[quote] - bought + costs);
        assert(after[base] == self@[base] + delivered);
        // The purchase and the fees both lower the balance: if it leaves the
        // range after the first, it stays out of it after the second.
        let less_purchase = match self.balance(quote).checked_sub(bought) {
            Some(amount) => amount,
            None => {
                return None;
            },
        };
        let quote_balance = match less_purchase.checked_add(costs) {
            Some(amount) => amount,
            None => {
                return None;
            },
        };
        let base_balance = match self.balance(base).checked_add(delivered) {
            Some(amount) => amount,
            None => {
                return None;
            },
        };
        let ledger = self.with_balance(quote, quote_balance).with_balance(base, base_balance);
        assert(ledger@ =~= after);
        assert(representable(after)) by {
            assert forall|currency: Currency| i128::MIN <= #[trigger] after[currency]
                <= i128::MAX by {
                assert(after[currency] == ledger@[currency]);
            }
        }
        Some(ledger)
    }
}

/// The balances that a run starts from: 50 000 BRL and nothing else.
pub fn get_default_balance() -> (balances: Ledger)
    ensures
        balances.brl == 50_000 * AMOUNT_PER_WHOLE,
        balances.btc == 0,
        balances.usdt == 0,
        balances.eth == 0,
{
    Ledger { brl: 50_000 * AMOUNT_PER_WHOLE, btc: 0, usdt: 0, eth: 0 }
}

} // verus!
