//! The tradable pairs and the currencies they settle in.

use vstd::prelude::*;
use vstd::string::StringExecFns;

verus! {

/// A settlement asset whose balance the ledger tracks.
#[derive(Clone, Copy, Debug, PartialEq, Eq, Hash, Structural)]
pub enum Currency {
    BRL,
    BTC,
    USDT,
    ETH,
}

/// A tradable pair: a base asset priced in the quote currency.
#[derive(Clone, Copy, Debug, PartialEq, Eq, Hash, Structural)]
pub enum Symbol {
    BTCBRL,
    USDTBRL,
    ETHBRL,
}

impl Default for Symbol {
    fn default() -> (symbol: Self)
        ensures
            symbol == Symbol::BTCBRL,
    {
        Symbol::BTCBRL
    }
}

impl Symbol {
    /// The asset that a buyer of this pair receives.
    pub open spec fn spec_base(&self) -> Currency {
        match self {
            Symbol::BTCBRL => Currency::BTC,
            Symbol::USDTBRL => Currency::USDT,
            Symbol::ETHBRL => Currency::ETH,
        }
    }

    /// The currency that a buyer of this pair pays in.
    pub open spec fn spec_quote(&self) -> Currency {
        Currency::BRL
    }

    /// The name of this pair in Binance's depth endpoint.
    pub open spec fn binance_symbol_param(&self) -> Seq<char> {
        match self {
            Symbol::BTCBRL => "BTCBRL"@,
            Symbol::USDTBRL => "USDTBRL"@,
            Symbol::ETHBRL => "ETHBRL"@,
        }
    }

    /// The name of this pair in Mercado Bitcoin's order book endpoint.
    pub open spec fn mb_symbol_param(&self) -> Seq<char> {
        match self {
            Symbol::BTCBRL => "BTC"@,
            Symbol::USDTBRL => "USDT"@,
            Symbol::ETHBRL => "ETH"@,
        }
    }

    #[verifier::when_used_as_spec(spec_base)]
    pub fn base(&self) -> (currency: Currency)
        ensures
            currency == self.spec_base(),
    {
        match self {
            Symbol::BTCBRL => Currency::BTC,
            Symbol::USDTBRL => Currency::USDT,
            Symbol::ETHBRL => Currency::ETH,
        }
    }

    #[verifier::when_used_as_spec(spec_quote)]
    pub fn quote(&self) -> (currency: Currency)
        ensures
            currency == self.spec_quote(),
    {
        Currency::BRL
    }

    pub fn get_binance_symbol_param(&self) -> (param: &str)
        ensures
            param@ == self.binance_symbol_param(),
    {
        match self {
            Self::BTCBRL => "BTCBRL",
            Self::USDTBRL => "USDTBRL",
            Self::ETHBRL => "ETHBRL",
        }
    }

    pub fn get_mb_symbol_param(&self) -> (param: &str)
        ensures
            param@ == self.mb_symbol_param(),
    {
        match self {
            Self::BTCBRL => "BTC",
            Self::USDTBRL => "USDT",
            Self::ETHBRL => "ETH",
        }
    }

    /// A pair never settles both of its sides in one currency.
    pub proof fn lemma_base_differs_from_quote(self)
        ensures
            self.spec_base() != self.spec_quote(),
    {
    }
}

/// The address of Binance's depth endpoint for the top of the book of
/// `symbol`.
pub fn binance_depth_url(symbol: Symbol) -> (url: String)
    ensures
        url@ == "https://api.binance.com/api/v3/depth?symbol="@ + symbol.binance_symbol_param()
            + "&limit=1"@,
{
    let mut url = String::from_str("https://api.binance.com/api/v3/depth?symbol=");
    url.append(symbol.get_binance_symbol_param());
    url.append("&limit=1");
    url
}

/// The address of Mercado Bitcoin's order book endpoint for the top of the
/// book of `symbol`.
pub fn mb_orderbook_url(symbol: Symbol) -> (url: String)
    ensures
        url@ == "https://www.mercadobitcoin.net/api/"@ + symbol.mb_symbol_param()
            + "/orderbook?limit=1"@,
{
    let mut url = String::from_str("https://www.mercadobitcoin.net/api/");
    url.append(symbol.get_mb_symbol_param());
    url.append("/orderbook?limit=1");
    url
}

} // verus!
