//! The shared record model that all three sources are normalized into.

use crate::dates::Date;
use rust_decimal::Decimal;
use vstd::prelude::*;

verus! {

/// Classification of a ticker symbol; re-derived per call, never stored as
/// ground truth.
#[derive(Clone, Copy, Debug, PartialEq, Eq, Hash, Structural)]
pub enum VnAssetType {
    Stock,
    Index,
    Fund,
    Gold,
}

/// One normalized quote. Exactly one of {OHLCV, NAV, buy/sell} carries real
/// signal per asset type; the others hold neutral defaults so the shape is
/// uniform.
#[derive(Clone, Debug)]
pub struct CachedQuote {
    pub symbol: String,
    pub asset_type: VnAssetType,
    pub date: Date,
    pub open: Decimal,
    pub high: Decimal,
    pub low: Decimal,
    pub close: Decimal,
    pub volume: Decimal,
    pub nav: Option<Decimal>,
    pub buy_price: Option<Decimal>,
    pub sell_price: Option<Decimal>,
    pub currency: String,
}

/// The mathematical image of a quote or historical record.
pub ghost struct QuoteData {
    pub symbol: Seq<char>,
    pub asset_type: VnAssetType,
    pub date: Date,
    pub open: Decimal,
    pub high: Decimal,
    pub low: Decimal,
    pub close: Decimal,
    pub volume: Decimal,
    pub nav: Option<Decimal>,
    pub buy_price: Option<Decimal>,
    pub sell_price: Option<Decimal>,
    pub currency: Seq<char>,
}

impl View for CachedQuote {
    type V = QuoteData;

    open spec fn view(&self) -> QuoteData {
        QuoteData {
            symbol: self.symbol@,
            asset_type: self.asset_type,
            date: self.date,
            open: self.open,
            high: self.high,
            low: self.low,
            close: self.close,
            volume: self.volume,
            nav: self.nav,
            buy_price: self.buy_price,
            sell_price: self.sell_price,
            currency: self.currency@,
        }
    }
}

impl CachedQuote {
    /// A value-equal copy; `derive(Clone)` would say nothing about the result.
    pub fn duplicate(&self) -> (r: CachedQuote)
        ensures
            r@ == self@,
    {
        CachedQuote {
            symbol: self.symbol.clone(),
            asset_type: self.asset_type,
            date: self.date,
            open: self.open,
            high: self.high,
            low: self.low,
            close: self.close,
            volume: self.volume,
            nav: self.nav,
            buy_price: self.buy_price,
            sell_price: self.sell_price,
            currency: self.currency.clone(),
        }
    }
}

/// One row of a historical series; same shape as a quote, keyed by
/// (symbol, date) and produced in the adapter's order.
#[derive(Clone, Debug)]
pub struct VnHistoricalRecord {
    pub symbol: String,
    pub asset_type: VnAssetType,
    pub date: Date,
    pub open: Decimal,
    pub high: Decimal,
    pub low: Decimal,
    pub close: Decimal,
    pub volume: Decimal,
    pub nav: Option<Decimal>,
    pub buy_price: Option<Decimal>,
    pub sell_price: Option<Decimal>,
    pub currency: String,
}

impl View for VnHistoricalRecord {
    type V = QuoteData;

    open spec fn view(&self) -> QuoteData {
        QuoteData {
            symbol: self.symbol@,
            asset_type: self.asset_type,
            date: self.date,
            open: self.open,
            high: self.high,
            low: self.low,
            close: self.close,
            volume: self.volume,
            nav: self.nav,
            buy_price: self.buy_price,
            sell_price: self.sell_price,
            currency: self.currency@,
        }
    }
}

impl VnHistoricalRecord {
    /// A plain OHLCV row in the fixed local currency.
    pub fn new(
        symbol: &str,
        asset_type: VnAssetType,
        date: Date,
        open: Decimal,
        high: Decimal,
        low: Decimal,
        close: Decimal,
        volume: Decimal,
    ) -> (r: VnHistoricalRecord)
        ensures
            r@.symbol == symbol@,
            r@.asset_type == asset_type,
            r@.date == date,
            r@.open == open,
            r@.high == high,
            r@.low == low,
            r@.close == close,
            r@.volume == volume,
            r@.nav is None,
            r@.buy_price is None,
            r@.sell_price is None,
            r@.currency == "VND"@,
    {
        VnHistoricalRecord {
            symbol: String::from_str(symbol),
            asset_type,
            date,
            open,
            high,
            low,
            close,
            volume,
            nav: None,
            buy_price: None,
            sell_price: None,
            currency: String::from_str("VND"),
        }
    }

    /// The same row with its NAV retained separately.
    pub fn with_nav(self, nav: Decimal) -> (r: VnHistoricalRecord)
        ensures
            r@ == (QuoteData { nav: Some(nav), ..self@ }),
    {
        VnHistoricalRecord { nav: Some(nav), ..self }
    }

    /// The same row with the published buy/sell pair retained verbatim.
    pub fn with_gold_prices(self, buy: Decimal, sell: Decimal) -> (r: VnHistoricalRecord)
        ensures
            r@ == (QuoteData { buy_price: Some(buy), sell_price: Some(sell), ..self@ }),
    {
        VnHistoricalRecord { buy_price: Some(buy), sell_price: Some(sell), ..self }
    }
}

/// Errors the facade itself raises; transport and parse failures of the
/// upstream clients stay outside the library and pass through it opaquely.
#[derive(Clone, Debug, PartialEq)]
pub enum VnMarketError {
    /// No usable upstream record for the request.
    NoData { symbol: String, date: String },
    /// A Fund-classified symbol with no resolvable fund id.
    FundNotFound(String),
}

/// An equity or index quote as the upstream client hands it over, with the
/// time of day already discarded from its timestamp.
#[derive(Clone, Debug)]
pub struct RawStockQuote {
    pub symbol: String,
    pub date: Date,
    pub open: Decimal,
    pub high: Decimal,
    pub low: Decimal,
    pub close: Decimal,
    pub volume: u64,
}

/// The mathematical image of a raw equity quote.
pub ghost struct RawStockData {
    pub symbol: Seq<char>,
    pub date: Date,
    pub open: Decimal,
    pub high: Decimal,
    pub low: Decimal,
    pub close: Decimal,
    pub volume: u64,
}

impl View for RawStockQuote {
    type V = RawStockData;

    open spec fn view(&self) -> RawStockData {
        RawStockData {
            symbol: self.symbol@,
            date: self.date,
            open: self.open,
            high: self.high,
            low: self.low,
            close: self.close,
            volume: self.volume,
        }
    }
}

/// One NAV row of a fund's history: the provider's date text and the single
/// published value.
#[derive(Clone, Debug)]
pub struct RawNavRecord {
    pub date: String,
    pub nav: Decimal,
}

/// The mathematical image of a raw NAV row.
pub ghost struct RawNavData {
    pub date: Seq<char>,
    pub nav: Decimal,
}

impl View for RawNavRecord {
    type V = RawNavData;

    open spec fn view(&self) -> RawNavData {
        RawNavData { date: self.date@, nav: self.nav }
    }
}

/// The gold provider's latest published prices.
#[derive(Clone, Debug)]
pub struct RawGoldQuote {
    pub symbol: String,
    pub date: Date,
    pub buy_price: Decimal,
    pub sell_price: Decimal,
}

/// The mathematical image of the raw gold quote.
pub ghost struct RawGoldData {
    pub symbol: Seq<char>,
    pub date: Date,
    pub buy_price: Decimal,
    pub sell_price: Decimal,
}

impl View for RawGoldQuote {
    type V = RawGoldData;

    open spec fn view(&self) -> RawGoldData {
        RawGoldData {
            symbol: self.symbol@,
            date: self.date,
            buy_price: self.buy_price,
            sell_price: self.sell_price,
        }
    }
}

/// One dated row of the gold provider's price history.
#[derive(Clone, Copy, Debug)]
pub struct RawGoldRecord {
    pub date: Date,
    pub buy_price: Decimal,
    pub sell_price: Decimal,
}

/// One fund in the provider's full listing.
#[derive(Clone, Debug)]
pub struct FundListing {
    pub id: i32,
    pub short_name: String,
    pub code: Option<String>,
    pub name: String,
}

/// The mathematical image of a fund listing entry.
pub ghost struct FundListingData {
    pub id: i32,
    pub short_name: Seq<char>,
    pub code: Option<Seq<char>>,
    pub name: Seq<char>,
}

impl View for FundListing {
    type V = FundListingData;

    open spec fn view(&self) -> FundListingData {
        FundListingData {
            id: self.id,
            short_name: self.short_name@,
            code: match self.code {
                Some(ref c) => Some(c@),
                None => None,
            },
            name: self.name@,
        }
    }
}

/// One entry of the equity provider's symbol directory.
#[derive(Clone, Debug)]
pub struct EquityListing {
    pub symbol: String,
    pub name: String,
    pub exchange: String,
    pub is_stock: bool,
    pub is_listed: bool,
}

/// The mathematical image of an equity directory entry.
pub ghost struct EquityListingData {
    pub symbol: Seq<char>,
    pub name: Seq<char>,
    pub exchange: Seq<char>,
    pub is_stock: bool,
    pub is_listed: bool,
}

impl View for EquityListing {
    type V = EquityListingData;

    open spec fn view(&self) -> EquityListingData {
        EquityListingData {
            symbol: self.symbol@,
            name: self.name@,
            exchange: self.exchange@,
            is_stock: self.is_stock,
            is_listed: self.is_listed,
        }
    }
}

/// A search hit; ephemeral, never cached.
#[derive(Clone, Debug)]
pub struct SearchResult {
    pub symbol: String,
    pub name: String,
    pub asset_type: VnAssetType,
    pub exchange: String,
}

/// The mathematical image of a search hit.
pub ghost struct SearchResultData {
    pub symbol: Seq<char>,
    pub name: Seq<char>,
    pub asset_type: VnAssetType,
    pub exchange: Seq<char>,
}

impl View for SearchResult {
    type V = SearchResultData;

    open spec fn view(&self) -> SearchResultData {
        SearchResultData {
            symbol: self.symbol@,
            name: self.name@,
            asset_type: self.asset_type,
            exchange: self.exchange@,
        }
    }
}

} // verus!
