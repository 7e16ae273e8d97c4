//! The market-data facade: classify, consult the cache, dispatch to the
//! matching source, normalize, cache and respond.
//!
//! The facade owns the fund registry and the quote cache. Network transport
//! belongs to the embedding service: the facade hands out a decision saying
//! which source to ask, and takes the fetched rows back as plain values, so
//! every rule about classification, caching, registry refresh and
//! normalization is verified here.

use crate::classify::{is_gold_symbol, is_index_symbol, spec_classify};
use crate::dates::{spec_parse_date, parse_date, today_date, Date};
use crate::money::{dec_from_u64, dec_of_u64};
use crate::quote_cache::VnQuoteCache;
use crate::records::{
    CachedQuote,
    EquityListing,
    EquityListingData,
    FundListing,
    FundListingData,
    QuoteData,
    RawGoldQuote,
    RawGoldRecord,
    RawNavData,
    RawNavRecord,
    RawStockData,
    RawStockQuote,
    SearchResult,
    SearchResultData,
    VnAssetType,
    VnHistoricalRecord,
    VnMarketError,
};
use crate::strutil::{
    contains_sub,
    lower_of,
    lowercase,
    spec_contains,
    str_eq,
    upper_of,
    uppercase,
    vec_contains_str,
};
use rust_decimal::Decimal;
use vstd::prelude::*;

verus! {

/// One registry row: an uppercased alias and the provider's fund id.
pub struct FundAlias {
    pub alias: String,
    pub id: i32,
}

pub open spec fn view_strings(s: Seq<String>) -> Seq<Seq<char>> {
    s.map_values(|x: String| x@)
}

pub open spec fn view_aliases(s: Seq<FundAlias>) -> Seq<(Seq<char>, i32)> {
    s.map_values(|f: FundAlias| (f.alias@, f.id))
}

pub open spec fn deep_funds(s: Seq<FundListing>) -> Seq<FundListingData> {
    s.map_values(|f: FundListing| f@)
}

pub open spec fn deep_navs(s: Seq<RawNavRecord>) -> Seq<RawNavData> {
    s.map_values(|r: RawNavRecord| r@)
}

pub open spec fn deep_records(s: Seq<VnHistoricalRecord>) -> Seq<QuoteData> {
    s.map_values(|r: VnHistoricalRecord| r@)
}

/// The aliases one listing entry contributes: the uppercased short name,
/// then the uppercased secondary code if there is one.
pub open spec fn spec_listing_aliases(f: FundListingData) -> Seq<Seq<char>> {
    match f.code {
        Some(c) => seq![upper_of(f.short_name), upper_of(c)],
        None => seq![upper_of(f.short_name)],
    }
}

/// The alias rows one listing entry contributes; both resolve to its id.
pub open spec fn spec_listing_ids(f: FundListingData) -> Seq<(Seq<char>, i32)> {
    match f.code {
        Some(c) => seq![(upper_of(f.short_name), f.id), (upper_of(c), f.id)],
        None => seq![(upper_of(f.short_name), f.id)],
    }
}

/// Every alias of a fund listing, in listing order.
pub open spec fn spec_fund_aliases(s: Seq<FundListingData>) -> Seq<Seq<char>>
    decreases s.len(),
{
    if s.len() == 0 {
        Seq::empty()
    } else {
        spec_listing_aliases(s[0]) + spec_fund_aliases(s.skip(1))
    }
}

/// Every alias row of a fund listing, in listing order.
pub open spec fn spec_fund_alias_ids(s: Seq<FundListingData>) -> Seq<(Seq<char>, i32)>
    decreases s.len(),
{
    if s.len() == 0 {
        Seq::empty()
    } else {
        spec_listing_ids(s[0]) + spec_fund_alias_ids(s.skip(1))
    }
}

/// The id the first matching alias row resolves `u` to.
pub open spec fn spec_lookup_alias(ids: Seq<(Seq<char>, i32)>, u: Seq<char>) -> Option<i32>
    decreases ids.len(),
{
    if ids.len() == 0 {
        None
    } else if ids[0].0 == u {
        Some(ids[0].1)
    } else {
        spec_lookup_alias(ids.skip(1), u)
    }
}

/// The normalized form of a raw equity quote: OHLCV field for field, the
/// volume carried into the shared decimal type, in the fixed local currency,
/// tagged with the classification it was fetched under (Stock or Index).
pub open spec fn spec_stock_quote(raw: RawStockData, asset_type: VnAssetType) -> QuoteData {
    QuoteData {
        symbol: raw.symbol,
        asset_type,
        date: raw.date,
        open: raw.open,
        high: raw.high,
        low: raw.low,
        close: raw.close,
        volume: dec_of_u64(raw.volume),
        nav: None,
        buy_price: None,
        sell_price: None,
        currency: "VND"@,
    }
}

/// The normalized form of one fund NAV row: all four OHLC fields carry the
/// NAV, the NAV is retained separately, the volume is zero.
pub open spec fn spec_fund_record(sym: Seq<char>, date: Date, nav: Decimal) -> QuoteData {
    QuoteData {
        symbol: sym,
        asset_type: VnAssetType::Fund,
        date,
        open: nav,
        high: nav,
        low: nav,
        close: nav,
        volume: dec_of_u64(0),
        nav: Some(nav),
        buy_price: None,
        sell_price: None,
        currency: "VND"@,
    }
}

/// The normalized form of a gold row: all four OHLC fields carry the sell
/// price, the published buy/sell pair is retained verbatim, the volume is
/// zero.
pub open spec fn spec_gold_record(
    sym: Seq<char>,
    date: Date,
    buy: Decimal,
    sell: Decimal,
) -> QuoteData {
    QuoteData {
        symbol: sym,
        asset_type: VnAssetType::Gold,
        date,
        open: sell,
        high: sell,
        low: sell,
        close: sell,
        volume: dec_of_u64(0),
        nav: None,
        buy_price: Some(buy),
        sell_price: Some(sell),
        currency: "VND"@,
    }
}

/// The fund rows whose date text parses, normalized, in input order; a row
/// whose date does not parse is dropped, not fatal.
pub open spec fn spec_fund_history(sym: Seq<char>, s: Seq<RawNavData>) -> Seq<QuoteData>
    decreases s.len(),
{
    if s.len() == 0 {
        Seq::empty()
    } else {
        match spec_parse_date(s[0].date) {
            Some(d) => seq![spec_fund_record(sym, d, s[0].nav)] + spec_fund_history(
                sym,
                s.skip(1),
            ),
            None => spec_fund_history(sym, s.skip(1)),
        }
    }
}

/// What a `get_latest_quote` call asks of its caller: hand back a cached
/// quote, fetch from one source, or fail at once.
pub enum QuoteDecision {
    /// Served from the cache; no adapter is called.
    Cached(CachedQuote),
    /// Ask the equity/index source for the symbol's latest quote, to be
    /// recorded under this classification (Stock or Index).
    FetchStock(VnAssetType),
    /// Ask the fund source for the full NAV history of this fund id.
    FetchFund(i32),
    /// Ask the gold source for the latest published prices.
    FetchGold,
    /// No fetch can serve the request.
    Failed(VnMarketError),
}

/// What a `get_history` call asks of its caller.
pub enum HistoryDecision {
    /// Ask the equity/index source for the range.
    FetchStockHistory,
    /// Ask the fund source for the range, under this fund id.
    FetchFundHistory(i32),
    /// Ask the gold source for the range.
    FetchGoldHistory,
    /// No fetch can serve the request.
    Failed(VnMarketError),
}

/// Unified access to the three sources: equities and indices, open-end
/// funds, gold bullion. Owns the fund registry and the quote cache for the
/// process lifetime.
pub struct VnMarketService {
    quote_cache: VnQuoteCache,
    known_funds: Vec<String>,
    fund_ids: Vec<FundAlias>,
}

impl VnMarketService {
    /// The uppercased fund aliases the classifier consults.
    pub closed spec fn known_aliases(self) -> Seq<Seq<char>> {
        view_strings(self.known_funds@)
    }

    /// The registry rows resolution consults.
    pub closed spec fn alias_ids(self) -> Seq<(Seq<char>, i32)> {
        view_aliases(self.fund_ids@)
    }

    /// The quote cached under `(sym, ty)`, if any.
    pub closed spec fn cached(self, sym: Seq<char>, ty: VnAssetType) -> Option<QuoteData> {
        self.quote_cache.lookup(sym, ty)
    }

    /// The cache holds at most one quote per key.
    pub closed spec fn wf(self) -> bool {
        self.quote_cache.wf()
    }

    /// How this service classifies a symbol right now.
    pub open spec fn classify(self, sym: Seq<char>) -> VnAssetType {
        spec_classify(upper_of(sym), self.known_aliases())
    }

    /// A service with an empty registry and an empty cache.
    pub fn new() -> (r: VnMarketService)
        ensures
            r.wf(),
            r.known_aliases() == Seq::<Seq<char>>::empty(),
            r.alias_ids() == Seq::<(Seq<char>, i32)>::empty(),
            forall|sym: Seq<char>, ty: VnAssetType| r.cached(sym, ty) is None,
    {
        let r = VnMarketService {
            quote_cache: VnQuoteCache::new(),
            known_funds: Vec::new(),
            fund_ids: Vec::new(),
        };
        proof {
            assert(r.known_aliases() =~= Seq::<Seq<char>>::empty());
            assert(r.alias_ids() =~= Seq::<(Seq<char>, i32)>::empty());
        }
        r
    }

    /// Load the registry for the first time; fund classification recognizes
    /// nothing before this has run once.
    pub fn initialize(&mut self, funds: &Vec<FundListing>)
        requires
            old(self).wf(),
        ensures
            final(self).wf(),
            final(self).known_aliases() == spec_fund_aliases(deep_funds(funds@)),
            final(self).alias_ids() == spec_fund_alias_ids(deep_funds(funds@)),
            forall|sym: Seq<char>, ty: VnAssetType|
                final(self).cached(sym, ty) == old(self).cached(sym, ty),
    {
        self.refresh_fund_cache(funds);
    }

    /// Replace the registry wholesale with the given listing: the alias set
    /// and the id rows are rebuilt together from it alone, so no stale alias
    /// survives. Returns how many funds the listing carried. When the
    /// listing fetch itself fails, the caller does not call this, and the
    /// existing registry stands untouched.
    pub fn refresh_fund_cache(&mut self, funds: &Vec<FundListing>) -> (count: usize)
        requires
            old(self).wf(),
        ensures
            count == funds@.len(),
            final(self).wf(),
            final(self).known_aliases() == spec_fund_aliases(deep_funds(funds@)),
            final(self).alias_ids() == spec_fund_alias_ids(deep_funds(funds@)),
            forall|sym: Seq<char>, ty: VnAssetType|
                final(self).cached(sym, ty) == old(self).cached(sym, ty),
    {
        let ghost df = deep_funds(funds@);
        let mut known: Vec<String> = Vec::new();
        let mut ids: Vec<FundAlias> = Vec::new();
        let mut i: usize = 0;
        proof {
            assert(df.skip(0) =~= df);
            assert(view_strings(known@) =~= Seq::<Seq<char>>::empty());
            assert(view_aliases(ids@) =~= Seq::<(Seq<char>, i32)>::empty());
        }
        while i < funds.len()
            invariant
                i <= funds@.len(),
                df == deep_funds(funds@),
                view_strings(known@) + spec_fund_aliases(df.skip(i as int)) == spec_fund_aliases(
                    df,
                ),
                view_aliases(ids@) + spec_fund_alias_ids(df.skip(i as int))
                    == spec_fund_alias_ids(df),
            decreases funds@.len() - i,
        {
            let f = &funds[i];
            proof {
                assert(df.skip(i as int)[0] == df[i as int]);
                assert(df[i as int] == funds@[i as int]@);
                assert(df.skip(i as int).skip(1) =~= df.skip(i as int + 1));
            }
            let su = uppercase(f.short_name.as_str());
            let su_id = uppercase(f.short_name.as_str());
            match &f.code {
                Some(c) => {
                    let cu = uppercase(c.as_str());
                    let cu_id = uppercase(c.as_str());
                    proof {
                        assert(view_strings(known@.push(su).push(cu)) =~= view_strings(known@)
                            + spec_listing_aliases(df[i as int]));
                        assert((view_strings(known@) + spec_listing_aliases(df[i as int]))
                            + spec_fund_aliases(df.skip(i as int + 1)) =~= view_strings(known@) + (
                        spec_listing_aliases(df[i as int]) + spec_fund_aliases(
                            df.skip(i as int + 1),
                        )));
                        assert(view_aliases(
                            ids@.push(FundAlias { alias: su_id, id: f.id }).push(
                                FundAlias { alias: cu_id, id: f.id },
                            ),
                        ) =~= view_aliases(ids@) + spec_listing_ids(df[i as int]));
                        assert((view_aliases(ids@) + spec_listing_ids(df[i as int]))
                            + spec_fund_alias_ids(df.skip(i as int + 1)) =~= view_aliases(ids@) + (
                        spec_listing_ids(df[i as int]) + spec_fund_alias_ids(
                            df.skip(i as int + 1),
                        )));
                    }
                    known.push(su);
                    known.push(cu);
                    ids.push(FundAlias { alias: su_id, id: f.id });
                    ids.push(FundAlias { alias: cu_id, id: f.id });
                },
                None => {
                    proof {
                        assert(view_strings(known@.push(su)) =~= view_strings(known@)
                            + spec_listing_aliases(df[i as int]));
                        assert((view_strings(known@) + spec_listing_aliases(df[i as int]))
                            + spec_fund_aliases(df.skip(i as int + 1)) =~= view_strings(known@) + (
                        spec_listing_aliases(df[i as int]) + spec_fund_aliases(
                            df.skip(i as int + 1),
                        )));
                        assert(view_aliases(ids@.push(FundAlias { alias: su_id, id: f.id }))
                            =~= view_aliases(ids@) + spec_listing_ids(df[i as int]));
                        assert((view_aliases(ids@) + spec_listing_ids(df[i as int]))
                            + spec_fund_alias_ids(df.skip(i as int + 1)) =~= view_aliases(ids@) + (
                        spec_listing_ids(df[i as int]) + spec_fund_alias_ids(
                            df.skip(i as int + 1),
                        )));
                    }
                    known.push(su);
                    ids.push(FundAlias { alias: su_id, id: f.id });
                },
            }
            i += 1;
        }
        proof {
            assert(df.skip(funds@.len() as int) =~= Seq::<FundListingData>::empty());
            assert(view_strings(known@) + Seq::<Seq<char>>::empty() =~= view_strings(known@));
            assert(view_aliases(ids@) + Seq::<(Seq<char>, i32)>::empty() =~= view_aliases(ids@));
        }
        self.known_funds = known;
        self.fund_ids = ids;
        funds.len()
    }

    /// Classify a symbol: gold pattern, then index patterns, then the fund
    /// alias set, else Stock.
    pub fn detect_asset_type(&self, symbol: &str) -> (t: VnAssetType)
        ensures
            t == self.classify(symbol@),
    {
        if is_gold_symbol(symbol) {
            return VnAssetType::Gold;
        }
        let symbol_upper = uppercase(symbol);
        if is_index_symbol(symbol_upper.as_str()) {
            return VnAssetType::Index;
        }
        if vec_contains_str(&self.known_funds, symbol_upper.as_str()) {
            proof {
                let i = choose|i: int|
                    0 <= i < self.known_funds@.len() && self.known_funds@[i]@ == symbol_upper@;
                assert(self.known_aliases()[i] == symbol_upper@);
                assert(self.known_aliases().contains(upper_of(symbol@)));
            }
            return VnAssetType::Fund;
        }
        proof {
            assert forall|j: int|
                0 <= j < self.known_aliases().len() implies self.known_aliases()[j] != upper_of(
                symbol@,
            ) by {
                assert(self.known_aliases()[j] == self.known_funds@[j]@);
            }
            assert(!self.known_aliases().contains(upper_of(symbol@)));
        }
        VnAssetType::Stock
    }

    /// The fund id the registry resolves a symbol to, or FundNotFound — also
    /// against an unrefreshed, empty registry.
    pub fn resolve_fund_id(&self, symbol: &str) -> (r: Result<i32, VnMarketError>)
        ensures
            match r {
                Ok(id) => spec_lookup_alias(self.alias_ids(), upper_of(symbol@)) == Some(id),
                Err(e) => spec_lookup_alias(self.alias_ids(), upper_of(symbol@)) is None && (
                e matches VnMarketError::FundNotFound(s) && s@ == symbol@),
            },
    {
        let u = uppercase(symbol);
        let ghost all = self.alias_ids();
        let mut i: usize = 0;
        proof {
            assert(all.skip(0) =~= all);
        }
        while i < self.fund_ids.len()
            invariant
                i <= self.fund_ids@.len(),
                all == self.alias_ids(),
                u@ == upper_of(symbol@),
                spec_lookup_alias(all.skip(i as int), u@) == spec_lookup_alias(all, u@),
            decreases self.fund_ids@.len() - i,
        {
            proof {
                assert(all.skip(i as int)[0] == all[i as int]);
                assert(all[i as int] == (self.fund_ids@[i as int].alias@,
                self.fund_ids@[i as int].id));
                assert(all.skip(i as int).skip(1) =~= all.skip(i as int + 1));
            }
            let row = &self.fund_ids[i];
            if str_eq(row.alias.as_str(), u.as_str()) {
                return Ok(row.id);
            }
            i += 1;
        }
        proof {
            assert(all.skip(self.fund_ids@.len() as int) =~= Seq::<(Seq<char>, i32)>::empty());
        }
        Err(VnMarketError::FundNotFound(String::from_str(symbol)))
    }

    /// Decide how to serve the latest quote for a symbol: a cache hit under
    /// the symbol's current classification is returned without any fetch and
    /// is never revalidated; otherwise the caller is told which source to
    /// ask, or why none can serve it.
    pub fn get_latest_quote(&self, symbol: &str) -> (d: QuoteDecision)
        requires
            self.wf(),
        ensures
            match d {
                QuoteDecision::Cached(q) => self.cached(symbol@, self.classify(symbol@)) == Some(
                    q@,
                ),
                QuoteDecision::FetchStock(ty) => self.cached(symbol@, self.classify(symbol@))
                    is None && ty == self.classify(symbol@) && (ty == VnAssetType::Stock || ty
                    == VnAssetType::Index),
                QuoteDecision::FetchFund(id) => self.cached(symbol@, self.classify(symbol@))
                    is None && self.classify(symbol@) == VnAssetType::Fund && spec_lookup_alias(
                    self.alias_ids(),
                    upper_of(symbol@),
                ) == Some(id),
                QuoteDecision::FetchGold => self.cached(symbol@, self.classify(symbol@)) is None
                    && self.classify(symbol@) == VnAssetType::Gold,
                QuoteDecision::Failed(e) => self.cached(symbol@, self.classify(symbol@)) is None
                    && self.classify(symbol@) == VnAssetType::Fund && spec_lookup_alias(
                    self.alias_ids(),
                    upper_of(symbol@),
                ) is None && (e matches VnMarketError::FundNotFound(s) && s@ == symbol@),
            },
    {
        let asset_type = self.detect_asset_type(symbol);
        match self.quote_cache.get(symbol, asset_type) {
            Some(q) => QuoteDecision::Cached(q),
            None => match asset_type {
                VnAssetType::Stock => QuoteDecision::FetchStock(asset_type),
                VnAssetType::Index => QuoteDecision::FetchStock(asset_type),
                VnAssetType::Gold => QuoteDecision::FetchGold,
                VnAssetType::Fund => match self.resolve_fund_id(symbol) {
                    Ok(id) => QuoteDecision::FetchFund(id),
                    Err(e) => QuoteDecision::Failed(e),
                },
            },
        }
    }

    /// Decide how to serve a history request; histories are never cached.
    pub fn get_history(&self, symbol: &str) -> (d: HistoryDecision)
        ensures
            match d {
                HistoryDecision::FetchStockHistory => self.classify(symbol@) == VnAssetType::Stock
                    || self.classify(symbol@) == VnAssetType::Index,
                HistoryDecision::FetchFundHistory(id) => self.classify(symbol@)
                    == VnAssetType::Fund && spec_lookup_alias(
                    self.alias_ids(),
                    upper_of(symbol@),
                ) == Some(id),
                HistoryDecision::FetchGoldHistory => self.classify(symbol@) == VnAssetType::Gold,
                HistoryDecision::Failed(e) => self.classify(symbol@) == VnAssetType::Fund
                    && spec_lookup_alias(self.alias_ids(), upper_of(symbol@)) is None && (
                e matches VnMarketError::FundNotFound(s) && s@ == symbol@),
            },
    {
        let asset_type = self.detect_asset_type(symbol);
        match asset_type {
            VnAssetType::Stock => HistoryDecision::FetchStockHistory,
            VnAssetType::Index => HistoryDecision::FetchStockHistory,
            VnAssetType::Gold => HistoryDecision::FetchGoldHistory,
            VnAssetType::Fund => match self.resolve_fund_id(symbol) {
                Ok(id) => HistoryDecision::FetchFundHistory(id),
                Err(e) => HistoryDecision::Failed(e),
            },
        }
    }

    /// Normalize and cache, under the classification it was fetched for,
    /// what the equity source returned for the latest quote; `None` from
    /// the source is NoData for (symbol, "latest").
    pub fn record_stock_quote(
        &mut self,
        symbol: &str,
        asset_type: VnAssetType,
        fetched: Option<RawStockQuote>,
    ) -> (r: Result<CachedQuote, VnMarketError>)
        requires
            old(self).wf(),
            asset_type == VnAssetType::Stock || asset_type == VnAssetType::Index,
        ensures
            final(self).wf(),
            final(self).known_aliases() == old(self).known_aliases(),
            final(self).alias_ids() == old(self).alias_ids(),
            match r {
                Ok(q) => (fetched matches Some(raw) && q@ == spec_stock_quote(
                    raw@,
                    asset_type,
                )) && (final(self).cached(q@.symbol, asset_type) == Some(q@)) && (
                forall|sym: Seq<char>, ty: VnAssetType|
                    !(sym == q@.symbol && ty == asset_type) ==> final(self).cached(sym, ty) == old(
                        self,
                    ).cached(sym, ty)),
                Err(e) => (fetched is None) && (e matches VnMarketError::NoData {
                    symbol: s,
                    date: d,
                } && s@ == symbol@ && d@ == "latest"@) && (forall|sym: Seq<char>, ty: VnAssetType|
                    final(self).cached(sym, ty) == old(self).cached(sym, ty)),
            },
    {
        match fetched {
            None => Err(
                VnMarketError::NoData {
                    symbol: String::from_str(symbol),
                    date: String::from_str("latest"),
                },
            ),
            Some(raw) => {
                let q = CachedQuote {
                    symbol: raw.symbol,
                    asset_type,
                    date: raw.date,
                    open: raw.open,
                    high: raw.high,
                    low: raw.low,
                    close: raw.close,
                    volume: dec_from_u64(raw.volume),
                    nav: None,
                    buy_price: None,
                    sell_price: None,
                    currency: String::from_str("VND"),
                };
                let out = q.duplicate();
                self.quote_cache.set(q);
                Ok(out)
            },
        }
    }

    /// Derive the latest fund quote from the fund's entire NAV history —
    /// the source has no dedicated "latest" endpoint — normalize and cache
    /// it. An empty history is NoData for (symbol, "latest"); a latest row
    /// whose date text does not parse keeps the row and falls back to
    /// today's date.
    pub fn record_fund_quote(&mut self, symbol: &str, history: &Vec<RawNavRecord>) -> (r: Result<
        CachedQuote,
        VnMarketError,
    >)
        requires
            old(self).wf(),
        ensures
            final(self).wf(),
            final(self).known_aliases() == old(self).known_aliases(),
            final(self).alias_ids() == old(self).alias_ids(),
            history@.len() == 0 ==> ((r matches Err(e) && (e matches VnMarketError::NoData {
                symbol: s,
                date: d,
            } && s@ == symbol@ && d@ == "latest"@)) && (forall|sym: Seq<char>, ty: VnAssetType|
                final(self).cached(sym, ty) == old(self).cached(sym, ty))),
            history@.len() > 0 ==> (r matches Ok(q) && q@.symbol == symbol@ && q@.asset_type
                == VnAssetType::Fund && q@.open == history@.last()@.nav && q@.high
                == history@.last()@.nav && q@.low == history@.last()@.nav && q@.close
                == history@.last()@.nav && q@.volume == dec_of_u64(0) && q@.nav == Some(
                history@.last()@.nav,
            ) && q@.buy_price is None && q@.sell_price is None && q@.currency == "VND"@),
            history@.len() > 0 ==> (match spec_parse_date(history@.last()@.date) {
                Some(d) => r matches Ok(q) && q@.date == d,
                None => r matches Ok(q) && 1 <= q@.date.month <= 12 && 1 <= q@.date.day <= 31,
            }),
            history@.len() > 0 ==> (r matches Ok(q) && final(self).cached(
                symbol@,
                VnAssetType::Fund,
            ) == Some(q@) && (forall|sym: Seq<char>, ty: VnAssetType|
                !(sym == symbol@ && ty == VnAssetType::Fund) ==> final(self).cached(sym, ty) == old(
                    self,
                ).cached(sym, ty))),
    {
        if history.len() == 0 {
            return Err(
                VnMarketError::NoData {
                    symbol: String::from_str(symbol),
                    date: String::from_str("latest"),
                },
            );
        }
        let latest = &history[history.len() - 1];
        let date = match parse_date(latest.date.as_str()) {
            Some(d) => d,
            None => today_date(),
        };
        let nav = latest.nav;
        let q = CachedQuote {
            symbol: String::from_str(symbol),
            asset_type: VnAssetType::Fund,
            date,
            open: nav,
            high: nav,
            low: nav,
            close: nav,
            volume: dec_from_u64(0),
            nav: Some(nav),
            buy_price: None,
            sell_price: None,
            currency: String::from_str("VND"),
        };
        let out = q.duplicate();
        self.quote_cache.set(q);
        Ok(out)
    }

    /// The uppercased aliases the classifier currently recognizes as funds.
    pub fn known_fund_aliases(&self) -> (r: &Vec<String>)
        ensures
            view_strings(r@) == self.known_aliases(),
    {
        &self.known_funds
    }

    /// Normalize and cache what the gold source published.
    pub fn record_gold_quote(&mut self, raw: RawGoldQuote) -> (q: CachedQuote)
        requires
            old(self).wf(),
        ensures
            final(self).wf(),
            final(self).known_aliases() == old(self).known_aliases(),
            final(self).alias_ids() == old(self).alias_ids(),
            q@ == spec_gold_record(raw@.symbol, raw@.date, raw@.buy_price, raw@.sell_price),
            final(self).cached(raw@.symbol, VnAssetType::Gold) == Some(q@),
            forall|sym: Seq<char>, ty: VnAssetType|
                !(sym == raw@.symbol && ty == VnAssetType::Gold) ==> final(self).cached(sym, ty)
                    == old(self).cached(sym, ty),
    {
        let q = CachedQuote {
            symbol: raw.symbol,
            asset_type: VnAssetType::Gold,
            date: raw.date,
            open: raw.sell_price,
            high: raw.sell_price,
            low: raw.sell_price,
            close: raw.sell_price,
            volume: dec_from_u64(0),
            nav: None,
            buy_price: Some(raw.buy_price),
            sell_price: Some(raw.sell_price),
            currency: String::from_str("VND"),
        };
        let out = q.duplicate();
        self.quote_cache.set(q);
        out
    }
}

impl Default for VnMarketService {
    /// Same as `new`: an empty registry and an empty cache.
    fn default() -> (r: VnMarketService)
        ensures
            r.wf(),
            r.known_aliases() == Seq::<Seq<char>>::empty(),
            r.alias_ids() == Seq::<(Seq<char>, i32)>::empty(),
            forall|sym: Seq<char>, ty: VnAssetType| r.cached(sym, ty) is None,
    {
        VnMarketService::new()
    }
}

/// Normalize an equity/index history, row for row, in the source's order;
/// the facade never re-sorts.
pub fn stock_history_from_fetch(fetched: &Vec<RawStockQuote>) -> (r: Vec<VnHistoricalRecord>)
    ensures
        r@.len() == fetched@.len(),
        forall|j: int|
            0 <= j < fetched@.len() ==> r@[j]@ == spec_stock_quote(
                fetched@[j]@,
                VnAssetType::Stock,
            ),
{
    let mut out: Vec<VnHistoricalRecord> = Vec::new();
    let mut i: usize = 0;
    while i < fetched.len()
        invariant
            i <= fetched@.len(),
            out@.len() == i,
            forall|j: int|
                0 <= j < i ==> out@[j]@ == spec_stock_quote(fetched@[j]@, VnAssetType::Stock),
        decreases fetched@.len() - i,
    {
        let q = &fetched[i];
        let rec = VnHistoricalRecord::new(
            q.symbol.as_str(),
            VnAssetType::Stock,
            q.date,
            q.open,
            q.high,
            q.low,
            q.close,
            dec_from_u64(q.volume),
        );
        out.push(rec);
        i += 1;
    }
    out
}

/// Normalize a fund NAV history: rows whose date text does not parse are
/// dropped row by row, never failing the batch; the rest keep the source's
/// order.
pub fn fund_history_from_fetch(symbol: &str, records: &Vec<RawNavRecord>) -> (r: Vec<
    VnHistoricalRecord,
>)
    ensures
        deep_records(r@) == spec_fund_history(symbol@, deep_navs(records@)),
{
    let ghost all = deep_navs(records@);
    let mut out: Vec<VnHistoricalRecord> = Vec::new();
    let mut i: usize = 0;
    proof {
        assert(all.skip(0) =~= all);
        assert(deep_records(out@) =~= Seq::<QuoteData>::empty());
    }
    while i < records.len()
        invariant
            i <= records@.len(),
            all == deep_navs(records@),
            deep_records(out@) + spec_fund_history(symbol@, all.skip(i as int))
                == spec_fund_history(symbol@, all),
        decreases records@.len() - i,
    {
        let rec = &records[i];
        proof {
            assert(all.skip(i as int)[0] == all[i as int]);
            assert(all[i as int] == records@[i as int]@);
            assert(all.skip(i as int).skip(1) =~= all.skip(i as int + 1));
        }
        match parse_date(rec.date.as_str()) {
            Some(d) => {
                let nav = rec.nav;
                let row = VnHistoricalRecord::new(
                    symbol,
                    VnAssetType::Fund,
                    d,
                    nav,
                    nav,
                    nav,
                    nav,
                    dec_from_u64(0),
                ).with_nav(nav);
                proof {
                    assert(row@ == spec_fund_record(symbol@, d, all[i as int].nav));
                    assert(deep_records(out@.push(row)) =~= deep_records(out@).push(row@));
                    assert(deep_records(out@).push(row@) + spec_fund_history(
                        symbol@,
                        all.skip(i as int + 1),
                    ) =~= deep_records(out@) + (seq![row@] + spec_fund_history(
                        symbol@,
                        all.skip(i as int + 1),
                    )));
                }
                out.push(row);
            },
            None => {},
        }
        i += 1;
    }
    proof {
        assert(all.skip(records@.len() as int) =~= Seq::<RawNavData>::empty());
        assert(deep_records(out@) + Seq::<QuoteData>::empty() =~= deep_records(out@));
    }
    out
}

/// Normalize a gold price history, row for row, in the source's order.
pub fn gold_history_from_fetch(symbol: &str, fetched: &Vec<RawGoldRecord>) -> (r: Vec<
    VnHistoricalRecord,
>)
    ensures
        r@.len() == fetched@.len(),
        forall|j: int|
            0 <= j < fetched@.len() ==> r@[j]@ == spec_gold_record(
                symbol@,
                fetched@[j].date,
                fetched@[j].buy_price,
                fetched@[j].sell_price,
            ),
{
    let mut out: Vec<VnHistoricalRecord> = Vec::new();
    let mut i: usize = 0;
    while i < fetched.len()
        invariant
            i <= fetched@.len(),
            out@.len() == i,
            forall|j: int|
                0 <= j < i ==> out@[j]@ == spec_gold_record(
                    symbol@,
                    fetched@[j].date,
                    fetched@[j].buy_price,
                    fetched@[j].sell_price,
                ),
        decreases fetched@.len() - i,
    {
        let g = fetched[i];
        let rec = VnHistoricalRecord::new(
            symbol,
            VnAssetType::Gold,
            g.date,
            g.sell_price,
            g.sell_price,
            g.sell_price,
            g.sell_price,
            dec_from_u64(0),
        ).with_gold_prices(g.buy_price, g.sell_price);
        out.push(rec);
        i += 1;
    }
    out
}

pub open spec fn deep_equities(s: Seq<EquityListing>) -> Seq<EquityListingData> {
    s.map_values(|e: EquityListing| e@)
}

pub open spec fn deep_results(s: Seq<SearchResult>) -> Seq<SearchResultData> {
    s.map_values(|r: SearchResult| r@)
}

/// A directory entry is searchable (listed, equity-tagged) and matches the
/// lowercased query in its symbol or its display name.
pub open spec fn spec_equity_match(e: EquityListingData, lq: Seq<char>) -> bool {
    e.is_stock && e.is_listed && (spec_contains(lower_of(e.symbol), lq) || spec_contains(
        lower_of(e.name),
        lq,
    ))
}

pub open spec fn spec_equity_result(e: EquityListingData) -> SearchResultData {
    SearchResultData {
        symbol: e.symbol,
        name: e.name,
        asset_type: VnAssetType::Stock,
        exchange: e.exchange,
    }
}

/// The first `room` equity matches, in directory order.
pub open spec fn spec_equity_results(
    s: Seq<EquityListingData>,
    lq: Seq<char>,
    room: nat,
) -> Seq<SearchResultData>
    decreases s.len(),
{
    if s.len() == 0 || room == 0 {
        Seq::empty()
    } else if spec_equity_match(s[0], lq) {
        seq![spec_equity_result(s[0])] + spec_equity_results(s.skip(1), lq, (room - 1) as nat)
    } else {
        spec_equity_results(s.skip(1), lq, room)
    }
}

/// A fund matches the lowercased query in its short name or its full name.
pub open spec fn spec_fund_match(f: FundListingData, lq: Seq<char>) -> bool {
    spec_contains(lower_of(f.short_name), lq) || spec_contains(lower_of(f.name), lq)
}

pub open spec fn spec_fund_result(f: FundListingData) -> SearchResultData {
    SearchResultData {
        symbol: f.short_name,
        name: f.name,
        asset_type: VnAssetType::Fund,
        exchange: "FUND"@,
    }
}

/// Every matching fund, uncapped, in listing order.
pub open spec fn spec_fund_results(
    s: Seq<FundListingData>,
    lq: Seq<char>,
) -> Seq<SearchResultData>
    decreases s.len(),
{
    if s.len() == 0 {
        Seq::empty()
    } else if spec_fund_match(s[0], lq) {
        seq![spec_fund_result(s[0])] + spec_fund_results(s.skip(1), lq)
    } else {
        spec_fund_results(s.skip(1), lq)
    }
}

/// The gold keyword set: the English word, the Vietnamese term, or exactly
/// the provider code.
pub open spec fn spec_is_gold_query(lq: Seq<char>) -> bool {
    spec_contains(lq, "gold"@) || spec_contains(lq, "vàng"@) || lq == "sjc"@
}

/// The synthetic entry for gold by the tael.
pub open spec fn spec_gold_entry_major() -> SearchResultData {
    SearchResultData {
        symbol: "VN.GOLD"@,
        name: "SJC Gold (Lượng)"@,
        asset_type: VnAssetType::Gold,
        exchange: "SJC"@,
    }
}

/// The synthetic entry for gold by the mace.
pub open spec fn spec_gold_entry_minor() -> SearchResultData {
    SearchResultData {
        symbol: "VN.GOLD.C"@,
        name: "SJC Gold (Chỉ)"@,
        asset_type: VnAssetType::Gold,
        exchange: "SJC"@,
    }
}

/// Exactly two synthetic gold entries on a gold query, none otherwise.
pub open spec fn spec_gold_results(lq: Seq<char>) -> Seq<SearchResultData> {
    if spec_is_gold_query(lq) {
        seq![spec_gold_entry_major(), spec_gold_entry_minor()]
    } else {
        Seq::empty()
    }
}

pub open spec fn view_opt_equities(o: Option<Vec<EquityListing>>) -> Option<
    Seq<EquityListingData>,
> {
    match o {
        Some(v) => Some(deep_equities(v@)),
        None => None,
    }
}

pub open spec fn view_opt_funds(o: Option<Vec<FundListing>>) -> Option<Seq<FundListingData>> {
    match o {
        Some(v) => Some(deep_funds(v@)),
        None => None,
    }
}

/// What a search returns: each source contributes best-effort, a failed
/// source (`None`) simply contributes nothing, and the search itself never
/// fails. At most 20 equity matches, every fund match, and the two synthetic
/// gold entries exactly on a gold query.
pub open spec fn spec_search(
    lq: Seq<char>,
    equities: Option<Seq<EquityListingData>>,
    funds: Option<Seq<FundListingData>>,
) -> Seq<SearchResultData> {
    spec_equity_results(
        match equities {
            Some(s) => s,
            None => Seq::empty(),
        },
        lq,
        20,
    ) + spec_fund_results(
        match funds {
            Some(s) => s,
            None => Seq::empty(),
        },
        lq,
    ) + spec_gold_results(lq)
}

impl VnMarketService {
    /// Case-insensitive substring search over whatever the sources could
    /// deliver: `None` stands for a source whose fetch failed and is
    /// silently omitted. Never consults or touches the quote cache.
    pub fn search(
        &self,
        query: &str,
        equities: &Option<Vec<EquityListing>>,
        funds: &Option<Vec<FundListing>>,
    ) -> (r: Vec<SearchResult>)
        ensures
            deep_results(r@) == spec_search(
                lower_of(query@),
                view_opt_equities(*equities),
                view_opt_funds(*funds),
            ),
    {
        let query_lower = lowercase(query);
        let ghost lq = lower_of(query@);
        let mut results: Vec<SearchResult> = Vec::new();
        proof {
            assert(deep_results(results@) =~= Seq::<SearchResultData>::empty());
        }
        match equities {
            Some(list) => {
                let ghost es = deep_equities(list@);
                let mut i: usize = 0;
                proof {
                    assert(es.skip(0) =~= es);
                    assert(Seq::<SearchResultData>::empty() + spec_equity_results(es, lq, 20)
                        =~= spec_equity_results(es, lq, 20));
                }
                while i < list.len() && results.len() < 20
                    invariant
                        i <= list@.len(),
                        es == deep_equities(list@),
                        query_lower@ == lq,
                        results@.len() <= 20,
                        deep_results(results@) + spec_equity_results(
                            es.skip(i as int),
                            lq,
                            (20 - results@.len()) as nat,
                        ) == spec_equity_results(es, lq, 20),
                    decreases list@.len() - i,
                {
                    let e = &list[i];
                    proof {
                        assert(es.skip(i as int)[0] == es[i as int]);
                        assert(es[i as int] == list@[i as int]@);
                        assert(es.skip(i as int).skip(1) =~= es.skip(i as int + 1));
                    }
                    let matched = if !(e.is_stock && e.is_listed) {
                        false
                    } else {
                        let sym_lower = lowercase(e.symbol.as_str());
                        let name_lower = lowercase(e.name.as_str());
                        contains_sub(sym_lower.as_str(), query_lower.as_str()) || contains_sub(
                            name_lower.as_str(),
                            query_lower.as_str(),
                        )
                    };
                    if matched {
                        let sr = SearchResult {
                            symbol: e.symbol.clone(),
                            name: e.name.clone(),
                            asset_type: VnAssetType::Stock,
                            exchange: e.exchange.clone(),
                        };
                        proof {
                            assert(sr@ == spec_equity_result(es[i as int]));
                            assert(deep_results(results@.push(sr)) =~= deep_results(
                                results@,
                            ).push(sr@));
                            assert(deep_results(results@).push(sr@) + spec_equity_results(
                                es.skip(i as int + 1),
                                lq,
                                (20 - results@.len() - 1) as nat,
                            ) =~= deep_results(results@) + (seq![sr@] + spec_equity_results(
                                es.skip(i as int + 1),
                                lq,
                                (20 - results@.len() - 1) as nat,
                            )));
                        }
                        results.push(sr);
                    }
                    i += 1;
                }
                proof {
                    if i == list@.len() {
                        assert(es.skip(i as int) =~= Seq::<EquityListingData>::empty());
                    }
                    assert(deep_results(results@) + Seq::<SearchResultData>::empty()
                        =~= deep_results(results@));
                }
            },
            None => {
                proof {
                    assert(deep_results(results@) =~= spec_equity_results(
                        Seq::<EquityListingData>::empty(),
                        lq,
                        20,
                    ));
                }
            },
        }
        let ghost eq_part = deep_results(results@);
        match funds {
            Some(list) => {
                let ghost fs = deep_funds(list@);
                let mut i: usize = 0;
                proof {
                    assert(fs.skip(0) =~= fs);
                }
                while i < list.len()
                    invariant
                        i <= list@.len(),
                        fs == deep_funds(list@),
                        query_lower@ == lq,
                        deep_results(results@) + spec_fund_results(fs.skip(i as int), lq)
                            == eq_part + spec_fund_results(fs, lq),
                    decreases list@.len() - i,
                {
                    let f = &list[i];
                    proof {
                        assert(fs.skip(i as int)[0] == fs[i as int]);
                        assert(fs[i as int] == list@[i as int]@);
                        assert(fs.skip(i as int).skip(1) =~= fs.skip(i as int + 1));
                    }
                    let short_lower = lowercase(f.short_name.as_str());
                    let name_lower = lowercase(f.name.as_str());
                    let matched = contains_sub(short_lower.as_str(), query_lower.as_str())
                        || contains_sub(name_lower.as_str(), query_lower.as_str());
                    if matched {
                        let sr = SearchResult {
                            symbol: f.short_name.clone(),
                            name: f.name.clone(),
                            asset_type: VnAssetType::Fund,
                            exchange: String::from_str("FUND"),
                        };
                        proof {
                            assert(sr@ == spec_fund_result(fs[i as int]));
                            assert(deep_results(results@.push(sr)) =~= deep_results(
                                results@,
                            ).push(sr@));
                            assert(deep_results(results@).push(sr@) + spec_fund_results(
                                fs.skip(i as int + 1),
                                lq,
                            ) =~= deep_results(results@) + (seq![sr@] + spec_fund_results(
                                fs.skip(i as int + 1),
                                lq,
                            )));
                        }
                        results.push(sr);
                    }
                    i += 1;
                }
                proof {
                    assert(fs.skip(list@.len() as int) =~= Seq::<FundListingData>::empty());
                    assert(deep_results(results@) + Seq::<SearchResultData>::empty()
                        =~= deep_results(results@));
                }
            },
            None => {
                proof {
                    assert(spec_fund_results(Seq::<FundListingData>::empty(), lq)
                        =~= Seq::<SearchResultData>::empty());
                    assert(deep_results(results@) + Seq::<SearchResultData>::empty()
                        =~= deep_results(results@));
                }
            },
        }
        let ghost base = deep_results(results@);
        let is_gold_query = contains_sub(query_lower.as_str(), "gold") || contains_sub(
            query_lower.as_str(),
            "vàng",
        ) || str_eq(query_lower.as_str(), "sjc");
        if is_gold_query {
            let major = SearchResult {
                symbol: String::from_str("VN.GOLD"),
                name: String::from_str("SJC Gold (Lượng)"),
                asset_type: VnAssetType::Gold,
                exchange: String::from_str("SJC"),
            };
            let minor = SearchResult {
                symbol: String::from_str("VN.GOLD.C"),
                name: String::from_str("SJC Gold (Chỉ)"),
                asset_type: VnAssetType::Gold,
                exchange: String::from_str("SJC"),
            };
            proof {
                assert(major@ == spec_gold_entry_major());
                assert(minor@ == spec_gold_entry_minor());
                assert(deep_results(results@.push(major).push(minor)) =~= base + seq![
                    spec_gold_entry_major(),
                    spec_gold_entry_minor(),
                ]);
            }
            results.push(major);
            results.push(minor);
        } else {
            proof {
                assert(base + Seq::<SearchResultData>::empty() =~= base);
            }
        }
        proof {
            assert(deep_results(results@) =~= spec_search(
                lq,
                view_opt_equities(*equities),
                view_opt_funds(*funds),
            ));
        }
        results
    }
}

pub proof fn lemma_lookup_alias_some_iff(ids: Seq<(Seq<char>, i32)>, u: Seq<char>)
    ensures
        (spec_lookup_alias(ids, u) is Some) <==> (exists|j: int|
            0 <= j < ids.len() && ids[j].0 == u),
    decreases ids.len(),
{
    if ids.len() == 0 {
    } else if ids[0].0 == u {
        assert(ids[0].0 == u);
    } else {
        lemma_lookup_alias_some_iff(ids.skip(1), u);
        if exists|j: int| 0 <= j < ids.len() && ids[j].0 == u {
            let j = choose|j: int| 0 <= j < ids.len() && ids[j].0 == u;
            assert(j >= 1);
            assert(ids.skip(1)[j - 1] == ids[j]);
            assert(exists|k: int| 0 <= k < ids.skip(1).len() && ids.skip(1)[k].0 == u);
        }
        if exists|k: int| 0 <= k < ids.skip(1).len() && ids.skip(1)[k].0 == u {
            let k = choose|k: int| 0 <= k < ids.skip(1).len() && ids.skip(1)[k].0 == u;
            assert(ids.skip(1)[k] == ids[k + 1]);
            assert(exists|j: int| 0 <= j < ids.len() && ids[j].0 == u);
        }
    }
}

pub proof fn lemma_alias_ids_cover(funds: Seq<FundListingData>)
    ensures
        spec_fund_aliases(funds).len() == spec_fund_alias_ids(funds).len(),
        forall|j: int|
            0 <= j < spec_fund_aliases(funds).len() ==> spec_fund_aliases(funds)[j]
                == spec_fund_alias_ids(funds)[j].0,
    decreases funds.len(),
{
    if funds.len() == 0 {
    } else {
        lemma_alias_ids_cover(funds.skip(1));
        assert(spec_listing_aliases(funds[0]).len() == spec_listing_ids(funds[0]).len());
        assert(forall|j: int|
            0 <= j < spec_listing_aliases(funds[0]).len() ==> spec_listing_aliases(funds[0])[j]
                == spec_listing_ids(funds[0])[j].0);
    }
}

/// Law: once a fetched quote is recorded, a second lookup for the same
/// symbol is served from the cache. Recording preserves the registry, so
/// the symbol still classifies as it did when the quote was stored, and the
/// quote now sits under exactly that key — the state in which
/// `get_latest_quote` answers `Cached` without any fetch.
pub proof fn lemma_second_call_is_cache_hit(
    before: VnMarketService,
    after: VnMarketService,
    sym: Seq<char>,
    ty: VnAssetType,
    q: QuoteData,
)
    requires
        before.classify(sym) == ty,
        after.known_aliases() == before.known_aliases(),
        after.cached(sym, ty) == Some(q),
    ensures
        after.classify(sym) == ty,
        after.cached(sym, after.classify(sym)) == Some(q),
{
}

/// Law: a refresh replaces the registry wholesale. After refreshing with a
/// listing, a symbol resolves exactly when that listing carries its alias —
/// whatever the registry held before the refresh.
pub proof fn lemma_refresh_wholesale(funds: Seq<FundListingData>, u: Seq<char>)
    ensures
        (spec_lookup_alias(spec_fund_alias_ids(funds), u) is Some) <==> spec_fund_aliases(
            funds,
        ).contains(u),
{
    lemma_lookup_alias_some_iff(spec_fund_alias_ids(funds), u);
    lemma_alias_ids_cover(funds);
    if spec_fund_aliases(funds).contains(u) {
        let j = choose|j: int|
            0 <= j < spec_fund_aliases(funds).len() && spec_fund_aliases(funds)[j] == u;
        assert(spec_fund_alias_ids(funds)[j].0 == u);
    }
    if exists|j: int|
        0 <= j < spec_fund_alias_ids(funds).len() && spec_fund_alias_ids(funds)[j].0 == u {
        let j = choose|j: int|
            0 <= j < spec_fund_alias_ids(funds).len() && spec_fund_alias_ids(funds)[j].0 == u;
        assert(spec_fund_aliases(funds)[j] == u);
    }
}

} // verus!
