//! Behavior of the market-data facade: classification, registry refresh,
//! quote caching, normalization and search.

use rust_decimal::Decimal;
use wealthvn_core::dates::{parse_date, Date};
use wealthvn_core::market::{
    fund_history_from_fetch, gold_history_from_fetch, stock_history_from_fetch, HistoryDecision,
    QuoteDecision, VnMarketService,
};
use wealthvn_core::records::{
    EquityListing, FundListing, RawGoldQuote, RawGoldRecord, RawNavRecord, RawStockQuote,
    VnAssetType, VnMarketError,
};

fn fund(id: i32, short_name: &str, code: Option<&str>, name: &str) -> FundListing {
    FundListing {
        id,
        short_name: short_name.to_string(),
        code: code.map(|c| c.to_string()),
        name: name.to_string(),
    }
}

fn equity(symbol: &str, name: &str, listed: bool, stock: bool) -> EquityListing {
    EquityListing {
        symbol: symbol.to_string(),
        name: name.to_string(),
        exchange: "HOSE".to_string(),
        is_stock: stock,
        is_listed: listed,
    }
}

fn nav(date: &str, value: u64) -> RawNavRecord {
    RawNavRecord {
        date: date.to_string(),
        nav: Decimal::from(value),
    }
}

#[test]
fn gold_pattern_classifies_as_gold_in_any_registry_state() {
    let mut service = VnMarketService::new();
    for sym in ["SJC", "sjc", "GOLD", "gold", "VN.GOLD", "vn.gold.c"] {
        assert_eq!(service.detect_asset_type(sym), VnAssetType::Gold, "{}", sym);
    }
    service.refresh_fund_cache(&vec![fund(1, "SJC-FUND", None, "whatever")]);
    for sym in ["SJC", "sjc", "GOLD", "gold", "VN.GOLD", "vn.gold.c"] {
        assert_eq!(service.detect_asset_type(sym), VnAssetType::Gold, "{}", sym);
    }
}

#[test]
fn index_patterns_classify_as_index() {
    let service = VnMarketService::new();
    for sym in ["VNINDEX", "vn-index", "HNXINDEX", "UPCOM-INDEX", "ABCINDEX", "VN30", "hnx30"] {
        assert_eq!(service.detect_asset_type(sym), VnAssetType::Index, "{}", sym);
    }
}

#[test]
fn fund_symbol_classifies_as_fund_only_after_refresh() {
    let mut service = VnMarketService::new();
    // Before any refresh the literal symbol is a plain stock.
    assert_eq!(service.detect_asset_type("VESAF"), VnAssetType::Stock);
    service.refresh_fund_cache(&vec![fund(23, "vesaf", Some("vmf-23"), "VinaCapital VESAF")]);
    // Aliases are matched case-insensitively through uppercasing.
    assert_eq!(service.detect_asset_type("VESAF"), VnAssetType::Fund);
    assert_eq!(service.detect_asset_type("vesaf"), VnAssetType::Fund);
    assert_eq!(service.detect_asset_type("VMF-23"), VnAssetType::Fund);
    assert_eq!(service.detect_asset_type("OTHER"), VnAssetType::Stock);
}

#[test]
fn refresh_replaces_the_registry_wholesale() {
    let mut service = VnMarketService::new();
    let count = service.refresh_fund_cache(&vec![
        fund(1, "A", Some("A2"), "Fund A"),
        fund(2, "B", None, "Fund B"),
    ]);
    assert_eq!(count, 2);
    assert_eq!(service.resolve_fund_id("A").unwrap(), 1);
    assert_eq!(service.resolve_fund_id("a2").unwrap(), 1);
    assert_eq!(service.resolve_fund_id("B").unwrap(), 2);

    let count = service.refresh_fund_cache(&vec![fund(3, "C", None, "Fund C")]);
    assert_eq!(count, 1);
    assert_eq!(
        service.resolve_fund_id("A"),
        Err(VnMarketError::FundNotFound("A".to_string()))
    );
    assert_eq!(service.resolve_fund_id("C").unwrap(), 3);
}

#[test]
fn second_quote_call_is_served_from_cache() {
    let mut service = VnMarketService::new();
    let mut adapter_calls: usize = 0;

    // First call: the facade asks for a fetch from the equity source.
    let quote = match service.get_latest_quote("VNM") {
        QuoteDecision::FetchStock(ty) => {
            assert_eq!(ty, VnAssetType::Stock);
            adapter_calls += 1;
            let raw = RawStockQuote {
                symbol: "VNM".to_string(),
                date: Date { year: 2025, month: 3, day: 14 },
                open: Decimal::from(61_000u64),
                high: Decimal::from(62_000u64),
                low: Decimal::from(60_500u64),
                close: Decimal::from(61_800u64),
                volume: 1_500_000,
            };
            service.record_stock_quote("VNM", ty, Some(raw)).unwrap()
        }
        other => panic!("expected a stock fetch, got {:?}", decision_name(&other)),
    };

    // Second call: served from the cache, no adapter touched.
    match service.get_latest_quote("VNM") {
        QuoteDecision::Cached(cached) => {
            assert_eq!(cached.symbol, quote.symbol);
            assert_eq!(cached.close, quote.close);
            assert_eq!(cached.date, quote.date);
        }
        other => panic!("expected a cache hit, got {:?}", decision_name(&other)),
    }
    assert_eq!(adapter_calls, 1);
}

fn decision_name(d: &QuoteDecision) -> &'static str {
    match d {
        QuoteDecision::Cached(_) => "Cached",
        QuoteDecision::FetchStock(_) => "FetchStock",
        QuoteDecision::FetchFund(_) => "FetchFund",
        QuoteDecision::FetchGold => "FetchGold",
        QuoteDecision::Failed(_) => "Failed",
    }
}

#[test]
fn index_quote_is_cached_under_its_classification() {
    let mut service = VnMarketService::new();
    let ty = match service.get_latest_quote("VNINDEX") {
        QuoteDecision::FetchStock(ty) => ty,
        other => panic!("expected a stock fetch, got {:?}", decision_name(&other)),
    };
    assert_eq!(ty, VnAssetType::Index);
    let raw = RawStockQuote {
        symbol: "VNINDEX".to_string(),
        date: Date { year: 2025, month: 3, day: 14 },
        open: Decimal::from(1_250u64),
        high: Decimal::from(1_260u64),
        low: Decimal::from(1_245u64),
        close: Decimal::from(1_255u64),
        volume: 0,
    };
    let q = service.record_stock_quote("VNINDEX", ty, Some(raw)).unwrap();
    assert_eq!(q.asset_type, VnAssetType::Index);
    // The quote sits under (symbol, Index): the second call is a cache hit.
    match service.get_latest_quote("VNINDEX") {
        QuoteDecision::Cached(cached) => assert_eq!(cached.close, q.close),
        other => panic!("expected a cache hit, got {:?}", decision_name(&other)),
    }
}

#[test]
fn stock_quote_without_source_row_is_nodata() {
    let mut service = VnMarketService::new();
    match service.record_stock_quote("VNM", VnAssetType::Stock, None) {
        Err(VnMarketError::NoData { symbol, date }) => {
            assert_eq!(symbol, "VNM");
            assert_eq!(date, "latest");
        }
        _ => panic!("expected NoData"),
    }
}

#[test]
fn stock_quote_maps_fields_and_casts_volume() {
    let mut service = VnMarketService::new();
    let raw = RawStockQuote {
        symbol: "FPT".to_string(),
        date: Date { year: 2025, month: 2, day: 3 },
        open: Decimal::from(120u64),
        high: Decimal::from(125u64),
        low: Decimal::from(119u64),
        close: Decimal::from(124u64),
        volume: 1234,
    };
    let q = service
        .record_stock_quote("FPT", VnAssetType::Stock, Some(raw))
        .unwrap();
    assert_eq!(q.asset_type, VnAssetType::Stock);
    assert_eq!(q.volume, Decimal::from(1234u64));
    assert_eq!(q.currency, "VND");
    assert_eq!(q.nav, None);
    assert_eq!(q.buy_price, None);
}

#[test]
fn fund_latest_quote_is_the_last_history_row() {
    let mut service = VnMarketService::new();
    service.refresh_fund_cache(&vec![fund(23, "VESAF", None, "VinaCapital VESAF")]);

    let fund_id = match service.get_latest_quote("VESAF") {
        QuoteDecision::FetchFund(id) => id,
        other => panic!("expected a fund fetch, got {:?}", decision_name(&other)),
    };
    assert_eq!(fund_id, 23);

    let history = vec![nav("2025-01-01", 10_000), nav("2025-01-05", 10_500)];
    let q = service.record_fund_quote("VESAF", &history).unwrap();
    assert_eq!(q.date, Date { year: 2025, month: 1, day: 5 });
    assert_eq!(q.nav, Some(Decimal::from(10_500u64)));
    // A fund quote has open = high = low = close = nav and zero volume.
    assert_eq!(q.open, Decimal::from(10_500u64));
    assert_eq!(q.high, q.open);
    assert_eq!(q.low, q.open);
    assert_eq!(q.close, q.open);
    assert_eq!(q.volume, Decimal::from(0u64));

    // And the quote is now cached under (symbol, Fund).
    match service.get_latest_quote("VESAF") {
        QuoteDecision::Cached(cached) => assert_eq!(cached.date, q.date),
        other => panic!("expected a cache hit, got {:?}", decision_name(&other)),
    }
}

#[test]
fn fund_quote_on_empty_history_is_nodata() {
    let mut service = VnMarketService::new();
    match service.record_fund_quote("VESAF", &vec![]) {
        Err(VnMarketError::NoData { symbol, date }) => {
            assert_eq!(symbol, "VESAF");
            assert_eq!(date, "latest");
        }
        _ => panic!("expected NoData"),
    }
}

#[test]
fn fund_quote_with_unparseable_latest_date_falls_back_to_today() {
    let mut service = VnMarketService::new();
    let q = service
        .record_fund_quote("VESAF", &vec![nav("bad-date", 9_000)])
        .unwrap();
    assert_eq!(q.nav, Some(Decimal::from(9_000u64)));
    assert!((1..=12).contains(&q.date.month));
    assert!((1..=31).contains(&q.date.day));
}

#[test]
fn unresolvable_fund_symbol_fails_with_fund_not_found() {
    let mut service = VnMarketService::new();
    service.refresh_fund_cache(&vec![fund(1, "KNOWN", None, "Known fund")]);
    // Make the symbol classify as Fund, then empty the registry of it.
    service.refresh_fund_cache(&vec![fund(2, "OTHER", None, "Other fund")]);
    match service.get_latest_quote("OTHER") {
        QuoteDecision::FetchFund(id) => assert_eq!(id, 2),
        other => panic!("expected a fund fetch, got {:?}", decision_name(&other)),
    }
    assert_eq!(
        service.resolve_fund_id("KNOWN"),
        Err(VnMarketError::FundNotFound("KNOWN".to_string()))
    );
}

#[test]
fn history_dispatch_follows_classification() {
    let mut service = VnMarketService::new();
    service.refresh_fund_cache(&vec![fund(7, "VESAF", None, "VinaCapital VESAF")]);
    assert!(matches!(service.get_history("VNM"), HistoryDecision::FetchStockHistory));
    assert!(matches!(service.get_history("VNINDEX"), HistoryDecision::FetchStockHistory));
    assert!(matches!(service.get_history("VESAF"), HistoryDecision::FetchFundHistory(7)));
    assert!(matches!(service.get_history("SJC"), HistoryDecision::FetchGoldHistory));
}

#[test]
fn fund_history_drops_rows_whose_date_does_not_parse() {
    let history = vec![
        nav("2025-01-01", 10_000),
        nav("bad-date", 10_200),
        nav("2025-01-03", 10_400),
    ];
    let rows = fund_history_from_fetch("VESAF", &history);
    assert_eq!(rows.len(), 2);
    assert_eq!(rows[0].date, Date { year: 2025, month: 1, day: 1 });
    assert_eq!(rows[1].date, Date { year: 2025, month: 1, day: 3 });
    assert!(rows[0].date.le(&rows[1].date));
    assert_eq!(rows[0].nav, Some(Decimal::from(10_000u64)));
    assert_eq!(rows[1].nav, Some(Decimal::from(10_400u64)));
    assert_eq!(rows[0].symbol, "VESAF");
}

#[test]
fn gold_quote_carries_the_published_pair_and_closes_at_sell() {
    let mut service = VnMarketService::new();
    let q = service.record_gold_quote(RawGoldQuote {
        symbol: "VN.GOLD".to_string(),
        date: Date { year: 2025, month: 4, day: 1 },
        buy_price: Decimal::from(78_000_000u64),
        sell_price: Decimal::from(80_000_000u64),
    });
    // A gold quote has open = high = low = close = sell price.
    assert_eq!(q.open, Decimal::from(80_000_000u64));
    assert_eq!(q.high, q.open);
    assert_eq!(q.low, q.open);
    assert_eq!(q.close, q.open);
    assert_eq!(q.buy_price, Some(Decimal::from(78_000_000u64)));
    assert_eq!(q.sell_price, Some(Decimal::from(80_000_000u64)));
    assert_eq!(q.volume, Decimal::from(0u64));
    assert_eq!(q.nav, None);

    match service.get_latest_quote("VN.GOLD") {
        QuoteDecision::Cached(cached) => assert_eq!(cached.close, q.close),
        other => panic!("expected a cache hit, got {:?}", decision_name(&other)),
    }
}

#[test]
fn gold_history_maps_each_row() {
    let rows = gold_history_from_fetch(
        "VN.GOLD",
        &vec![
            RawGoldRecord {
                date: Date { year: 2025, month: 3, day: 1 },
                buy_price: Decimal::from(77u64),
                sell_price: Decimal::from(79u64),
            },
            RawGoldRecord {
                date: Date { year: 2025, month: 3, day: 2 },
                buy_price: Decimal::from(78u64),
                sell_price: Decimal::from(80u64),
            },
        ],
    );
    assert_eq!(rows.len(), 2);
    assert_eq!(rows[0].close, Decimal::from(79u64));
    assert_eq!(rows[1].buy_price, Some(Decimal::from(78u64)));
    assert_eq!(rows[1].symbol, "VN.GOLD");
    assert_eq!(rows[1].asset_type, VnAssetType::Gold);
}

#[test]
fn stock_history_maps_each_row() {
    let rows = stock_history_from_fetch(&vec![RawStockQuote {
        symbol: "FPT".to_string(),
        date: Date { year: 2025, month: 2, day: 3 },
        open: Decimal::from(120u64),
        high: Decimal::from(125u64),
        low: Decimal::from(119u64),
        close: Decimal::from(124u64),
        volume: 9_999,
    }]);
    assert_eq!(rows.len(), 1);
    assert_eq!(rows[0].volume, Decimal::from(9_999u64));
    assert_eq!(rows[0].currency, "VND");
    assert_eq!(rows[0].date, Date { year: 2025, month: 2, day: 3 });
}
