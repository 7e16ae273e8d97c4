//! Symbol classification.
//!
//! Precedence, first match wins: the gold-bullion naming pattern, then the
//! index patterns, then membership in the fund alias set, then Stock by
//! default. Gold and index are syntactically self-evident and checked before
//! the registry, so they are recognized even before the registry has ever
//! been populated.

use crate::records::VnAssetType;
use crate::strutil::{
    contains_sub,
    spec_contains,
    spec_starts_with,
    starts_with_sub,
    str_eq,
    upper_of,
    uppercase,
};
use vstd::prelude::*;

verus! {

/// The gold-bullion naming pattern, over the uppercased symbol.
pub open spec fn spec_is_gold(u: Seq<char>) -> bool {
    u == "GOLD"@ || u == "SJC"@ || spec_starts_with(u, "VN.GOLD"@)
}

/// A symbol names gold bullion: `GOLD`, the provider code `SJC`, or a
/// synthetic `VN.GOLD...` ticker, case-insensitively.
pub fn is_gold_symbol(symbol: &str) -> (r: bool)
    ensures
        r == spec_is_gold(upper_of(symbol@)),
{
    let u = uppercase(symbol);
    str_eq(u.as_str(), "GOLD") || str_eq(u.as_str(), "SJC") || starts_with_sub(
        u.as_str(),
        "VN.GOLD",
    )
}

/// The canonical ticker an explicit index alias maps to.
pub open spec fn spec_index_alias(u: Seq<char>) -> Option<Seq<char>> {
    if u == "VNINDEX"@ || u == "VN-INDEX"@ {
        Some("VNINDEX"@)
    } else if u == "HNXINDEX"@ || u == "HNX-INDEX"@ {
        Some("HNXINDEX"@)
    } else if u == "UPCOMINDEX"@ || u == "UPCOM-INDEX"@ {
        Some("UPCOMINDEX"@)
    } else {
        None
    }
}

/// Map an already-uppercased symbol through the explicit index alias table.
pub fn map_index_symbol(symbol_upper: &str) -> (r: Option<&'static str>)
    ensures
        match r {
            Some(c) => spec_index_alias(symbol_upper@) == Some(c@),
            None => spec_index_alias(symbol_upper@) is None,
        },
{
    if str_eq(symbol_upper, "VNINDEX") || str_eq(symbol_upper, "VN-INDEX") {
        Some("VNINDEX")
    } else if str_eq(symbol_upper, "HNXINDEX") || str_eq(symbol_upper, "HNX-INDEX") {
        Some("HNXINDEX")
    } else if str_eq(symbol_upper, "UPCOMINDEX") || str_eq(symbol_upper, "UPCOM-INDEX") {
        Some("UPCOMINDEX")
    } else {
        None
    }
}

/// The index patterns, over the uppercased symbol: an explicit alias, the
/// index-family marker substring, or a literal basket ticker.
pub open spec fn spec_is_index(u: Seq<char>) -> bool {
    spec_index_alias(u) is Some || spec_contains(u, "INDEX"@) || u == "VN30"@ || u == "HNX30"@
}

/// An already-uppercased symbol names an index.
pub fn is_index_symbol(symbol_upper: &str) -> (r: bool)
    ensures
        r == spec_is_index(symbol_upper@),
{
    map_index_symbol(symbol_upper).is_some() || contains_sub(symbol_upper, "INDEX") || str_eq(
        symbol_upper,
        "VN30",
    ) || str_eq(symbol_upper, "HNX30")
}

/// Classification of an uppercased symbol against a fund alias set.
pub open spec fn spec_classify(u: Seq<char>, known: Seq<Seq<char>>) -> VnAssetType {
    if spec_is_gold(u) {
        VnAssetType::Gold
    } else if spec_is_index(u) {
        VnAssetType::Index
    } else if known.contains(u) {
        VnAssetType::Fund
    } else {
        VnAssetType::Stock
    }
}

/// Law: a symbol matching the gold pattern classifies as Gold whatever the
/// fund alias set holds — in particular also against the empty, never
/// refreshed registry.
pub proof fn lemma_gold_ignores_registry(
    u: Seq<char>,
    known1: Seq<Seq<char>>,
    known2: Seq<Seq<char>>,
)
    requires
        spec_is_gold(u),
    ensures
        spec_classify(u, known1) == VnAssetType::Gold,
        spec_classify(u, known1) == spec_classify(u, known2),
{
}

/// Law: a symbol in the fund alias set that matches neither the gold nor the
/// index pattern classifies as Fund; the same symbol against the empty,
/// never refreshed alias set classifies as Stock.
pub proof fn lemma_fund_only_after_refresh(u: Seq<char>, known: Seq<Seq<char>>)
    requires
        known.contains(u),
        !spec_is_gold(u),
        !spec_is_index(u),
    ensures
        spec_classify(u, known) == VnAssetType::Fund,
        spec_classify(u, Seq::<Seq<char>>::empty()) == VnAssetType::Stock,
{
    assert(!Seq::<Seq<char>>::empty().contains(u));
}

} // verus!
