//! Market reference-data rows as they are cached in relational storage.
//!
//! The storage layer owns persistence; these are the plain row values it
//! reads and writes, with timestamps as unix seconds.

use vstd::prelude::*;

verus! {

/// An asset row from the reference-data cache table.
#[derive(Clone, Debug)]
pub struct VnAsset {
    pub id: Option<String>,
    pub symbol: String,
    pub name: String,
    pub asset_type: String,
    pub exchange: String,
    pub currency: String,
    pub created_at: i64,
    pub updated_at: i64,
}

/// A new asset row to be inserted.
#[derive(Clone, Debug)]
pub struct NewVnAsset {
    pub id: String,
    pub symbol: String,
    pub name: String,
    pub asset_type: String,
    pub exchange: String,
    pub currency: String,
}

/// Relies on chrono's `Utc::now().timestamp_millis` and `format!`: a fresh
/// row id `<symbol>-<millis>`. The prefix is fixed; the digits depend on the
/// clock, so nothing more is claimed of them.
#[verifier::external_body]
fn fresh_asset_id(symbol: &str) -> (r: String)
    ensures
        r@.len() > symbol@.len(),
        r@.subrange(0, symbol@.len() as int) == symbol@,
{
    format!("{}-{}", symbol, chrono::Utc::now().timestamp_millis())
}

impl NewVnAsset {
    /// A new row in the fixed local currency, under a fresh clock-derived id
    /// that starts with the symbol itself.
    pub fn new(symbol: String, name: String, asset_type: String, exchange: String) -> (r:
        NewVnAsset)
        ensures
            r.symbol@ == symbol@,
            r.name@ == name@,
            r.asset_type@ == asset_type@,
            r.exchange@ == exchange@,
            r.currency@ == "VND"@,
            r.id@.len() > symbol@.len(),
            r.id@.subrange(0, symbol@.len() as int) == symbol@,
    {
        let id = fresh_asset_id(symbol.as_str());
        NewVnAsset { id, symbol, name, asset_type, exchange, currency: String::from_str("VND") }
    }
}

} // verus!
