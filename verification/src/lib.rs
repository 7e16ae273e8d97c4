//! Market-data aggregation and goal-allocation core.
//!
//! The crate unifies three upstream market-data sources (listed equities and
//! indices, open-end mutual funds, physical gold bullion) behind one
//! "latest quote / history / search" surface, with symbol classification,
//! a wholesale-refresh fund registry and a short-term quote cache, and holds
//! the date-range arithmetic behind goal allocations.

pub mod assets;
pub mod classify;
pub mod dates;
pub mod goals;
pub mod market;
pub mod money;
pub mod quote_cache;
pub mod records;
pub mod strutil;

pub use dates::Date;
