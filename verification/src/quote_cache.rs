//! Short-term quote cache keyed by (symbol, asset type).
//!
//! The key includes the asset type because a ticker's classification can
//! change as the fund registry evolves; a quote cached under a stale
//! classification must not be served. Entries live until overwritten or the
//! process ends: expiry is left to the embedding service, which refreshes by
//! simply writing a newer quote over the old one.

use crate::records::{CachedQuote, QuoteData, VnAssetType};
use vstd::prelude::*;

verus! {

/// The cache entry `q` is stored under `(sym, ty)`.
pub open spec fn key_matches(q: QuoteData, sym: Seq<char>, ty: VnAssetType) -> bool {
    q.symbol == sym && q.asset_type == ty
}

pub open spec fn deep_quotes(s: Seq<CachedQuote>) -> Seq<QuoteData> {
    s.map_values(|q: CachedQuote| q@)
}

/// No two entries share a key.
pub open spec fn unique_keys(s: Seq<QuoteData>) -> bool {
    forall|j1: int, j2: int|
        0 <= j1 < j2 < s.len() ==> !(s[j1].symbol == s[j2].symbol && s[j1].asset_type
            == s[j2].asset_type)
}

/// The entry stored under `(sym, ty)`, if any.
pub open spec fn spec_cache_lookup(
    s: Seq<QuoteData>,
    sym: Seq<char>,
    ty: VnAssetType,
) -> Option<QuoteData> {
    if exists|j: int| 0 <= j < s.len() && key_matches(s[j], sym, ty) {
        Some(s[choose|j: int| 0 <= j < s.len() && key_matches(s[j], sym, ty)])
    } else {
        None
    }
}

pub proof fn lemma_lookup_at(s: Seq<QuoteData>, sym: Seq<char>, ty: VnAssetType, j: int)
    requires
        unique_keys(s),
        0 <= j < s.len(),
        key_matches(s[j], sym, ty),
    ensures
        spec_cache_lookup(s, sym, ty) == Some(s[j]),
{
    assert(exists|k: int| 0 <= k < s.len() && key_matches(s[k], sym, ty));
    let k = choose|k: int| 0 <= k < s.len() && key_matches(s[k], sym, ty);
    assert(k == j);
}

pub proof fn lemma_lookup_none(s: Seq<QuoteData>, sym: Seq<char>, ty: VnAssetType)
    requires
        forall|j: int| 0 <= j < s.len() ==> !key_matches(s[j], sym, ty),
    ensures
        spec_cache_lookup(s, sym, ty) is None,
{
}

/// In-memory quote store, at most one entry per (symbol, asset type).
pub struct VnQuoteCache {
    entries: Vec<CachedQuote>,
}

impl VnQuoteCache {
    /// At most one entry per key, so a lookup is unambiguous.
    pub closed spec fn wf(self) -> bool {
        unique_keys(deep_quotes(self.entries@))
    }

    /// The entry stored under `(sym, ty)`, if any.
    pub closed spec fn lookup(self, sym: Seq<char>, ty: VnAssetType) -> Option<QuoteData> {
        spec_cache_lookup(deep_quotes(self.entries@), sym, ty)
    }

    /// An empty cache.
    pub fn new() -> (r: VnQuoteCache)
        ensures
            r.wf(),
            forall|sym: Seq<char>, ty: VnAssetType| r.lookup(sym, ty) is None,
    {
        let r = VnQuoteCache { entries: Vec::new() };
        proof {
            assert forall|sym: Seq<char>, ty: VnAssetType| r.lookup(sym, ty) is None by {
                lemma_lookup_none(deep_quotes(r.entries@), sym, ty);
            }
        }
        r
    }

    /// The quote cached under `(symbol, asset_type)`, if any.
    pub fn get(&self, symbol: &str, asset_type: VnAssetType) -> (r: Option<CachedQuote>)
        requires
            self.wf(),
        ensures
            match r {
                Some(q) => self.lookup(symbol@, asset_type) == Some(q@),
                None => self.lookup(symbol@, asset_type) is None,
            },
    {
        let ghost all = deep_quotes(self.entries@);
        let mut i: usize = 0;
        while i < self.entries.len()
            invariant
                i <= self.entries@.len(),
                all == deep_quotes(self.entries@),
                unique_keys(all),
                forall|j: int| 0 <= j < i ==> !key_matches(all[j], symbol@, asset_type),
            decreases self.entries@.len() - i,
        {
            let e = &self.entries[i];
            proof {
                assert(all[i as int] == self.entries@[i as int]@);
            }
            if crate::strutil::str_eq(e.symbol.as_str(), symbol) && e.asset_type == asset_type {
                proof {
                    lemma_lookup_at(all, symbol@, asset_type, i as int);
                }
                return Some(e.duplicate());
            }
            i += 1;
        }
        proof {
            lemma_lookup_none(all, symbol@, asset_type);
        }
        None
    }

    /// Store `q` under its own (symbol, asset type), replacing any previous
    /// entry under that key and touching no other key.
    pub fn set(&mut self, q: CachedQuote)
        requires
            old(self).wf(),
        ensures
            final(self).wf(),
            final(self).lookup(q@.symbol, q@.asset_type) == Some(q@),
            forall|sym: Seq<char>, ty: VnAssetType|
                !(sym == q@.symbol && ty == q@.asset_type) ==> final(self).lookup(sym, ty) == old(
                    self,
                ).lookup(sym, ty),
    {
        let ghost pre = deep_quotes(self.entries@);
        let ghost qd = q@;
        let mut i: usize = 0;
        while i < self.entries.len()
            invariant
                i <= self.entries@.len(),
                pre == deep_quotes(self.entries@),
                pre == deep_quotes(old(self).entries@),
                unique_keys(pre),
                qd == q@,
                forall|j: int| 0 <= j < i ==> !key_matches(pre[j], qd.symbol, qd.asset_type),
            decreases self.entries@.len() - i,
        {
            let same_key = {
                let e = &self.entries[i];
                proof {
                    assert(pre[i as int] == self.entries@[i as int]@);
                }
                crate::strutil::str_eq(e.symbol.as_str(), q.symbol.as_str()) && e.asset_type
                    == q.asset_type
            };
            if same_key {
                self.entries.set(i, q);
                proof {
                    let post = deep_quotes(self.entries@);
                    assert(post =~= pre.update(i as int, qd));
                    Self::lemma_set_effect(pre, post, qd, i as int);
                    assert forall|sym: Seq<char>, ty: VnAssetType|
                        !(sym == qd.symbol && ty == qd.asset_type) implies self.lookup(sym, ty)
                        == spec_cache_lookup(pre, sym, ty) by {
                        assert(spec_cache_lookup(post, sym, ty) == spec_cache_lookup(
                            pre,
                            sym,
                            ty,
                        ));
                    }
                }
                return ;
            }
            i += 1;
        }
        let ghost n = self.entries@.len() as int;
        self.entries.push(q);
        proof {
            let post = deep_quotes(self.entries@);
            assert(post =~= pre.push(qd));
            Self::lemma_push_effect(pre, post, qd, n);
            assert forall|sym: Seq<char>, ty: VnAssetType|
                !(sym == qd.symbol && ty == qd.asset_type) implies self.lookup(sym, ty)
                == spec_cache_lookup(pre, sym, ty) by {
                assert(spec_cache_lookup(post, sym, ty) == spec_cache_lookup(pre, sym, ty));
            }
        }
    }

    proof fn lemma_set_effect(pre: Seq<QuoteData>, post: Seq<QuoteData>, qd: QuoteData, i: int)
        requires
            unique_keys(pre),
            0 <= i < pre.len(),
            key_matches(pre[i], qd.symbol, qd.asset_type),
            post == pre.update(i, qd),
        ensures
            unique_keys(post),
            spec_cache_lookup(post, qd.symbol, qd.asset_type) == Some(qd),
            forall|sym: Seq<char>, ty: VnAssetType|
                !(sym == qd.symbol && ty == qd.asset_type) ==> spec_cache_lookup(post, sym, ty)
                    == spec_cache_lookup(pre, sym, ty),
    {
        assert(unique_keys(post));
        lemma_lookup_at(post, qd.symbol, qd.asset_type, i);
        assert forall|sym: Seq<char>, ty: VnAssetType|
            !(sym == qd.symbol && ty == qd.asset_type) implies spec_cache_lookup(post, sym, ty)
            == spec_cache_lookup(pre, sym, ty) by {
            if exists|j: int| 0 <= j < pre.len() && key_matches(pre[j], sym, ty) {
                let j = choose|j: int| 0 <= j < pre.len() && key_matches(pre[j], sym, ty);
                assert(j != i);
                assert(key_matches(post[j], sym, ty));
                lemma_lookup_at(pre, sym, ty, j);
                lemma_lookup_at(post, sym, ty, j);
            } else {
                assert(forall|j: int| 0 <= j < post.len() ==> !key_matches(post[j], sym, ty));
                lemma_lookup_none(pre, sym, ty);
                lemma_lookup_none(post, sym, ty);
            }
        }
    }

    proof fn lemma_push_effect(pre: Seq<QuoteData>, post: Seq<QuoteData>, qd: QuoteData, n: int)
        requires
            unique_keys(pre),
            n == pre.len(),
            forall|j: int| 0 <= j < pre.len() ==> !key_matches(pre[j], qd.symbol, qd.asset_type),
            post == pre.push(qd),
        ensures
            unique_keys(post),
            spec_cache_lookup(post, qd.symbol, qd.asset_type) == Some(qd),
            forall|sym: Seq<char>, ty: VnAssetType|
                !(sym == qd.symbol && ty == qd.asset_type) ==> spec_cache_lookup(post, sym, ty)
                    == spec_cache_lookup(pre, sym, ty),
    {
        assert(unique_keys(post));
        lemma_lookup_at(post, qd.symbol, qd.asset_type, n);
        assert forall|sym: Seq<char>, ty: VnAssetType|
            !(sym == qd.symbol && ty == qd.asset_type) implies spec_cache_lookup(post, sym, ty)
            == spec_cache_lookup(pre, sym, ty) by {
            if exists|j: int| 0 <= j < pre.len() && key_matches(pre[j], sym, ty) {
                let j = choose|j: int| 0 <= j < pre.len() && key_matches(pre[j], sym, ty);
                assert(key_matches(post[j], sym, ty));
                lemma_lookup_at(pre, sym, ty, j);
                lemma_lookup_at(post, sym, ty, j);
            } else {
                assert(forall|j: int| 0 <= j < post.len() ==> !key_matches(post[j], sym, ty));
                lemma_lookup_none(pre, sym, ty);
                lemma_lookup_none(post, sym, ty);
            }
        }
    }
}

} // verus!
