//! The artifact cache: content-addressed by version tag, one directory per
//! key and kind.
//!
//! Two kinds of bundles are cached: extracted source trees (keyed by release
//! tag) and extracted runtime bundles (keyed by runtime version).  A key is
//! a hit exactly when its directory is present; entries are a permanent
//! local mirror with no invalidation.  The shell observes the cache by
//! listing the two directories and hands the keys in.

use vstd::prelude::*;
use crate::text::{vec_contains_str, views_of};

verus! {

/// The observed cache: the source tags and runtime versions with a cache
/// directory.
pub struct CacheState {
    pub source_tags: Vec<String>,
    pub runtime_versions: Vec<String>,
}

/// The mathematical image of a `CacheState`.
pub struct SpecCacheState {
    pub source_tags: Seq<Seq<char>>,
    pub runtime_versions: Seq<Seq<char>>,
}

impl View for CacheState {
    type V = SpecCacheState;

    open spec fn view(&self) -> SpecCacheState {
        SpecCacheState {
            source_tags: views_of(self.source_tags@),
            runtime_versions: views_of(self.runtime_versions@),
        }
    }
}

impl CacheState {
    /// An empty cache: nothing mirrored yet.
    pub fn new() -> (r: CacheState)
        ensures
            r@.source_tags == Seq::<Seq<char>>::empty(),
            r@.runtime_versions == Seq::<Seq<char>>::empty(),
    {
        let r = CacheState { source_tags: Vec::new(), runtime_versions: Vec::new() };
        assert(r@.source_tags =~= Seq::<Seq<char>>::empty());
        assert(r@.runtime_versions =~= Seq::<Seq<char>>::empty());
        r
    }

    /// Whether the source tree for `tag` is cached.
    pub fn source_cached(&self, tag: &str) -> (b: bool)
        ensures
            b == self@.source_tags.contains(tag@),
    {
        vec_contains_str(&self.source_tags, tag)
    }

    /// Whether the runtime bundle for `version` is cached.
    pub fn runtime_cached(&self, version: &str) -> (b: bool)
        ensures
            b == self@.runtime_versions.contains(version@),
    {
        vec_contains_str(&self.runtime_versions, version)
    }

    /// Records that the source tree for `tag` has been cached.
    pub fn record_source(&mut self, tag: String)
        ensures
            final(self)@.source_tags == old(self)@.source_tags.push(tag@),
            final(self)@.runtime_versions == old(self)@.runtime_versions,
    {
        let ghost t = tag@;
        self.source_tags.push(tag);
        assert(self@.source_tags =~= old(self)@.source_tags.push(t));
    }

    /// Records that the runtime bundle for `version` has been cached.
    pub fn record_runtime(&mut self, version: String)
        ensures
            final(self)@.runtime_versions == old(self)@.runtime_versions.push(version@),
            final(self)@.source_tags == old(self)@.source_tags,
    {
        let ghost v = version@;
        self.runtime_versions.push(version);
        assert(self@.runtime_versions =~= old(self)@.runtime_versions.push(v));
    }
}

/// A key just recorded in a cache list is a hit on the next probe.
pub proof fn lemma_recorded_key_hits(keys: Seq<Seq<char>>, key: Seq<char>)
    ensures
        keys.push(key).contains(key),
{
    assert(keys.push(key)[keys.len() as int] == key);
}

} // verus!
