//! Dependency bootstrapping: staging the runtime bundle and standard
//! library a toolchain tag requires.
//!
//! Bootstrapping is global, not per-tag: only the most recently bootstrapped
//! tag's dependencies are staged.  The steps, each planned here and carried
//! out by the shell: cache the tag's source tree if absent; read the
//! runtime version from the source tree's manifest (falling back to a fixed
//! default); cache the runtime bundle for that version if absent; then
//! replace the global staging directories with fresh copies of the cached
//! runtime and of the source tree's library subtree (warning and leaving
//! the prior staged library untouched when the subtree is missing).

use vstd::prelude::*;
use vstd::string::*;
use crate::cache::{CacheState, SpecCacheState};
use crate::errors::ToolError;
use crate::paths::{source_cache_dir, runtime_cache_dir, staged_runtime_dir, staged_std_dir,
    std_source_dir, DirLayout, SpecDirLayout};
use crate::paths::{spec_runtime_cache_dir, spec_source_cache_dir, spec_staged_runtime_dir,
    spec_staged_std_dir, spec_std_source_dir};
use crate::platform::{runtime_asset_name, spec_runtime_asset_name};
use crate::urls::{runtime_download_url, source_archive_url, spec_runtime_download_url,
    spec_source_archive_url};

verus! {

/// The planned step for the tag's source tree.
#[derive(Debug, PartialEq, Eq)]
pub enum SourcePlan {
    /// The tree is cached: no download.
    Cached,
    /// Download the archive at `url`, extract it, and move its single
    /// top-level directory to `dest`.
    Fetch { url: String, dest: String },
}

/// The mathematical image of a `SourcePlan`.
pub enum SpecSourcePlan {
    Cached,
    Fetch { url: Seq<char>, dest: Seq<char> },
}

impl View for SourcePlan {
    type V = SpecSourcePlan;

    open spec fn view(&self) -> SpecSourcePlan {
        match *self {
            SourcePlan::Cached => SpecSourcePlan::Cached,
            SourcePlan::Fetch { ref url, ref dest } => SpecSourcePlan::Fetch {
                url: url@,
                dest: dest@,
            },
        }
    }
}

/// What caching the source tree for `tag` does: nothing when it is already
/// mirrored, else a download of the tag's archive into its cache directory.
pub open spec fn spec_plan_source(
    l: SpecDirLayout,
    tag: Seq<char>,
    cache: SpecCacheState,
) -> SpecSourcePlan {
    if cache.source_tags.contains(tag) {
        SpecSourcePlan::Cached
    } else {
        SpecSourcePlan::Fetch {
            url: spec_source_archive_url(tag),
            dest: spec_source_cache_dir(l, tag),
        }
    }
}

/// Plans the source-tree step of bootstrapping `tag` against the observed
/// cache.
pub fn plan_source(l: &DirLayout, tag: &str, cache: &CacheState) -> (r: SourcePlan)
    ensures
        r@ == spec_plan_source(l@, tag@, cache@),
{
    if cache.source_cached(tag) {
        SourcePlan::Cached
    } else {
        SourcePlan::Fetch { url: source_archive_url(tag), dest: source_cache_dir(l, tag) }
    }
}

/// The planned step for the runtime bundle.
#[derive(Debug, PartialEq, Eq)]
pub enum RuntimePlan {
    /// The bundle is cached: no download.
    Cached,
    /// Download the archive at `url`, extract it, and move the single
    /// conventional top-level directory to `dest`.
    Fetch { url: String, dest: String },
}

/// The mathematical image of a `RuntimePlan`.
pub enum SpecRuntimePlan {
    Cached,
    Fetch { url: Seq<char>, dest: Seq<char> },
}

impl View for RuntimePlan {
    type V = SpecRuntimePlan;

    open spec fn view(&self) -> SpecRuntimePlan {
        match *self {
            RuntimePlan::Cached => SpecRuntimePlan::Cached,
            RuntimePlan::Fetch { ref url, ref dest } => SpecRuntimePlan::Fetch {
                url: url@,
                dest: dest@,
            },
        }
    }
}

/// What caching the runtime bundle for `version` does: nothing when the
/// version is already mirrored (the platform is not even consulted), else a
/// platform-specific download — which fails closed off the platform table.
pub open spec fn spec_plan_runtime(
    l: SpecDirLayout,
    version: Seq<char>,
    os: Seq<char>,
    arch: Seq<char>,
    cache: SpecCacheState,
) -> Result<SpecRuntimePlan, ToolError> {
    if cache.runtime_versions.contains(version) {
        Ok(SpecRuntimePlan::Cached)
    } else {
        match spec_runtime_asset_name(version, os, arch) {
            Some(name) => Ok(
                SpecRuntimePlan::Fetch {
                    url: spec_runtime_download_url(name),
                    dest: spec_runtime_cache_dir(l, version),
                },
            ),
            None => Err(ToolError::UnsupportedPlatform),
        }
    }
}

/// Plans the runtime-bundle step of bootstrapping against the observed
/// cache, for the platform `(os, arch)`.
pub fn plan_runtime(l: &DirLayout, version: &str, os: &str, arch: &str, cache: &CacheState) -> (r:
    Result<RuntimePlan, ToolError>)
    ensures
        match r {
            Ok(p) => spec_plan_runtime(l@, version@, os@, arch@, cache@) == Ok::<
                SpecRuntimePlan,
                ToolError,
            >(p@),
            Err(e) => spec_plan_runtime(l@, version@, os@, arch@, cache@) == Err::<
                SpecRuntimePlan,
                ToolError,
            >(e),
        },
{
    if cache.runtime_cached(version) {
        return Ok(RuntimePlan::Cached);
    }
    match runtime_asset_name(version, os, arch) {
        Ok(name) => Ok(
            RuntimePlan::Fetch {
                url: runtime_download_url(name.as_str()),
                dest: runtime_cache_dir(l, version),
            },
        ),
        Err(e) => Err(e),
    }
}

/// The planned step for the staged standard library.
#[derive(Debug, PartialEq, Eq)]
pub enum LibraryPlan {
    /// Remove the staged library and copy the source tree's subtree there.
    Replace { from: String, to: String },
    /// The source tree has no library subtree: warn and leave any prior
    /// staged library untouched.
    MissingWarn,
}

/// The mathematical image of a `LibraryPlan`.
pub enum SpecLibraryPlan {
    Replace { from: Seq<char>, to: Seq<char> },
    MissingWarn,
}

impl View for LibraryPlan {
    type V = SpecLibraryPlan;

    open spec fn view(&self) -> SpecLibraryPlan {
        match *self {
            LibraryPlan::Replace { ref from, ref to } => SpecLibraryPlan::Replace {
                from: from@,
                to: to@,
            },
            LibraryPlan::MissingWarn => SpecLibraryPlan::MissingWarn,
        }
    }
}

/// The planned staging step: replace the staged runtime with a fresh copy
/// of the cached bundle, and handle the library subtree.
#[derive(Debug, PartialEq, Eq)]
pub struct StagingPlan {
    pub runtime_from: String,
    pub runtime_to: String,
    pub library: LibraryPlan,
}

/// The mathematical image of a `StagingPlan`.
pub struct SpecStagingPlan {
    pub runtime_from: Seq<char>,
    pub runtime_to: Seq<char>,
    pub library: SpecLibraryPlan,
}

impl View for StagingPlan {
    type V = SpecStagingPlan;

    open spec fn view(&self) -> SpecStagingPlan {
        SpecStagingPlan {
            runtime_from: self.runtime_from@,
            runtime_to: self.runtime_to@,
            library: self.library@,
        }
    }
}

/// What the staging step does for `tag` and `version`: the staged runtime
/// is always replaced from the cache; the staged library is replaced from
/// the source tree exactly when the tree has a library subtree.
pub open spec fn spec_plan_staging(
    l: SpecDirLayout,
    tag: Seq<char>,
    version: Seq<char>,
    library_present: bool,
) -> SpecStagingPlan {
    SpecStagingPlan {
        runtime_from: spec_runtime_cache_dir(l, version),
        runtime_to: spec_staged_runtime_dir(l),
        library: if library_present {
            SpecLibraryPlan::Replace {
                from: spec_std_source_dir(l, tag),
                to: spec_staged_std_dir(l),
            }
        } else {
            SpecLibraryPlan::MissingWarn
        },
    }
}

/// Plans the staging step; `library_present` is the shell's observation of
/// whether the cached source tree for `tag` has a library subtree.
pub fn plan_staging(l: &DirLayout, tag: &str, version: &str, library_present: bool) -> (r:
    StagingPlan)
    ensures
        r@ == spec_plan_staging(l@, tag@, version@, library_present),
{
    StagingPlan {
        runtime_from: runtime_cache_dir(l, version),
        runtime_to: staged_runtime_dir(l),
        library: if library_present {
            LibraryPlan::Replace { from: std_source_dir(l, tag), to: staged_std_dir(l) }
        } else {
            LibraryPlan::MissingWarn
        },
    }
}

/// Cache reuse: once one bootstrap has cached a runtime version — whatever
/// tag asked for it — a later bootstrap of any tag whose manifest names the
/// same version plans no runtime download, so two bootstraps sharing a
/// runtime version download the bundle exactly once.
pub proof fn lemma_runtime_cache_reuse(
    l: SpecDirLayout,
    version: Seq<char>,
    os: Seq<char>,
    arch: Seq<char>,
    cache: SpecCacheState,
)
    ensures
        spec_plan_runtime(
            l,
            version,
            os,
            arch,
            SpecCacheState {
                runtime_versions: cache.runtime_versions.push(version),
                ..cache
            },
        ) == Ok::<SpecRuntimePlan, ToolError>(SpecRuntimePlan::Cached),
{
    assert(cache.runtime_versions.push(version)[cache.runtime_versions.len() as int] == version);
}

/// The same reuse holds for source trees: once a tag's source tree is
/// cached, bootstrapping that tag again plans no source download.
pub proof fn lemma_source_cache_reuse(l: SpecDirLayout, tag: Seq<char>, cache: SpecCacheState)
    ensures
        spec_plan_source(
            l,
            tag,
            SpecCacheState { source_tags: cache.source_tags.push(tag), ..cache },
        ) == SpecSourcePlan::Cached,
{
    assert(cache.source_tags.push(tag)[cache.source_tags.len() as int] == tag);
}

} // verus!
