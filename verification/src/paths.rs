//! The filesystem layout of the manager, derived from three base
//! directories.
//!
//! Every path any component touches is a pure function of a `DirLayout` (and
//! a tag or runtime version), so the layout is decided in one place and the
//! unverified shell only materializes directories it is handed.  Paths are
//! joined with `/`, which every supported platform accepts as a separator.

use vstd::prelude::*;
use vstd::string::*;

verus! {

/// The three resolved base directories every path is derived from: the data
/// directory (toolchain store and caches), the executable directory (the
/// active link), and the global dependency-staging directory.
pub struct DirLayout {
    pub data_dir: String,
    pub bin_dir: String,
    pub duck_dir: String,
}

/// The mathematical image of a `DirLayout`.
pub struct SpecDirLayout {
    pub data_dir: Seq<char>,
    pub bin_dir: Seq<char>,
    pub duck_dir: Seq<char>,
}

impl View for DirLayout {
    type V = SpecDirLayout;

    open spec fn view(&self) -> SpecDirLayout {
        SpecDirLayout {
            data_dir: self.data_dir@,
            bin_dir: self.bin_dir@,
            duck_dir: self.duck_dir@,
        }
    }
}

/// The data directory: an explicit override if set, else the platform
/// convention (`{local data}/duck-compiler/duckup` on windows,
/// `{home}/.local/share/duckup` elsewhere).
pub open spec fn spec_data_dir(
    home: Seq<char>,
    data_local: Seq<char>,
    override_dir: Option<Seq<char>>,
    windows: bool,
) -> Seq<char> {
    match override_dir {
        Some(d) => d + "/duckup"@,
        None => if windows {
            data_local + "/duck-compiler/duckup"@
        } else {
            home + "/.local/share/duckup"@
        },
    }
}

/// The executable directory: an explicit override if set, else
/// `{data}/bin` on windows and `{home}/.local/bin` elsewhere.
pub open spec fn spec_bin_dir(
    home: Seq<char>,
    data_dir: Seq<char>,
    override_dir: Option<Seq<char>>,
    windows: bool,
) -> Seq<char> {
    match override_dir {
        Some(d) => d,
        None => if windows {
            data_dir + "/bin"@
        } else {
            home + "/.local/bin"@
        },
    }
}

/// The global dependency-staging directory, `{home}/.duck`.
pub open spec fn spec_duck_dir(home: Seq<char>) -> Seq<char> {
    home + "/.duck"@
}

/// Resolves the full layout from the home directory, the platform's local
/// data directory, and the two optional environment overrides
/// (`XDG_DATA_HOME` and `XDG_BIN_HOME` in the shell).
pub fn resolve_layout(
    home: &str,
    data_local: &str,
    data_override: &Option<String>,
    bin_override: &Option<String>,
    windows: bool,
) -> (r: DirLayout)
    ensures
        r@.data_dir == spec_data_dir(
            home@,
            data_local@,
            match data_override {
                Some(d) => Some(d@),
                None => None,
            },
            windows,
        ),
        r@.bin_dir == spec_bin_dir(
            home@,
            r@.data_dir,
            match bin_override {
                Some(d) => Some(d@),
                None => None,
            },
            windows,
        ),
        r@.duck_dir == spec_duck_dir(home@),
{
    let data_dir: String = match data_override {
        Some(d) => d.clone().concat("/duckup"),
        None => if windows {
            data_local.to_owned().concat("/duck-compiler/duckup")
        } else {
            home.to_owned().concat("/.local/share/duckup")
        },
    };
    let bin_dir: String = match bin_override {
        Some(d) => d.clone(),
        None => if windows {
            data_dir.clone().concat("/bin")
        } else {
            home.to_owned().concat("/.local/bin")
        },
    };
    let duck_dir = home.to_owned().concat("/.duck");
    DirLayout { data_dir, bin_dir, duck_dir }
}

/// The toolchain store, one immutable subdirectory per installed tag.
pub open spec fn spec_toolchain_dir(l: SpecDirLayout) -> Seq<char> {
    l.data_dir + "/toolchains"@
}

/// Path of the toolchain store.
pub fn toolchain_dir(l: &DirLayout) -> (r: String)
    ensures
        r@ == spec_toolchain_dir(l@),
{
    l.data_dir.clone().concat("/toolchains")
}

/// The root of the bundle caches.
pub open spec fn spec_cache_dir(l: SpecDirLayout) -> Seq<char> {
    l.data_dir + "/cache"@
}

/// Path of the cache root.
pub fn cache_dir(l: &DirLayout) -> (r: String)
    ensures
        r@ == spec_cache_dir(l@),
{
    l.data_dir.clone().concat("/cache")
}

/// The root of the source-tree cache, one subdirectory per cached tag.
pub open spec fn spec_source_cache_root(l: SpecDirLayout) -> Seq<char> {
    l.data_dir + "/cache/source"@
}

/// Path of the source-tree cache root.
pub fn source_cache_root(l: &DirLayout) -> (r: String)
    ensures
        r@ == spec_source_cache_root(l@),
{
    l.data_dir.clone().concat("/cache/source")
}

/// The root of the runtime-bundle cache, one subdirectory per cached
/// runtime version.
pub open spec fn spec_runtime_cache_root(l: SpecDirLayout) -> Seq<char> {
    l.data_dir + "/cache/go"@
}

/// Path of the runtime-bundle cache root.
pub fn runtime_cache_root(l: &DirLayout) -> (r: String)
    ensures
        r@ == spec_runtime_cache_root(l@),
{
    l.data_dir.clone().concat("/cache/go")
}

/// The cached source tree for one tag.
pub open spec fn spec_source_cache_dir(l: SpecDirLayout, tag: Seq<char>) -> Seq<char> {
    l.data_dir + "/cache/source/"@ + tag
}

/// Path of the cached source tree for `tag`.
pub fn source_cache_dir(l: &DirLayout, tag: &str) -> (r: String)
    ensures
        r@ == spec_source_cache_dir(l@, tag@),
{
    l.data_dir.clone().concat("/cache/source/").concat(tag)
}

/// The cached runtime bundle for one runtime version.
pub open spec fn spec_runtime_cache_dir(l: SpecDirLayout, version: Seq<char>) -> Seq<char> {
    l.data_dir + "/cache/go/"@ + version
}

/// Path of the cached runtime bundle for `version`.
pub fn runtime_cache_dir(l: &DirLayout, version: &str) -> (r: String)
    ensures
        r@ == spec_runtime_cache_dir(l@, version@),
{
    l.data_dir.clone().concat("/cache/go/").concat(version)
}

/// The dependency manifest inside a cached source tree.
pub open spec fn spec_manifest_path(l: SpecDirLayout, tag: Seq<char>) -> Seq<char> {
    spec_source_cache_dir(l, tag) + "/duck-version-info.json"@
}

/// Path of the dependency manifest inside the cached source tree for `tag`.
pub fn manifest_path(l: &DirLayout, tag: &str) -> (r: String)
    ensures
        r@ == spec_manifest_path(l@, tag@),
{
    source_cache_dir(l, tag).concat("/duck-version-info.json")
}

/// The standard-library subtree inside a cached source tree.
pub open spec fn spec_std_source_dir(l: SpecDirLayout, tag: Seq<char>) -> Seq<char> {
    spec_source_cache_dir(l, tag) + "/std"@
}

/// Path of the standard-library subtree inside the cached source tree.
pub fn std_source_dir(l: &DirLayout, tag: &str) -> (r: String)
    ensures
        r@ == spec_std_source_dir(l@, tag@),
{
    source_cache_dir(l, tag).concat("/std")
}

/// The per-tag install directory in the toolchain store.
pub open spec fn spec_install_dir(l: SpecDirLayout, tag: Seq<char>) -> Seq<char> {
    l.data_dir + "/toolchains/"@ + tag
}

/// Path of the install directory for `tag`.
pub fn install_dir(l: &DirLayout, tag: &str) -> (r: String)
    ensures
        r@ == spec_install_dir(l@, tag@),
{
    l.data_dir.clone().concat("/toolchains/").concat(tag)
}

/// The installed compiler binary for one tag.
pub open spec fn spec_binary_path(l: SpecDirLayout, tag: Seq<char>) -> Seq<char> {
    spec_install_dir(l, tag) + "/dargo"@
}

/// Path of the installed compiler binary for `tag`.
pub fn binary_path(l: &DirLayout, tag: &str) -> (r: String)
    ensures
        r@ == spec_binary_path(l@, tag@),
{
    install_dir(l, tag).concat("/dargo")
}

/// The active link in the executable directory.
pub open spec fn spec_link_path(l: SpecDirLayout) -> Seq<char> {
    l.bin_dir + "/dargo"@
}

/// Path of the active link.
pub fn link_path(l: &DirLayout) -> (r: String)
    ensures
        r@ == spec_link_path(l@),
{
    l.bin_dir.clone().concat("/dargo")
}

/// The staged runtime inside the global staging directory.
pub open spec fn spec_staged_runtime_dir(l: SpecDirLayout) -> Seq<char> {
    l.duck_dir + "/go-compiler"@
}

/// Path of the staged runtime directory.
pub fn staged_runtime_dir(l: &DirLayout) -> (r: String)
    ensures
        r@ == spec_staged_runtime_dir(l@),
{
    l.duck_dir.clone().concat("/go-compiler")
}

/// The staged standard library inside the global staging directory.
pub open spec fn spec_staged_std_dir(l: SpecDirLayout) -> Seq<char> {
    l.duck_dir + "/std"@
}

/// Path of the staged standard-library directory.
pub fn staged_std_dir(l: &DirLayout) -> (r: String)
    ensures
        r@ == spec_staged_std_dir(l@),
{
    l.duck_dir.clone().concat("/std")
}

} // verus!
