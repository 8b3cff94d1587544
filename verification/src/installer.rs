//! Install planning: what a fresh install of a tag must fetch and where it
//! must land.
//!
//! A tag that already has an install directory is a no-op — its directory is
//! immutable and is never touched again.  Otherwise the plan names the
//! release-metadata URL to query, the asset the release must contain for
//! this platform, and the install directory and binary path to create.  The
//! shell carries the plan out: it queries, downloads, writes the binary and
//! sets its executable permission.

use vstd::prelude::*;
use vstd::string::*;
use crate::errors::ToolError;
use crate::paths::{binary_path, install_dir, DirLayout, SpecDirLayout};
use crate::paths::{spec_binary_path, spec_install_dir};
use crate::platform::{release_asset_name, spec_release_asset_name};
use crate::store::StoreState;
use crate::urls::{release_tag_url, spec_release_tag_url};

verus! {

/// The planned install action for one tag.
#[derive(Debug, PartialEq, Eq)]
pub enum InstallPlan {
    /// The tag already has an install directory: nothing to do, no network.
    AlreadyInstalled,
    /// Query `metadata_url`, find the asset named `asset_name`, create
    /// `install_dir` and write the downloaded binary to `binary_dest`.
    Fetch { metadata_url: String, asset_name: String, install_dir: String, binary_dest: String },
}

/// The mathematical image of an `InstallPlan`.
pub enum SpecInstallPlan {
    AlreadyInstalled,
    Fetch {
        metadata_url: Seq<char>,
        asset_name: Seq<char>,
        install_dir: Seq<char>,
        binary_dest: Seq<char>,
    },
}

impl View for InstallPlan {
    type V = SpecInstallPlan;

    open spec fn view(&self) -> SpecInstallPlan {
        match *self {
            InstallPlan::AlreadyInstalled => SpecInstallPlan::AlreadyInstalled,
            InstallPlan::Fetch { ref metadata_url, ref asset_name, ref install_dir, ref binary_dest } => SpecInstallPlan::Fetch {
                metadata_url: metadata_url@,
                asset_name: asset_name@,
                install_dir: install_dir@,
                binary_dest: binary_dest@,
            },
        }
    }
}

/// What installing `tag` does, given the platform and the set of installed
/// tags: nothing when the tag is installed, a fetch when the platform is
/// supported, and an `UnsupportedPlatform` failure otherwise.
pub open spec fn spec_plan_install(
    l: SpecDirLayout,
    tag: Seq<char>,
    os: Seq<char>,
    arch: Seq<char>,
    installed: Seq<Seq<char>>,
) -> Result<SpecInstallPlan, ToolError> {
    if installed.contains(tag) {
        Ok(SpecInstallPlan::AlreadyInstalled)
    } else {
        match spec_release_asset_name(os, arch) {
            Some(name) => Ok(
                SpecInstallPlan::Fetch {
                    metadata_url: spec_release_tag_url(tag),
                    asset_name: name,
                    install_dir: spec_install_dir(l, tag),
                    binary_dest: spec_binary_path(l, tag),
                },
            ),
            None => Err(ToolError::UnsupportedPlatform),
        }
    }
}

/// Plans the install of `tag` on the platform `(os, arch)` against the
/// observed store.
pub fn plan_install(l: &DirLayout, tag: &str, os: &str, arch: &str, store: &StoreState) -> (r:
    Result<InstallPlan, ToolError>)
    ensures
        match r {
            Ok(p) => spec_plan_install(l@, tag@, os@, arch@, store@) == Ok::<
                SpecInstallPlan,
                ToolError,
            >(p@),
            Err(e) => spec_plan_install(l@, tag@, os@, arch@, store@) == Err::<
                SpecInstallPlan,
                ToolError,
            >(e),
        },
{
    if store.is_installed(tag) {
        return Ok(InstallPlan::AlreadyInstalled);
    }
    let asset_name = match release_asset_name(os, arch) {
        Ok(name) => name,
        Err(e) => {
            return Err(e);
        },
    };
    Ok(
        InstallPlan::Fetch {
            metadata_url: release_tag_url(tag),
            asset_name,
            install_dir: install_dir(l, tag),
            binary_dest: binary_path(l, tag),
        },
    )
}

/// Install is idempotent: once a tag stands in the store — in particular
/// right after a first successful install recorded it — installing the same
/// tag again plans no fetch, so it performs no network traffic and leaves
/// the install directory untouched.
pub proof fn lemma_install_idempotent(
    l: SpecDirLayout,
    tag: Seq<char>,
    os: Seq<char>,
    arch: Seq<char>,
    installed: Seq<Seq<char>>,
)
    ensures
        spec_plan_install(l, tag, os, arch, installed.push(tag)) == Ok::<
            SpecInstallPlan,
            ToolError,
        >(SpecInstallPlan::AlreadyInstalled),
{
    assert(installed.push(tag)[installed.len() as int] == tag);
}

} // verus!
