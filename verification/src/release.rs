//! Release metadata from the release host, and asset selection.

use vstd::prelude::*;
use vstd::string::*;
use crate::errors::ToolError;
use crate::text::str_eq;

verus! {

/// One downloadable asset of a release.
pub struct Asset {
    pub name: String,
    pub url: String,
}

/// The mathematical image of an `Asset`.
pub struct SpecAsset {
    pub name: Seq<char>,
    pub url: Seq<char>,
}

impl View for Asset {
    type V = SpecAsset;

    open spec fn view(&self) -> SpecAsset {
        SpecAsset { name: self.name@, url: self.url@ }
    }
}

/// One release: its canonical tag and its asset list.
pub struct Release {
    pub tag: String,
    pub assets: Vec<Asset>,
}

/// The mathematical image of a `Release`.
pub struct SpecRelease {
    pub tag: Seq<char>,
    pub assets: Seq<SpecAsset>,
}

impl View for Release {
    type V = SpecRelease;

    open spec fn view(&self) -> SpecRelease {
        SpecRelease { tag: self.tag@, assets: self.assets@.map_values(|a: Asset| a@) }
    }
}

/// Picks the download URL of the first asset whose name is exactly
/// `filename`; fails with `AssetNotFound` when the release has no asset of
/// that name.
pub fn select_asset(release: &Release, filename: &str) -> (r: Result<String, ToolError>)
    ensures
        (r is Ok) <==> (exists|i: int|
            0 <= i < release@.assets.len() && release@.assets[i].name == filename@),
        r matches Ok(u) ==> (exists|i: int|
            0 <= i < release@.assets.len() && release@.assets[i].name == filename@
                && u@ == release@.assets[i].url && (forall|j: int|
                0 <= j < i ==> release@.assets[j].name != filename@)),
        r matches Err(e) ==> e == ToolError::AssetNotFound,
{
    let n = release.assets.len();
    let mut idx: usize = 0;
    while idx < n
        invariant
            n == release@.assets.len(),
            idx <= n,
            release@.assets == release.assets@.map_values(|a: Asset| a@),
            forall|j: int| 0 <= j < idx ==> release@.assets[j].name != filename@,
        decreases n - idx,
    {
        let a = &release.assets[idx];
        if str_eq(a.name.as_str(), filename) {
            assert(release@.assets[idx as int].name == filename@);
            return Ok(a.url.clone());
        }
        assert(release@.assets[idx as int].name != filename@);
        idx += 1;
    }
    Err(ToolError::AssetNotFound)
}

} // verus!
