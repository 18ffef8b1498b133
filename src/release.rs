use vstd::prelude::*;
use crate::error::ResolveError;
use crate::platform::{asset_name_spec, Platform};

verus! {

/// One downloadable file attached to a release.
#[derive(Debug)]
pub struct Asset {
    pub name: String,
    pub download_url: String,
}

/// The latest release of the server: its version tag and its assets, in the
/// registry's order.
#[derive(Debug)]
pub struct ReleaseInfo {
    pub version: String,
    pub assets: Vec<Asset>,
}

/// Whether some asset in `assets` is named `name`.
pub open spec fn has_asset_named(assets: Seq<Asset>, name: Seq<char>) -> bool {
    exists|i: int| 0 <= i < assets.len() && (#[trigger] assets[i]).name@ == name
}

/// `i` is the first position in `assets` of an asset named `name`.
pub open spec fn is_first_named(assets: Seq<Asset>, name: Seq<char>, i: int) -> bool {
    &&& 0 <= i < assets.len()
    &&& assets[i].name@ == name
    &&& forall|j: int| 0 <= j < i ==> (#[trigger] assets[j]).name@ != name
}

impl Asset {
    pub fn new(name: String, download_url: String) -> (r: Asset)
        ensures
            r.name == name,
            r.download_url == download_url,
    {
        Asset { name, download_url }
    }

    /// A copy with the same name and URL.
    pub fn duplicate(&self) -> (r: Asset)
        ensures
            r == *self,
    {
        Asset { name: self.name.clone(), download_url: self.download_url.clone() }
    }
}

impl ReleaseInfo {
    pub fn new(version: String, assets: Vec<Asset>) -> (r: ReleaseInfo)
        ensures
            r.version == version,
            r.assets == assets,
    {
        ReleaseInfo { version, assets }
    }
}

/// The position of the first asset named `name`, if any.
pub fn find_asset(assets: &Vec<Asset>, name: &String) -> (r: Option<usize>)
    ensures
        r matches Some(i) ==> is_first_named(assets@, name@, i as int),
        r is None <==> !has_asset_named(assets@, name@),
{
    let mut i: usize = 0;
    while i < assets.len()
        invariant
            i <= assets.len(),
            forall|j: int| 0 <= j < i ==> (#[trigger] assets@[j]).name@ != name@,
        decreases assets.len() - i,
    {
        if assets[i].name == *name {
            return Some(i);
        }
        i = i + 1;
    }
    None
}

/// The asset of `release` that holds the server named `stem` for `platform`:
/// the first one named exactly `<stem>-<os>-<arch>.<ext>`. Without one the
/// error carries that expected name.
pub fn match_asset(release: &ReleaseInfo, platform: &Platform, stem: &str) -> (r: Result<
    Asset,
    ResolveError,
>)
    ensures
        r is Err <==> !has_asset_named(
            release.assets@,
            asset_name_spec(stem@, platform.os, platform.arch@),
        ),
        r matches Ok(a) ==> exists|i: int|
            is_first_named(
                release.assets@,
                asset_name_spec(stem@, platform.os, platform.arch@),
                i,
            ) && release.assets@[i] == a,
        r matches Err(e) ==> e matches ResolveError::AssetNotFound(n) && n@ == asset_name_spec(
            stem@,
            platform.os,
            platform.arch@,
        ),
{
    let expected = platform.asset_name(stem);
    match find_asset(&release.assets, &expected) {
        Some(i) => Ok(release.assets[i].duplicate()),
        None => Err(ResolveError::AssetNotFound(expected)),
    }
}

} // verus!
