use vstd::prelude::*;

verus! {

/// Why a resolution or a launch failed. Each variant carries what the host
/// needs to describe the failure.
#[derive(Debug)]
pub enum ResolveError {
    /// The language server identifier is not one this extension serves.
    UnknownTool,
    /// The release registry could not be reached or had no qualifying release.
    Release(String),
    /// No asset of the release has the expected name, which is carried.
    AssetNotFound(String),
    /// Downloading or unpacking the asset failed.
    Download(String),
    /// The working directory could not be listed.
    ListDir(String),
    /// The binary could not be made executable.
    Permission(String),
}

impl ResolveError {
    /// A description of the failure for the host to show.
    pub fn message(&self) -> (r: String)
        ensures
            self matches ResolveError::UnknownTool ==> r@ == "Unknown language server"@,
            self matches ResolveError::Release(e) ==> r@ == e@,
            self matches ResolveError::AssetNotFound(n) ==> r@ == "no asset found matching "@
                + n@,
            self matches ResolveError::Download(e) ==> r@ == "failed to download file: "@ + e@,
            self matches ResolveError::ListDir(e) ==> r@ == "failed to list working directory "@
                + e@,
            self matches ResolveError::Permission(e) ==> r@ == e@,
    {
        match self {
            ResolveError::UnknownTool => String::from_str("Unknown language server"),
            ResolveError::Release(e) => e.clone(),
            ResolveError::AssetNotFound(n) => {
                let mut r = String::from_str("no asset found matching ");
                r.append(n.as_str());
                r
            },
            ResolveError::Download(e) => {
                let mut r = String::from_str("failed to download file: ");
                r.append(e.as_str());
                r
            },
            ResolveError::ListDir(e) => {
                let mut r = String::from_str("failed to list working directory ");
                r.append(e.as_str());
                r
            },
            ResolveError::Permission(e) => e.clone(),
        }
    }
}

} // verus!
